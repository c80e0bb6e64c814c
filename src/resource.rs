use vstd::prelude::*;

use crate::error::VersionError;

verus! {

/// The length of the buffer to allocate for a version resource, given the
/// size that the system's size query reported: zero means that the file has
/// no version resource, or that the query failed.
pub fn version_buffer_len(size: u32) -> (r: Result<usize, VersionError>)
    ensures
        size == 0 ==> r == Err::<usize, VersionError>(VersionError::SizeQueryFailed),
        size != 0 ==> r == Ok::<usize, VersionError>(size as usize),
{
    if size == 0 {
        Err(VersionError::SizeQueryFailed)
    } else {
        Ok(size as usize)
    }
}

/// Accepts the buffer that the system was asked to fill with the version
/// resource, where `read_ok` tells whether it did.
pub fn accept_version_data(read_ok: bool, buf: Vec<u8>) -> (r: Result<Vec<u8>, VersionError>)
    ensures
        !read_ok ==> r == Err::<Vec<u8>, VersionError>(VersionError::ReadFailed),
        read_ok ==> r is Ok && r.unwrap()@ == buf@,
{
    if read_ok {
        Ok(buf)
    } else {
        Err(VersionError::ReadFailed)
    }
}

} // verus!
