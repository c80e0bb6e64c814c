use vstd::prelude::*;
use vstd::string::*;

use crate::digits::{decimal, push_decimal};

verus! {

/// A four-part version number unpacked from a 64-bit value: `.0` holds the
/// most significant 16 bits and `.3` the least significant.
#[derive(Debug, Copy, Clone, Default, PartialEq, Eq)]
pub struct Version(pub u16, pub u16, pub u16, pub u16);

/// The components of `n`, highest quarter first.
pub open spec fn version_of(n: u64) -> Version {
    Version(
        ((n >> 48u64) & 0xffff) as u16,
        ((n >> 32u64) & 0xffff) as u16,
        ((n >> 16u64) & 0xffff) as u16,
        (n & 0xffff) as u16,
    )
}

/// The 64-bit value whose quarters are the components of `v`.
pub open spec fn packed(v: Version) -> u64 {
    ((v.0 as u64) << 48u64) | ((v.1 as u64) << 32u64) | ((v.2 as u64) << 16u64) | (v.3 as u64)
}

/// `v` rendered as `A.B.C.D`, each component in decimal.
pub open spec fn dotted(v: Version) -> Seq<char> {
    decimal(v.0 as nat) + seq!['.'] + decimal(v.1 as nat) + seq!['.'] + decimal(v.2 as nat)
        + seq!['.'] + decimal(v.3 as nat)
}

impl Version {
    /// The version as `A.B.C.D`, with no padding or leading zeros.
    pub fn to_string(&self) -> (s: String)
        ensures
            s@ == dotted(*self),
    {
        let mut s = String::new();
        push_decimal(&mut s, self.0 as u64);
        s.append(".");
        push_decimal(&mut s, self.1 as u64);
        s.append(".");
        push_decimal(&mut s, self.2 as u64);
        s.append(".");
        push_decimal(&mut s, self.3 as u64);
        proof {
            reveal_strlit(".");
        }
        assert(s@ =~= dotted(*self));
        s
    }
}

impl From<u64> for Version {
    fn from(n: u64) -> (v: Version) {
        Version(
            ((n >> 48u64) & 0xffff) as u16,
            ((n >> 32u64) & 0xffff) as u16,
            ((n >> 16u64) & 0xffff) as u16,
            (n & 0xffff) as u16,
        )
    }
}

impl vstd::std_specs::convert::FromSpecImpl<u64> for Version {
    open spec fn obeys_from_spec() -> bool {
        true
    }

    open spec fn from_spec(n: u64) -> Version {
        version_of(n)
    }
}

impl From<Version> for u64 {
    fn from(v: Version) -> (n: u64) {
        ((v.0 as u64) << 48u64) | ((v.1 as u64) << 32u64) | ((v.2 as u64) << 16u64) | (v.3 as u64)
    }
}

impl vstd::std_specs::convert::FromSpecImpl<Version> for u64 {
    open spec fn obeys_from_spec() -> bool {
        true
    }

    open spec fn from_spec(v: Version) -> u64 {
        packed(v)
    }
}

/// Splitting any 64-bit value into its four components and packing them
/// again gives back the value.
pub proof fn lemma_pack_unpack(n: u64)
    ensures
        packed(version_of(n)) == n,
{
    assert((((((n >> 48u64) & 0xffff) as u16) as u64) << 48u64) | (((((n >> 32u64) & 0xffff) as u16) as u64) << 32u64)
        | (((((n >> 16u64) & 0xffff) as u16) as u64) << 16u64) | (((n & 0xffff) as u16) as u64) == n)
        by (bit_vector);
}

/// Packing four components and splitting the result gives back the same
/// components.
pub proof fn lemma_unpack_pack(v: Version)
    ensures
        version_of(packed(v)) == v,
{
    let (a, b, c, d) = (v.0, v.1, v.2, v.3);
    let n = packed(v);
    assert(n == ((a as u64) << 48u64) | ((b as u64) << 32u64) | ((c as u64) << 16u64) | (d as u64));
    assert(((n >> 48u64) & 0xffff) as u16 == a && ((n >> 32u64) & 0xffff) as u16 == b
        && ((n >> 16u64) & 0xffff) as u16 == c && (n & 0xffff) as u16 == d) by (bit_vector)
        requires
            n == ((a as u64) << 48u64) | ((b as u64) << 32u64) | ((c as u64) << 16u64) | (d as u64),
    ;
}

} // verus!
