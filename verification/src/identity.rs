//! Who is acting and when: the 256-bit identity of a connected client and the
//! timestamp that the database hands to each reducer call.

use vstd::prelude::*;

verus! {

/// A client's identity: a 256-bit number, held as its 32 bytes with the most
/// significant byte first (the order in which its hexadecimal form is read).
#[derive(Clone, Copy, Debug)]
pub struct Identity {
    pub bytes: [u8; 32],
}

/// A point in time, in microseconds since the Unix epoch.
#[derive(Clone, Copy, Debug, PartialEq, Eq, Structural)]
pub struct Timestamp {
    pub micros_since_unix_epoch: i64,
}

/// The lowercase hexadecimal digit of a number below sixteen.
pub open spec fn hex_digit(n: int) -> char {
    if n < 10 {
        (48 + n) as char
    } else {
        (87 + n) as char
    }
}

/// Lowercase hexadecimal text of a byte string: two digits per byte, the high
/// half of each byte first.
pub open spec fn hex_of(bytes: Seq<u8>) -> Seq<char> {
    Seq::new(
        2 * bytes.len(),
        |i: int|
            if i % 2 == 0 {
                hex_digit(bytes[i / 2] as int / 16)
            } else {
                hex_digit(bytes[i / 2] as int % 16)
            },
    )
}

impl Identity {
    /// The identity's hexadecimal form: 64 lowercase digits, most significant first.
    pub open spec fn hex(self) -> Seq<char> {
        hex_of(self.bytes@)
    }
}

impl PartialEq for Identity {
    fn eq(&self, other: &Identity) -> (same: bool) {
        let mut i: usize = 0;
        while i < 32
            invariant
                i <= 32,
                forall|j: int| 0 <= j < i ==> self.bytes@[j] == other.bytes@[j],
            decreases 32 - i,
        {
            if self.bytes[i] != other.bytes[i] {
                return false;
            }
            i = i + 1;
        }
        proof {
            broadcast use vstd::array::axiom_array_ext_equal;

            assert(self.bytes@ =~= other.bytes@);
            assert(self.bytes == other.bytes);
        }
        true
    }
}

impl vstd::std_specs::cmp::PartialEqSpecImpl for Identity {
    open spec fn obeys_eq_spec() -> bool {
        true
    }

    open spec fn eq_spec(&self, other: &Identity) -> bool {
        *self == *other
    }
}

impl Eq for Identity {
}

/// Hexadecimal form of an identity, as `spacetimedb::Identity::to_hex` writes
/// it: the identity is rebuilt from its big-endian bytes, and `to_hex` encodes
/// those bytes, most significant first, two lowercase digits each (the crate's
/// `hex::encode` over its nybble table `0123456789abcdef`).
#[verifier::external_body]
pub(crate) fn identity_hex(id: &Identity) -> (hex: String)
    ensures
        hex@ == id.hex(),
{
    spacetimedb::Identity::from_be_byte_array(id.bytes).to_hex().to_string()
}

} // verus!
