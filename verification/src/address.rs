//! Chain addresses.
//!
//! An address is compared by its bytes. Text is only a way in and a way out:
//! reading ignores the case of hexadecimal letters, so a checksummed and a
//! lower-case spelling of one address are the same address.

use crate::text::{hex_text_bytes, hex_text_of, is_hex_text, parse_hex, to_hex};
use vstd::prelude::*;

verus! {

/// An address on some chain family.
#[derive(Clone, Copy, Debug, PartialEq, Eq, Hash)]
pub enum AddressRef {
    /// A 20-byte EVM account or contract address.
    Evm([u8; 20]),
}

/// Whether `s` is the text of an EVM address: `0x` and forty hexadecimal digits.
pub open spec fn is_evm_address_text(s: Seq<char>) -> bool {
    is_hex_text(s) && s.len() == 42
}

/// Whether two 20-byte arrays hold the same bytes.
fn same_bytes(a: &[u8; 20], b: &[u8; 20]) -> (same: bool)
    ensures
        same == (a@ == b@),
{
    let mut i: usize = 0;
    while i < 20
        invariant
            0 <= i <= 20,
            forall|j: int| 0 <= j < i ==> a@[j] == b@[j],
        decreases 20 - i,
    {
        if a[i] != b[i] {
            return false;
        }
        i += 1;
    }
    assert(a@ =~= b@);
    true
}

impl AddressRef {
    /// The bytes of the address.
    pub open spec fn bytes(&self) -> Seq<u8> {
        match self {
            AddressRef::Evm(bytes) => bytes@,
        }
    }

    /// Two addresses of one family with the same bytes are the same address.
    pub proof fn lemma_bytes_decide(a: AddressRef, b: AddressRef)
        ensures
            (a.bytes() == b.bytes()) <==> (a == b),
            a.bytes().len() == 20,
    {
        let AddressRef::Evm(x) = a;
        let AddressRef::Evm(y) = b;
        if x@ == y@ {
            assert(x =~= y);
        }
    }

    /// Exact comparison of family and bytes.
    pub fn same(&self, other: &AddressRef) -> (same: bool)
        ensures
            same == (*self == *other),
    {
        let AddressRef::Evm(a) = self;
        let AddressRef::Evm(b) = other;
        proof {
            AddressRef::lemma_bytes_decide(*self, *other);
        }
        same_bytes(a, b)
    }

    /// Reads an EVM address from `0x`-prefixed hexadecimal text.
    ///
    /// The case of the letters is ignored and no checksum is asked for.
    pub fn parse(text: &str) -> (address: Option<AddressRef>)
        ensures
            address is Some <==> is_evm_address_text(text@),
            address matches Some(a) ==> a.bytes() == hex_text_bytes(text@),
    {
        let bytes = match parse_hex(text) {
            Some(bytes) => bytes,
            None => {
                return None;
            },
        };
        if bytes.len() != 20 {
            return None;
        }
        let mut out = [0u8; 20];
        let mut i: usize = 0;
        while i < 20
            invariant
                0 <= i <= 20,
                bytes@.len() == 20,
                forall|j: int| 0 <= j < i ==> out@[j] == bytes@[j],
            decreases 20 - i,
        {
            out[i] = bytes[i];
            i += 1;
        }
        assert(out@ =~= bytes@);
        Some(AddressRef::Evm(out))
    }

    /// The canonical text of the address: `0x` and lower-case digits.
    pub fn to_hex(&self) -> (text: String)
        ensures
            text@ == hex_text_of(self.bytes()),
    {
        let AddressRef::Evm(bytes) = self;
        to_hex(bytes.as_slice())
    }
}

} // verus!
