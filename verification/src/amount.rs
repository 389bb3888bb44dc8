//! Token amounts: unsigned integers of 256 bits.
//!
//! Token amounts routinely exceed every native integer width, so an amount
//! is kept as four 64-bit limbs and every operation is stated over the
//! natural number that the limbs spell.

use crate::text::{ascii_bytes, decimal_value, is_decimal_text};
use vstd::prelude::*;

verus! {

/// An unsigned 256-bit amount of some token, in the token's smallest unit.
#[derive(Clone, Copy, Debug, PartialEq, Eq, Hash)]
pub struct TokenAmount {
    /// The limbs of the number, least significant first.
    pub limbs: [u64; 4],
}

/// The number spelled by four 64-bit limbs, least significant first.
pub open spec fn limbs_value(limbs: Seq<u64>) -> nat {
    (limbs[0] as nat) + (limbs[1] as nat) * 0x1_0000_0000_0000_0000nat + (limbs[2] as nat)
        * 0x1_0000_0000_0000_0000_0000_0000_0000_0000nat + (limbs[3] as nat)
        * 0x1_0000_0000_0000_0000_0000_0000_0000_0000_0000_0000_0000_0000nat
}

/// One more than the largest amount: two to the power 256.
pub open spec fn amount_limit() -> nat {
    0x1_0000_0000_0000_0000_0000_0000_0000_0000_0000_0000_0000_0000_0000_0000_0000_0000nat
}

impl View for TokenAmount {
    type V = nat;

    open spec fn view(&self) -> nat {
        limbs_value(self.limbs@)
    }
}

/// A longer run of digits spells at least as much as any of its prefixes.
proof fn lemma_decimal_prefix(s: Seq<char>, n: int)
    requires
        0 <= n <= s.len(),
        forall|i: int| 0 <= i < s.len() ==> '0' <= #[trigger] s[i] <= '9',
    ensures
        decimal_value(s.take(n)) <= decimal_value(s),
    decreases s.len() - n,
{
    if n == s.len() {
        assert(s.take(n) =~= s);
    } else {
        lemma_decimal_prefix(s, n + 1);
        assert(s.take(n + 1).drop_last() =~= s.take(n));
        assert(s.take(n + 1).last() == s[n]);
    }
}

impl TokenAmount {
    /// Every amount is below two to the power 256.
    pub proof fn lemma_bounded(self)
        ensures
            self@ < amount_limit(),
    {
    }

    /// Two amounts that stand for the same number are the same value.
    pub proof fn lemma_view_injective(a: TokenAmount, b: TokenAmount)
        ensures
            (a@ == b@) <==> (a == b),
    {
        if a@ == b@ {
            assert(a.limbs@[0] == b.limbs@[0]);
            assert(a.limbs@[1] == b.limbs@[1]);
            assert(a.limbs@[2] == b.limbs@[2]);
            assert(a.limbs@[3] == b.limbs@[3]);
            assert(a.limbs =~= b.limbs);
        }
    }

    /// The amount zero.
    pub fn zero() -> (amount: TokenAmount)
        ensures
            amount@ == 0,
    {
        TokenAmount { limbs: [0, 0, 0, 0] }
    }

    /// The amount `value`.
    pub fn from_u64(value: u64) -> (amount: TokenAmount)
        ensures
            amount@ == value,
    {
        TokenAmount { limbs: [value, 0, 0, 0] }
    }

    /// The amount spelled by `limbs`, least significant first.
    pub fn from_limbs(limbs: [u64; 4]) -> (amount: TokenAmount)
        ensures
            amount@ == limbs_value(limbs@),
    {
        TokenAmount { limbs }
    }

    /// Whether `self` is at least `other`, as numbers.
    ///
    /// The limbs are compared from the most significant down, so no
    /// arithmetic is done and nothing can wrap.
    pub fn at_least(&self, other: &TokenAmount) -> (holds: bool)
        ensures
            holds == (self@ >= other@),
    {
        if self.limbs[3] != other.limbs[3] {
            self.limbs[3] > other.limbs[3]
        } else if self.limbs[2] != other.limbs[2] {
            self.limbs[2] > other.limbs[2]
        } else if self.limbs[1] != other.limbs[1] {
            self.limbs[1] > other.limbs[1]
        } else {
            self.limbs[0] >= other.limbs[0]
        }
    }

    /// Whether the two amounts are the same number.
    pub fn same(&self, other: &TokenAmount) -> (holds: bool)
        ensures
            holds == (self@ == other@),
    {
        self.limbs[3] == other.limbs[3] && self.limbs[2] == other.limbs[2] && self.limbs[1]
            == other.limbs[1] && self.limbs[0] == other.limbs[0]
    }

    /// `self * 10 + digit`, unless that needs more than 256 bits.
    fn shift_in_digit(&self, digit: u8) -> (shifted: Option<TokenAmount>)
        requires
            digit <= 9,
        ensures
            shifted is Some <==> self@ * 10 + digit < amount_limit(),
            shifted matches Some(a) ==> a@ == self@ * 10 + digit,
    {
        let base: u128 = 0x1_0000_0000_0000_0000;
        let t0: u128 = self.limbs[0] as u128 * 10 + digit as u128;
        let t1: u128 = self.limbs[1] as u128 * 10 + t0 / base;
        let t2: u128 = self.limbs[2] as u128 * 10 + t1 / base;
        let t3: u128 = self.limbs[3] as u128 * 10 + t2 / base;
        if t3 / base != 0 {
            return None;
        }
        let out = TokenAmount {
            limbs: [(t0 % base) as u64, (t1 % base) as u64, (t2 % base) as u64, (t3 % base) as u64],
        };
        Some(out)
    }

    /// Reads an amount written as decimal digits.
    ///
    /// Leading zeros are accepted. A sign, a separator, an empty text or a
    /// number of more than 256 bits is refused.
    pub fn parse(text: &str) -> (amount: Option<TokenAmount>)
        ensures
            amount is Some <==> is_decimal_text(text@) && decimal_value(text@) < amount_limit(),
            amount matches Some(a) ==> a@ == decimal_value(text@),
    {
        let raw = match ascii_bytes(text) {
            Some(raw) => raw,
            None => {
                return None;
            },
        };
        let n = raw.len();
        if n == 0 {
            return None;
        }
        let mut acc = TokenAmount::zero();
        let mut i: usize = 0;
        while i < n
            invariant
                0 <= i <= n,
                n == raw@.len(),
                raw@.len() == text@.len(),
                forall|j: int| 0 <= j < raw@.len() ==> raw@[j] == text@[j] as u8,
                vstd::utf8::is_ascii_chars(text@),
                forall|j: int| 0 <= j < i ==> '0' <= #[trigger] text@[j] <= '9',
                acc@ == decimal_value(text@.take(i as int)),
            decreases n - i,
        {
            let b = raw[i];
            assert(b == text@[i as int] as u8);
            if b < 48 || b > 57 {
                return None;
            }
            proof {
                assert(text@.take(i + 1).drop_last() =~= text@.take(i as int));
                assert(text@.take(i + 1).last() == text@[i as int]);
            }
            match acc.shift_in_digit(b - 48) {
                Some(next) => {
                    acc = next;
                },
                None => {
                    proof {
                        if is_decimal_text(text@) {
                            lemma_decimal_prefix(text@, i + 1);
                        }
                    }
                    return None;
                },
            }
            i += 1;
        }
        assert(text@.take(n as int) =~= text@);
        Some(acc)
    }
}

} // verus!
