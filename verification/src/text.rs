//! Text forms of the values that travel in a payment payload: `0x`-prefixed
//! hexadecimal for byte strings and plain decimal for integers.

use vstd::prelude::*;
use vstd::string::*;
use vstd::utf8::*;

verus! {

/// Whether `c` is one of `0-9`, `a-f`, `A-F`.
pub open spec fn is_hex_digit(c: char) -> bool {
    ||| '0' <= c <= '9'
    ||| 'a' <= c <= 'f'
    ||| 'A' <= c <= 'F'
}

/// The number a hexadecimal digit stands for; upper and lower case agree.
pub open spec fn hex_digit_value(c: char) -> int {
    if '0' <= c <= '9' {
        c as int - '0' as int
    } else if 'a' <= c <= 'f' {
        c as int - 'a' as int + 10
    } else if 'A' <= c <= 'F' {
        c as int - 'A' as int + 10
    } else {
        0
    }
}

/// The lower-case hexadecimal digit for `n < 16`.
pub open spec fn hex_digit_of(n: int) -> char {
    if n == 0 {
        '0'
    } else if n == 1 {
        '1'
    } else if n == 2 {
        '2'
    } else if n == 3 {
        '3'
    } else if n == 4 {
        '4'
    } else if n == 5 {
        '5'
    } else if n == 6 {
        '6'
    } else if n == 7 {
        '7'
    } else if n == 8 {
        '8'
    } else if n == 9 {
        '9'
    } else if n == 10 {
        'a'
    } else if n == 11 {
        'b'
    } else if n == 12 {
        'c'
    } else if n == 13 {
        'd'
    } else if n == 14 {
        'e'
    } else {
        'f'
    }
}

/// Whether `s` is `0x` followed by an even number of hexadecimal digits.
pub open spec fn is_hex_text(s: Seq<char>) -> bool {
    &&& s.len() >= 2
    &&& s.len() % 2 == 0
    &&& s[0] == '0'
    &&& s[1] == 'x'
    &&& forall|i: int| 2 <= i < s.len() ==> is_hex_digit(#[trigger] s[i])
}

/// The bytes that a hexadecimal text spells, two digits to the byte, the
/// first digit of each pair being the high half.
pub open spec fn hex_text_bytes(s: Seq<char>) -> Seq<u8> {
    Seq::new(
        ((s.len() - 2) / 2) as nat,
        |i: int| (16 * hex_digit_value(s[2 + 2 * i]) + hex_digit_value(s[3 + 2 * i])) as u8,
    )
}

/// The canonical text of a byte string: `0x`, then two lower-case digits per byte.
pub open spec fn hex_text_of(bytes: Seq<u8>) -> Seq<char> {
    Seq::new(
        (2 + 2 * bytes.len()) as nat,
        |i: int|
            if i == 0 {
                '0'
            } else if i == 1 {
                'x'
            } else if i % 2 == 0 {
                hex_digit_of(bytes[(i - 2) / 2] as int / 16)
            } else {
                hex_digit_of(bytes[(i - 2) / 2] as int % 16)
            },
    )
}

/// Whether two texts are equal up to the case of the letters `a-f`.
pub open spec fn same_hex_up_to_case(a: Seq<char>, b: Seq<char>) -> bool {
    &&& a.len() == b.len()
    &&& forall|i: int|
        0 <= i < a.len() ==> {
            ||| #[trigger] a[i] == b[i]
            ||| (is_hex_digit(a[i]) && is_hex_digit(b[i]) && hex_digit_value(a[i])
                == hex_digit_value(b[i]))
        }
}

/// Whether `s` is a non-empty run of decimal digits.
pub open spec fn is_decimal_text(s: Seq<char>) -> bool {
    &&& s.len() > 0
    &&& forall|i: int| 0 <= i < s.len() ==> '0' <= #[trigger] s[i] <= '9'
}

/// The number that a run of decimal digits spells, most significant digit first.
pub open spec fn decimal_value(s: Seq<char>) -> nat
    decreases s.len(),
{
    if s.len() == 0 {
        0
    } else {
        (decimal_value(s.drop_last()) * 10 + (s.last() as int - '0' as int)) as nat
    }
}

/// The bytes of `s` when every character of it is ASCII, one byte per character.
pub fn ascii_bytes(s: &str) -> (bytes: Option<&[u8]>)
    ensures
        bytes is Some <==> is_ascii_chars(s@),
        bytes matches Some(b) ==> {
            &&& b@.len() == s@.len()
            &&& forall|i: int| 0 <= i < b@.len() ==> b@[i] == s@[i] as u8
        },
{
    if s.is_ascii() {
        proof {
            is_ascii_spec_bytes(s);
        }
        Some(s.as_bytes())
    } else {
        None
    }
}

/// Whether two strings hold the same characters.
pub fn text_eq(a: &str, b: &str) -> (same: bool)
    ensures
        same == (a@ == b@),
{
    let x = a.as_bytes();
    let y = b.as_bytes();
    proof {
        encode_utf8_decode_utf8(a@);
        encode_utf8_decode_utf8(b@);
    }
    if x.len() != y.len() {
        return false;
    }
    let mut i: usize = 0;
    while i < x.len()
        invariant
            0 <= i <= x.len(),
            x.len() == y.len(),
            x@ == a.spec_bytes(),
            y@ == b.spec_bytes(),
            forall|j: int| 0 <= j < i ==> x@[j] == y@[j],
        decreases x.len() - i,
    {
        if x[i] != y[i] {
            return false;
        }
        i += 1;
    }
    assert(x@ =~= y@);
    true
}

/// Whether two byte strings are equal.
pub fn bytes_eq(a: &[u8], b: &[u8]) -> (same: bool)
    ensures
        same == (a@ == b@),
{
    if a.len() != b.len() {
        return false;
    }
    let mut i: usize = 0;
    while i < a.len()
        invariant
            0 <= i <= a.len(),
            a.len() == b.len(),
            forall|j: int| 0 <= j < i ==> a@[j] == b@[j],
        decreases a.len() - i,
    {
        if a[i] != b[i] {
            return false;
        }
        i += 1;
    }
    assert(a@ =~= b@);
    true
}

/// The value of one hexadecimal digit given as a byte, if it is one.
fn hex_digit(b: u8) -> (value: Option<u8>)
    ensures
        b < 128 ==> (value is Some <==> is_hex_digit(b as char)),
        b < 128 ==> (value matches Some(v) ==> v == hex_digit_value(b as char)),
        value matches Some(v) ==> v < 16,
{
    if 48 <= b && b <= 57 {
        Some(b - 48)
    } else if 97 <= b && b <= 102 {
        Some(b - 97 + 10)
    } else if 65 <= b && b <= 70 {
        Some(b - 65 + 10)
    } else {
        None
    }
}

/// Reads `0x`-prefixed hexadecimal text into the bytes it spells.
///
/// Digits may be of either case. Text with no prefix, with an odd number of
/// digits or with any other character is refused.
pub fn parse_hex(text: &str) -> (bytes: Option<Vec<u8>>)
    ensures
        bytes is Some <==> is_hex_text(text@),
        bytes matches Some(b) ==> b@ == hex_text_bytes(text@),
{
    let raw = match ascii_bytes(text) {
        Some(raw) => raw,
        None => {
            return None;
        },
    };
    let n = raw.len();
    if n < 2 || n % 2 != 0 || raw[0] != 48 || raw[1] != 120 {
        return None;
    }
    let mut out: Vec<u8> = Vec::new();
    let mut i: usize = 2;
    while i < n
        invariant
            2 <= i <= n,
            i % 2 == 0,
            n % 2 == 0,
            n == raw@.len(),
            raw@.len() == text@.len(),
            is_ascii_chars(text@),
            forall|j: int| 0 <= j < raw@.len() ==> raw@[j] == text@[j] as u8,
            text@[0] == '0',
            text@[1] == 'x',
            forall|j: int| 2 <= j < i ==> is_hex_digit(#[trigger] text@[j]),
            out@.len() == (i - 2) / 2,
            forall|k: int| 0 <= k < out@.len() ==> out@[k] == hex_text_bytes(text@)[k],
        decreases n - i,
    {
        let hi = hex_digit(raw[i]);
        let lo = hex_digit(raw[i + 1]);
        assert(raw@[i as int] == text@[i as int] as u8);
        assert(raw@[i + 1] == text@[i + 1] as u8);
        match (hi, lo) {
            (Some(h), Some(l)) => {
                out.push(h * 16 + l);
            },
            _ => {
                return None;
            },
        }
        i += 2;
    }
    assert(out@ =~= hex_text_bytes(text@));
    Some(out)
}

/// The text of one lower-case hexadecimal digit.
fn hex_digit_text(n: u8) -> (digit: &'static str)
    requires
        n < 16,
    ensures
        digit@ == seq![hex_digit_of(n as int)],
{
    let digit = match n {
        0 => "0",
        1 => "1",
        2 => "2",
        3 => "3",
        4 => "4",
        5 => "5",
        6 => "6",
        7 => "7",
        8 => "8",
        9 => "9",
        10 => "a",
        11 => "b",
        12 => "c",
        13 => "d",
        14 => "e",
        _ => "f",
    };
    proof {
        reveal_strlit("0");
        reveal_strlit("1");
        reveal_strlit("2");
        reveal_strlit("3");
        reveal_strlit("4");
        reveal_strlit("5");
        reveal_strlit("6");
        reveal_strlit("7");
        reveal_strlit("8");
        reveal_strlit("9");
        reveal_strlit("a");
        reveal_strlit("b");
        reveal_strlit("c");
        reveal_strlit("d");
        reveal_strlit("e");
        reveal_strlit("f");
        assert(digit@ =~= seq![hex_digit_of(n as int)]);
    }
    digit
}

/// Writes a byte string as `0x` followed by two lower-case digits per byte.
pub fn to_hex(bytes: &[u8]) -> (text: String)
    ensures
        text@ == hex_text_of(bytes@),
{
    let mut text = String::from_str("0x");
    proof {
        reveal_strlit("0x");
    }
    let mut i: usize = 0;
    while i < bytes.len()
        invariant
            0 <= i <= bytes.len(),
            text@.len() == 2 + 2 * i,
            forall|k: int| 0 <= k < text@.len() ==> text@[k] == hex_text_of(bytes@)[k],
        decreases bytes.len() - i,
    {
        let b = bytes[i];
        text.append(hex_digit_text(b / 16));
        text.append(hex_digit_text(b % 16));
        i += 1;
    }
    assert(text@ =~= hex_text_of(bytes@));
    text
}

/// Text written by [`to_hex`] is read back by [`parse_hex`] as the same bytes.
pub proof fn lemma_hex_round_trip(bytes: Seq<u8>)
    ensures
        is_hex_text(hex_text_of(bytes)),
        hex_text_bytes(hex_text_of(bytes)) == bytes,
{
    let s = hex_text_of(bytes);
    assert forall|i: int| 2 <= i < s.len() implies is_hex_digit(#[trigger] s[i]) by {
        let b = bytes[(i - 2) / 2] as int;
        assert(0 <= b / 16 < 16 && 0 <= b % 16 < 16);
    }
    assert forall|k: int| 0 <= k < bytes.len() implies hex_text_bytes(s)[k] == bytes[k] by {
        let b = bytes[k] as int;
        assert((2 + 2 * k - 2) / 2 == k);
        assert((3 + 2 * k - 2) / 2 == k);
        assert((2 + 2 * k) % 2 == 0);
        assert((3 + 2 * k) % 2 == 1);
        assert(s[2 + 2 * k] == hex_digit_of(b / 16));
        assert(s[3 + 2 * k] == hex_digit_of(b % 16));
        assert(hex_digit_value(hex_digit_of(b / 16)) == b / 16);
        assert(hex_digit_value(hex_digit_of(b % 16)) == b % 16);
        assert(16 * (b / 16) + b % 16 == b);
    }
    assert(hex_text_bytes(s) =~= bytes);
}

/// Hexadecimal text means the same bytes whatever the case of its letters.
pub proof fn lemma_hex_ignores_case(a: Seq<char>, b: Seq<char>)
    requires
        is_hex_text(a),
        same_hex_up_to_case(a, b),
    ensures
        is_hex_text(b),
        hex_text_bytes(a) == hex_text_bytes(b),
{
    assert(a[0] == b[0]);
    assert(a[1] == b[1]);
    assert forall|i: int| 2 <= i < b.len() implies is_hex_digit(#[trigger] b[i]) by {
        assert(is_hex_digit(a[i]));
    }
    assert forall|k: int| 0 <= k < hex_text_bytes(a).len() implies hex_text_bytes(a)[k]
        == hex_text_bytes(b)[k] by {
        assert(is_hex_digit(a[2 + 2 * k]));
        assert(is_hex_digit(a[3 + 2 * k]));
        assert(hex_digit_value(a[2 + 2 * k]) == hex_digit_value(b[2 + 2 * k]));
        assert(hex_digit_value(a[3 + 2 * k]) == hex_digit_value(b[3 + 2 * k]));
    }
    assert(hex_text_bytes(a) =~= hex_text_bytes(b));
}

} // verus!
