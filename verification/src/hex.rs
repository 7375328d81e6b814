//! Bytes as text: two lowercase hexadecimal digits for each byte.
//!
//! Only the canonical form is read back: an odd number of digits, an
//! upper-case digit or any other character is refused, so every byte
//! string has exactly one text.

use crate::text::push_char;
use vstd::prelude::*;
use vstd::string::*;

verus! {

/// The digit of a value below 16.
pub open spec fn hex_digit(nibble: u8) -> char {
    if nibble < 10 {
        (48u8 + nibble) as char
    } else {
        (87u8 + nibble) as char
    }
}

/// The text of a byte string: for each byte its high digit, then its low
/// digit.
pub open spec fn hex_chars(bytes: Seq<u8>) -> Seq<char> {
    Seq::new(
        2 * bytes.len(),
        |i: int|
            hex_digit(
                if i % 2 == 0 {
                    bytes[i / 2] / 16
                } else {
                    bytes[i / 2] % 16
                },
            ),
    )
}

/// The value of a digit, or `None` for any other character.
pub open spec fn hex_value(digit: char) -> Option<u8> {
    if '0' <= digit <= '9' {
        Some((digit as u8 - 48u8) as u8)
    } else if 'a' <= digit <= 'f' {
        Some((digit as u8 - 87u8) as u8)
    } else {
        None
    }
}

/// Each value below 16 is read back from its digit, and a digit is a plain
/// ASCII character.
pub proof fn lemma_hex_digit_value(nibble: u8)
    requires
        nibble < 16,
    ensures
        hex_value(hex_digit(nibble)) == Some(nibble),
        '\0' <= hex_digit(nibble) <= '\u{7f}',
{
}

/// Two byte strings with the same text are the same.
pub proof fn law_hex_is_injective(a: Seq<u8>, b: Seq<u8>)
    requires
        hex_chars(a) == hex_chars(b),
    ensures
        a == b,
{
    assert(2 * a.len() == hex_chars(a).len());
    assert(2 * b.len() == hex_chars(b).len());
    assert forall|k: int| 0 <= k < a.len() implies a[k] == b[k] by {
        lemma_byte_from_digits(a, k);
        lemma_byte_from_digits(b, k);
    }
    assert(a =~= b);
}

/// A byte is determined by the two digits that stand for it.
proof fn lemma_byte_from_digits(bytes: Seq<u8>, k: int)
    requires
        0 <= k < bytes.len(),
    ensures
        hex_value(hex_chars(bytes)[2 * k]) == Some((bytes[k] / 16) as u8),
        hex_value(hex_chars(bytes)[2 * k + 1]) == Some((bytes[k] % 16) as u8),
        bytes[k] == (bytes[k] / 16) * 16 + bytes[k] % 16,
{
    let hi = (bytes[k] / 16) as u8;
    let lo = (bytes[k] % 16) as u8;
    assert((2 * k) % 2 == 0);
    assert((2 * k) / 2 == k);
    assert((2 * k + 1) % 2 == 1);
    assert((2 * k + 1) / 2 == k);
    assert(hex_chars(bytes)[2 * k] == hex_digit(hi));
    assert(hex_chars(bytes)[2 * k + 1] == hex_digit(lo));
    lemma_hex_digit_value(hi);
    lemma_hex_digit_value(lo);
}

fn digit_of(nibble: u8) -> (digit: char)
    requires
        nibble < 16,
    ensures
        digit == hex_digit(nibble),
{
    if nibble < 10 {
        (48u8 + nibble) as char
    } else {
        (87u8 + nibble) as char
    }
}

fn value_of(digit: u8) -> (value: Option<u8>)
    ensures
        value == hex_value(digit as char),
        value matches Some(v) ==> v < 16,
{
    if 48 <= digit && digit <= 57 {
        Some(digit - 48)
    } else if 97 <= digit && digit <= 102 {
        Some(digit - 87)
    } else {
        None
    }
}

/// Writes bytes as text.
pub fn hex_encode(bytes: &[u8]) -> (text: String)
    ensures
        text@ == hex_chars(bytes@),
{
    let mut text = String::new();
    let mut i: usize = 0;
    while i < bytes.len()
        invariant
            i <= bytes@.len(),
            text@ == hex_chars(bytes@.subrange(0, i as int)),
        decreases bytes@.len() - i,
    {
        let b = bytes[i];
        let ghost before = text@;
        push_char(&mut text, digit_of(b / 16));
        push_char(&mut text, digit_of(b % 16));
        proof {
            let shorter = bytes@.subrange(0, i as int);
            let longer = bytes@.subrange(0, i as int + 1);
            assert(text@.len() == hex_chars(longer).len());
            assert forall|k: int| 0 <= k < text@.len() implies text@[k] == hex_chars(longer)[k] by {
                if k < 2 * i {
                    assert(before[k] == hex_chars(shorter)[k]);
                    assert(shorter[k / 2] == longer[k / 2]);
                } else {
                    assert(k / 2 == i as int);
                    assert(longer[k / 2] == b);
                }
            }
            assert(text@ =~= hex_chars(longer));
        }
        i += 1;
    }
    assert(bytes@.subrange(0, i as int) =~= bytes@);
    text
}

/// Reads bytes back from their text.
///
/// Returns the bytes whose text this is, or `None` where the text is that
/// of no byte string.
pub fn hex_decode(text: &str) -> (res: Option<Vec<u8>>)
    ensures
        res matches Some(bytes) ==> hex_chars(bytes@) == text@,
        res is None ==> forall|bytes: Seq<u8>| hex_chars(bytes) != text@,
{
    broadcast use is_ascii_spec_bytes;

    if !text.is_ascii() {
        proof {
            assert forall|bytes: Seq<u8>| hex_chars(bytes) != text@ by {
                lemma_hex_is_ascii(bytes);
            }
        }
        return None;
    }
    let raw = text.as_bytes();
    assert(raw@.len() == text@.len());
    let n = raw.len();
    if n % 2 != 0 {
        assert forall|bytes: Seq<u8>| hex_chars(bytes) != text@ by {
            assert(hex_chars(bytes).len() == 2 * bytes.len());
        }
        return None;
    }
    let mut out: Vec<u8> = Vec::new();
    let mut i: usize = 0;
    while i < n / 2
        invariant
            n == raw@.len(),
            n == text@.len(),
            n % 2 == 0,
            i <= n / 2,
            out@.len() == i,
            is_ascii(text),
            raw@ == text.spec_bytes(),
            forall|k: int| 0 <= k < 2 * i ==> text@[k] == hex_chars(out@)[k],
        decreases n / 2 - i,
    {
        let hi_char = raw[2 * i];
        let lo_char = raw[2 * i + 1];
        assert(text@[2 * i as int] == hi_char as char);
        assert(text@[2 * i as int + 1] == lo_char as char);
        let (hi, lo) = match (value_of(hi_char), value_of(lo_char)) {
            (Some(hi), Some(lo)) => (hi, lo),
            _ => {
                proof {
                    assert forall|bytes: Seq<u8>| hex_chars(bytes) != text@ by {
                        if hex_chars(bytes) == text@ {
                            assert(2 * bytes.len() == text@.len());
                            lemma_byte_from_digits(bytes, i as int);
                        }
                    }
                }
                return None;
            },
        };
        let ghost before = out@;
        let byte = hi * 16 + lo;
        out.push(byte);
        proof {
            assert(byte / 16 == hi && byte % 16 == lo);
            lemma_hex_digit_inverse(hi, hi_char as char);
            lemma_hex_digit_inverse(lo, lo_char as char);
            assert forall|k: int| 0 <= k < 2 * (i + 1) implies text@[k] == hex_chars(out@)[k] by {
                if k < 2 * i {
                    assert(text@[k] == hex_chars(before)[k]);
                    assert(before[k / 2] == out@[k / 2]);
                } else {
                    assert(k / 2 == i as int);
                    assert(out@[k / 2] == byte);
                }
            }
        }
        i += 1;
    }
    assert(hex_chars(out@) =~= text@);
    Some(out)
}

/// A character with the value of a digit is that digit.
proof fn lemma_hex_digit_inverse(value: u8, digit: char)
    requires
        hex_value(digit) == Some(value),
    ensures
        value < 16,
        hex_digit(value) == digit,
{
}

/// The text of any byte string is ASCII.
proof fn lemma_hex_is_ascii(bytes: Seq<u8>)
    ensures
        vstd::utf8::is_ascii_chars(hex_chars(bytes)),
{
    assert forall|k: int| 0 <= k < hex_chars(bytes).len() implies '\0' <= #[trigger] hex_chars(
        bytes,
    )[k] <= '\u{7f}' by {
        let nibble = if k % 2 == 0 {
            (bytes[k / 2] / 16) as u8
        } else {
            (bytes[k / 2] % 16) as u8
        };
        lemma_hex_digit_value(nibble);
    }
}

} // verus!
