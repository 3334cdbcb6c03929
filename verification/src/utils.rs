//! Texts as hexadecimal digits and back.

use crate::error::SclError;
use crate::text::{parse_hex_u8, string_push, u8_from_hex};
use vstd::prelude::*;

verus! {

/// The small hexadecimal digit of a number below sixteen.
pub open spec fn hex_char(n: int) -> char {
    if n < 10 {
        ((0x30 + n) as u32) as char
    } else {
        ((0x61 + n - 10) as u32) as char
    }
}

/// Whether every character of `s` is ASCII.
pub open spec fn all_ascii(s: Seq<char>) -> bool {
    forall|i: int| 0 <= i < s.len() ==> (#[trigger] s[i]) as u32 <= 0x7F
}

/// The codes of the characters of `s`, each as two small hexadecimal digits.
pub open spec fn hex_of_ascii(s: Seq<char>) -> Seq<char>
    decreases s.len(),
{
    if s.len() == 0 {
        seq![]
    } else {
        hex_of_ascii(s.drop_last()) + seq![
            hex_char((s.last() as u32) as int / 16),
            hex_char((s.last() as u32) as int % 16),
        ]
    }
}

/// Makes the small hexadecimal digit of a number below sixteen.
fn hex_char_of(n: u32) -> (c: char)
    requires
        n < 16,
    ensures
        c == hex_char(n as int),
{
    if n < 10 {
        char_of((0x30 + n) as u8)
    } else {
        char_of((0x61 + n - 10) as u8)
    }
}

/// The character with the code `b`.
fn char_of(b: u8) -> (c: char)
    ensures
        c == (b as u32) as char,
{
    b as char
}

/// Writes each character of an ASCII text as two small hexadecimal
/// digits; a text with any other character is refused.
pub fn ascii_to_hex(input: &str) -> (r: Result<String, SclError>)
    ensures
        all_ascii(input@) ==> r is Ok && r->Ok_0@ == hex_of_ascii(input@),
        !all_ascii(input@) ==> r == Err::<String, SclError>(SclError::NotAscii),
{
    let mut hex_str = String::new();
    let ghost mut k: int = 0;
    assert(input@.take(0) =~= Seq::<char>::empty());
    for c in it: input.chars()
        invariant
            it.seq() == input@,
            k == it.index(),
            all_ascii(input@.take(k)),
            hex_str@ == hex_of_ascii(input@.take(k)),
    {
        proof {
            assert(input@.take(k + 1).drop_last() =~= input@.take(k));
            assert(input@.take(k + 1).last() == c);
        }
        let code = c as u32;
        if code <= 0x7F {
            string_push(&mut hex_str, hex_char_of(code / 16));
            string_push(&mut hex_str, hex_char_of(code % 16));
            proof {
                assert(hex_str@ =~= hex_of_ascii(input@.take(k)) + seq![
                    hex_char(code as int / 16),
                    hex_char(code as int % 16),
                ]);
                assert forall|i: int| 0 <= i < k + 1 implies (#[trigger] input@.take(
                    k + 1,
                )[i]) as u32 <= 0x7F by {
                    if i < k {
                        assert(input@.take(k)[i] == input@.take(k + 1)[i]);
                    }
                }
                k = k + 1;
            }
        } else {
            assert(input@[k] == c);
            return Err(SclError::NotAscii);
        }
    }
    assert(input@.take(k) =~= input@);
    Ok(hex_str)
}

/// The characters whose codes the pairs of hexadecimal digits of `s`
/// spell, up to and without a last single digit; nothing where a pair
/// spells no byte.
pub open spec fn ascii_of_hex(s: Seq<char>) -> Option<Seq<char>>
    decreases s.len(),
{
    if s.len() < 2 {
        Some(seq![])
    } else {
        let n = s.len() - (s.len() % 2);
        match ascii_of_hex(s.take(n - 2)) {
            None => None,
            Some(before) => match parse_hex_u8(s.subrange(n - 2, n)) {
                Some(b) => Some(before.push((b as u32) as char)),
                None => None,
            },
        }
    }
}

/// Reads each pair of hexadecimal digits as the code of one character; a
/// last single digit is passed over, and a pair that spells no byte is
/// refused.
pub fn hex_to_ascii(hex_str: &str) -> (r: Result<String, SclError>)
    ensures
        match ascii_of_hex(hex_str@) {
            Some(text) => r is Ok && r->Ok_0@ == text,
            None => r == Err::<String, SclError>(SclError::BadHexPair),
        },
{
    let mut result = String::new();
    let mut first: Option<char> = None;
    let ghost mut k: int = 0;
    assert(hex_str@.take(0) =~= Seq::<char>::empty());
    for c in it: hex_str.chars()
        invariant
            it.seq() == hex_str@,
            k == it.index(),
            k <= hex_str@.len(),
            match first {
                Some(a) => k % 2 == 1 && a == hex_str@[k - 1],
                None => k % 2 == 0,
            },
            ascii_of_hex(hex_str@.take(k)) == Some(result@),
    {
        proof {
            assert(hex_str@[k] == c);
        }
        match first {
            None => {
                first = Some(c);
                proof {
                    lemma_ascii_of_hex_odd(hex_str@.take(k + 1));
                    assert(hex_str@.take(k + 1).take(k) =~= hex_str@.take(k));
                    k = k + 1;
                }
            },
            Some(a) => {
                let mut pair = String::new();
                string_push(&mut pair, a);
                string_push(&mut pair, c);
                proof {
                    let t = hex_str@.take(k + 1);
                    assert(t.take(k + 1 - 2) =~= hex_str@.take(k - 1));
                    assert(t.subrange(k + 1 - 2, k + 1) =~= pair@);
                    lemma_ascii_of_hex_odd(hex_str@.take(k));
                    assert(hex_str@.take(k).take(k - 1) =~= hex_str@.take(k - 1));
                }
                match u8_from_hex(pair.as_str()) {
                    Some(b) => {
                        string_push(&mut result, char_of(b));
                    },
                    None => {
                        proof {
                            lemma_ascii_of_hex_none(hex_str@, k + 1);
                        }
                        return Err(SclError::BadHexPair);
                    },
                }
                first = None;
                proof {
                    k = k + 1;
                }
            },
        }
    }
    assert(hex_str@.take(k) =~= hex_str@);
    Ok(result)
}

/// A last single digit does not count.
pub proof fn lemma_ascii_of_hex_odd(s: Seq<char>)
    requires
        s.len() % 2 == 1,
    ensures
        ascii_of_hex(s) == ascii_of_hex(s.take(s.len() - 1)),
{
    let t = s.take(s.len() - 1);
    if s.len() >= 3 {
        let n = s.len() - 1;
        assert(t.len() == n);
        assert(s.take(n - 2) =~= t.take(n - 2));
        assert(s.subrange(n - 2, n) =~= t.subrange(n - 2, n));
    }
}

/// Once the first digits of a text spell no characters, the whole text
/// spells none.
pub proof fn lemma_ascii_of_hex_none(s: Seq<char>, k: int)
    requires
        0 <= k <= s.len(),
        k % 2 == 0,
        ascii_of_hex(s.take(k)) is None,
    ensures
        ascii_of_hex(s) is None,
    decreases s.len() - k,
{
    if k == s.len() {
        assert(s.take(k) =~= s);
    } else if k + 1 == s.len() {
        lemma_ascii_of_hex_odd(s);
    } else {
        let t = s.take(k + 2);
        assert(t.take(k) =~= s.take(k));
        lemma_ascii_of_hex_none(s, k + 2);
    }
}

} // verus!
