//! The serialization contract between a cache and its stored values.
//!
//! A cached type supplies a total textual encoding and a decoding that
//! recognises exactly the well-formed payloads; every implementation carries
//! a proof that decoding inverts encoding. [`Record`] is the crate's built-in
//! cacheable type: a named `u8` reading, stored as three decimal digits
//! followed by the name verbatim.

use vstd::arithmetic::div_mod::lemma_div_denominator;
use vstd::arithmetic::div_mod::lemma_fundamental_div_mod;
use vstd::prelude::*;

verus! {

/// A value that can be stored in a backing file as text.
///
/// `enc` and `dec` describe the payload format at the specification level,
/// over the value's abstract view; `encode` and `decode` realise them.
/// `lemma_round_trip` obliges every implementation to prove that decoding
/// undoes encoding, which is what lets a cache promise to hand back exactly
/// the value it stored.
pub trait Codec: View + Sized {
    /// The payload that stands for the abstract value `v`.
    spec fn enc(v: Self::V) -> Seq<char>;

    /// The abstract value a payload stands for, if it is well formed.
    spec fn dec(s: Seq<char>) -> Option<Self::V>;

    /// Decoding inverts encoding.
    proof fn lemma_round_trip(v: Self::V)
        ensures
            Self::dec(Self::enc(v)) == Some(v),
    ;

    /// Produce the payload for this value.
    fn encode(&self) -> (s: String)
        ensures
            s@ == Self::enc(self@),
    ;

    /// Recover a value from a payload; `None` exactly on malformed payloads.
    fn decode(s: &str) -> (r: Option<Self>)
        ensures
            match r {
                Some(v) => Self::dec(s@) == Some(v@),
                None => Self::dec(s@) is None,
            },
    ;
}

/// The decimal digit character for `d`.
pub open spec fn char_of_digit(d: int) -> char {
    if d == 0 {
        '0'
    } else if d == 1 {
        '1'
    } else if d == 2 {
        '2'
    } else if d == 3 {
        '3'
    } else if d == 4 {
        '4'
    } else if d == 5 {
        '5'
    } else if d == 6 {
        '6'
    } else if d == 7 {
        '7'
    } else if d == 8 {
        '8'
    } else {
        '9'
    }
}

/// The value of a decimal digit character, if `c` is one.
pub open spec fn digit_of(c: char) -> Option<u8> {
    if c == '0' {
        Some(0u8)
    } else if c == '1' {
        Some(1u8)
    } else if c == '2' {
        Some(2u8)
    } else if c == '3' {
        Some(3u8)
    } else if c == '4' {
        Some(4u8)
    } else if c == '5' {
        Some(5u8)
    } else if c == '6' {
        Some(6u8)
    } else if c == '7' {
        Some(7u8)
    } else if c == '8' {
        Some(8u8)
    } else if c == '9' {
        Some(9u8)
    } else {
        None
    }
}

/// Reading back the digit character of `d` yields `d`.
proof fn lemma_digit_round_trip(d: int)
    requires
        0 <= d < 10,
    ensures
        digit_of(char_of_digit(d)) == Some(d as u8),
{
}

/// The one-character string for the decimal digit `d`.
fn digit_str(d: u8) -> (s: &'static str)
    requires
        d < 10,
    ensures
        s@ =~= seq![char_of_digit(d as int)],
{
    if d == 0 {
        proof {
            reveal_strlit("0");
        }
        "0"
    } else if d == 1 {
        proof {
            reveal_strlit("1");
        }
        "1"
    } else if d == 2 {
        proof {
            reveal_strlit("2");
        }
        "2"
    } else if d == 3 {
        proof {
            reveal_strlit("3");
        }
        "3"
    } else if d == 4 {
        proof {
            reveal_strlit("4");
        }
        "4"
    } else if d == 5 {
        proof {
            reveal_strlit("5");
        }
        "5"
    } else if d == 6 {
        proof {
            reveal_strlit("6");
        }
        "6"
    } else if d == 7 {
        proof {
            reveal_strlit("7");
        }
        "7"
    } else if d == 8 {
        proof {
            reveal_strlit("8");
        }
        "8"
    } else {
        proof {
            reveal_strlit("9");
        }
        "9"
    }
}

/// The value of the decimal digit character `c`, if it is one.
fn digit_of_char(c: char) -> (r: Option<u8>)
    ensures
        r == digit_of(c),
{
    if c == '0' {
        Some(0)
    } else if c == '1' {
        Some(1)
    } else if c == '2' {
        Some(2)
    } else if c == '3' {
        Some(3)
    } else if c == '4' {
        Some(4)
    } else if c == '5' {
        Some(5)
    } else if c == '6' {
        Some(6)
    } else if c == '7' {
        Some(7)
    } else if c == '8' {
        Some(8)
    } else if c == '9' {
        Some(9)
    } else {
        None
    }
}

/// The three decimal digits of `v`, most significant first.
pub open spec fn digits3(v: int) -> Seq<char> {
    seq![
        char_of_digit(v / 100),
        char_of_digit((v / 10) % 10),
        char_of_digit(v % 10),
    ]
}

/// Splitting `v < 1000` into its three decimal digits loses nothing.
proof fn lemma_digits3_reconstruct(v: int)
    requires
        0 <= v < 1000,
    ensures
        (v / 100) * 100 + ((v / 10) % 10) * 10 + v % 10 == v,
        0 <= v / 100 < 10,
        0 <= (v / 10) % 10 < 10,
        0 <= v % 10 < 10,
{
    lemma_fundamental_div_mod(v, 10);
    lemma_fundamental_div_mod(v / 10, 10);
    lemma_div_denominator(v, 10, 10);
}

/// A named `u8` reading: the crate's built-in cacheable value type.
#[derive(Debug, Clone, PartialEq, Eq)]
pub struct Record {
    /// A label for the reading.
    pub name: String,
    /// The reading itself.
    pub value: u8,
}

/// The abstract content of a [`Record`].
pub struct RecordView {
    /// A label for the reading.
    pub name: Seq<char>,
    /// The reading itself.
    pub value: u8,
}

impl View for Record {
    type V = RecordView;

    open spec fn view(&self) -> RecordView {
        RecordView { name: self.name@, value: self.value }
    }
}

impl Codec for Record {
    open spec fn enc(v: RecordView) -> Seq<char> {
        digits3(v.value as int) + v.name
    }

    open spec fn dec(s: Seq<char>) -> Option<RecordView> {
        if s.len() < 3 {
            None
        } else {
            match (digit_of(s[0]), digit_of(s[1]), digit_of(s[2])) {
                (Some(d0), Some(d1), Some(d2)) => {
                    let n = d0 as int * 100 + d1 as int * 10 + d2 as int;
                    if n <= 255 {
                        Some(
                            RecordView {
                                name: s.subrange(3, s.len() as int),
                                value: n as u8,
                            },
                        )
                    } else {
                        None
                    }
                },
                _ => None,
            }
        }
    }

    proof fn lemma_round_trip(v: RecordView) {
        let s = Self::enc(v);
        let n = v.value as int;
        lemma_digits3_reconstruct(n);
        lemma_digit_round_trip(n / 100);
        lemma_digit_round_trip((n / 10) % 10);
        lemma_digit_round_trip(n % 10);
        assert(s.subrange(3, s.len() as int) =~= v.name);
        assert(Self::dec(s) == Some(v));
    }

    fn encode(&self) -> (s: String) {
        let v: u8 = self.value;
        proof {
            lemma_digits3_reconstruct(v as int);
        }
        let mut s = String::new();
        s.append(digit_str(v / 100));
        s.append(digit_str(v / 10 % 10));
        s.append(digit_str(v % 10));
        s.append(self.name.as_str());
        proof {
            assert(s@ =~= Self::enc(self@));
        }
        s
    }

    fn decode(s: &str) -> (r: Option<Record>) {
        let n: usize = s.unicode_len();
        if n < 3 {
            return None;
        }
        let d0: u8 = match digit_of_char(s.get_char(0)) {
            Some(d) => d,
            None => {
                return None;
            },
        };
        let d1: u8 = match digit_of_char(s.get_char(1)) {
            Some(d) => d,
            None => {
                return None;
            },
        };
        let d2: u8 = match digit_of_char(s.get_char(2)) {
            Some(d) => d,
            None => {
                return None;
            },
        };
        let value: u16 = (d0 as u16) * 100 + (d1 as u16) * 10 + (d2 as u16);
        if value > 255 {
            return None;
        }
        let rest = s.substring_char(3, n);
        Some(Record { name: rest.to_owned(), value: value as u8 })
    }
}

} // verus!
