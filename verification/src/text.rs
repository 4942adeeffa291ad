//! Plain-text rendering of scalars and vectors.
//!
//! Each vector renders as a parenthesized, comma-separated tuple of its
//! components in declaration order. The rendering is specified exactly: a
//! spec-level decimal representation pins every character down, so that
//! what a vector prints as is as much a theorem as what it computes.

use vstd::prelude::*;

use crate::vec::Vec2;
use crate::vec::Vec3;
use crate::vec::Vec4;
use vstd::string::StringExecFns;

verus! {

/// The character of a single decimal digit.
pub open spec fn digit_char(d: nat) -> char {
    if d == 0 {
        '0'
    } else if d == 1 {
        '1'
    } else if d == 2 {
        '2'
    } else if d == 3 {
        '3'
    } else if d == 4 {
        '4'
    } else if d == 5 {
        '5'
    } else if d == 6 {
        '6'
    } else if d == 7 {
        '7'
    } else if d == 8 {
        '8'
    } else {
        '9'
    }
}

/// The decimal representation of a natural number, most significant digit
/// first, without leading zeroes (zero itself rendering as one digit).
pub open spec fn dec_digits(n: nat) -> Seq<char>
    decreases n,
{
    if n < 10 {
        seq![digit_char(n)]
    } else {
        dec_digits(n / 10) + seq![digit_char(n % 10)]
    }
}

/// The decimal representation of an integer: the magnitude's digits, after
/// a minus sign for negative values.
pub open spec fn dec_int(v: int) -> Seq<char> {
    if v < 0 {
        seq!['-'] + dec_digits((-v) as nat)
    } else {
        dec_digits(v as nat)
    }
}

/// The text of one decimal digit.
fn digit_str(d: u64) -> (s: &'static str)
    requires
        d < 10,
    ensures
        s@ == seq![digit_char(d as nat)],
{
    proof {
        reveal_strlit("0");
        reveal_strlit("1");
        reveal_strlit("2");
        reveal_strlit("3");
        reveal_strlit("4");
        reveal_strlit("5");
        reveal_strlit("6");
        reveal_strlit("7");
        reveal_strlit("8");
        reveal_strlit("9");
    }
    match d {
        0 => "0",
        1 => "1",
        2 => "2",
        3 => "3",
        4 => "4",
        5 => "5",
        6 => "6",
        7 => "7",
        8 => "8",
        _ => "9",
    }
}

/// The decimal text of an unsigned 64-bit value.
fn u64_text(n: u64) -> (s: String)
    ensures
        s@ == dec_digits(n as nat),
    decreases n,
{
    if n < 10 {
        digit_str(n).to_owned()
    } else {
        let mut s = u64_text(n / 10);
        s.append(digit_str(n % 10));
        proof {
            assert(s@ =~= dec_digits(n as nat));
        }
        s
    }
}

/// Plain-text rendering: the value as decimal text. It stands in for
/// display formatting, which the vector types expose through [`Vec2::to_text`]
/// and its siblings.
pub trait ToText: Sized {
    /// The rendered text at the specification level.
    spec fn text_spec(self) -> Seq<char>;

    /// Renders the value as decimal text.
    fn to_text(self) -> (s: String)
        ensures
            s@ == self.text_spec(),
    ;
}

impl ToText for u8 {
    open spec fn text_spec(self) -> Seq<char> {
        dec_digits(self as nat)
    }

    fn to_text(self) -> String {
        u64_text(self as u64)
    }
}

impl ToText for u16 {
    open spec fn text_spec(self) -> Seq<char> {
        dec_digits(self as nat)
    }

    fn to_text(self) -> String {
        u64_text(self as u64)
    }
}

impl ToText for u32 {
    open spec fn text_spec(self) -> Seq<char> {
        dec_digits(self as nat)
    }

    fn to_text(self) -> String {
        u64_text(self as u64)
    }
}

impl ToText for u64 {
    open spec fn text_spec(self) -> Seq<char> {
        dec_digits(self as nat)
    }

    fn to_text(self) -> String {
        u64_text(self)
    }
}

impl ToText for i32 {
    open spec fn text_spec(self) -> Seq<char> {
        dec_int(self as int)
    }

    fn to_text(self) -> String {
        if self >= 0 {
            u64_text(self as u64)
        } else {
            let m: u64 = if self == i32::MIN {
                0x8000_0000
            } else {
                (-self) as u64
            };
            proof {
                reveal_strlit("-");
            }
            let mut s = "-".to_owned();
            let t = u64_text(m);
            s.append(t.as_str());
            proof {
                assert(s@ =~= dec_int(self as int));
            }
            s
        }
    }
}

impl ToText for i64 {
    open spec fn text_spec(self) -> Seq<char> {
        dec_int(self as int)
    }

    fn to_text(self) -> String {
        if self >= 0 {
            u64_text(self as u64)
        } else {
            let m: u64 = if self == i64::MIN {
                0x8000_0000_0000_0000
            } else {
                (-self) as u64
            };
            proof {
                reveal_strlit("-");
            }
            let mut s = "-".to_owned();
            let t = u64_text(m);
            s.append(t.as_str());
            proof {
                assert(s@ =~= dec_int(self as int));
            }
            s
        }
    }
}

impl<T: ToText> Vec2<T> {
    /// The rendered text at the specification level: the components in
    /// declaration order, parenthesized and comma-separated.
    pub open spec fn text_spec(self) -> Seq<char> {
        seq!['('] + self.x.text_spec() + seq![',', ' '] + self.y.text_spec() + seq![')']
    }

    /// Renders the vector as a parenthesized, comma-separated tuple.
    pub fn to_text(self) -> (s: String)
        ensures
            s@ == self.text_spec(),
    {
        proof {
            reveal_strlit("(");
            reveal_strlit(", ");
            reveal_strlit(")");
        }
        let tx = self.x.to_text();
        let ty = self.y.to_text();
        let mut s = "(".to_owned();
        s.append(tx.as_str());
        s.append(", ");
        s.append(ty.as_str());
        s.append(")");
        proof {
            assert(s@ =~= self.text_spec());
        }
        s
    }
}

impl<T: ToText> Vec3<T> {
    /// The rendered text at the specification level: the components in
    /// declaration order, parenthesized and comma-separated.
    pub open spec fn text_spec(self) -> Seq<char> {
        seq!['('] + self.x.text_spec() + seq![',', ' '] + self.y.text_spec() + seq![',', ' ']
            + self.z.text_spec() + seq![')']
    }

    /// Renders the vector as a parenthesized, comma-separated tuple.
    pub fn to_text(self) -> (s: String)
        ensures
            s@ == self.text_spec(),
    {
        proof {
            reveal_strlit("(");
            reveal_strlit(", ");
            reveal_strlit(")");
        }
        let tx = self.x.to_text();
        let ty = self.y.to_text();
        let tz = self.z.to_text();
        let mut s = "(".to_owned();
        s.append(tx.as_str());
        s.append(", ");
        s.append(ty.as_str());
        s.append(", ");
        s.append(tz.as_str());
        s.append(")");
        proof {
            assert(s@ =~= self.text_spec());
        }
        s
    }
}

impl<T: ToText> Vec4<T> {
    /// The rendered text at the specification level: the components in
    /// declaration order, parenthesized and comma-separated.
    pub open spec fn text_spec(self) -> Seq<char> {
        seq!['('] + self.x.text_spec() + seq![',', ' '] + self.y.text_spec() + seq![',', ' ']
            + self.z.text_spec() + seq![',', ' '] + self.w.text_spec() + seq![')']
    }

    /// Renders the vector as a parenthesized, comma-separated tuple.
    pub fn to_text(self) -> (s: String)
        ensures
            s@ == self.text_spec(),
    {
        proof {
            reveal_strlit("(");
            reveal_strlit(", ");
            reveal_strlit(")");
        }
        let tx = self.x.to_text();
        let ty = self.y.to_text();
        let tz = self.z.to_text();
        let tw = self.w.to_text();
        let mut s = "(".to_owned();
        s.append(tx.as_str());
        s.append(", ");
        s.append(ty.as_str());
        s.append(", ");
        s.append(tz.as_str());
        s.append(", ");
        s.append(tw.as_str());
        s.append(")");
        proof {
            assert(s@ =~= self.text_spec());
        }
        s
    }
}

} // verus!
