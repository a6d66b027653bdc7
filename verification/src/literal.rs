//! Literal text of scalars.
//!
//! Integers and booleans are rendered here. The escaping of characters and
//! strings is left to `quote` and to `std`, whose results are named, not
//! restated.

use vstd::prelude::*;
use vstd::string::StringExecFns;
use crate::sink::{joined, rendered};

verus! {

/// The character of one decimal digit.
pub open spec fn digit(d: nat) -> char {
    seq!['0', '1', '2', '3', '4', '5', '6', '7', '8', '9'][d as int]
}

/// The decimal digits of a natural number, most significant first, without
/// leading zeros.
pub open spec fn digits(n: nat) -> Seq<char>
    decreases n,
{
    if n < 10 {
        seq![digit(n)]
    } else {
        digits(n / 10).push(digit(n % 10))
    }
}

/// The decimal text of an integer: a minus sign for a negative one, then the
/// digits of its magnitude.
pub open spec fn decimal(n: int) -> Seq<char> {
    if n < 0 {
        seq!['-'] + digits((-n) as nat)
    } else {
        digits(n as nat)
    }
}

/// The text of a boolean.
pub open spec fn bool_text(b: bool) -> Seq<char> {
    if b {
        "true"@
    } else {
        "false"@
    }
}

/// The literal that `quote` writes for a string: the result of
/// `<str as quote::ToTokens>::to_tokens`, quotes included.
pub uninterp spec fn str_literal(s: Seq<char>) -> Seq<char>;

/// The literal that `quote` writes for a character: the result of
/// `<char as quote::ToTokens>::to_tokens`, quotes included.
pub uninterp spec fn char_literal(c: char) -> Seq<char>;

/// The text that `std` writes for a character under `{:?}`.
pub uninterp spec fn char_debug(c: char) -> Seq<char>;

/// `<str as quote::ToTokens>::to_tokens`: appends one fragment, the escaped
/// and quoted string.
#[verifier::external_body]
pub(crate) fn append_str_literal(tokens: &mut quote::Tokens, s: &str)
    ensures
        rendered(*final(tokens)) == joined(rendered(*old(tokens)), str_literal(s@)),
{
    quote::ToTokens::to_tokens(s, tokens)
}

/// `<char as quote::ToTokens>::to_tokens`: appends one fragment, the escaped
/// and quoted character.
#[verifier::external_body]
pub(crate) fn append_char_literal(tokens: &mut quote::Tokens, c: char)
    ensures
        rendered(*final(tokens)) == joined(rendered(*old(tokens)), char_literal(c)),
{
    quote::ToTokens::to_tokens(&c, tokens)
}

/// `format!("{:?}", c)` for a character.
#[verifier::external_body]
pub(crate) fn debug_char(c: char) -> (text: String)
    ensures
        text@ == char_debug(c),
{
    format!("{:?}", c)
}

fn digit_str(d: u8) -> (s: &'static str)
    requires
        d < 10,
    ensures
        s@ == seq![digit(d as nat)],
{
    proof {
        reveal_strlit("0");
        reveal_strlit("1");
        reveal_strlit("2");
        reveal_strlit("3");
        reveal_strlit("4");
        reveal_strlit("5");
        reveal_strlit("6");
        reveal_strlit("7");
        reveal_strlit("8");
        reveal_strlit("9");
    }
    let s = match d {
        0 => "0",
        1 => "1",
        2 => "2",
        3 => "3",
        4 => "4",
        5 => "5",
        6 => "6",
        7 => "7",
        8 => "8",
        _ => "9",
    };
    assert(s@ =~= seq![digit(d as nat)]);
    s
}

fn push_digits(n: u128, out: &mut String)
    ensures
        final(out)@ == old(out)@ + digits(n as nat),
    decreases n,
{
    if n >= 10 {
        push_digits(n / 10, out);
    }
    out.append(digit_str((n % 10) as u8));
    assert(out@ =~= old(out)@ + digits(n as nat));
}

/// Appends the decimal text of `n` to `out`.
pub fn push_decimal(n: i128, out: &mut String)
    ensures
        final(out)@ == old(out)@ + decimal(n as int),
{
    if n < 0 {
        out.append("-");
        proof {
            reveal_strlit("-");
        }
        let magnitude: u128 = if n == i128::MIN {
            0x8000_0000_0000_0000_0000_0000_0000_0000u128
        } else {
            (-n) as u128
        };
        push_digits(magnitude, out);
        assert(out@ =~= old(out)@ + decimal(n as int));
    } else {
        push_digits(n as u128, out);
    }
}

/// The text of a boolean: `true` or `false`.
pub fn bool_str(b: bool) -> (s: &'static str)
    ensures
        s@ == bool_text(b),
{
    if b {
        "true"
    } else {
        "false"
    }
}

/// An integer of one of the ten machine types.
#[derive(Clone, Copy, Debug, PartialEq, Eq)]
pub enum Integer {
    I8(i8),
    U8(u8),
    I16(i16),
    U16(u16),
    I32(i32),
    U32(u32),
    I64(i64),
    U64(u64),
    Isize(isize),
    Usize(usize),
}

impl Integer {
    /// The number held.
    pub open spec fn value(self) -> int {
        match self {
            Integer::I8(v) => v as int,
            Integer::U8(v) => v as int,
            Integer::I16(v) => v as int,
            Integer::U16(v) => v as int,
            Integer::I32(v) => v as int,
            Integer::U32(v) => v as int,
            Integer::I64(v) => v as int,
            Integer::U64(v) => v as int,
            Integer::Isize(v) => v as int,
            Integer::Usize(v) => v as int,
        }
    }

    /// The name of the type, which follows the digits in a literal.
    pub open spec fn suffix(self) -> Seq<char> {
        match self {
            Integer::I8(_) => "i8"@,
            Integer::U8(_) => "u8"@,
            Integer::I16(_) => "i16"@,
            Integer::U16(_) => "u16"@,
            Integer::I32(_) => "i32"@,
            Integer::U32(_) => "u32"@,
            Integer::I64(_) => "i64"@,
            Integer::U64(_) => "u64"@,
            Integer::Isize(_) => "isize"@,
            Integer::Usize(_) => "usize"@,
        }
    }

    /// The literal: the decimal text, then the type's name (`42i32`).
    pub open spec fn literal(self) -> Seq<char> {
        decimal(self.value()) + self.suffix()
    }

    /// The number held, widened.
    pub fn widened(&self) -> (n: i128)
        ensures
            n == self.value(),
    {
        match *self {
            Integer::I8(v) => v as i128,
            Integer::U8(v) => v as i128,
            Integer::I16(v) => v as i128,
            Integer::U16(v) => v as i128,
            Integer::I32(v) => v as i128,
            Integer::U32(v) => v as i128,
            Integer::I64(v) => v as i128,
            Integer::U64(v) => v as i128,
            Integer::Isize(v) => v as i128,
            Integer::Usize(v) => v as i128,
        }
    }

    /// The name of the type.
    pub fn suffix_str(&self) -> (s: &'static str)
        ensures
            s@ == self.suffix(),
    {
        match *self {
            Integer::I8(_) => "i8",
            Integer::U8(_) => "u8",
            Integer::I16(_) => "i16",
            Integer::U16(_) => "u16",
            Integer::I32(_) => "i32",
            Integer::U32(_) => "u32",
            Integer::I64(_) => "i64",
            Integer::U64(_) => "u64",
            Integer::Isize(_) => "isize",
            Integer::Usize(_) => "usize",
        }
    }

    /// The literal of this integer, as one string.
    pub fn to_literal(&self) -> (text: String)
        ensures
            text@ == self.literal(),
    {
        let mut text = String::new();
        push_decimal(self.widened(), &mut text);
        text.append(self.suffix_str());
        assert(text@ =~= self.literal());
        text
    }
}

/// The decimal text of an index.
pub fn index_text(i: usize) -> (text: String)
    ensures
        text@ == decimal(i as int),
{
    let mut text = String::new();
    push_decimal(i as i128, &mut text);
    assert(text@ =~= decimal(i as int));
    text
}

} // verus!
