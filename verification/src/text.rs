//! Text: bytes read as UTF-8, cells of fixed width, and decimal numerals.

use vstd::prelude::*;
use vstd::string::*;
use vstd::utf8::{decode_utf8, valid_utf8};

verus! {

/// Where the content of a cell stands when the cell is wider than the content.
#[derive(Clone, Copy, Debug, PartialEq, Eq, Structural)]
pub enum Align {
    Left,
    Center,
    Right,
}

/// The texts of the strings, in their order.
pub open spec fn texts(strings: Seq<String>) -> Seq<Seq<char>> {
    Seq::new(strings.len(), |i: int| strings[i]@)
}

/// `n` copies of `c`.
pub open spec fn run(c: char, n: nat) -> Seq<char> {
    Seq::new(n, |i: int| c)
}

/// The number of columns that a content of `len` characters leaves free in a
/// cell of `width` columns.
pub open spec fn free_columns(len: nat, width: nat) -> nat {
    if len >= width {
        0
    } else {
        (width - len) as nat
    }
}

/// The number of free columns that stand before the content. A centered
/// content has the smaller half before it.
pub open spec fn columns_before(len: nat, width: nat, align: Align) -> nat {
    match align {
        Align::Left => 0,
        Align::Center => free_columns(len, width) / 2,
        Align::Right => free_columns(len, width),
    }
}

/// The cell of `width` columns that holds `s`: the content is never cut, and
/// the free columns are blank.
pub open spec fn padded(s: Seq<char>, width: nat, align: Align) -> Seq<char> {
    let before = columns_before(s.len(), width, align);
    let after = (free_columns(s.len(), width) - before) as nat;
    run(' ', before) + s + run(' ', after)
}

/// A cell is as wide as asked for, unless its content is wider: then it is
/// as wide as the content.
pub proof fn lemma_padded_len(s: Seq<char>, width: nat, align: Align)
    ensures
        padded(s, width, align).len() == if s.len() >= width {
            s.len()
        } else {
            width
        },
{
}

/// `n` copies of the one character of `unit`.
fn repeat(unit: &str, n: usize) -> (out: String)
    requires
        unit@.len() == 1,
    ensures
        out@ == run(unit@[0], n as nat),
{
    let mut out = String::new();
    let mut i: usize = 0;
    while i < n
        invariant
            i <= n,
            unit@.len() == 1,
            out@ == run(unit@[0], i as nat),
        decreases n - i,
    {
        out.append(unit);
        i = i + 1;
    }
    out
}

/// A run of `n` blanks.
pub fn spaces(n: usize) -> (out: String)
    ensures
        out@ == run(' ', n as nat),
{
    proof {
        reveal_strlit(" ");
    }
    repeat(" ", n)
}

/// A run of `n` dashes.
pub fn dashes(n: usize) -> (out: String)
    ensures
        out@ == run('-', n as nat),
{
    proof {
        reveal_strlit("-");
    }
    repeat("-", n)
}

/// Lays `s` out in a cell of `width` columns. A content that is wider than
/// the cell is returned as it is.
pub fn pad(s: &str, width: usize, align: Align) -> (out: String)
    ensures
        out@ == padded(s@, width as nat, align),
{
    let len = s.unicode_len();
    let free: usize = if len >= width {
        0
    } else {
        width - len
    };
    let before: usize = match align {
        Align::Left => 0,
        Align::Center => free / 2,
        Align::Right => free,
    };
    let mut out = spaces(before);
    out.append(s);
    let tail = spaces(free - before);
    out.append(tail.as_str());
    out
}

/// The character for one decimal digit.
pub open spec fn digit(d: nat) -> char {
    if d == 0 {
        '0'
    } else if d == 1 {
        '1'
    } else if d == 2 {
        '2'
    } else if d == 3 {
        '3'
    } else if d == 4 {
        '4'
    } else if d == 5 {
        '5'
    } else if d == 6 {
        '6'
    } else if d == 7 {
        '7'
    } else if d == 8 {
        '8'
    } else {
        '9'
    }
}

/// The decimal numeral of `n`, without leading zeros.
pub open spec fn numeral(n: nat) -> Seq<char>
    decreases n,
{
    if n < 10 {
        seq![digit(n)]
    } else {
        numeral(n / 10).push(digit(n % 10))
    }
}

/// The decimal numeral of `v`, with a minus sign before a negative number.
pub open spec fn decimal(v: int) -> Seq<char> {
    if v < 0 {
        seq!['-'] + numeral((-v) as nat)
    } else {
        numeral(v as nat)
    }
}

/// The numeral of one digit.
fn digit_str(d: u64) -> (s: &'static str)
    requires
        d < 10,
    ensures
        s@ == seq![digit(d as nat)],
{
    proof {
        reveal_strlit("0");
        reveal_strlit("1");
        reveal_strlit("2");
        reveal_strlit("3");
        reveal_strlit("4");
        reveal_strlit("5");
        reveal_strlit("6");
        reveal_strlit("7");
        reveal_strlit("8");
        reveal_strlit("9");
    }
    if d == 0 {
        "0"
    } else if d == 1 {
        "1"
    } else if d == 2 {
        "2"
    } else if d == 3 {
        "3"
    } else if d == 4 {
        "4"
    } else if d == 5 {
        "5"
    } else if d == 6 {
        "6"
    } else if d == 7 {
        "7"
    } else if d == 8 {
        "8"
    } else {
        "9"
    }
}

/// Writes the numeral of `n` after what `out` holds.
fn append_numeral(out: &mut String, n: u64)
    ensures
        final(out)@ == old(out)@ + numeral(n as nat),
    decreases n,
{
    if n >= 10 {
        append_numeral(out, n / 10);
    }
    out.append(digit_str(n % 10));
}

/// Writes `v` in decimal.
pub fn decimal_text(v: i32) -> (out: String)
    ensures
        out@ == decimal(v as int),
{
    let mut out = String::new();
    let wide: i64 = v as i64;
    if wide < 0 {
        proof {
            reveal_strlit("-");
        }
        out.append("-");
        append_numeral(&mut out, (0 - wide) as u64);
    } else {
        append_numeral(&mut out, wide as u64);
    }
    out
}

/// Writes `n` in decimal.
pub fn ordinal_text(n: usize) -> (out: String)
    ensures
        out@ == numeral(n as nat),
{
    let mut out = String::new();
    append_numeral(&mut out, n as u64);
    out
}

/// `std::string::FromUtf8Error`. It is never looked into.
#[verifier::external_type_specification]
#[verifier::external_body]
pub struct ExFromUtf8Error(std::string::FromUtf8Error);

/// `String::from_utf8`: the text that the bytes are the UTF-8 encoding of,
/// and an error where they are the encoding of none.
#[verifier::external_body]
pub(crate) fn from_utf8(bytes: Vec<u8>) -> (r: Result<String, std::string::FromUtf8Error>)
    ensures
        match r {
            Ok(text) => valid_utf8(bytes@) && text@ == decode_utf8(bytes@),
            Err(_) => !valid_utf8(bytes@),
        },
{
    String::from_utf8(bytes)
}

} // verus!
