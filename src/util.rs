//! Small text helpers.
use vstd::prelude::*;

verus! {

/// Whether `a` and `b` hold the same characters.
pub fn same_text(a: &str, b: &str) -> (r: bool)
    ensures
        r == (a@ == b@),
{
    let x = String::from_str(a);
    let y = String::from_str(b);
    x == y
}

/// `a` followed by `b`.
pub fn concat(a: &str, b: &str) -> (r: String)
    ensures
        r@ == a@ + b@,
{
    let mut r = String::from_str(a);
    r.append(b);
    r
}

/// `main.<name>`: a name in the default database.
pub open spec fn in_main(name: Seq<char>) -> Seq<char> {
    "main"@ + "."@ + name
}

pub fn main_qualified(name: &str) -> (r: String)
    ensures
        r@ == in_main(name@),
{
    let prefix = concat("main", ".");
    concat(prefix.as_str(), name)
}

/// The characters that open a quoted identifier.
pub open spec fn is_quote(c: char) -> bool {
    c == '"' || c == '[' || c == '`'
}

/// An identifier without its quotes: one that opens with a quote character
/// and has at least two characters loses its first and last character.
pub open spec fn unquoted(s: Seq<char>) -> Seq<char> {
    if s.len() >= 2 && is_quote(s[0]) {
        s.subrange(1, s.len() - 1)
    } else {
        s
    }
}

pub fn unquote_ident(s: &str) -> (r: &str)
    ensures
        r@ == unquoted(s@),
{
    let n = s.unicode_len();
    if n >= 2 {
        let c = s.get_char(0);
        if c == '"' || c == '[' || c == '`' {
            return s.substring_char(1, n - 1);
        }
    }
    s
}

} // verus!

verus! {

/// The character of a decimal digit.
pub open spec fn digit(d: nat) -> char {
    if d == 0 {
        '0'
    } else if d == 1 {
        '1'
    } else if d == 2 {
        '2'
    } else if d == 3 {
        '3'
    } else if d == 4 {
        '4'
    } else if d == 5 {
        '5'
    } else if d == 6 {
        '6'
    } else if d == 7 {
        '7'
    } else if d == 8 {
        '8'
    } else {
        '9'
    }
}

/// The decimal digits of `n`, without leading zeros.
pub open spec fn decimal(n: nat) -> Seq<char>
    decreases n,
{
    if n < 10 {
        seq![digit(n)]
    } else {
        decimal(n / 10) + seq![digit(n % 10)]
    }
}

} // verus!

verus! {

fn digit_text(d: usize) -> (r: &'static str)
    requires
        d < 10,
    ensures
        r@ == seq![digit(d as nat)],
{
    proof {
        reveal_strlit("0");
        reveal_strlit("1");
        reveal_strlit("2");
        reveal_strlit("3");
        reveal_strlit("4");
        reveal_strlit("5");
        reveal_strlit("6");
        reveal_strlit("7");
        reveal_strlit("8");
        reveal_strlit("9");
    }
    if d == 0 {
        "0"
    } else if d == 1 {
        "1"
    } else if d == 2 {
        "2"
    } else if d == 3 {
        "3"
    } else if d == 4 {
        "4"
    } else if d == 5 {
        "5"
    } else if d == 6 {
        "6"
    } else if d == 7 {
        "7"
    } else if d == 8 {
        "8"
    } else {
        "9"
    }
}

/// The decimal text of `n`.
pub fn decimal_text(n: usize) -> (r: String)
    ensures
        r@ == decimal(n as nat),
    decreases n,
{
    let d = digit_text(n % 10);
    if n < 10 {
        String::from_str(d)
    } else {
        let mut r = decimal_text(n / 10);
        r.append(d);
        r
    }
}

} // verus!
