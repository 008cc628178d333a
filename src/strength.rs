//! A yes/no strength test for passwords chosen at sign-up: at least eight
//! characters on one line, with a lower-case letter, an upper-case letter,
//! a digit and one of the symbols `!@#$%^&*()-_=+{};:,<.>`.

use crate::account::{has_digit, has_lower, has_upper, is_digit, is_lower, is_upper};
use vstd::prelude::*;

verus! {

/// The symbols of which a strong password holds at least one.
pub open spec fn is_symbol(c: char) -> bool {
    ||| c == '!'
    ||| c == '@'
    ||| c == '#'
    ||| c == '$'
    ||| c == '%'
    ||| c == '^'
    ||| c == '&'
    ||| c == '*'
    ||| c == '('
    ||| c == ')'
    ||| c == '-'
    ||| c == '_'
    ||| c == '='
    ||| c == '+'
    ||| c == '{'
    ||| c == '}'
    ||| c == ';'
    ||| c == ':'
    ||| c == ','
    ||| c == '<'
    ||| c == '.'
    ||| c == '>'
}

pub open spec fn has_symbol(s: Seq<char>) -> bool {
    exists|i: int| 0 <= i < s.len() && is_symbol(#[trigger] s[i])
}

pub open spec fn one_line(s: Seq<char>) -> bool {
    forall|i: int| 0 <= i < s.len() ==> #[trigger] s[i] != '\n'
}

pub open spec fn is_strong(s: Seq<char>) -> bool {
    &&& s.len() >= 8
    &&& one_line(s)
    &&& has_lower(s)
    &&& has_upper(s)
    &&& has_digit(s)
    &&& has_symbol(s)
}

fn symbol(c: char) -> (r: bool)
    ensures
        r == is_symbol(c),
{
    c == '!' || c == '@' || c == '#' || c == '$' || c == '%' || c == '^' || c == '&' || c == '*'
        || c == '(' || c == ')' || c == '-' || c == '_' || c == '=' || c == '+' || c == '{' || c
        == '}' || c == ';' || c == ':' || c == ',' || c == '<' || c == '.' || c == '>'
}

/// Whether `pwd` is strong enough to sign up with.
pub fn validate_password(pwd: &str) -> (r: bool)
    ensures
        r == is_strong(pwd@),
{
    let n = pwd.unicode_len();
    let mut lower = false;
    let mut upper = false;
    let mut digit = false;
    let mut sym = false;
    let mut i: usize = 0;
    while i < n
        invariant
            n == pwd@.len(),
            i <= n,
            forall|k: int| 0 <= k < i ==> #[trigger] pwd@[k] != '\n',
            lower == exists|k: int| 0 <= k < i && is_lower(#[trigger] pwd@[k]),
            upper == exists|k: int| 0 <= k < i && is_upper(#[trigger] pwd@[k]),
            digit == exists|k: int| 0 <= k < i && is_digit(#[trigger] pwd@[k]),
            sym == exists|k: int| 0 <= k < i && is_symbol(#[trigger] pwd@[k]),
        decreases n - i,
    {
        let c = pwd.get_char(i);
        if c == '\n' {
            return false;
        }
        if 'a' <= c && c <= 'z' {
            lower = true;
        }
        if 'A' <= c && c <= 'Z' {
            upper = true;
        }
        if '0' <= c && c <= '9' {
            digit = true;
        }
        if symbol(c) {
            sym = true;
        }
        i = i + 1;
    }
    n >= 8 && lower && upper && digit && sym
}

} // verus!
