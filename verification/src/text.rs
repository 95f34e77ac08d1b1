//! Small text helpers shared by the form and the service: the blank test
//! that field validation uses, decimal rendering of HTTP status codes, and
//! the bridge from accumulated characters back to `String`.

use vstd::prelude::*;

verus! {

/// What `char::is_whitespace` returns for a character. The Unicode
/// white-space property is far too large to restate here, so the result is
/// only named; everything proved about blank fields goes through this name.
pub uninterp spec fn is_space(c: char) -> bool;

/// Relies on `char::is_whitespace`: a pure function of the character alone,
/// deciding the Unicode white-space property. The documentation lists the
/// ASCII space among the white-space characters.
#[verifier::external_body]
fn char_is_space(c: char) -> (r: bool)
    ensures
        r == is_space(c),
        c == ' ' ==> r,
{
    c.is_whitespace()
}

/// A string is blank when it is empty after trimming whitespace, that is,
/// when every character in it is whitespace.
pub open spec fn blank(s: Seq<char>) -> bool {
    forall|i: int| 0 <= i < s.len() ==> is_space(s[i])
}

/// Decides whether a field is blank (empty after trimming whitespace).
pub fn is_blank(s: &str) -> (r: bool)
    ensures
        r == blank(s@),
{
    let n: usize = s.unicode_len();
    let mut i: usize = 0;
    while i < n
        invariant
            0 <= i <= n,
            n == s@.len(),
            forall|j: int| 0 <= j < i ==> is_space(s@[j]),
        decreases n - i,
    {
        if !char_is_space(s.get_char(i)) {
            return false;
        }
        i += 1;
    }
    true
}

/// Builds the `String` holding exactly the given characters.
///
/// Relies on `String: FromIterator<char>`: collecting characters yields the
/// string made of those characters in order.
#[verifier::external_body]
pub fn chars_to_string(v: &Vec<char>) -> (r: String)
    ensures
        r@ == v@,
{
    v.iter().collect()
}

/// The decimal digit character for `d` (meaningful for `0 <= d <= 9`).
pub open spec fn dec_digit(d: int) -> char {
    if d == 0 {
        '0'
    } else if d == 1 {
        '1'
    } else if d == 2 {
        '2'
    } else if d == 3 {
        '3'
    } else if d == 4 {
        '4'
    } else if d == 5 {
        '5'
    } else if d == 6 {
        '6'
    } else if d == 7 {
        '7'
    } else if d == 8 {
        '8'
    } else {
        '9'
    }
}

/// The decimal digits of `n` without a leading zero; empty for `n <= 0`.
pub open spec fn dec_str_pos(n: int) -> Seq<char>
    decreases n,
{
    if n <= 0 {
        Seq::empty()
    } else {
        dec_str_pos(n / 10).push(dec_digit(n % 10))
    }
}

/// The usual decimal rendering of a non-negative number.
pub open spec fn dec_str(n: int) -> Seq<char> {
    if n == 0 {
        seq!['0']
    } else {
        dec_str_pos(n)
    }
}

fn dec_digit_exec(d: u16) -> (r: char)
    requires
        d <= 9,
    ensures
        r == dec_digit(d as int),
{
    match d {
        0 => '0',
        1 => '1',
        2 => '2',
        3 => '3',
        4 => '4',
        5 => '5',
        6 => '6',
        7 => '7',
        8 => '8',
        _ => '9',
    }
}

/// Renders a status code in decimal.
pub fn u16_to_dec(n: u16) -> (r: String)
    ensures
        r@ == dec_str(n as int),
{
    if n == 0 {
        let v: Vec<char> = vec!['0'];
        assert(v@ =~= dec_str(0));
        return chars_to_string(&v);
    }
    let mut v: Vec<char> = Vec::new();
    let mut m: u16 = n;
    while m > 0
        invariant
            dec_str_pos(n as int) =~= dec_str_pos(m as int) + v@,
        decreases m,
    {
        let d = m % 10;
        v.insert(0, dec_digit_exec(d));
        proof {
            assert(dec_str_pos(m as int) == dec_str_pos(m as int / 10).push(dec_digit(m as int % 10)));
            assert(dec_str_pos(m as int / 10).push(dec_digit(m as int % 10)) + v@.skip(1) =~= dec_str_pos(
                m as int / 10,
            ) + v@);
        }
        m = m / 10;
    }
    chars_to_string(&v)
}

} // verus!
