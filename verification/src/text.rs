//! Small text helpers shared by the panels, the search field and the
//! catalog request builders: fixed-width formatting, decimal rendering
//! of numeric identifiers, and single-character edits of a `String`.

use vstd::prelude::*;
use vstd::string::StrSliceExecFns;
use vstd::string::StringExecFns;

verus! {

/// A run of `n` spaces.
pub open spec fn spaces(n: nat) -> Seq<char> {
    Seq::new(n, |i: int| ' ')
}

/// `text` padded with spaces to `width` characters, or cut down to the
/// first `width` characters when it is longer.
pub open spec fn fit_spec(text: Seq<char>, width: nat) -> Seq<char> {
    if text.len() <= width {
        text + spaces((width - text.len()) as nat)
    } else {
        text.subrange(0, width as int)
    }
}

/// Pads or truncates `text` so that exactly `width` characters come back;
/// the panels use this to fill their fixed-width rows.
pub fn fit_string(text: &str, width: usize) -> (r: String)
    ensures
        r@ == fit_spec(text@, width as nat),
{
    let n = text.unicode_len();
    if n <= width {
        let mut s = text.to_owned();
        let mut i = n;
        while i < width
            invariant
                n <= i <= width,
                n == text@.len(),
                s@ == text@ + spaces((i - n) as nat),
            decreases width - i,
        {
            s.append(" ");
            proof {
                reveal_strlit(" ");
                assert(s@ =~= text@ + spaces((i + 1 - n) as nat));
            }
            i = i + 1;
        }
        proof {
            assert(s@ =~= fit_spec(text@, width as nat));
        }
        s
    } else {
        let cut = text.substring_char(0, width);
        cut.to_owned()
    }
}

/// Appends one character.
///
/// Relies on `String::push`: appends the given `char` to the end of the
/// string.
#[verifier::external_body]
pub fn push_char(s: &mut String, c: char)
    ensures
        final(s)@ == old(s)@.push(c),
{
    s.push(c);
}

/// Removes and returns the last character, or `None` when the string is
/// empty.
///
/// Relies on `String::pop`: removes the last character from the string
/// and returns it; returns `None` if the string is empty.
#[verifier::external_body]
pub fn pop_char(s: &mut String) -> (r: Option<char>)
    ensures
        old(s)@.len() == 0 ==> r is None && final(s)@ == old(s)@,
        old(s)@.len() > 0 ==> r == Some(old(s)@.last()) && final(s)@ == old(s)@.drop_last(),
{
    s.pop()
}

/// The character for one decimal digit.
pub open spec fn dec_digit(d: nat) -> char {
    if d == 0 {
        '0'
    } else if d == 1 {
        '1'
    } else if d == 2 {
        '2'
    } else if d == 3 {
        '3'
    } else if d == 4 {
        '4'
    } else if d == 5 {
        '5'
    } else if d == 6 {
        '6'
    } else if d == 7 {
        '7'
    } else if d == 8 {
        '8'
    } else {
        '9'
    }
}

/// The decimal digits of `n`, most significant first.
pub open spec fn dec_rep(n: nat) -> Seq<char>
    decreases n,
{
    if n < 10 {
        seq![dec_digit(n)]
    } else {
        dec_rep(n / 10).push(dec_digit(n % 10))
    }
}

fn digit_char(d: u32) -> (c: char)
    requires
        d < 10,
    ensures
        c == dec_digit(d as nat),
{
    match d {
        0 => '0',
        1 => '1',
        2 => '2',
        3 => '3',
        4 => '4',
        5 => '5',
        6 => '6',
        7 => '7',
        8 => '8',
        _ => '9',
    }
}

/// Renders `n` in decimal; catalog identifiers and loader codes that the
/// wire format carries as numbers are turned into strings with this.
pub fn u32_string(n: u32) -> (r: String)
    ensures
        r@ == dec_rep(n as nat),
    decreases n,
{
    if n < 10 {
        let mut s = String::new();
        push_char(&mut s, digit_char(n));
        proof {
            assert(s@ =~= dec_rep(n as nat));
        }
        s
    } else {
        let mut s = u32_string(n / 10);
        push_char(&mut s, digit_char(n % 10));
        s
    }
}

} // verus!
