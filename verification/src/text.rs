//! Text helpers for destination paths and diagnostic messages: track-name
//! sanitization, path joining, and decimal rendering of exit codes.

use vstd::prelude::*;
use vstd::string::StrSliceExecFns;
use vstd::string::StringExecFns;

verus! {

/// Whether `c` is a path-separator character.
pub open spec fn is_path_separator(c: char) -> bool {
    c == '/' || c == '\\'
}

/// The character that stands in for `c` in a sanitized track name.
pub open spec fn replaced_char(c: char) -> char {
    if is_path_separator(c) {
        '_'
    } else {
        c
    }
}

/// A track title with every path-separator character replaced by an
/// underscore, so that a file name built from it never escapes the album
/// directory or creates unintended subdirectories.
pub open spec fn sanitized(s: Seq<char>) -> Seq<char> {
    s.map_values(|c: char| replaced_char(c))
}

/// Sanitization is total and idempotent: the result of [`sanitized`] never
/// holds a path separator, and sanitizing an already-sanitized name yields
/// the same string.
pub proof fn lemma_sanitized_idempotent(s: Seq<char>)
    ensures
        forall|i: int| 0 <= i < sanitized(s).len() ==> !is_path_separator(#[trigger] sanitized(s)[i]),
        sanitized(sanitized(s)) == sanitized(s),
{
    assert(sanitized(sanitized(s)) =~= sanitized(s));
}

/// Collects a vector of characters into a `String`.
///
/// Relies on `String`'s `FromIterator` implementation: collecting `char`s
/// yields the string holding exactly those characters in order.
#[verifier::external_body]
fn chars_to_string(v: Vec<char>) -> (r: String)
    ensures
        r@ == v@,
{
    v.into_iter().collect()
}

/// Replaces every path-separator character in a track title by an
/// underscore.
pub fn sanitize_track_name(name: &str) -> (r: String)
    ensures
        r@ == sanitized(name@),
{
    let n = name.unicode_len();
    let mut chars: Vec<char> = Vec::new();
    let mut i: usize = 0;
    while i < n
        invariant
            n == name@.len(),
            i <= n,
            chars@ == sanitized(name@.subrange(0, i as int)),
        decreases n - i,
    {
        let c = name.get_char(i);
        if c == '/' || c == '\\' {
            chars.push('_');
        } else {
            chars.push(c);
        }
        proof {
            assert(name@.subrange(0, i + 1 as int) =~= name@.subrange(0, i as int).push(
                name@[i as int],
            ));
            assert(chars@ =~= sanitized(name@.subrange(0, i + 1 as int)));
        }
        i = i + 1;
    }
    proof {
        assert(name@.subrange(0, n as int) =~= name@);
    }
    chars_to_string(chars)
}

/// Two path segments joined by a single separator.
pub open spec fn joined(a: Seq<char>, b: Seq<char>) -> Seq<char> {
    a + "/"@ + b
}

/// Joins two path segments with a `/` separator.
pub fn join_path(a: &str, b: &str) -> (r: String)
    ensures
        r@ == joined(a@, b@),
{
    let mut s = a.to_owned();
    s.append("/");
    s.append(b);
    s
}

/// The decimal digit character for `d`.
pub open spec fn digit_char(d: int) -> char {
    if d == 0 {
        '0'
    } else if d == 1 {
        '1'
    } else if d == 2 {
        '2'
    } else if d == 3 {
        '3'
    } else if d == 4 {
        '4'
    } else if d == 5 {
        '5'
    } else if d == 6 {
        '6'
    } else if d == 7 {
        '7'
    } else if d == 8 {
        '8'
    } else {
        '9'
    }
}

/// The decimal digits of a non-negative number, most significant first.
pub open spec fn dec_seq(n: nat) -> Seq<char>
    decreases n,
{
    if n < 10 {
        seq![digit_char(n as int)]
    } else {
        dec_seq(n / 10).push(digit_char((n % 10) as int))
    }
}

/// The decimal rendering of an integer, with a leading `-` when negative.
pub open spec fn int_dec(i: int) -> Seq<char> {
    if i < 0 {
        seq!['-'] + dec_seq((-i) as nat)
    } else {
        dec_seq(i as nat)
    }
}

/// The decimal digit character for `d`, executable form.
fn digit_char_exec(d: u32) -> (c: char)
    requires
        d < 10,
    ensures
        c == digit_char(d as int),
{
    if d == 0 {
        '0'
    } else if d == 1 {
        '1'
    } else if d == 2 {
        '2'
    } else if d == 3 {
        '3'
    } else if d == 4 {
        '4'
    } else if d == 5 {
        '5'
    } else if d == 6 {
        '6'
    } else if d == 7 {
        '7'
    } else if d == 8 {
        '8'
    } else {
        '9'
    }
}

/// Appends the decimal digits of `n` to `v`.
fn push_dec(v: &mut Vec<char>, n: u32)
    ensures
        final(v)@ == old(v)@ + dec_seq(n as nat),
    decreases n,
{
    if n < 10 {
        v.push(digit_char_exec(n));
    } else {
        push_dec(v, n / 10);
        v.push(digit_char_exec(n % 10));
    }
    proof {
        assert(v@ =~= old(v)@ + dec_seq(n as nat));
    }
}

/// Renders an exit code as decimal text.
pub fn i32_dec(n: i32) -> (r: String)
    ensures
        r@ == int_dec(n as int),
{
    let mut v: Vec<char> = Vec::new();
    if n < 0 {
        v.push('-');
        let m: u32 = (-(n as i64)) as u32;
        push_dec(&mut v, m);
        proof {
            assert(v@ =~= int_dec(n as int));
        }
    } else {
        push_dec(&mut v, n as u32);
    }
    chars_to_string(v)
}

} // verus!
