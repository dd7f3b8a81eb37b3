//! Case normalisation for severity levels and decimal rendering for
//! rotated-file sequence numbers.

use vstd::prelude::*;
use vstd::string::StrSliceExecFns;
use vstd::string::StringExecFns;

verus! {

/// The case-normal form of a character: an ASCII upper-case letter maps to
/// its lower-case counterpart, every other character stays as it is.
pub open spec fn lower_char(c: char) -> char {
    if 'A' <= c && c <= 'Z' {
        (((c as u8) + 32) as char)
    } else {
        c
    }
}

/// The case-normal form of a character sequence.
pub open spec fn lower_seq(s: Seq<char>) -> Seq<char> {
    s.map_values(|c: char| lower_char(c))
}

/// Relies on `String::push`: appends the given character to the end of the
/// string.
#[verifier::external_body]
fn push_char(s: &mut String, c: char)
    ensures
        final(s)@ == old(s)@.push(c),
{
    s.push(c);
}

/// Lower-case a string, character by character.
pub fn to_lower(s: &str) -> (r: String)
    ensures
        r@ == lower_seq(s@),
{
    let n = s.unicode_len();
    let mut r = String::new();
    let mut i: usize = 0;
    while i < n
        invariant
            n == s@.len(),
            i <= n,
            r@ == lower_seq(s@.take(i as int)),
        decreases n - i,
    {
        let c = s.get_char(i);
        let lc: char = if 'A' <= c && c <= 'Z' {
            (((c as u8) + 32) as char)
        } else {
            c
        };
        assert(lc == lower_char(s@[i as int]));
        push_char(&mut r, lc);
        assert(lower_seq(s@.take(i + 1 as int)) =~= lower_seq(s@.take(i as int)).push(lc));
        i = i + 1;
    }
    assert(s@.take(n as int) =~= s@);
    r
}

/// Case normalisation is idempotent: normalising twice is normalising once.
pub proof fn lemma_lower_idempotent(s: Seq<char>)
    ensures
        lower_seq(lower_seq(s)) == lower_seq(s),
{
    assert forall|i: int| 0 <= i < s.len() implies #[trigger] lower_seq(lower_seq(s))[i]
        == lower_seq(s)[i] by {
        assert(lower_seq(s)[i] == lower_char(s[i]));
        assert(lower_seq(lower_seq(s))[i] == lower_char(lower_char(s[i])));
    }
    assert(lower_seq(lower_seq(s)) =~= lower_seq(s));
}

/// The decimal digit characters.
pub open spec fn dec_digit(d: int) -> char {
    if d == 0 {
        '0'
    } else if d == 1 {
        '1'
    } else if d == 2 {
        '2'
    } else if d == 3 {
        '3'
    } else if d == 4 {
        '4'
    } else if d == 5 {
        '5'
    } else if d == 6 {
        '6'
    } else if d == 7 {
        '7'
    } else if d == 8 {
        '8'
    } else {
        '9'
    }
}

/// The usual decimal rendering of a non-negative integer, most significant
/// digit first, no leading zeroes (except for zero itself).
pub open spec fn dec_seq(n: int) -> Seq<char>
    decreases n,
{
    if n < 10 {
        seq![dec_digit(n)]
    } else {
        dec_seq(n / 10).push(dec_digit(n % 10))
    }
}

/// The decimal digit character of a value below ten.
fn dec_digit_char(d: u64) -> (c: char)
    requires
        d < 10,
    ensures
        c == dec_digit(d as int),
{
    match d {
        0 => '0',
        1 => '1',
        2 => '2',
        3 => '3',
        4 => '4',
        5 => '5',
        6 => '6',
        7 => '7',
        8 => '8',
        _ => '9',
    }
}

/// Render an integer in decimal.
pub fn u64_to_decimal(n: u64) -> (r: String)
    ensures
        r@ == dec_seq(n as int),
    decreases n,
{
    if n < 10 {
        let mut r = String::new();
        push_char(&mut r, dec_digit_char(n));
        proof {
            assert(r@ =~= dec_seq(n as int));
        }
        r
    } else {
        let mut r = u64_to_decimal(n / 10);
        push_char(&mut r, dec_digit_char(n % 10));
        r
    }
}

/// The name of the active log file for a base name.
pub open spec fn spec_active_file_name(base: Seq<char>) -> Seq<char> {
    base + ".log"@
}

/// The name under which the file of a given sequence index is archived
/// when it rotates out.
pub open spec fn spec_rotated_file_name(base: Seq<char>, sequence: int) -> Seq<char> {
    base + "."@ + dec_seq(sequence) + ".log"@
}

/// The active log file's name: `<base>.log`.
pub fn active_file_name(base: &str) -> (r: String)
    ensures
        r@ == spec_active_file_name(base@),
{
    let mut r = base.to_owned();
    r.append(".log");
    r
}

/// A rotated log file's name: `<base>.<sequence>.log`.
pub fn rotated_file_name(base: &str, sequence: u64) -> (r: String)
    ensures
        r@ == spec_rotated_file_name(base@, sequence as int),
{
    let mut r = base.to_owned();
    r.append(".");
    let digits = u64_to_decimal(sequence);
    r.append(digits.as_str());
    r.append(".log");
    r
}

} // verus!
