//! Small verified string utilities: decimal formatting and parsing, and
//! the slug/username normalization used when provisioning users.

use vstd::prelude::*;

verus! {

/// Relies on String::push: appends exactly one character at the end.
#[verifier::external_body]
pub fn push_char(s: &mut String, c: char)
    ensures
        final(s)@ == old(s)@.push(c),
{
    s.push(c);
}

pub open spec fn decimal_digit(d: int) -> char
    recommends
        0 <= d <= 9,
{
    if d == 0 { '0' }
    else if d == 1 { '1' }
    else if d == 2 { '2' }
    else if d == 3 { '3' }
    else if d == 4 { '4' }
    else if d == 5 { '5' }
    else if d == 6 { '6' }
    else if d == 7 { '7' }
    else if d == 8 { '8' }
    else { '9' }
}

/// The usual base-10 rendering of a nonnegative integer, most significant
/// digit first, with no leading zeros (and "0" for zero).
pub open spec fn spec_decimal(n: int) -> Seq<char>
    recommends
        n >= 0,
    decreases n,
{
    if n <= 9 {
        seq![decimal_digit(n)]
    } else {
        spec_decimal(n / 10).push(decimal_digit(n % 10))
    }
}

fn digit_char(d: u64) -> (c: char)
    requires
        d <= 9,
    ensures
        c == decimal_digit(d as int),
{
    match d {
        0 => '0',
        1 => '1',
        2 => '2',
        3 => '3',
        4 => '4',
        5 => '5',
        6 => '6',
        7 => '7',
        8 => '8',
        _ => '9',
    }
}

/// Renders `n` in decimal.
pub fn u64_to_decimal(n: u64) -> (r: String)
    ensures
        r@ == spec_decimal(n as int),
    decreases n,
{
    if n <= 9 {
        let mut s = String::new();
        push_char(&mut s, digit_char(n));
        assert(s@ =~= spec_decimal(n as int));
        s
    } else {
        let mut s = u64_to_decimal(n / 10);
        push_char(&mut s, digit_char(n % 10));
        s
    }
}

pub open spec fn is_decimal_char(c: char) -> bool {
    48 <= c as int <= 57
}

pub open spec fn decimal_char_val(c: char) -> int {
    c as int - 48
}

pub open spec fn all_decimal_chars(s: Seq<char>) -> bool {
    forall|i: int| 0 <= i < s.len() ==> is_decimal_char(#[trigger] s[i])
}

/// The value of a string of decimal digits, most significant first.
pub open spec fn decimal_chars_val(s: Seq<char>) -> int
    decreases s.len(),
{
    if s.len() == 0 {
        0
    } else {
        decimal_chars_val(s.drop_last()) * 10 + decimal_char_val(s.last())
    }
}

proof fn lemma_decimal_chars_val_nonneg(s: Seq<char>)
    requires
        all_decimal_chars(s),
    ensures
        decimal_chars_val(s) >= 0,
    decreases s.len(),
{
    if s.len() > 0 {
        assert(all_decimal_chars(s.drop_last()));
        lemma_decimal_chars_val_nonneg(s.drop_last());
    }
}

proof fn lemma_decimal_chars_val_step(s: Seq<char>, i: int)
    requires
        0 <= i < s.len(),
    ensures
        decimal_chars_val(s.take(i + 1)) == decimal_chars_val(s.take(i)) * 10 + decimal_char_val(
            s[i],
        ),
{
    assert(s.take(i + 1).drop_last() =~= s.take(i));
    assert(s.take(i + 1).last() == s[i]);
}

proof fn lemma_decimal_chars_val_grows(s: Seq<char>, i: int)
    requires
        all_decimal_chars(s),
        0 <= i <= s.len(),
    ensures
        decimal_chars_val(s.take(i)) <= decimal_chars_val(s),
    decreases s.len() - i,
{
    if i < s.len() {
        assert(forall|j: int| 0 <= j < s.take(i).len() ==> is_decimal_char(#[trigger] s.take(i)[j]));
        lemma_decimal_chars_val_nonneg(s.take(i));
        lemma_decimal_chars_val_step(s, i);
        lemma_decimal_chars_val_grows(s, i + 1);
    } else {
        assert(s.take(i) =~= s);
    }
}

/// The integer denoted by `s`: an optional sign followed by at least one
/// digit, valued within the bounds of `i64`. Anything else denotes nothing.
pub open spec fn spec_parse_i64(s: Seq<char>) -> Option<i64> {
    if s.len() > 0 && (s[0] == '-' || s[0] == '+') {
        let mag = s.drop_first();
        if mag.len() > 0 && all_decimal_chars(mag) {
            let v = if s[0] == '-' {
                -decimal_chars_val(mag)
            } else {
                decimal_chars_val(mag)
            };
            if i64::MIN <= v <= i64::MAX {
                Some(v as i64)
            } else {
                None
            }
        } else {
            None
        }
    } else {
        if s.len() > 0 && all_decimal_chars(s) && decimal_chars_val(s) <= i64::MAX {
            Some(decimal_chars_val(s) as i64)
        } else {
            None
        }
    }
}

/// Parses the magnitude `digits` (all decimal, nonempty) into a `u64`,
/// or reports `None` when the value exceeds `bound`.
fn parse_magnitude(s: &str, start: usize, len: usize, bound: u64) -> (r: Option<u64>)
    requires
        start <= len,
        len == s@.len(),
        bound >= 9,
    ensures
        ({
            let digits = s@.subrange(start as int, len as int);
            match r {
                Some(v) => digits.len() > 0 && all_decimal_chars(digits) && v == decimal_chars_val(
                    digits,
                ) && v <= bound,
                None => digits.len() == 0 || !all_decimal_chars(digits) || decimal_chars_val(
                    digits,
                ) > bound,
            }
        }),
{
    let ghost digits = s@.subrange(start as int, len as int);
    if start == len {
        return None;
    }
    let mut acc: u64 = 0;
    let mut i: usize = start;
    while i < len
        invariant
            bound >= 9,
            start <= i <= len,
            len == s@.len(),
            digits == s@.subrange(start as int, len as int),
            all_decimal_chars(digits.take(i - start)),
            acc == decimal_chars_val(digits.take(i - start)),
            acc <= bound,
        decreases len - i,
    {
        let c = s.get_char(i);
        let u = c as u32;
        let ghost k = i - start;
        proof {
            assert(digits[k] == s@[i as int]);
        }
        if !(48 <= u && u <= 57) {
            proof {
                assert(!is_decimal_char(digits[k]));
            }
            return None;
        }
        let d: u64 = (u - 48) as u64;
        proof {
            lemma_decimal_chars_val_step(digits, k);
            assert(digits.take(k + 1) =~= digits.take(k).push(digits[k]));
        }
        if acc > (bound - d) / 10 {
            proof {
                assert(decimal_chars_val(digits.take(k + 1)) == acc * 10 + d);
                assert(acc * 10 + d > bound) by (nonlinear_arith)
                    requires
                        acc > (bound - d) / 10,
                        d <= 9,
                        bound >= d,
                        acc >= 0,
                ;
                if all_decimal_chars(digits) {
                    lemma_decimal_chars_val_grows(digits, k + 1);
                }
            }
            return None;
        }
        proof {
            assert(acc * 10 + d <= bound) by (nonlinear_arith)
                requires
                    acc <= (bound - d) / 10,
                    d <= 9,
                    bound >= d,
                    acc >= 0,
            ;
        }
        acc = acc * 10 + d;
        i = i + 1;
    }
    proof {
        assert(digits.take(len - start) =~= digits);
    }
    Some(acc)
}

/// Parses `s` as a decimal `i64`, accepting an optional leading sign,
/// exactly when `s` denotes a value in range.
pub fn parse_i64(s: &str) -> (r: Option<i64>)
    ensures
        r == spec_parse_i64(s@),
{
    let len = s.unicode_len();
    if len == 0 {
        return None;
    }
    let first = s.get_char(0);
    if first == '-' {
        let mag = parse_magnitude(s, 1, len, 0x8000_0000_0000_0000u64);
        proof {
            assert(s@.subrange(1, len as int) =~= s@.drop_first());
        }
        match mag {
            Some(v) => {
                if v == 0x8000_0000_0000_0000u64 {
                    Some(i64::MIN)
                } else {
                    Some(-(v as i64))
                }
            },
            None => None,
        }
    } else if first == '+' {
        let mag = parse_magnitude(s, 1, len, i64::MAX as u64);
        proof {
            assert(s@.subrange(1, len as int) =~= s@.drop_first());
        }
        match mag {
            Some(v) => Some(v as i64),
            None => None,
        }
    } else {
        let mag = parse_magnitude(s, 0, len, i64::MAX as u64);
        proof {
            assert(s@.subrange(0, len as int) =~= s@);
        }
        match mag {
            Some(v) => Some(v as i64),
            None => None,
        }
    }
}

pub open spec fn is_slug_keep_char(c: char) -> bool {
    (97 <= c as int <= 122) || (65 <= c as int <= 90) || (48 <= c as int <= 57) || c == '-'
}

pub open spec fn lower_char(c: char) -> char {
    if c == 'A' { 'a' }
    else if c == 'B' { 'b' }
    else if c == 'C' { 'c' }
    else if c == 'D' { 'd' }
    else if c == 'E' { 'e' }
    else if c == 'F' { 'f' }
    else if c == 'G' { 'g' }
    else if c == 'H' { 'h' }
    else if c == 'I' { 'i' }
    else if c == 'J' { 'j' }
    else if c == 'K' { 'k' }
    else if c == 'L' { 'l' }
    else if c == 'M' { 'm' }
    else if c == 'N' { 'n' }
    else if c == 'O' { 'o' }
    else if c == 'P' { 'p' }
    else if c == 'Q' { 'q' }
    else if c == 'R' { 'r' }
    else if c == 'S' { 's' }
    else if c == 'T' { 't' }
    else if c == 'U' { 'u' }
    else if c == 'V' { 'v' }
    else if c == 'W' { 'w' }
    else if c == 'X' { 'x' }
    else if c == 'Y' { 'y' }
    else if c == 'Z' { 'z' }
    else { c }
}

/// What one character of the input contributes to a slug: a space becomes
/// a dash, letters and digits are kept lower-cased, everything else is
/// dropped.
pub open spec fn slug_char(c: char) -> Seq<char> {
    if c == ' ' {
        seq!['-']
    } else if is_slug_keep_char(c) {
        seq![lower_char(c)]
    } else {
        Seq::<char>::empty()
    }
}

pub open spec fn spec_slug(s: Seq<char>) -> Seq<char>
    decreases s.len(),
{
    if s.len() == 0 {
        Seq::<char>::empty()
    } else {
        spec_slug(s.drop_last()) + slug_char(s.last())
    }
}

fn lower_char_exec(c: char) -> (r: char)
    ensures
        r == lower_char(c),
{
    match c {
        'A' => 'a',
        'B' => 'b',
        'C' => 'c',
        'D' => 'd',
        'E' => 'e',
        'F' => 'f',
        'G' => 'g',
        'H' => 'h',
        'I' => 'i',
        'J' => 'j',
        'K' => 'k',
        'L' => 'l',
        'M' => 'm',
        'N' => 'n',
        'O' => 'o',
        'P' => 'p',
        'Q' => 'q',
        'R' => 'r',
        'S' => 's',
        'T' => 't',
        'U' => 'u',
        'V' => 'v',
        'W' => 'w',
        'X' => 'x',
        'Y' => 'y',
        'Z' => 'z',
        _ => c,
    }
}

/// Turns free text into a URL-safe slug: spaces become dashes, ASCII
/// letters and digits are kept lower-cased, and every other character is
/// removed.
pub fn format_slug(base: String) -> (r: String)
    ensures
        r@ == spec_slug(base@),
{
    let len = base.as_str().unicode_len();
    let mut out = String::new();
    let mut i: usize = 0;
    while i < len
        invariant
            i <= len,
            len == base@.len(),
            out@ == spec_slug(base@.take(i as int)),
        decreases len - i,
    {
        let c = base.as_str().get_char(i);
        let u = c as u32;
        proof {
            assert(base@.take(i + 1).drop_last() =~= base@.take(i as int));
            assert(base@.take(i + 1).last() == base@[i as int]);
        }
        if c == ' ' {
            push_char(&mut out, '-');
        } else if (97 <= u && u <= 122) || (65 <= u && u <= 90) || (48 <= u && u <= 57) || c == '-' {
            push_char(&mut out, lower_char_exec(c));
            proof {
                assert(out@ =~= spec_slug(base@.take(i as int)) + slug_char(base@[i as int]));
            }
        } else {
            proof {
                assert(out@ =~= spec_slug(base@.take(i as int)) + slug_char(base@[i as int]));
            }
        }
        i = i + 1;
    }
    proof {
        assert(base@.take(len as int) =~= base@);
    }
    out
}

/// Normalizes a username with the same rules as [`format_slug`].
pub fn clean_username(username: String) -> (r: String)
    ensures
        r@ == spec_slug(username@),
{
    format_slug(username)
}

} // verus!
