//! File names for exported screenshots.
use vstd::prelude::*;

use crate::choice::{format_of, Choice};

verus! {

pub open spec fn digit_char(d: nat) -> char {
    if d == 0 { '0' }
    else if d == 1 { '1' }
    else if d == 2 { '2' }
    else if d == 3 { '3' }
    else if d == 4 { '4' }
    else if d == 5 { '5' }
    else if d == 6 { '6' }
    else if d == 7 { '7' }
    else if d == 8 { '8' }
    else { '9' }
}

/// The last `k` decimal digits of `n`, most significant first.
pub open spec fn last_digits(n: nat, k: nat) -> Seq<char>
    decreases k,
{
    if k == 0 {
        Seq::empty()
    } else {
        last_digits(n / 10, (k - 1) as nat).push(digit_char(n % 10))
    }
}

/// How many decimal digits `n` has (one for zero).
pub open spec fn digit_count(n: nat) -> nat
    decreases n,
{
    if n < 10 { 1 } else { 1 + digit_count(n / 10) }
}

/// `n` in decimal, padded with leading zeros to at least `width` digits.
pub open spec fn padded(n: nat, width: nat) -> Seq<char> {
    last_digits(n, if digit_count(n) < width { width } else { digit_count(n) })
}

fn digit_str(d: u64) -> (r: &'static str)
    requires
        d < 10,
    ensures
        r@ == seq![digit_char(d as nat)],
{
    proof {
        reveal_strlit("0");
        reveal_strlit("1");
        reveal_strlit("2");
        reveal_strlit("3");
        reveal_strlit("4");
        reveal_strlit("5");
        reveal_strlit("6");
        reveal_strlit("7");
        reveal_strlit("8");
        reveal_strlit("9");
    }
    let r = if d == 0 { "0" }
    else if d == 1 { "1" }
    else if d == 2 { "2" }
    else if d == 3 { "3" }
    else if d == 4 { "4" }
    else if d == 5 { "5" }
    else if d == 6 { "6" }
    else if d == 7 { "7" }
    else if d == 8 { "8" }
    else { "9" };
    assert(r@ =~= seq![digit_char(d as nat)]);
    r
}

fn push_last_digits(s: &mut String, n: u64, k: usize)
    ensures
        final(s)@ == old(s)@ + last_digits(n as nat, k as nat),
    decreases k,
{
    if k == 0 {
        assert(s@ =~= old(s)@ + last_digits(n as nat, k as nat));
        return ;
    }
    push_last_digits(s, n / 10, k - 1);
    s.append(digit_str(n % 10));
    assert(s@ =~= old(s)@ + last_digits(n as nat, k as nat));
}

fn count_digits(n: u64) -> (r: usize)
    ensures
        r == digit_count(n as nat),
        r <= 20,
    decreases n,
{
    proof {
        lemma_digit_count_small(n as nat);
    }
    if n < 10 {
        1
    } else {
        1 + count_digits(n / 10)
    }
}

pub open spec fn pow10(k: nat) -> nat
    decreases k,
{
    if k == 0 { 1 } else { 10 * pow10((k - 1) as nat) }
}

proof fn lemma_digit_count_le(n: nat, k: nat)
    requires
        k >= 1,
        n < pow10(k),
    ensures
        digit_count(n) <= k,
    decreases k,
{
    if n >= 10 {
        assert(k >= 2) by {
            if k == 1 {
                assert(pow10(1) == 10 * pow10(0));
            }
        }
        assert(pow10(k) == 10 * pow10((k - 1) as nat));
        assert(n / 10 < pow10((k - 1) as nat));
        lemma_digit_count_le(n / 10, (k - 1) as nat);
    }
}

proof fn lemma_digit_count_small(n: nat)
    requires
        n <= u64::MAX,
    ensures
        digit_count(n) <= 20,
{
    reveal_with_fuel(pow10, 21);
    assert(pow10(20) == 100000000000000000000);
    lemma_digit_count_le(n, 20);
}

/// Appends `n` in decimal, zero-padded to at least `width` digits.
pub fn push_padded(s: &mut String, n: u64, width: usize)
    ensures
        final(s)@ == old(s)@ + padded(n as nat, width as nat),
{
    let c = count_digits(n);
    let k = if c < width { width } else { c };
    push_last_digits(s, n, k);
}

/// The base name of a screenshot taken at the given date and time:
/// `Screenshot_{yyyy}_{mm}_{dd}_{HH}_{MM}_{SS}`, each field zero-padded.
pub open spec fn stamp_of(year: nat, month: nat, day: nat, hour: nat, minute: nat, second: nat) -> Seq<char> {
    seq!['S', 'c', 'r', 'e', 'e', 'n', 's', 'h', 'o', 't', '_'] + padded(year, 4) + seq!['_'] + padded(month, 2)
        + seq!['_'] + padded(day, 2) + seq!['_'] + padded(hour, 2) + seq!['_'] + padded(minute, 2)
        + seq!['_'] + padded(second, 2)
}

/// Formats the screenshot base name for a date and time.
pub fn screenshot_stamp(year: u32, month: u32, day: u32, hour: u32, minute: u32, second: u32) -> (r: String)
    ensures
        r@ == stamp_of(year as nat, month as nat, day as nat, hour as nat, minute as nat, second as nat),
{
    let mut s = String::from_str("Screenshot_");
    proof {
        reveal_strlit("Screenshot_");
        reveal_strlit("_");
    }
    push_padded(&mut s, year as u64, 4);
    s.append("_");
    push_padded(&mut s, month as u64, 2);
    s.append("_");
    push_padded(&mut s, day as u64, 2);
    s.append("_");
    push_padded(&mut s, hour as u64, 2);
    s.append("_");
    push_padded(&mut s, minute as u64, 2);
    s.append("_");
    push_padded(&mut s, second as u64, 2);
    assert(s@ =~= stamp_of(year as nat, month as nat, day as nat, hour as nat, minute as nat, second as nat));
    s
}

/// The path an autosaved image goes to: the directory prefix, the stamp,
/// `_` and the slot index, then the format's suffix.
pub open spec fn autosave_path_of(dir: Seq<char>, stamp: Seq<char>, index: nat, format: Choice) -> Seq<char> {
    dir + stamp + seq!['_'] + padded(index, 0) + format_of(format)
}

/// Builds the path an autosaved image of slot `index` goes to.
pub fn autosave_path(dir: &str, stamp: &str, index: usize, format: Choice) -> (r: String)
    ensures
        r@ == autosave_path_of(dir@, stamp@, index as nat, format),
{
    let mut s = String::from_str(dir);
    s.append(stamp);
    proof {
        reveal_strlit("_");
    }
    s.append("_");
    push_padded(&mut s, index as u64, 0);
    let suffix = format.to_format();
    s.append(suffix.as_str());
    assert(s@ =~= autosave_path_of(dir@, stamp@, index as nat, format));
    s
}

} // verus!
