//! Calendar dates as the Linear API writes them (`YYYY-MM-DD`, optionally
//! followed by an ISO 8601 time), parsed with `chrono` and shown as
//! `MM-DD-YYYY`.

use chrono::{Datelike, Timelike};
use crate::text::{decimal, owned, push_char, push_str};
use vstd::prelude::*;
use vstd::string::StringSliceAdditionalSpecFns;
use vstd::utf8::{decode_utf8, encode_utf8, is_char_boundary};

verus! {

/// A calendar date as (year, month, day).
pub type Ymd = (i32, u32, u32);

/// The date that `chrono::NaiveDate::parse_from_str(s, "%Y-%m-%d")` reads
/// from `s`, as (year, month, day), or `None` when it fails.
pub uninterp spec fn naive_date_ymd(s: Seq<char>) -> Option<Ymd>;

/// Parses `s` with `chrono::NaiveDate::parse_from_str(s, "%Y-%m-%d")` and
/// returns the date's year, month and day. The parser's grammar is not
/// restated; what the documentation gives of a date is that its month lies in
/// `1..=12` and its day in `1..=31`.
#[verifier::external_body]
pub(crate) fn parse_ymd(s: &str) -> (r: Option<Ymd>)
    ensures
        r == naive_date_ymd(s@),
        r matches Some((y, m, d)) ==> 1 <= m <= 12 && 1 <= d <= 31,
{
    chrono::NaiveDate::parse_from_str(s, "%Y-%m-%d").ok().map(|d| (d.year(), d.month(), d.day()))
}

/// A date and a time of day to the minute: (year, month, day, hour, minute).
pub type Ymdhm = (i32, u32, u32, u32, u32);

/// The date and time that `chrono::NaiveDateTime::parse_from_str(s,
/// "%Y-%m-%dT%H:%M:%S%.f")` reads from `s`, to the minute, or `None`.
pub uninterp spec fn naive_datetime_ymdhm(s: Seq<char>) -> Option<Ymdhm>;

/// Parses `s` with `chrono::NaiveDateTime::parse_from_str(s,
/// "%Y-%m-%dT%H:%M:%S%.f")` and returns its date, hour and minute. The grammar
/// is not restated; the documented ranges of the fields are.
#[verifier::external_body]
pub(crate) fn parse_ymdhm(s: &str) -> (r: Option<Ymdhm>)
    ensures
        r == naive_datetime_ymdhm(s@),
        r matches Some((y, m, d, h, mi)) ==> 1 <= m <= 12 && 1 <= d <= 31 && h < 24 && mi < 60,
{
    chrono::NaiveDateTime::parse_from_str(s, "%Y-%m-%dT%H:%M:%S%.f").ok().map(
        |t| (t.year(), t.month(), t.day(), t.hour(), t.minute()),
    )
}

/// Today's date in UTC, from `chrono::Utc::now().date_naive()`. It depends on
/// the clock, so nothing names it; only the ranges of its fields are stated.
#[verifier::external_body]
pub(crate) fn today_utc() -> (r: Ymd)
    ensures
        1 <= r.1 <= 12 && 1 <= r.2 <= 31,
{
    let d = chrono::Utc::now().date_naive();
    (d.year(), d.month(), d.day())
}

/// Calendar order of dates.
pub open spec fn ymd_le(a: Ymd, b: Ymd) -> bool {
    a.0 < b.0 || (a.0 == b.0 && (a.1 < b.1 || (a.1 == b.1 && a.2 <= b.2)))
}

/// Whether `a` comes no later than `b`.
pub fn date_le(a: Ymd, b: Ymd) -> (r: bool)
    ensures
        r == ymd_le(a, b),
{
    a.0 < b.0 || (a.0 == b.0 && (a.1 < b.1 || (a.1 == b.1 && a.2 <= b.2)))
}

/// The characters made of the first `n` bytes of the UTF-8 encoding of `s`.
pub open spec fn byte_prefix(s: Seq<char>, n: int) -> Seq<char> {
    decode_utf8(encode_utf8(s).take(n))
}

/// Whether the 10-byte date prefix of `s` is cut at a character boundary,
/// which slicing `&s[..10]` needs.
pub open spec fn date_cut_ok(s: Seq<char>) -> bool {
    encode_utf8(s).len() >= 10 ==> is_char_boundary(encode_utf8(s), 10)
}

/// The part of a date string that holds the date: its first 10 bytes when it
/// has that many, else all of it.
pub open spec fn date_part(s: Seq<char>) -> Seq<char> {
    if encode_utf8(s).len() >= 10 {
        byte_prefix(s, 10)
    } else {
        s
    }
}

/// Whether the date part of `s` can be cut out of it: `s` is shorter than
/// 10 bytes or its 10th byte ends a character.
pub fn date_sliceable(s: &str) -> (r: bool)
    ensures
        r == date_cut_ok(s@),
{
    proof {
        vstd::utf8::encode_utf8_valid_utf8(s@);
        assert(s.spec_bytes() == encode_utf8(s@));
    }
    let bytes = s.as_bytes();
    bytes.len() < 10 || s.is_char_boundary(10)
}

/// The first 10 bytes of `s` when it has that many, else all of it.
pub fn date_part_of(s: &str) -> (r: &str)
    requires
        date_cut_ok(s@),
    ensures
        r@ == date_part(s@),
{
    proof {
        vstd::utf8::encode_utf8_valid_utf8(s@);
        assert(s.spec_bytes() == encode_utf8(s@));
    }
    if s.is_char_boundary(10) {
        let (a, _b) = s.split_at(10);
        proof {
            vstd::utf8::encode_utf8_decode_utf8(a@);
            assert(a.spec_bytes() == encode_utf8(a@));
            assert(encode_utf8(a@) =~= encode_utf8(s@).take(10));
        }
        a
    } else {
        s
    }
}

/// The date written in a date string: the date part read as `%Y-%m-%d`.
pub open spec fn spec_parse_date(s: Seq<char>) -> Option<Ymd> {
    naive_date_ymd(date_part(s))
}

/// Reads the date from a string that is either a plain date (`2024-12-30`)
/// or an ISO 8601 timestamp (`2024-12-30T00:00:00.000Z`).
pub fn parse_date(s: &str) -> (r: Option<Ymd>)
    requires
        date_cut_ok(s@),
    ensures
        r == spec_parse_date(s@),
        r matches Some((y, m, d)) ==> 1 <= m <= 12 && 1 <= d <= 31,
{
    parse_ymd(date_part_of(s))
}

/// Two digits, zero-padded, of a number below 100.
pub open spec fn two_digits(n: nat) -> Seq<char> {
    seq![crate::text::digit_char(n / 10), crate::text::digit_char(n % 10)]
}

/// Decimal digits of `n`, zero-padded on the left to at least four.
pub open spec fn four_digits(n: nat) -> Seq<char> {
    let d = decimal(n);
    if d.len() < 4 {
        Seq::new((4 - d.len()) as nat, |i: int| '0') + d
    } else {
        d
    }
}

/// How `chrono` writes a year for `%Y`: four digits for years 0 to 9999,
/// otherwise a sign followed by at least four digits.
pub open spec fn year_text(y: int) -> Seq<char> {
    if 0 <= y <= 9999 {
        four_digits(y as nat)
    } else if y > 9999 {
        seq!['+'] + four_digits(y as nat)
    } else {
        seq!['-'] + four_digits((-y) as nat)
    }
}

/// A date written as `MM-DD-YYYY`, the way `chrono` formats `%m-%d-%Y`.
pub open spec fn mdy_text(d: Ymd) -> Seq<char> {
    two_digits(d.1 as nat) + seq!['-'] + two_digits(d.2 as nat) + seq!['-'] + year_text(
        d.0 as int,
    )
}

fn push_two_digits(s: &mut String, n: u32)
    requires
        n < 100,
    ensures
        final(s)@ == old(s)@ + two_digits(n as nat),
{
    let tens = (n / 10) as u8;
    let ones = (n % 10) as u8;
    push_char(s, (48u8 + tens) as char);
    push_char(s, (48u8 + ones) as char);
    assert(final(s)@ =~= old(s)@ + two_digits(n as nat));
}

fn push_four_digits(s: &mut String, n: u64)
    ensures
        final(s)@ == old(s)@ + four_digits(n as nat),
{
    let ghost start = s@;
    let d = crate::text::format_u64(n);
    let dl = d.as_str().unicode_len();
    let mut k = dl;
    while k < 4
        invariant
            dl <= k,
            k <= 4 || k == dl,
            s@ == start + Seq::new((k - dl) as nat, |i: int| '0'),
        decreases 4 - k,
    {
        push_char(s, '0');
        assert(Seq::new((k + 1 - dl) as nat, |i: int| '0') =~= Seq::new(
            (k - dl) as nat,
            |i: int| '0',
        ).push('0'));
        k = k + 1;
    }
    push_str(s, d.as_str());
    if dl < 4 {
        assert(s@ =~= start + four_digits(n as nat));
    } else {
        assert(Seq::new(0, |i: int| '0') =~= Seq::<char>::empty());
        assert(s@ =~= start + four_digits(n as nat));
    }
}

/// Writes a date as `MM-DD-YYYY`.
pub fn format_mdy(d: Ymd) -> (r: String)
    requires
        d.1 < 100 && d.2 < 100,
    ensures
        r@ == mdy_text(d),
{
    let mut r = String::new();
    push_two_digits(&mut r, d.1);
    push_char(&mut r, '-');
    push_two_digits(&mut r, d.2);
    push_char(&mut r, '-');
    let y = d.0;
    if 0 <= y && y <= 9999 {
        push_four_digits(&mut r, y as u64);
    } else if y > 9999 {
        push_char(&mut r, '+');
        push_four_digits(&mut r, y as u64);
    } else {
        push_char(&mut r, '-');
        push_four_digits(&mut r, (-(y as i64)) as u64);
    }
    assert(r@ =~= mdy_text(d));
    r
}

/// A short date for display: the date part of `s` as `MM-DD-YYYY` when it
/// reads as a date, else `s` unchanged.
pub open spec fn short_date(s: Seq<char>) -> Seq<char> {
    match spec_parse_date(s) {
        Some(d) => mdy_text(d),
        None => s,
    }
}

/// Shortens a date string for display (`2024-12-30T...` shows as `12-30-2024`).
pub fn format_date_short(s: &str) -> (r: String)
    requires
        date_cut_ok(s@),
    ensures
        r@ == short_date(s@),
{
    match parse_date(s) {
        Some(d) => format_mdy(d),
        None => owned(s),
    }
}

/// `s` without its `'Z'` characters.
pub open spec fn without_z(s: Seq<char>) -> Seq<char> {
    s.filter(|c: char| c != 'Z')
}

/// Removes every `'Z'`, as `s.replace('Z', "")` does.
pub fn remove_z(s: &str) -> (r: String)
    ensures
        r@ == without_z(s@),
{
    let cs = crate::text::chars_of(s);
    let mut r = String::new();
    for i in 0..cs.len()
        invariant
            cs@ == s@,
            r@ == without_z(cs@.take(i as int)),
    {
        reveal_with_fuel(Seq::filter, 1);
        assert(cs@.take(i + 1).drop_last() == cs@.take(i as int));
        if cs[i] != 'Z' {
            push_char(&mut r, cs[i]);
        }
    }
    assert(cs@.take(cs.len() as int) == cs@);
    r
}

/// A timestamp for display: `MM-DD-YYYY HH:MM` when `s` (with `'Z'`s removed)
/// reads as an ISO 8601 date and time; else the 10-byte date part as
/// `MM-DD-YYYY` when `s` is long enough and that part reads as a date; else
/// `s` unchanged.
pub open spec fn timeline_date(s: Seq<char>) -> Seq<char> {
    match naive_datetime_ymdhm(without_z(s)) {
        Some((y, m, d, h, mi)) => mdy_text((y, m, d)) + seq![' '] + two_digits(h as nat)
            + seq![':'] + two_digits(mi as nat),
        None => if encode_utf8(s).len() >= 10 {
            match naive_date_ymd(byte_prefix(s, 10)) {
                Some(d) => mdy_text(d),
                None => s,
            }
        } else {
            s
        },
    }
}

/// Formats an activity timestamp for display.
pub fn format_timeline_date(s: &str) -> (r: String)
    requires
        date_cut_ok(s@),
    ensures
        r@ == timeline_date(s@),
{
    let stripped = remove_z(s);
    match parse_ymdhm(stripped.as_str()) {
        Some((y, m, d, h, mi)) => {
            let mut r = format_mdy((y, m, d));
            push_char(&mut r, ' ');
            push_two_digits(&mut r, h);
            push_char(&mut r, ':');
            push_two_digits(&mut r, mi);
            assert(r@ =~= mdy_text((y, m, d)) + seq![' '] + two_digits(h as nat) + seq![':']
                + two_digits(mi as nat));
            r
        },
        None => {
            proof {
                vstd::utf8::encode_utf8_valid_utf8(s@);
                assert(s.spec_bytes() == encode_utf8(s@));
            }
            if s.is_char_boundary(10) {
                let part = date_part_of(s);
                assert(part@ == byte_prefix(s@, 10));
                match parse_ymd(part) {
                    Some(d) => format_mdy(d),
                    None => owned(s),
                }
            } else {
                owned(s)
            }
        },
    }
}

} // verus!
