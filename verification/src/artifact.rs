//! Directory entries ("artifacts"), the options a listing is made with, and
//! the human-readable renderings of an entry's size and modification time.

use vstd::prelude::*;
use vstd::arithmetic::power2::pow2;
use crate::text::{decimal, digit_chars, digit_char, push_decimal, push_decimal_padded, zero_pad};

verus! {

/// Bytes in a kilobyte.
pub const KILOBYTE: u64 = 1024;

/// Bytes in a megabyte.
pub const MEGABYTE: u64 = 1048576;

/// Bytes in a gigabyte.
pub const GIGABYTE: u64 = 1073741824;

/// The most entries one listing holds; further entries mark it partial.
pub const MAX_ENTRIES: usize = 50000;

/// What kind of filesystem object an entry is.
#[derive(Debug, Clone, Copy, PartialEq, Eq, Structural)]
pub enum ArtifactType {
    Directory,
    File,
    Symlink,
    Other,
}

/// The secondary key a listing is ordered by (after the entry kind).
#[derive(Debug, Clone, Copy, PartialEq, Eq, Structural)]
pub enum ArtifactSort {
    Name,
    Size,
    Modified,
}

impl Default for ArtifactSort {
    fn default() -> (r: Self)
        ensures
            r == ArtifactSort::Name,
    {
        ArtifactSort::Name
    }
}

/// How a directory is listed.
#[derive(Debug, Clone, Copy, PartialEq, Eq, Structural)]
pub struct ArtifactOptions {
    pub show_hidden: bool,
    pub sort: ArtifactSort,
}

impl Default for ArtifactOptions {
    fn default() -> (r: Self)
        ensures
            r == (ArtifactOptions { show_hidden: false, sort: ArtifactSort::Name }),
    {
        ArtifactOptions { show_hidden: false, sort: ArtifactSort::Name }
    }
}

/// One directory entry.
///
/// `modified` is the modification time as whole seconds since the Unix
/// epoch (rounded toward negative infinity) and the nanoseconds within that
/// second, or `None` when the filesystem did not report one.
#[derive(Debug, PartialEq)]
pub struct Artifact {
    pub name: String,
    pub path: String,
    pub artifact_type: ArtifactType,
    pub size: u64,
    pub modified: Option<(i64, u32)>,
}

impl Clone for Artifact {
    fn clone(&self) -> (r: Self)
        ensures
            r == *self,
    {
        Artifact {
            name: self.name.clone(),
            path: self.path.clone(),
            artifact_type: self.artifact_type,
            size: self.size,
            modified: self.modified,
        }
    }
}

/// The entries of one directory and whether the listing stopped early.
#[derive(Debug, PartialEq)]
pub struct ArtifactListResult {
    pub artifacts: Vec<Artifact>,
    pub partial: bool,
}

impl Clone for ArtifactListResult {
    fn clone(&self) -> (r: Self)
        ensures
            r.artifacts@ == self.artifacts@,
            r.partial == self.partial,
    {
        ArtifactListResult { artifacts: clone_artifacts(&self.artifacts), partial: self.partial }
    }
}

impl Default for ArtifactListResult {
    fn default() -> (r: Self)
        ensures
            r.artifacts@.len() == 0,
            !r.partial,
    {
        ArtifactListResult { artifacts: Vec::new(), partial: false }
    }
}

/// A copy of a list of entries.
pub fn clone_artifacts(v: &Vec<Artifact>) -> (r: Vec<Artifact>)
    ensures
        r@ == v@,
{
    let mut r: Vec<Artifact> = Vec::new();
    let mut i: usize = 0;
    while i < v.len()
        invariant
            i <= v.len(),
            r@ =~= v@.subrange(0, i as int),
        decreases v.len() - i,
    {
        r.push(v[i].clone());
        i = i + 1;
    }
    assert(r@ =~= v@);
    r
}

// ---------------------------------------------------------------------------
// Sizes
// ---------------------------------------------------------------------------

/// `a / d` rounded to the nearest integer, ties going to the even neighbour.
pub open spec fn round_half_even(a: nat, d: nat) -> nat
    recommends
        d > 0,
{
    let q = a / d;
    let r = a % d;
    if 2 * r > d || (2 * r == d && q % 2 == 1) {
        q + 1
    } else {
        q
    }
}

/// `num / den` written with exactly one digit after the decimal point,
/// rounded half to even (the way `{:.1}` renders an exactly representable
/// binary fraction).
pub open spec fn one_decimal(num: nat, den: nat) -> Seq<char> {
    let t = round_half_even(10 * num, den);
    decimal(t / 10) + seq!['.'] + seq![digit_chars()[(t % 10) as int]]
}

/// The number of halvings after which `n` fits the 53-bit significand of a
/// double.
pub open spec fn double_scale_exp(n: nat) -> nat
    decreases n,
{
    if n < 0x20_0000_0000_0000 {
        0
    } else {
        1 + double_scale_exp(n / 2)
    }
}

/// The value of `n as f64`: `n` rounded to 53 significant bits, ties to
/// even.
pub open spec fn as_double(n: nat) -> nat {
    let p = pow2(double_scale_exp(n));
    round_half_even(n, p) * p
}

/// The text `format_size` gives for a size in bytes.
pub open spec fn size_text(size: nat) -> Seq<char> {
    if size <= 1024 {
        decimal(size) + seq![' ', 'B']
    } else if size < 1048576 {
        one_decimal(size, 1024) + seq![' ', 'K', 'B']
    } else if size < 1073741824 {
        one_decimal(size, 1048576) + seq![' ', 'M', 'B']
    } else {
        one_decimal(as_double(size), 1073741824) + seq![' ', 'G', 'B']
    }
}

fn round_half_even_exec(a: u128, d: u128) -> (r: u128)
    requires
        2 <= d < 0x1_0000_0000_0000_0000,
    ensures
        r == round_half_even(a as nat, d as nat),
        r <= a / d + 1,
{
    let q = a / d;
    assert(q < 0xffff_ffff_ffff_ffff_ffff_ffff_ffff_ffff) by (nonlinear_arith)
        requires
            q == a / d,
            d >= 2,
            a <= 0xffff_ffff_ffff_ffff_ffff_ffff_ffff_ffff,
    ;
    let r = a % d;
    if 2 * r > d || (2 * r == d && q % 2 == 1) {
        q + 1
    } else {
        q
    }
}

/// `n as f64`, as an exact integer.
fn as_double_exec(n: u64) -> (m: u128)
    ensures
        m == as_double(n as nat),
        m <= n + 0x1000,
{
    let mut q: u64 = n;
    let mut p: u64 = 1;
    let ghost mut k: nat = 0;
    proof {
        vstd::arithmetic::power2::lemma2_to64();
    }
    while q >= 0x20_0000_0000_0000
        invariant
            q == n / p,
            p == pow2(k),
            0 < p <= 0x1000,
            p * 0x10_0000_0000_0000 <= n || p == 1,
            double_scale_exp(n as nat) == k + double_scale_exp(q as nat),
        decreases q,
    {
        proof {
            vstd::arithmetic::div_mod::lemma_div_denominator(n as int, p as int, 2);
            vstd::arithmetic::power2::lemma_pow2_unfold(k + 1);
            vstd::arithmetic::div_mod::lemma_fundamental_div_mod(n as int, p as int);
            assert(p * q <= n) by (nonlinear_arith)
                requires
                    q == n / p,
                    p > 0,
                    n == p * (n / p) + n % p,
                    n % p >= 0,
            ;
            assert(2 * p * 0x10_0000_0000_0000 <= n) by (nonlinear_arith)
                requires
                    p * q <= n,
                    q >= 0x20_0000_0000_0000,
            ;
            assert(p * 2 <= 0x1000) by (nonlinear_arith)
                requires
                    2 * p * 0x10_0000_0000_0000 <= n,
                    n < 0x1_0000_0000_0000_0000,
            ;
        }
        q = q / 2;
        p = p * 2;
        proof {
            k = k + 1;
        }
    }
    if p == 1 {
        proof {
            assert(double_scale_exp(n as nat) == 0);
            vstd::arithmetic::power2::lemma2_to64();
        }
        return n as u128;
    }
    let r = round_half_even_exec(n as u128, p as u128);
    proof {
        vstd::arithmetic::div_mod::lemma_fundamental_div_mod(n as int, p as int);
        assert(r * p <= n + 0x1000) by (nonlinear_arith)
            requires
                r <= n / p + 1,
                p * (n / p) <= n,
                0 < p <= 0x1000,
        ;
    }
    r * (p as u128)
}

/// Appends `num / den` with one digit after the decimal point.
fn push_one_decimal(s: &mut String, num: u128, den: u128)
    requires
        1024 <= den < 0x1_0000_0000_0000_0000,
        num <= 0x1_0000_0000_0000_1000,
    ensures
        final(s)@ == old(s)@ + one_decimal(num as nat, den as nat),
{
    let t = round_half_even_exec(10 * num, den);
    assert(t / 10 < 0x1_0000_0000_0000_0000) by (nonlinear_arith)
        requires
            t <= (10 * num) / (den as int) + 1,
            den >= 1024,
            num <= 0x1_0000_0000_0000_1000,
    ;
    let whole = (t / 10) as u64;
    let frac = (t % 10) as u64;
    push_decimal(s, whole);
    s.push('.');
    let c = digit_char(frac);
    s.push(c);
    assert(s@ =~= old(s)@ + one_decimal(num as nat, den as nat));
}

// ---------------------------------------------------------------------------
// Modification times
// ---------------------------------------------------------------------------

/// Whether `year` is a leap year of the Gregorian calendar.
pub open spec fn is_leap_year(year: int) -> bool {
    (year % 4 == 0 && year % 100 != 0) || year % 400 == 0
}

/// The number of days in `year`.
pub open spec fn year_length(year: int) -> nat {
    if is_leap_year(year) {
        366
    } else {
        365
    }
}

/// The year in which day `days` falls, counting days from January 1st of
/// `year`, and the (zero-based) day within that year.
pub open spec fn year_and_day(days: nat, year: int) -> (int, nat)
    decreases days,
{
    if days < year_length(year) {
        (year, days)
    } else {
        year_and_day((days - year_length(year)) as nat, year + 1)
    }
}

/// The lengths of the twelve months of `year`.
pub open spec fn month_lengths(year: int) -> Seq<nat> {
    seq![
        31,
        if is_leap_year(year) { 29 } else { 28 },
        31,
        30,
        31,
        30,
        31,
        31,
        30,
        31,
        30,
        31,
    ]
}

/// The (one-based) month in which zero-based day `day` of a year falls,
/// walking the month lengths from index `i`, and the zero-based day within
/// that month.
pub open spec fn month_and_day(day: nat, lengths: Seq<nat>, i: nat) -> (nat, nat)
    decreases lengths.len() - i,
{
    if i >= lengths.len() || day < lengths[i as int] {
        (i + 1, day)
    } else {
        month_and_day((day - lengths[i as int]) as nat, lengths, i + 1)
    }
}

/// `YYYY-MM-DD HH:MM` (UTC) for a time `secs` seconds after the epoch.
pub open spec fn utc_minute_text(secs: nat) -> Seq<char> {
    let (year, yday) = year_and_day(secs / 86400, 1970);
    let (month, mday) = month_and_day(yday, month_lengths(year), 0);
    let day_secs = secs % 86400;
    zero_pad(decimal(year as nat), 4) + seq!['-'] + zero_pad(decimal(month), 2) + seq!['-']
        + zero_pad(decimal(mday + 1), 2) + seq![' '] + zero_pad(decimal(day_secs / 3600), 2)
        + seq![':'] + zero_pad(decimal((day_secs % 3600) / 60), 2)
}

/// The text `format_modified` gives: `-` when there is no time or it lies
/// before the epoch, else the UTC date and time to the minute.
pub open spec fn modified_text(modified: Option<(i64, u32)>) -> Seq<char> {
    match modified {
        Some((secs, _)) if secs >= 0 => utc_minute_text(secs as nat),
        _ => seq!['-'],
    }
}

/// Whether `year` is a leap year.
pub fn is_leap(year: i64) -> (r: bool)
    ensures
        r == is_leap_year(year as int),
{
    (year % 4 == 0 && year % 100 != 0) || year % 400 == 0
}

impl Artifact {
    /// The size as text: whole bytes up to a kilobyte, then kilobytes,
    /// megabytes or gigabytes with one decimal.
    pub fn format_size(&self) -> (r: String)
        ensures
            r@ == size_text(self.size as nat),
    {
        let mut s = String::new();
        let n = self.size;
        if n <= KILOBYTE {
            push_decimal(&mut s, n);
            s.push(' ');
            s.push('B');
        } else if n < MEGABYTE {
            push_one_decimal(&mut s, n as u128, KILOBYTE as u128);
            s.push(' ');
            s.push('K');
            s.push('B');
        } else if n < GIGABYTE {
            push_one_decimal(&mut s, n as u128, MEGABYTE as u128);
            s.push(' ');
            s.push('M');
            s.push('B');
        } else {
            let m = as_double_exec(n);
            push_one_decimal(&mut s, m, GIGABYTE as u128);
            s.push(' ');
            s.push('G');
            s.push('B');
        }
        assert(s@ =~= size_text(n as nat));
        s
    }

    /// The modification time as `YYYY-MM-DD HH:MM` in UTC, or `-`.
    pub fn format_modified(&self) -> (r: String)
        ensures
            r@ == modified_text(self.modified),
    {
        let secs: i64 = match self.modified {
            Some((secs, _)) => secs,
            None => {
                let mut s = String::new();
                s.push('-');
                return s;
            },
        };
        if secs < 0 {
            let mut s = String::new();
            s.push('-');
            return s;
        }
        let days: i64 = secs / 86400;
        let mut year: i64 = 1970;
        let mut rem_days: i64 = days;
        loop
            invariant
                0 <= rem_days <= days,
                1970 <= year <= 1970 + (days - rem_days),
                days == secs / 86400,
                secs >= 0,
                year_and_day(days as nat, 1970) == year_and_day(rem_days as nat, year as int),
            ensures
                0 <= rem_days < year_length(year as int),
                year_and_day(days as nat, 1970) == (year as int, rem_days as nat),
            decreases rem_days,
        {
            let diy: i64 = if is_leap(year) { 366 } else { 365 };
            if rem_days < diy {
                break;
            }
            rem_days = rem_days - diy;
            year = year + 1;
        }
        let feb: i64 = if is_leap(year) { 29 } else { 28 };
        let lengths: [i64; 12] = [31, feb, 31, 30, 31, 30, 31, 31, 30, 31, 30, 31];
        let ghost lens = month_lengths(year as int);
        assert(forall|j: int| 0 <= j < 12 ==> lengths@[j] == lens[j]);
        let mut month: i64 = 1;
        let mut i: usize = 0;
        while i < 12
            invariant_except_break
                0 <= i <= 12,
                month == i + 1,
                0 <= rem_days < 366,
                days >= 0,
                forall|j: int| 0 <= j < 12 ==> lengths@[j] == lens[j],
                lens.len() == 12,
                month_and_day((year_and_day(days as nat, 1970).1), lens, 0)
                    == month_and_day(rem_days as nat, lens, i as nat),
            ensures
                0 <= rem_days < 366,
                1 <= month <= 13,
                month_and_day((year_and_day(days as nat, 1970).1), lens, 0)
                    == (month as nat, rem_days as nat),
            decreases 12 - i,
        {
            let length = lengths[i];
            if rem_days < length {
                break;
            }
            rem_days = rem_days - length;
            month = month + 1;
            i = i + 1;
        }
        let day = rem_days + 1;
        let day_secs = secs % 86400;
        let hour = day_secs / 3600;
        let minute = (day_secs % 3600) / 60;
        let mut s = String::new();
        push_decimal_padded(&mut s, year as u64, 4);
        s.push('-');
        push_decimal_padded(&mut s, month as u64, 2);
        s.push('-');
        push_decimal_padded(&mut s, day as u64, 2);
        s.push(' ');
        push_decimal_padded(&mut s, hour as u64, 2);
        s.push(':');
        push_decimal_padded(&mut s, minute as u64, 2);
        assert(s@ =~= utc_minute_text(secs as nat));
        s
    }
}

/// Splitting a day count into years leaves a day inside its year.
proof fn lemma_year_and_day_in_year(days: nat, year: int)
    ensures
        year_and_day(days, year).1 < year_length(year_and_day(days, year).0),
        year_and_day(days, year).0 >= year,
    decreases days,
{
    if days >= year_length(year) {
        lemma_year_and_day_in_year((days - year_length(year)) as nat, year + 1);
    }
}

/// Every date `format_modified` prints is a real one: for a time at or
/// after the epoch, the day of the year lies within its year, the month is
/// 1 to 12, and the day lies within that month.
pub proof fn lemma_calendar_valid(days: nat)
    ensures
        ({
            let (year, yday) = year_and_day(days, 1970);
            let (month, mday) = month_and_day(yday, month_lengths(year), 0);
            &&& year >= 1970
            &&& yday < year_length(year)
            &&& 1 <= month <= 12
            &&& mday < month_lengths(year)[month - 1]
        }),
{
    lemma_year_and_day_in_year(days, 1970);
    let (year, yday) = year_and_day(days, 1970);
    let l = month_lengths(year);
    reveal_with_fuel(month_and_day, 13);
    assert(l.len() == 12);
}

/// The unit of a size text follows from the size: up to 1024 bytes the
/// exact count in bytes, then kilobytes below 1024 KiB, megabytes below
/// 1024 MiB, and gigabytes beyond; a size of `k` whole kibibytes (below
/// 1024) shows as `k.0 KB`.
pub proof fn lemma_size_text_units(size: nat)
    ensures
        size <= 1024 ==> size_text(size) == decimal(size) + " B"@,
        1024 < size < 1048576 ==> size_text(size).subrange(
            size_text(size).len() - 3,
            size_text(size).len() as int,
        ) == " KB"@,
        1048576 <= size < 1073741824 ==> size_text(size).subrange(
            size_text(size).len() - 3,
            size_text(size).len() as int,
        ) == " MB"@,
        1073741824 <= size ==> size_text(size).subrange(
            size_text(size).len() - 3,
            size_text(size).len() as int,
        ) == " GB"@,
        1 < size / 1024 < 1024 && size % 1024 == 0 ==> size_text(size) == decimal(size / 1024) + ".0 KB"@,
{
    reveal_strlit(" B");
    reveal_strlit(" KB");
    reveal_strlit(" MB");
    reveal_strlit(" GB");
    reveal_strlit(".0 KB");
    let t = size_text(size);
    assert(t.subrange(t.len() - 3, t.len() as int) =~= t.subrange(t.len() - 3, t.len() as int));
    if 1 < size / 1024 < 1024 && size % 1024 == 0 {
        let k = size / 1024;
        assert(10 * size == (10 * k) * 1024) by (nonlinear_arith)
            requires
                size % 1024 == 0,
                k == size / 1024,
        ;
        assert((10 * size) / 1024 == 10 * k && (10 * size) % 1024 == 0) by (nonlinear_arith)
            requires
                10 * size == (10 * k) * 1024,
        ;
        assert(round_half_even(10 * size, 1024) == 10 * k);
        assert((10 * k) / 10 == k && (10 * k) % 10 == 0) by (nonlinear_arith);
        assert(t =~= decimal(k) + ".0 KB"@);
    }
}

} // verus!
