use vstd::prelude::*;

use crate::file::File;
use crate::number::{decimal_text, lemma_parse_decimal_text, parse_i64_prefix, spec_parse_i64};
use crate::text::{push_char, str_chars};
use rand::Rng;

verus! {

/// The largest number of whole seconds that chrono's `TimeDelta` can hold
/// (`i64::MAX` milliseconds), in either direction.
pub const MAX_DELTA_SECONDS: i64 = 9223372036854775;

/// `seconds` is a span that chrono's `TimeDelta` can represent.
pub open spec fn in_delta_range(seconds: int) -> bool {
    -MAX_DELTA_SECONDS <= seconds && seconds <= MAX_DELTA_SECONDS
}

/// A signed span of whole seconds, such as the time an upload is kept.
#[derive(Debug, Clone, Copy)]
pub struct Duration {
    seconds: i64,
}

impl Duration {
    #[verifier::type_invariant]
    spec fn in_range(self) -> bool {
        in_delta_range(self.seconds as int)
    }

    /// The number of seconds of the span.
    pub closed spec fn view(self) -> int {
        self.seconds as int
    }

    /// The number of seconds of the span; chrono can always hold it.
    pub fn num_seconds(&self) -> (seconds: i64)
        ensures
            seconds == self.view(),
            in_delta_range(seconds as int),
    {
        proof {
            use_type_invariant(self);
        }
        self.seconds
    }
}

/// `chrono::Duration::seconds` (`TimeDelta::seconds`), read back with
/// `num_seconds`. Trusted: chrono builds a span of exactly `seconds` seconds
/// (no fraction) and panics outside `-i64::MAX / 1000 ..= i64::MAX / 1000`,
/// as its documentation and `TimeDelta::new` show.
#[verifier::external_body]
fn delta_seconds(seconds: i64) -> (res: i64)
    requires
        in_delta_range(seconds as int),
    ensures
        res == seconds,
{
    chrono::Duration::seconds(seconds).num_seconds()
}

/// `chrono::Duration::minutes` (`TimeDelta::minutes`), read back with
/// `num_seconds`. Trusted: chrono documents it as `seconds(minutes * 60)` with
/// overflow checks; it panics when that span is out of bounds.
#[verifier::external_body]
fn delta_minutes(minutes: i64) -> (res: i64)
    requires
        in_delta_range(minutes * 60),
    ensures
        res == minutes * 60,
{
    chrono::Duration::minutes(minutes).num_seconds()
}

/// `chrono::Duration::hours` (`TimeDelta::hours`), read back with
/// `num_seconds`. Trusted: chrono documents it as `seconds(hours * 60 * 60)`
/// with overflow checks; it panics when that span is out of bounds.
#[verifier::external_body]
fn delta_hours(hours: i64) -> (res: i64)
    requires
        in_delta_range(hours * 3600),
    ensures
        res == hours * 3600,
{
    chrono::Duration::hours(hours).num_seconds()
}

/// `chrono::Duration::days` (`TimeDelta::days`), read back with
/// `num_seconds`. Trusted: chrono documents it as `seconds(days * 24 * 60 * 60)`
/// with overflow checks; it panics when that span is out of bounds.
#[verifier::external_body]
fn delta_days(days: i64) -> (res: i64)
    requires
        in_delta_range(days * 86400),
    ensures
        res == days * 86400,
{
    chrono::Duration::days(days).num_seconds()
}

impl Duration {
    /// The span of `count` days.
    pub fn days(count: i64) -> (d: Duration)
        requires
            in_delta_range(count * 86400),
        ensures
            d@ == count * 86400,
    {
        Duration { seconds: delta_days(count) }
    }
}

/// The earliest time chrono's `NaiveDateTime` holds (January 1 of the year
/// -262143, 00:00:00), in microseconds since the Unix epoch.
pub const MIN_TIMESTAMP_MICROS: i64 = -8334601228800000000;

/// The last microsecond of the latest day chrono's `NaiveDateTime` holds
/// (December 31 of the year 262142), in microseconds since the Unix epoch.
pub const MAX_TIMESTAMP_MICROS: i64 = 8210266876799999999;

/// `micros` (microseconds since the Unix epoch) is a time that chrono's
/// calendar holds.
pub open spec fn in_calendar(micros: int) -> bool {
    MIN_TIMESTAMP_MICROS <= micros && micros <= MAX_TIMESTAMP_MICROS
}

/// `NaiveDateTime::checked_add_signed` (the addition behind
/// `NaiveDateTime + TimeDelta`), on a time given in microseconds since the Unix
/// epoch (UTC) and a span of whole seconds, read back in microseconds.
/// Trusted: `DateTime::from_timestamp_micros` gives a time exactly when the
/// microseconds fall between `NaiveDateTime::MIN` and `NaiveDateTime::MAX`
/// (years -262143 to 262142), and makes no leap second; chrono's addition then
/// moves that time by exactly `seconds` seconds, and gives a time exactly when
/// the sum stays within the same bounds.
#[verifier::external_body]
fn naive_add_seconds(micros: i64, seconds: i64) -> (res: Option<i64>)
    requires
        in_delta_range(seconds as int),
    ensures
        res is Some <==> (in_calendar(micros as int) && in_calendar(micros + seconds * 1_000_000)),
        res matches Some(t) ==> t == micros + seconds * 1_000_000,
{
    match chrono::DateTime::from_timestamp_micros(micros) {
        Some(t) => match t.naive_utc().checked_add_signed(chrono::Duration::seconds(seconds)) {
            Some(sum) => Some(sum.and_utc().timestamp_micros()),
            None => None,
        },
        None => None,
    }
}

/// When a file stored at `now_micros` (microseconds since the Unix epoch, UTC)
/// and kept `expires_in` expires, in microseconds since the epoch. `None`
/// exactly when the start or the end lies outside chrono's calendar (where
/// adding the span with `+` would panic).
pub fn expires_at(now_micros: i64, expires_in: &Duration) -> (at: Option<i64>)
    ensures
        at is Some <==> (in_calendar(now_micros as int) && in_calendar(
            now_micros + expires_in@ * 1_000_000,
        )),
        at matches Some(t) ==> t == now_micros + expires_in@ * 1_000_000,
{
    let seconds: i64 = expires_in.num_seconds();
    naive_add_seconds(now_micros, seconds)
}

/// Why a duration text was refused.
#[derive(Debug, Clone, Copy, PartialEq, Eq, Structural)]
pub enum DurationError {
    /// The text before the unit is not a decimal `i64`.
    InvalidNumber,
    /// The last character is not one of the units `h`, `d`, `m`, `s`.
    InvalidSpecifier,
}

/// Seconds per unit: hours, days, minutes, seconds.
pub open spec fn unit_seconds(unit: char) -> Option<int> {
    if unit == 'h' {
        Some(3600)
    } else if unit == 'd' {
        Some(86400)
    } else if unit == 'm' {
        Some(60)
    } else if unit == 's' {
        Some(1)
    } else {
        None
    }
}

/// What a duration text such as `7d` or `-30m` denotes: the number before the
/// last character, times the seconds of the unit that the last character names.
/// The number is checked first, then the unit.
pub open spec fn spec_parse_duration(s: Seq<char>) -> Result<int, DurationError> {
    match spec_parse_i64(s.drop_last()) {
        None => Err(DurationError::InvalidNumber),
        Some(n) => match unit_seconds(s.last()) {
            Some(unit) => Ok(n * unit),
            None => Err(DurationError::InvalidSpecifier),
        },
    }
}

/// The inputs on which `parse_duration` returns: a non-empty text whose last
/// character is ASCII (it is split off as one byte), and which, when it
/// parses, denotes a span that chrono can hold.
pub open spec fn duration_input_ok(s: Seq<char>) -> bool {
    &&& s.len() > 0
    &&& (s.last() as u32) < 128
    &&& (spec_parse_duration(s) matches Ok(v) ==> in_delta_range(v))
}

/// The number part and unit of a duration text, parsed.
fn split_duration(chars: &Vec<char>) -> (res: (Option<i64>, char))
    requires
        chars@.len() > 0,
    ensures
        res.0 == spec_parse_i64(chars@.drop_last()),
        res.1 == chars@.last(),
{
    let len: usize = chars.len();
    assert(chars@.take(len - 1) =~= chars@.drop_last());
    let number = parse_i64_prefix(chars, len - 1);
    (number, chars[len - 1])
}

/// Whether `parse_duration` may be called on `input`: the text is not empty,
/// ends in an ASCII character, and names a span that chrono can hold.
pub fn duration_input_supported(input: &str) -> (ok: bool)
    ensures
        ok == duration_input_ok(input@),
{
    let chars = str_chars(input);
    if chars.len() == 0 {
        return false;
    }
    let (number, unit) = split_duration(&chars);
    if unit as u32 >= 128 {
        return false;
    }
    let per_unit: i128 = if unit == 'h' {
        3600
    } else if unit == 'd' {
        86400
    } else if unit == 'm' {
        60
    } else if unit == 's' {
        1
    } else {
        return true;
    };
    match number {
        None => true,
        Some(n) => {
            let total: i128 = n as i128 * per_unit;
            -(MAX_DELTA_SECONDS as i128) <= total && total <= MAX_DELTA_SECONDS as i128
        },
    }
}

/// Parses an expiry such as `7d`, `12h`, `30m` or `45s` into a span: the
/// number (as `str::parse::<i64>` reads it) before the last character, in the
/// unit that the last character names.
pub fn parse_duration(input: &str) -> (res: Result<Duration, DurationError>)
    requires
        duration_input_ok(input@),
    ensures
        match res {
            Ok(d) => spec_parse_duration(input@) == Ok::<int, DurationError>(d@),
            Err(e) => spec_parse_duration(input@) == Err::<int, DurationError>(e),
        },
{
    let chars = str_chars(input);
    let (number, unit) = split_duration(&chars);
    match number {
        None => Err(DurationError::InvalidNumber),
        Some(n) => {
            if unit == 'h' {
                Ok(Duration { seconds: delta_hours(n) })
            } else if unit == 'd' {
                Ok(Duration { seconds: delta_days(n) })
            } else if unit == 'm' {
                Ok(Duration { seconds: delta_minutes(n) })
            } else if unit == 's' {
                Ok(Duration { seconds: delta_seconds(n) })
            } else {
                Err(DurationError::InvalidSpecifier)
            }
        },
    }
}

/// The duration text of `n` in `unit`: the decimal text of `n` (as
/// `format!("{}", n)` writes it), then the unit character.
pub open spec fn duration_text(n: int, unit: char) -> Seq<char> {
    decimal_text(n).push(unit)
}

/// `n` in one of the units `h`, `d`, `m`, `s` denotes `n` times the seconds of
/// the unit, and `parse_duration` accepts the text when that span is one that
/// chrono can hold.
pub proof fn lemma_duration_text(n: int, unit: char)
    requires
        i64::MIN <= n <= i64::MAX,
        unit_seconds(unit) is Some,
    ensures
        spec_parse_duration(duration_text(n, unit)) == Ok::<int, DurationError>(
            n * unit_seconds(unit)->Some_0,
        ),
        in_delta_range(n * unit_seconds(unit)->Some_0) ==> duration_input_ok(duration_text(n, unit)),
{
    lemma_parse_decimal_text(n);
    assert(duration_text(n, unit).drop_last() =~= decimal_text(n));
}

/// A number of days is the same span as 24 times as many hours, 1440 times as
/// many minutes, and 86400 times as many seconds; all four texts are accepted.
pub proof fn lemma_day_units_agree(n: int)
    requires
        in_delta_range(n * 86400),
    ensures
        duration_input_ok(duration_text(n, 'd')),
        duration_input_ok(duration_text(24 * n, 'h')),
        duration_input_ok(duration_text(1440 * n, 'm')),
        duration_input_ok(duration_text(86400 * n, 's')),
        spec_parse_duration(duration_text(n, 'd')) == Ok::<int, DurationError>(n * 86400),
        spec_parse_duration(duration_text(24 * n, 'h')) == Ok::<int, DurationError>(n * 86400),
        spec_parse_duration(duration_text(1440 * n, 'm')) == Ok::<int, DurationError>(n * 86400),
        spec_parse_duration(duration_text(86400 * n, 's')) == Ok::<int, DurationError>(n * 86400),
{
    lemma_duration_text(n, 'd');
    lemma_duration_text(24 * n, 'h');
    lemma_duration_text(1440 * n, 'm');
    lemma_duration_text(86400 * n, 's');
}

/// In a given unit, a larger number never denotes a shorter span.
pub proof fn lemma_duration_monotonic(a: int, b: int, unit: char)
    requires
        i64::MIN <= a <= b <= i64::MAX,
        unit_seconds(unit) is Some,
    ensures
        spec_parse_duration(duration_text(a, unit)) matches Ok(x)
            && spec_parse_duration(duration_text(b, unit)) matches Ok(y) && x <= y,
{
    lemma_duration_text(a, unit);
    lemma_duration_text(b, unit);
    let per_unit: int = unit_seconds(unit)->Some_0;
    assert(per_unit >= 1);
    assert(a * per_unit <= b * per_unit) by (nonlinear_arith)
        requires
            a <= b,
            per_unit >= 1,
    ;
}

/// The number of characters that file hashes are drawn from.
pub const CHARSET_LEN: usize = 52;

/// The alphabet of file hashes: `A` to `Z`, then `a` to `z`.
pub open spec fn charset() -> Seq<char> {
    Seq::new(
        CHARSET_LEN as nat,
        |i: int| if i < 26 { ('A' as int + i) as char } else { ('a' as int + (i - 26)) as char },
    )
}

/// `c` is an ASCII letter, that is, a character of `charset()`.
pub open spec fn is_hash_char(c: char) -> bool {
    ('A' <= c && c <= 'Z') || ('a' <= c && c <= 'z')
}

/// The characters of `charset()` are exactly the ASCII letters.
pub proof fn lemma_charset_letters(i: int)
    requires
        0 <= i < CHARSET_LEN,
    ensures
        is_hash_char(charset()[i]),
{
}

/// The character at `index` of `charset()`.
pub fn charset_char(index: usize) -> (c: char)
    requires
        index < CHARSET_LEN,
    ensures
        c == charset()[index as int],
{
    if index < 26 {
        ((65 + index) as u8) as char
    } else {
        ((97 + (index - 26)) as u8) as char
    }
}

/// The text whose characters are the `charset()` characters at `indices`.
pub fn hash_from_indices(indices: &Vec<usize>) -> (hash: String)
    requires
        forall|i: int| 0 <= i < indices@.len() ==> #[trigger] indices@[i] < CHARSET_LEN,
    ensures
        hash@.len() == indices@.len(),
        forall|i: int| 0 <= i < indices@.len() ==> #[trigger] hash@[i] == charset()[indices@[i] as int],
{
    let mut hash = String::new();
    let mut k: usize = 0;
    while k < indices.len()
        invariant
            k <= indices@.len(),
            forall|i: int| 0 <= i < indices@.len() ==> #[trigger] indices@[i] < CHARSET_LEN,
            hash@.len() == k,
            forall|i: int| 0 <= i < k ==> #[trigger] hash@[i] == charset()[indices@[i] as int],
        decreases indices@.len() - k,
    {
        let c: char = charset_char(indices[k]);
        push_char(&mut hash, c);
        k = k + 1;
    }
    hash
}

#[verifier::external_type_specification]
#[verifier::external_body]
pub struct ExThreadRng(rand::rngs::ThreadRng);

/// `rand::thread_rng`: a handle to the generator of the current thread.
/// Nothing is stated of it.
#[verifier::external_body]
fn thread_rng() -> rand::rngs::ThreadRng {
    rand::thread_rng()
}

/// `Rng::gen_range(0..bound)` on a thread generator. Trusted: rand returns a
/// value of the half-open range (and panics only on an empty range, which
/// `requires` leaves out). Which value comes out is left open: it is random.
#[verifier::external_body]
fn gen_index(rng: &mut rand::rngs::ThreadRng, bound: usize) -> (index: usize)
    requires
        bound > 0,
    ensures
        index < bound,
{
    rng.gen_range(0..bound)
}

/// A random file hash of `len` characters, each drawn from `charset()`.
pub fn get_random_hash(len: i32) -> (hash: String)
    requires
        len >= 0,
    ensures
        hash@.len() == len,
        forall|i: int| 0 <= i < hash@.len() ==> #[trigger] is_hash_char(hash@[i]),
{
    let hash_length: usize = len as usize;
    let mut rng = thread_rng();
    let mut indices: Vec<usize> = Vec::new();
    while indices.len() < hash_length
        invariant
            indices@.len() <= hash_length,
            forall|i: int| 0 <= i < indices@.len() ==> #[trigger] indices@[i] < CHARSET_LEN,
        decreases hash_length - indices@.len(),
    {
        let index: usize = gen_index(&mut rng, CHARSET_LEN);
        indices.push(index);
    }
    let hash = hash_from_indices(&indices);
    assert forall|i: int| 0 <= i < hash@.len() implies #[trigger] is_hash_char(hash@[i]) by {
        lemma_charset_letters(indices@[i] as int);
    }
    hash
}

/// Seconds between two rounds of the cleaner.
pub const CLEANER_INTERVAL_SECS: u64 = 5;

/// What the cleaner does with an expired file that is not yet marked deleted.
#[derive(Debug, Clone)]
pub enum CleanupAction {
    /// Remove the stored file of this name, then mark the row of this hash deleted.
    RemoveAndMark { stored_name: String },
    /// The stored file is already gone: leave the row as it is.
    Skip,
}

/// The cleaner's decision for an expired row: when its stored file (named by
/// its hash) exists, remove it and mark the row deleted; otherwise skip it.
pub fn expired_file_action(file: &File, exists: bool) -> (action: CleanupAction)
    requires
        file.hash is Some,
    ensures
        exists ==> (action matches CleanupAction::RemoveAndMark { stored_name }
            && stored_name@ == file.hash->Some_0@),
        !exists ==> action is Skip,
{
    if exists {
        match &file.hash {
            Some(h) => CleanupAction::RemoveAndMark { stored_name: h.clone() },
            None => {
                proof {
                    assert(false);
                }
                CleanupAction::Skip
            },
        }
    } else {
        CleanupAction::Skip
    }
}

/// After the cleaner tried to remove the stored file `stored_name`: the hash
/// of the row to mark deleted. The row is marked whether or not the removal
/// succeeded; a failed removal is only logged.
pub fn row_to_mark(stored_name: &String, removed: bool) -> (hash: Option<String>)
    ensures
        hash matches Some(h) && h@ == stored_name@,
{
    if removed {
        Some(stored_name.clone())
    } else {
        Some(stored_name.clone())
    }
}

} // verus!
