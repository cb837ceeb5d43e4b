//! The booth-volume logger: sound levels above a threshold are recorded,
//! with their source and time, in the `noise_log` table.

use vstd::prelude::*;
use vstd::string::*;

use crate::decimal::{all_digits, digit_value, digits_value, parse_i64, parsed_i64, unsigned_digits};
use crate::utf8_text::{string_from_utf8_lossy, utf8_lossy};

verus! {

/// The threshold text used when none is configured.
pub open spec fn default_threshold() -> Seq<char> {
    "100"@
}

/// The default threshold text denotes 100.
proof fn lemma_default_threshold()
    ensures
        parsed_i64(default_threshold()) == Some(100i64),
{
    reveal_strlit("100");
    let s = default_threshold();
    assert(s.len() == 3 && s[0] == '1' && s[1] == '0' && s[2] == '0');
    assert(unsigned_digits(s) == s);
    assert(all_digits(s));
    let one = s.drop_last().drop_last();
    assert(one.drop_last() =~= Seq::<char>::empty());
    assert(digits_value(Seq::<char>::empty()) == 0);
    assert(one.last() == '1');
    assert(digits_value(one) == digits_value(one.drop_last()) * 10 + digit_value(one.last()));
    assert(digits_value(s.drop_last().drop_last()) == 1);
    assert(digits_value(s.drop_last()) == 10);
    assert(digits_value(s) == 100);
}

/// The threshold in force: the configured text, which must be an `i64`
/// numeral, or 100 when none is configured.
pub fn threshold(configured: Option<String>) -> (t: i64)
    requires
        configured matches Some(c) ==> parsed_i64(c@) is Some,
    ensures
        match configured {
            Some(c) => Some(t) == parsed_i64(c@),
            None => t == 100,
        },
{
    proof {
        lemma_default_threshold();
    }
    let parsed = match configured {
        Some(c) => parse_i64(c.as_str()),
        None => parse_i64("100"),
    };
    match parsed {
        Some(t) => t,
        None => 0,
    }
}

/// The text of a message payload: its UTF-8 decoding, invalid sequences
/// replaced.
pub fn payload_text(payload: &[u8]) -> (s: String)
    ensures
        s@ == utf8_lossy(payload@),
{
    string_from_utf8_lossy(payload)
}

/// The text that `chrono` gives for a UTC instant, given as seconds and
/// nanoseconds since the Unix epoch, formatted with a `strftime`-style
/// layout; `None` when `chrono` does not represent that instant.
pub uninterp spec fn utc_format(secs: i64, nanos: u32, layout: Seq<char>) -> Option<Seq<char>>;

/// The layout of the `noise_log` timestamps: date, time and nanoseconds.
pub open spec fn log_timestamp_layout() -> Seq<char> {
    "%Y-%m-%d %H:%M:%S.%f"@
}

/// Formats a UTC instant with the `noise_log` layout.
///
/// Trusted: calls `chrono::DateTime::from_timestamp` and formats the
/// instant it gives with `DateTime::format(layout)` and `to_string`. The two
/// calls share one trusted item because the `DateTime` between them is an
/// opaque value that no name can take. The result is the name
/// [`utc_format`] of the arguments. `to_string` panics on a layout with a
/// specifier `chrono` does not know, so only the `noise_log` layout, whose
/// specifiers are all known, is admitted. `from_timestamp` gives `None` only
/// for instants out of its range (years -262143 to 262142) or nanoseconds
/// beyond a leap second, so a text is stated for less than 8 * 10^12
/// seconds either way and nanoseconds below 10^9.
#[verifier::external_body]
fn format_utc(secs: i64, nanos: u32, layout: &str) -> (r: Option<String>)
    requires
        layout@ == log_timestamp_layout(),
    ensures
        r matches Some(s) ==> utc_format(secs, nanos, layout@) == Some(s@),
        r is None ==> utc_format(secs, nanos, layout@) is None,
        -8_000_000_000_000 < secs < 8_000_000_000_000 && nanos < 1_000_000_000 ==> r is Some,
{
    match chrono::DateTime::from_timestamp(secs, nanos) {
        Some(t) => Some(t.format(layout).to_string()),
        None => None,
    }
}

/// A row of the `noise_log` table.
pub struct NoiseRecord {
    pub source: String,
    pub volume: i64,
    pub timestamp: String,
}

/// The statement that inserts a [`NoiseRecord`]; its parameters are the
/// source, the volume and the timestamp, in that order.
pub fn noise_log_statement() -> (s: &'static str)
    ensures
        s@ == "INSERT INTO noise_log (source, volume, timestamp) VALUES (?, ?, ?)"@,
{
    "INSERT INTO noise_log (source, volume, timestamp) VALUES (?, ?, ?)"
}

/// What a reading of `volume` on `topic`, stamped with `timestamp`, leads
/// to: a row to record when the volume is above the threshold, nothing
/// otherwise.
pub fn log_reading(topic: String, volume: i64, threshold: i64, timestamp: String) -> (r: Option<NoiseRecord>)
    ensures
        volume > threshold ==> (r matches Some(rec) && rec.source@ == topic@ && rec.volume == volume
            && rec.timestamp@ == timestamp@),
        volume <= threshold ==> r is None,
{
    if volume > threshold {
        Some(NoiseRecord { source: topic, volume, timestamp })
    } else {
        None
    }
}

/// What a reading of `volume` on `topic`, received at the given instant
/// (seconds and nanoseconds since the Unix epoch), leads to: a row stamped
/// with the instant's UTC time when the volume is above the threshold,
/// nothing otherwise.
pub fn handle_message(topic: String, volume: i64, threshold: i64, secs: i64, nanos: u32) -> (r: Option<NoiseRecord>)
    requires
        -8_000_000_000_000 < secs < 8_000_000_000_000,
        nanos < 1_000_000_000,
    ensures
        volume > threshold ==> (r matches Some(rec) && rec.source@ == topic@ && rec.volume == volume
            && utc_format(secs, nanos, log_timestamp_layout()) == Some(rec.timestamp@)),
        volume <= threshold ==> r is None,
{
    if volume > threshold {
        match format_utc(secs, nanos, "%Y-%m-%d %H:%M:%S.%f") {
            Some(timestamp) => log_reading(topic, volume, threshold, timestamp),
            None => None,
        }
    } else {
        None
    }
}

} // verus!
