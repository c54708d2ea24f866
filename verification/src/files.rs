//! How the files that a run reads and writes are named.

use std::fmt::Write;
use vstd::prelude::*;
use vstd::string::StringExecFns;
use crate::snapshot::{now, Timestamp};

verus! {

/// The directory, below the user's own, that holds the prior snapshot.
pub const STORE_DIRECTORY: &'static str = "crate_change_monitor";

/// The extension of a file that holds one record of a snapshot.
pub const RECORD_EXTENSION: &'static str = "toml";

/// How the time of saving is written into the name of a saved report: year,
/// month, day, hour, minute and second in digits, then the time zone's name.
pub const STAMP_PATTERN: &'static str = "%Y%m%d%H%M%S%Z";

/// The name of the file that holds the record of the package `name`.
pub fn record_file_name(name: &str) -> (file: String)
    ensures
        file@ == name@ + "."@ + RECORD_EXTENSION@,
{
    let mut file = String::from_str(name);
    file.append(".");
    file.append(RECORD_EXTENSION);
    file
}

/// Whether a file with this extension holds a record of a snapshot.
pub fn is_record_extension(extension: &str) -> (r: bool)
    ensures
        r == (extension@ == RECORD_EXTENSION@),
{
    String::from_str(extension) == String::from_str(RECORD_EXTENSION)
}

/// What `chrono` writes for the instant `secs` seconds and `nanos`
/// nanoseconds after the start of 1970 (UTC) under a `strftime` pattern, or
/// nothing where it has no date for the instant or cannot read the pattern.
pub uninterp spec fn formatted_instant(secs: i64, nanos: u32, pattern: Seq<char>) -> Option<
    Seq<char>,
>;

/// Writes an instant out under a pattern: `chrono::DateTime::from_timestamp`
/// makes the date, `DateTime::format` writes it. The text is named, not
/// described: the contract claims only that the same instant and pattern give
/// the same text, and that nothing is returned exactly where `chrono` has no
/// date for the instant or reports the pattern as malformed.
#[verifier::external_body]
fn format_instant(at: Timestamp, pattern: &str) -> (text: Option<String>)
    ensures
        match text {
            Some(t) => formatted_instant(at.secs, at.nanos, pattern@) == Some(t@),
            None => formatted_instant(at.secs, at.nanos, pattern@) is None,
        },
{
    let instant = chrono::DateTime::from_timestamp(at.secs, at.nanos)?;
    let mut text = String::new();
    match write!(text, "{}", instant.format(pattern)) {
        Ok(()) => Some(text),
        Err(_) => None,
    }
}

/// The name of the file that a report is saved to when it is not mailed,
/// given the time of saving written out as `stamp`.
pub fn message_file_name(stamp: &str) -> (file: String)
    ensures
        file@ == "crate_change_message"@ + stamp@ + ".json"@,
{
    let mut file = String::from_str("crate_change_message");
    file.append(stamp);
    file.append(".json");
    file
}

/// The name of the file for a report that is saved at `at`, where there is
/// one: the time is written out under [`STAMP_PATTERN`] and set into the name
/// as [`message_file_name`] does. There is none where the instant cannot be
/// written out.
pub open spec fn saved_message_name(at: Timestamp) -> Option<Seq<char>> {
    match formatted_instant(at.secs, at.nanos, STAMP_PATTERN@) {
        Some(stamp) => Some("crate_change_message"@ + stamp + ".json"@),
        None => None,
    }
}

/// Whether `file` is the name, or the lack of one, that `name` describes.
pub open spec fn is_name(file: Option<String>, name: Option<Seq<char>>) -> bool {
    match name {
        Some(text) => file matches Some(f) && f@ == text,
        None => file is None,
    }
}

/// The name of the file for a report that is saved at `at`: the time is
/// written out under [`STAMP_PATTERN`]. There is no name where the instant
/// cannot be written out.
pub fn message_file_name_at(at: Timestamp) -> (file: Option<String>)
    ensures
        is_name(file, saved_message_name(at)),
{
    match format_instant(at, STAMP_PATTERN) {
        Some(stamp) => Some(message_file_name(stamp.as_str())),
        None => None,
    }
}

/// The name of the file for a report that is saved now: the clock is read
/// once, and what is handed out is what [`message_file_name_at`] gives for
/// the instant that it read. That holds both ways: a name is the name for
/// that instant, and no name means that that instant cannot be written out.
/// Which instant the clock reads is not for this function to say.
pub fn next_message_file_name() -> (file: Option<String>)
    ensures
        exists|at: Timestamp| is_name(file, #[trigger] saved_message_name(at)),
{
    let at = now();
    let file = message_file_name_at(at);
    assert(is_name(file, saved_message_name(at)));
    file
}

} // verus!
