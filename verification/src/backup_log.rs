//! The record of a completed run.
//!
//! One record is two lines: the bytes that were copied, and the time that
//! the run took, in seconds with two decimals. The host appends it to the
//! log file in the destination directory.

use vstd::prelude::*;
use vstd::string::StringExecFns;
use crate::backup::CopyResult;
use crate::paths::{join, joined};
use crate::text::{decimal, digit_char, digit_text, push_decimal};

verus! {

/// The time in hundredths of a second, rounded to the nearest; a half is
/// rounded up.
pub open spec fn centiseconds(millis: nat) -> nat {
    (millis + 5) / 10
}

/// The two decimals of a number of hundredths.
pub open spec fn two_digits(n: nat) -> Seq<char> {
    seq![digit_char(((n / 10) % 10) as int), digit_char((n % 10) as int)]
}

/// The time in seconds, with two decimals.
pub open spec fn seconds_text(millis: nat) -> Seq<char> {
    decimal(centiseconds(millis) / 100) + seq!['.'] + two_digits(centiseconds(millis) % 100)
}

/// The record of a run that copied `total_bytes` bytes in `millis`
/// milliseconds.
pub open spec fn record_text(total_bytes: nat, millis: nat) -> Seq<char> {
    "Total size of saved files: "@ + decimal(total_bytes) + " bytes\n"@ + "Backup completed in: "@
        + seconds_text(millis) + " seconds\n"@
}

/// The path of the log file of a run that went to `destination`.
pub open spec fn log_path_of(destination: Seq<char>) -> Seq<char> {
    joined(destination, "backup_log.txt"@)
}

/// The path of the log file of a run that went to `destination`.
pub fn log_path(destination: &str) -> (path: String)
    ensures
        path@ == log_path_of(destination@),
{
    join(destination, "backup_log.txt")
}

/// Renders the time of a run in seconds, with two decimals.
pub fn render_seconds(millis: u64) -> (text: String)
    ensures
        text@ == seconds_text(millis as nat),
{
    let rounded: u64 = if millis % 10 >= 5 {
        millis / 10 + 1
    } else {
        millis / 10
    };
    assert(rounded == centiseconds(millis as nat));
    let hundredths: u64 = rounded % 100;
    let mut text = String::new();
    push_decimal(&mut text, rounded / 100);
    proof {
        reveal_strlit(".");
        assert("."@ =~= seq!['.']);
    }
    text.append(".");
    text.append(digit_text((hundredths / 10) as u8));
    text.append(digit_text((hundredths % 10) as u8));
    proof {
        assert((hundredths / 10) % 10 == hundredths / 10);
        assert(text@ =~= seconds_text(millis as nat));
    }
    text
}

/// Renders the record of a completed run.
pub fn log_record(result: &CopyResult) -> (record: String)
    ensures
        record@ == record_text(result.total_bytes as nat, result.elapsed_millis as nat),
{
    let mut record = String::from_str("Total size of saved files: ");
    push_decimal(&mut record, result.total_bytes);
    record.append(" bytes\n");
    record.append("Backup completed in: ");
    let seconds = render_seconds(result.elapsed_millis);
    record.append(seconds.as_str());
    record.append(" seconds\n");
    record
}

} // verus!
