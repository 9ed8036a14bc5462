//! The ways in which a run ends early, and the status that the process
//! leaves with.

use vstd::prelude::*;
use vstd::string::*;
use crate::records::{key_of, Fault};
use crate::text::{numeral, ordinal_text};

verus! {

/// Why the run ended before the whole table was written. Every failure is
/// final: nothing is tried again, and nothing is written after it.
#[derive(Clone, Copy, Debug, PartialEq, Eq, Structural)]
pub enum Failure {
    /// The config file could not be opened or read.
    ConfigUnreadable,
    /// The config file is not UTF-8 text.
    ConfigNotText,
    /// The config file has fewer than two lines.
    ConfigIncomplete,
    /// The request could not be sent, or no response came back.
    Transport,
    /// The response is not UTF-8 text.
    BodyNotText,
    /// The response is not a JSON document.
    BodyNotJson,
    /// A number of the response has a fraction of more digits than the
    /// parser can count.
    FractionTooLong,
    /// The response is a JSON document, but no array.
    BodyNotArray,
    /// The member at `index` of the array cannot be shown.
    Row { index: usize, fault: Fault },
}

/// The status of a run that wrote the whole table.
pub const SUCCESS_STATUS: i32 = 0;

/// The status of a run that ended in a failure.
pub const FAILURE_STATUS: i32 = 101;

/// The status that the process leaves with.
pub open spec fn status_of(failure: Option<Failure>) -> i32 {
    if failure is None {
        SUCCESS_STATUS
    } else {
        FAILURE_STATUS
    }
}

/// What is wrong with the field, in words.
pub open spec fn complaint_of(fault: Fault) -> Seq<char> {
    match fault {
        Fault::Missing(field) => "field `"@ + key_of(field)
            + "` is missing or holds a value of another type"@,
        Fault::ShortDate(field) => "field `"@ + key_of(field) + "` is shorter than a date"@,
    }
}

/// The diagnostic for a failure.
pub open spec fn message_of(failure: Failure) -> Seq<char> {
    match failure {
        Failure::ConfigUnreadable => "the config file cannot be read"@,
        Failure::ConfigNotText => "the config file is not UTF-8 text"@,
        Failure::ConfigIncomplete => "the config file has fewer than two lines"@,
        Failure::Transport => "the request failed"@,
        Failure::BodyNotText => "the response is not UTF-8 text"@,
        Failure::BodyNotJson => "the response is not JSON"@,
        Failure::FractionTooLong => "a number of the response has too long a fraction"@,
        Failure::BodyNotArray => "the response is no JSON array"@,
        Failure::Row { index, fault } => "repository "@ + numeral(index as nat) + ": "@
            + complaint_of(fault),
    }
}

/// The status that the process leaves with: zero after the whole table, and
/// the same non-zero status after any failure.
pub fn exit_status(failure: Option<Failure>) -> (status: i32)
    ensures
        status == status_of(failure),
        status == 0 <==> failure is None,
{
    match failure {
        None => SUCCESS_STATUS,
        Some(_) => FAILURE_STATUS,
    }
}

impl Fault {
    /// What is wrong with the field, in words.
    pub fn complaint(self) -> (text: String)
        ensures
            text@ == complaint_of(self),
    {
        let mut text = String::from_str("field `");
        match self {
            Fault::Missing(field) => {
                text.append(field.key());
                text.append("` is missing or holds a value of another type");
            },
            Fault::ShortDate(field) => {
                text.append(field.key());
                text.append("` is shorter than a date");
            },
        }
        text
    }
}

impl Failure {
    /// The diagnostic for this failure.
    pub fn message(self) -> (text: String)
        ensures
            text@ == message_of(self),
    {
        match self {
            Failure::ConfigUnreadable => String::from_str("the config file cannot be read"),
            Failure::ConfigNotText => String::from_str("the config file is not UTF-8 text"),
            Failure::ConfigIncomplete => String::from_str(
                "the config file has fewer than two lines",
            ),
            Failure::Transport => String::from_str("the request failed"),
            Failure::BodyNotText => String::from_str("the response is not UTF-8 text"),
            Failure::BodyNotJson => String::from_str("the response is not JSON"),
            Failure::FractionTooLong => String::from_str(
                "a number of the response has too long a fraction",
            ),
            Failure::BodyNotArray => String::from_str("the response is no JSON array"),
            Failure::Row { index, fault } => {
                let mut text = String::from_str("repository ");
                text.append(ordinal_text(index).as_str());
                text.append(": ");
                text.append(fault.complaint().as_str());
                text
            },
        }
    }
}

} // verus!
