//! What is said when the process fails.

use vstd::prelude::*;
use vstd::string::*;
use crate::text::{decimal_spec, push_decimal};

verus! {

/// What is said where the failure carries no message.
pub const UNKNOWN_MESSAGE: &'static str = "Unknown panic message";

/// Where a failure happened, as it is printed: file and line, or the words
/// for "not known".
pub open spec fn location_spec(location: Option<(Seq<char>, u32)>) -> Seq<char> {
    match location {
        Some((file, line)) => "at "@ + file + ":"@ + decimal_spec(line as nat),
        None => "unknown location"@,
    }
}

/// The line that reports a failure.
pub open spec fn report_spec(message: Option<Seq<char>>, location: Option<(Seq<char>, u32)>) -> Seq<
    char,
> {
    "💥 Panic occurred: '"@ + (match message {
        Some(m) => m,
        None => UNKNOWN_MESSAGE@,
    }) + "' "@ + location_spec(location)
}

/// Writes the line that reports a failure, given its message and the file
/// and line where it happened, as far as they are known.
pub fn report(message: Option<&str>, file: Option<&str>, line: u32) -> (out: String)
    ensures
        out@ == report_spec(
            match message {
                Some(m) => Some(m@),
                None => None,
            },
            match file {
                Some(f) => Some((f@, line)),
                None => None,
            },
        ),
{
    let mut out = String::from_str("💥 Panic occurred: '");
    match message {
        Some(m) => out.append(m),
        None => out.append(UNKNOWN_MESSAGE),
    }
    out.append("' ");
    match file {
        Some(f) => {
            out.append("at ");
            out.append(f);
            out.append(":");
            push_decimal(&mut out, line as u64);
        },
        None => out.append("unknown location"),
    }
    proof {
        assert(out@ =~= report_spec(
            match message {
                Some(m) => Some(m@),
                None => None,
            },
            match file {
                Some(f) => Some((f@, line)),
                None => None,
            },
        ));
    }
    out
}

} // verus!
