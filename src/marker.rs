use vstd::prelude::*;

verus! {

/// The contents of the marker file `.codeprob_info.json`: the id of the
/// problem that the current directory holds.
#[derive(Clone, Copy, Debug, PartialEq, Eq, Structural)]
pub struct ProblemMarker {
    pub id: i32,
}

/// Why the current problem could not be found.
#[derive(Clone, Debug, PartialEq, Eq)]
pub enum MarkerError {
    /// The marker file could not be read; the text says why.
    Unreadable(String),
    /// The marker file does not hold a marker; the text says why.
    Malformed(String),
}

/// The message for a marker that could not be had.
pub open spec fn marker_error_text(e: MarkerError) -> Seq<char> {
    match e {
        MarkerError::Unreadable(why) => "Cannot read .codeprob_info.json from this directory! Are you in the right folder? Reason:\n"@
            + why@,
        MarkerError::Malformed(why) => "Invalid structure of the contents of .codeprob_info.json! Reason:\n"@
            + why@,
    }
}

/// The current problem's id, or the message that says why it is unknown.
pub fn resolve_problem_id(marker: Result<ProblemMarker, MarkerError>) -> (r: Result<i32, String>)
    ensures
        match marker {
            Ok(m) => r == Ok::<i32, String>(m.id),
            Err(e) => r is Err && r->Err_0@ == marker_error_text(e),
        },
{
    match marker {
        Ok(m) => Ok(m.id),
        Err(MarkerError::Unreadable(why)) => {
            let mut s = String::from_str(
                "Cannot read .codeprob_info.json from this directory! Are you in the right folder? Reason:\n",
            );
            s.append(why.as_str());
            Err(s)
        },
        Err(MarkerError::Malformed(why)) => {
            let mut s = String::from_str(
                "Invalid structure of the contents of .codeprob_info.json! Reason:\n",
            );
            s.append(why.as_str());
            Err(s)
        },
    }
}

} // verus!
