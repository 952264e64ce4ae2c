//! Classification of the reply a content lookup against the remote
//! code-hosting service gives for one apprentice's report file.

use vstd::prelude::*;

verus! {

/// A lookup reply, reduced to what the check reads of it: success, an error
/// the service itself reported with its message, or any other failure.
pub enum ApiReply {
    /// The service returned content metadata: the file is there.
    Success,
    /// The service answered with an error of its own, carrying a message.
    ServiceError { message: String },
    /// The call failed some other way (transport, authentication, ...).
    OtherFailure,
}

/// What the check does with one apprentice after a lookup.
#[derive(Clone, Copy, Debug, PartialEq, Eq, Structural)]
pub enum LookupOutcome {
    /// The file exists; nothing is reported.
    Exists,
    /// The file is missing; a notice is printed and the run goes on.
    Missing,
    /// An unexpected failure; the whole run is aborted.
    Fatal,
}

/// The outcome a reply calls for: a service error whose message is exactly
/// `Not Found` means the file is missing, which is recoverable; every other
/// failure is fatal.
pub open spec fn outcome_of(reply: ApiReply) -> LookupOutcome {
    match reply {
        ApiReply::Success => LookupOutcome::Exists,
        ApiReply::ServiceError { message } => if message@ == "Not Found"@ {
            LookupOutcome::Missing
        } else {
            LookupOutcome::Fatal
        },
        ApiReply::OtherFailure => LookupOutcome::Fatal,
    }
}

/// Classifies a lookup reply: only the service's own `Not Found` answer is
/// the recoverable "file is missing" case.
pub fn classify_reply(reply: &ApiReply) -> (r: LookupOutcome)
    ensures
        r == outcome_of(*reply),
{
    match reply {
        ApiReply::Success => LookupOutcome::Exists,
        ApiReply::ServiceError { message } => {
            let not_found = String::from_str("Not Found");
            if *message == not_found {
                LookupOutcome::Missing
            } else {
                LookupOutcome::Fatal
            }
        },
        ApiReply::OtherFailure => LookupOutcome::Fatal,
    }
}

} // verus!
