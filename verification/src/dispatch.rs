//! Classification of a dispatch attempt's result.
//!
//! The request itself is plain I/O and lives outside the library; the
//! caller hands back either the response's status and best-effort body,
//! or the transport failure's traits, and the functions here turn them
//! into a `DispatchOutcome`.

use vstd::prelude::*;

verus! {

/// Seconds a dispatch may run before it is reported as timed out.
pub const DISPATCH_TIMEOUT_SECS: u64 = 30;

/// How a transport-level failure is classified.
#[derive(Clone, Copy, Debug, PartialEq, Eq, Structural)]
pub enum NetworkErrorKind {
    Timeout,
    ConnectFailure,
    Other,
}

/// Terminal classification of one dispatch attempt.
#[derive(Debug)]
pub enum DispatchOutcome {
    Success,
    HttpError { status: u16, body: String },
    NetworkError { kind: NetworkErrorKind },
}

/// A status code counts as success exactly when it lies in the 2xx range.
pub open spec fn is_success_status(status: u16) -> bool {
    200 <= status < 300
}

/// Body text reported when a non-2xx response's body could not be read.
pub open spec fn unreadable_body_text() -> Seq<char> {
    "unreadable response body"@
}

/// Classify an HTTP response: 2xx is success, anything else an HTTP
/// error carrying the status and the body (or a placeholder when the
/// body could not be read).
pub fn classify_response(status: u16, body: Option<String>) -> (o: DispatchOutcome)
    ensures
        is_success_status(status) ==> o is Success,
        !is_success_status(status) ==> ({
            &&& o matches DispatchOutcome::HttpError { status: s, body: b }
            &&& s == status
            &&& (match body {
                Some(text) => b@ == text@,
                None => b@ == unreadable_body_text(),
            })
        }),
{
    if 200 <= status && status < 300 {
        DispatchOutcome::Success
    } else {
        let text = match body {
            Some(text) => text,
            None => String::from_str("unreadable response body"),
        };
        DispatchOutcome::HttpError { status, body: text }
    }
}

/// Classify a transport failure from its traits, in the order the
/// caller reports them: a timeout wins over a connection failure, and
/// anything else is an unspecified network error.
pub fn classify_transport_failure(timed_out: bool, connect_failed: bool) -> (o: DispatchOutcome)
    ensures
        ({
            &&& o matches DispatchOutcome::NetworkError { kind }
            &&& (timed_out ==> kind == NetworkErrorKind::Timeout)
            &&& (!timed_out && connect_failed ==> kind == NetworkErrorKind::ConnectFailure)
            &&& (!timed_out && !connect_failed ==> kind == NetworkErrorKind::Other)
        }),
{
    let kind = if timed_out {
        NetworkErrorKind::Timeout
    } else if connect_failed {
        NetworkErrorKind::ConnectFailure
    } else {
        NetworkErrorKind::Other
    };
    DispatchOutcome::NetworkError { kind }
}

} // verus!
