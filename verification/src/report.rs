//! The error reporter: process-unique correlation ids, the record handed to
//! the log, and the safe user-facing failure text.

use vstd::prelude::*;
use vstd::string::StringExecFns;
use crate::gateway::GatewayFailure;

verus! {

/// A lowercase hexadecimal digit.
pub open spec fn is_hex_lower(c: char) -> bool {
    ('0' <= c && c <= '9') || ('a' <= c && c <= 'f')
}

/// A well-formed correlation id: 32 lowercase hexadecimal digits.
pub open spec fn is_correlation_id(s: Seq<char>) -> bool {
    s.len() == 32 && (forall|i: int| 0 <= i < s.len() ==> is_hex_lower(s[i]))
}

/// Relies on `uuid::Uuid::new_v4` and `Uuid::simple`: a fresh version-4
/// UUID rendered as 32 lowercase hexadecimal digits.
#[verifier::external_body]
fn fresh_uuid_simple() -> (r: String)
    ensures
        is_correlation_id(r@),
{
    uuid::Uuid::new_v4().simple().to_string()
}

/// Mints a process-unique opaque token that links a user-visible failure
/// report to its full log entry.
pub fn new_correlation_id() -> (r: String)
    ensures
        is_correlation_id(r@),
{
    fresh_uuid_simple()
}

/// Why a failure was surfaced to the user.
#[derive(Clone, Copy, Debug, PartialEq, Eq, Structural)]
pub enum Cause {
    /// The completion gateway failed the turn.
    Gateway(GatewayFailure),
    /// A (state, input) pair with no defined transition arrived.
    UnexpectedInput,
}

/// What is logged when a failure is surfaced: the correlation id shown to
/// the user, together with the full cause that is never shown.
#[derive(Debug)]
pub struct ErrorRecord {
    pub correlation_id: String,
    pub cause: Cause,
}

/// The mathematical model of an error record.
pub struct ErrorRecordModel {
    pub correlation_id: Seq<char>,
    pub cause: Cause,
}

impl View for ErrorRecord {
    type V = ErrorRecordModel;

    open spec fn view(&self) -> ErrorRecordModel {
        ErrorRecordModel { correlation_id: self.correlation_id@, cause: self.cause }
    }
}

/// The user-facing text for a surfaced failure: it carries the correlation
/// id and nothing of the cause.
pub open spec fn spec_failure_reply(id: Seq<char>) -> Seq<char> {
    "there was an error processing your request, you can use this ID to track the issue `"@ + id
        + "`"@
}

/// Renders the user-facing failure text for a correlation id.
pub fn failure_reply(correlation_id: &str) -> (r: String)
    ensures
        r@ == spec_failure_reply(correlation_id@),
{
    let mut r = String::from_str(
        "there was an error processing your request, you can use this ID to track the issue `",
    );
    r.append(correlation_id);
    r.append("`");
    proof {
        assert(r@ =~= spec_failure_reply(correlation_id@));
    }
    r
}

} // verus!
