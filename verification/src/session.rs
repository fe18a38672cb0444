//! Marshaling between an authentication session and the platform.
//!
//! A session owns one opaque, platform-allocated context handle and forwards
//! two operations to it: a non-interactive capability query, and the
//! interactive challenge. Both are pass-throughs: the session sends a policy
//! as its integer code (plus, for the challenge, the caller's reason text)
//! and returns the platform's boolean answer unmodified. The functions here
//! are that pass-through logic, stated over plain values; the foreign calls
//! that carry them to the platform sit outside the library.

use vstd::prelude::*;

use crate::LAPolicy;
use crate::policy_code;

verus! {

/// One call into the platform's interactive challenge entry point: the
/// policy as its integer code, and the caller's reason text for the
/// platform to show. The platform phrases the prompt by naming the calling
/// program and appending "is trying to {reason}"; the binding does not
/// control that formatting, so callers phrase the reason as a clause
/// completing that sentence.
pub struct EvaluationRequest {
    /// The integer code of the policy to challenge the user with.
    pub policy_code: isize,
    /// The reason text, exactly as the caller supplied it.
    pub reason: String,
}

/// The integer code a session hands the platform's capability query for
/// `policy`. The query is a pure pass-through: beyond this translation,
/// nothing of it is the session's own.
pub fn can_evaluate_request(policy: LAPolicy) -> (code: isize)
    ensures
        code == policy_code(policy),
{
    isize::from(policy)
}

/// The request a session hands the platform's challenge entry point:
/// `policy` as its integer code, and `reason` byte-identical to what the
/// caller supplied.
pub fn evaluate_request(policy: LAPolicy, reason: String) -> (request: EvaluationRequest)
    ensures
        request.policy_code == policy_code(policy),
        request.reason@ == reason@,
{
    EvaluationRequest { policy_code: isize::from(policy), reason }
}

/// The answer a session reports for a capability query: exactly the
/// platform's boolean, unmodified.
pub fn can_evaluate_outcome(evaluable: bool) -> (outcome: bool)
    ensures
        outcome == evaluable,
{
    evaluable
}

/// The result a session reports for a challenge: exactly the platform's
/// boolean, unmodified. Success stays `true`; every other outcome the
/// platform recognizes (cancellation, lockout, mismatch, hardware absence)
/// arrives as `false` and is not told apart.
pub fn evaluate_outcome(authenticated: bool) -> (outcome: bool)
    ensures
        outcome == authenticated,
{
    authenticated
}

} // verus!
