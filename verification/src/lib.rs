//! A verified facade contract for Apple's on-device authentication service.
//!
//! The library owns the pure half of a `LocalAuthentication.framework`
//! binding: the bidirectional translation between the [`LAPolicy`]
//! enumeration and the integer codes the platform expects, and the
//! marshaling of each request to — and each outcome from — the platform's
//! policy-evaluation entry points. The platform calls themselves (opaque
//! context handles, biometric prompts) are foreign-function work that lives
//! outside the library and hands it plain values.

use vstd::prelude::*;

mod session;

pub use session::EvaluationRequest;
pub use session::can_evaluate_outcome;
pub use session::can_evaluate_request;
pub use session::evaluate_outcome;
pub use session::evaluate_request;

verus! {

/// The set of available local authentication policies.
#[derive(Clone, Copy, Debug, PartialEq, Eq, Structural)]
pub enum LAPolicy {
    /// User authentication with biometry.
    DeviceOwnerAuthenticationWithBiometrics,
    /// User authentication with biometry, Apple Watch, or the device passcode.
    DeviceOwnerAuthentication,
    /// User authentication with Apple Watch.
    DeviceOwnerAuthenticationWithWatch,
    /// User authentication with either biometry or Apple Watch.
    DeviceOwnerAuthenticationWithBiometricsOrWatch,
    /// Sentinel for an integer code the platform added after this library was
    /// written. It carries the code -1 and is never meant to be sent back.
    Unknown,
}

/// The fixed integer code the platform assigns to `policy`; `Unknown`
/// carries the sentinel -1.
pub open spec fn policy_code(policy: LAPolicy) -> int {
    match policy {
        LAPolicy::DeviceOwnerAuthenticationWithBiometrics => 1,
        LAPolicy::DeviceOwnerAuthentication => 2,
        LAPolicy::DeviceOwnerAuthenticationWithWatch => 3,
        LAPolicy::DeviceOwnerAuthenticationWithBiometricsOrWatch => 4,
        LAPolicy::Unknown => -1,
    }
}

/// The policy a platform integer code names. Total: every integer outside
/// the four assigned codes is absorbed into `Unknown` rather than rejected.
pub open spec fn policy_of_code(code: int) -> LAPolicy {
    if code == 1 {
        LAPolicy::DeviceOwnerAuthenticationWithBiometrics
    } else if code == 2 {
        LAPolicy::DeviceOwnerAuthentication
    } else if code == 3 {
        LAPolicy::DeviceOwnerAuthenticationWithWatch
    } else if code == 4 {
        LAPolicy::DeviceOwnerAuthenticationWithBiometricsOrWatch
    } else {
        LAPolicy::Unknown
    }
}

impl From<isize> for LAPolicy {
    /// Reads a policy back from an integer code; an unrecognized code
    /// (including -1) yields `Unknown`.
    fn from(value: isize) -> (policy: Self) {
        match value {
            1 => Self::DeviceOwnerAuthenticationWithBiometrics,
            2 => Self::DeviceOwnerAuthentication,
            3 => Self::DeviceOwnerAuthenticationWithWatch,
            4 => Self::DeviceOwnerAuthenticationWithBiometricsOrWatch,
            _ => Self::Unknown,
        }
    }
}

impl vstd::std_specs::convert::FromSpecImpl<isize> for LAPolicy {
    open spec fn obeys_from_spec() -> bool {
        true
    }

    open spec fn from_spec(value: isize) -> Self {
        policy_of_code(value as int)
    }
}

impl From<LAPolicy> for isize {
    /// Writes a policy out as the integer code the platform expects.
    fn from(value: LAPolicy) -> (code: Self) {
        match value {
            LAPolicy::DeviceOwnerAuthenticationWithBiometrics => 1,
            LAPolicy::DeviceOwnerAuthentication => 2,
            LAPolicy::DeviceOwnerAuthenticationWithWatch => 3,
            LAPolicy::DeviceOwnerAuthenticationWithBiometricsOrWatch => 4,
            LAPolicy::Unknown => -1,
        }
    }
}

impl vstd::std_specs::convert::FromSpecImpl<LAPolicy> for isize {
    open spec fn obeys_from_spec() -> bool {
        true
    }

    open spec fn from_spec(value: LAPolicy) -> Self {
        policy_code(value) as isize
    }
}

/// Converting any of the four defined policy variants to its platform code
/// and back yields the original variant.
pub proof fn lemma_policy_code_round_trip(policy: LAPolicy)
    requires
        policy != LAPolicy::Unknown,
    ensures
        policy_of_code(policy_code(policy)) == policy,
{
}

/// Every integer outside the four assigned codes maps to `Unknown`, and
/// `Unknown` itself carries the sentinel code -1.
pub proof fn lemma_unknown_sentinel(code: int)
    requires
        !(1 <= code <= 4),
    ensures
        policy_of_code(code) == LAPolicy::Unknown,
        policy_code(LAPolicy::Unknown) == -1,
{
}

/// A caller that sticks to the four defined variants never sends the
/// platform the sentinel: each defined variant's code is one of the four
/// the platform assigns.
pub proof fn lemma_defined_policy_code_in_range(policy: LAPolicy)
    requires
        policy != LAPolicy::Unknown,
    ensures
        1 <= policy_code(policy) <= 4,
{
}

} // verus!
