use vstd::prelude::*;

pub mod canister;
pub mod flow;
pub mod github_auth;
pub mod google_auth;

use google_auth::DecimalError;

verus! {

/// Subnet size assumed when pricing an outgoing HTTP request.
pub const NODES_IN_SUBNET: u128 = 34;

/// Largest reply an outgoing HTTP request pays for: 2 MiB.
pub const MAX_RESPONSE_BYTES: u128 = 2 * 1024 * 1024;

/// Cycles for the largest reply.
pub const CYCLES_FOR_RESPONSE: u128 = MAX_RESPONSE_BYTES * 800 * NODES_IN_SUBNET;

/// Cycles for the request itself.
pub const BASE_CYCLES: u128 = (3_000_000 + 60_000 * NODES_IN_SUBNET) * NODES_IN_SUBNET;

/// Cycles attached to every outgoing HTTP request.
pub const HTTP_CYCLES: u128 = BASE_CYCLES + CYCLES_FOR_RESPONSE;

/// Why an authentication stops the canister's call with a trap: a provider's
/// reply lacks a field, or holds it in a form that cannot be read.
#[derive(Debug, Clone, Copy, PartialEq, Eq, Structural)]
pub enum TrapReason {
    GithubMissingId,
    GithubIdNotNumber,
    GithubMissingName,
    GithubMissingEmail,
    GithubMissingAvatar,
    GithubMissingCompany,
    GoogleMissingUserId,
    GoogleUserIdNotText,
    GoogleUserIdNotDecimal(DecimalError),
    GoogleMissingEmail,
    GoogleEmailNotText,
}

/// The trap message of each reason.
pub open spec fn trap_message(reason: TrapReason) -> Seq<char> {
    match reason {
        TrapReason::GithubMissingId => "should have id"@,
        TrapReason::GithubIdNotNumber => "all users should have id"@,
        TrapReason::GithubMissingName => "should have name"@,
        TrapReason::GithubMissingEmail => "should have email"@,
        TrapReason::GithubMissingAvatar => "should have avatar"@,
        TrapReason::GithubMissingCompany => "should have company"@,
        TrapReason::GoogleMissingUserId => "should have user id claim"@,
        TrapReason::GoogleUserIdNotText => "all users should have user id"@,
        TrapReason::GoogleUserIdNotDecimal(DecimalError::Empty) =>
            "called `Result::unwrap()` on an `Err` value: ParseIntError { kind: Empty }"@,
        TrapReason::GoogleUserIdNotDecimal(DecimalError::InvalidDigit) =>
            "called `Result::unwrap()` on an `Err` value: ParseIntError { kind: InvalidDigit }"@,
        TrapReason::GoogleUserIdNotDecimal(DecimalError::PosOverflow) =>
            "called `Result::unwrap()` on an `Err` value: ParseIntError { kind: PosOverflow }"@,
        TrapReason::GoogleMissingEmail => "should have email claim"@,
        TrapReason::GoogleEmailNotText => "all users should have email"@,
    }
}

impl TrapReason {
    /// The message the canister traps with.
    pub fn message(&self) -> (res: String)
        ensures
            res@ == trap_message(*self),
    {
        match self {
            TrapReason::GithubMissingId => String::from_str("should have id"),
            TrapReason::GithubIdNotNumber => String::from_str("all users should have id"),
            TrapReason::GithubMissingName => String::from_str("should have name"),
            TrapReason::GithubMissingEmail => String::from_str("should have email"),
            TrapReason::GithubMissingAvatar => String::from_str("should have avatar"),
            TrapReason::GithubMissingCompany => String::from_str("should have company"),
            TrapReason::GoogleMissingUserId => String::from_str("should have user id claim"),
            TrapReason::GoogleUserIdNotText => String::from_str("all users should have user id"),
            TrapReason::GoogleUserIdNotDecimal(DecimalError::Empty) => String::from_str(
                "called `Result::unwrap()` on an `Err` value: ParseIntError { kind: Empty }",
            ),
            TrapReason::GoogleUserIdNotDecimal(DecimalError::InvalidDigit) => String::from_str(
                "called `Result::unwrap()` on an `Err` value: ParseIntError { kind: InvalidDigit }",
            ),
            TrapReason::GoogleUserIdNotDecimal(DecimalError::PosOverflow) => String::from_str(
                "called `Result::unwrap()` on an `Err` value: ParseIntError { kind: PosOverflow }",
            ),
            TrapReason::GoogleMissingEmail => String::from_str("should have email claim"),
            TrapReason::GoogleEmailNotText => String::from_str("all users should have email"),
        }
    }
}

/// The cycles attached to an outgoing HTTP request add up to 57 213 894 400.
pub proof fn lemma_http_cycles_value()
    ensures
        HTTP_CYCLES == 57_213_894_400u128,
{
}

} // verus!
