use vstd::prelude::*;

use super::errors::UtilsError;

verus! {

/// A principal of the Internet Computer; opaque here.
#[verifier::external_type_specification]
#[verifier::external_body]
pub struct ExPrincipal(candid::Principal);

/// `ic_cdk::api::caller`: the principal of the current call's caller. It
/// depends on the call, so nothing is stated of it.
#[verifier::external_body]
fn caller() -> candid::Principal {
    ic_cdk::api::caller()
}

/// `ic_cdk::api::is_controller`: whether the principal controls this
/// canister. It depends on the canister's settings, so nothing is stated of
/// it.
#[verifier::external_body]
fn is_controller(principal: &candid::Principal) -> bool {
    ic_cdk::api::is_controller(principal)
}

/// The answer to a caller check: success for a controller, `NotAController`
/// otherwise.
pub fn controller_check(controller: bool) -> (res: Result<(), UtilsError>)
    ensures
        controller <==> res is Ok,
        !controller ==> res == Err::<(), UtilsError>(UtilsError::NotAController),
{
    if controller {
        Ok(())
    } else {
        Err(UtilsError::NotAController)
    }
}

/// Checks that the current caller controls the canister.
pub fn validate_caller() -> (res: Result<(), UtilsError>)
    ensures
        res is Ok || res == Err::<(), UtilsError>(UtilsError::NotAController),
{
    let who = caller();
    controller_check(is_controller(&who))
}

} // verus!
