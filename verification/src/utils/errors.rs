use vstd::prelude::*;

verus! {

/// The error an endpoint of the canister answers with.
#[derive(Debug, Clone, PartialEq)]
pub enum CassandraError {
    AuthError(AuthError),
    UtilsError(UtilsError),
}

/// Why an authentication failed.
#[derive(Debug, Clone, PartialEq)]
pub enum AuthError {
    FailedToSign(String),
    FailedToGetUserInfo(String),
    UtilsError(UtilsError),
    InvalidJwt(String),
    FailedToExchangeToken,
    HttpError(String),
}

/// Failures of the helpers: caller checks, addresses and signatures.
#[derive(Debug, Clone, PartialEq)]
pub enum UtilsError {
    InvalidAddressFormat(String),
    InvalidSignatureFormat,
    FromHexError(String),
    FailedtoGetCassandraEVMAddress(String),
    NotAController,
}

impl From<AuthError> for CassandraError {
    fn from(err: AuthError) -> (res: CassandraError) {
        CassandraError::AuthError(err)
    }
}

impl vstd::std_specs::convert::FromSpecImpl<AuthError> for CassandraError {
    open spec fn obeys_from_spec() -> bool {
        true
    }

    open spec fn from_spec(err: AuthError) -> CassandraError {
        CassandraError::AuthError(err)
    }
}

impl From<UtilsError> for CassandraError {
    fn from(err: UtilsError) -> (res: CassandraError) {
        CassandraError::UtilsError(err)
    }
}

impl vstd::std_specs::convert::FromSpecImpl<UtilsError> for CassandraError {
    open spec fn obeys_from_spec() -> bool {
        true
    }

    open spec fn from_spec(err: UtilsError) -> CassandraError {
        CassandraError::UtilsError(err)
    }
}

impl From<UtilsError> for AuthError {
    fn from(err: UtilsError) -> (res: AuthError) {
        AuthError::UtilsError(err)
    }
}

impl vstd::std_specs::convert::FromSpecImpl<UtilsError> for AuthError {
    open spec fn obeys_from_spec() -> bool {
        true
    }

    open spec fn from_spec(err: UtilsError) -> AuthError {
        AuthError::UtilsError(err)
    }
}

} // verus!
