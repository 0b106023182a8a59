pub mod canister;
pub mod encoding;
pub mod errors;
pub mod http;
pub mod json;
pub mod signature;
