use vstd::prelude::*;

use super::encoding::{hex_encode, hex_lower};
use super::errors::UtilsError;

verus! {

/// The lower-case hex Ethereum address that secp256k1 public-key recovery
/// yields for a 32-byte message hash, a 64-byte signature and a recovery id,
/// or the empty text when recovery fails.
pub uninterp spec fn recovered_address_hex(message: Seq<u8>, signature: Seq<u8>, recovery_id: u8) -> Seq<
    char,
>;

/// `ic_web3_rs::ic::recover_address`: the contract names the recovered
/// address text as a function of the three arguments. The function unwraps
/// the parses of its inputs, so `requires` holds the lengths and the range of
/// the recovery id that those parses accept.
#[verifier::external_body]
fn recover_address(message: &[u8], signature: &[u8], recovery_id: u8) -> (res: String)
    requires
        message@.len() == 32,
        signature@.len() == 64,
        recovery_id < 4,
    ensures
        res@ == recovered_address_hex(message@, signature@, recovery_id),
{
    ic_web3_rs::ic::recover_address(message.to_vec(), signature.to_vec(), recovery_id)
}

/// The Ethereum recovery byte of a signature: 27 when recovery id 0 gives
/// back the signer's address, 28 when recovery id 1 does, an error otherwise
/// or when the hash or the signature has the wrong length.
pub open spec fn eth_v(signature: Seq<u8>, message: Seq<u8>, address: Seq<u8>) -> Result<
    u8,
    UtilsError,
> {
    if message.len() != 32 || signature.len() != 64 {
        Err(UtilsError::InvalidSignatureFormat)
    } else if recovered_address_hex(message, signature, 0) == hex_lower(address) {
        Ok(27u8)
    } else if recovered_address_hex(message, signature, 1) == hex_lower(address) {
        Ok(28u8)
    } else {
        Err(UtilsError::InvalidSignatureFormat)
    }
}

/// Finds the recovery byte `v` that makes `signature` over `message` recover
/// to `address`.
pub fn get_eth_v(signature: &[u8], message: &[u8], address: &[u8]) -> (res: Result<u8, UtilsError>)
    ensures
        res == eth_v(signature@, message@, address@),
{
    if message.len() != 32 || signature.len() != 64 {
        return Err(UtilsError::InvalidSignatureFormat);
    }
    let expected = hex_encode(address);
    let first = recover_address(message, signature, 0);
    if first == expected {
        return Ok(27);
    }
    let second = recover_address(message, signature, 1);
    if second == expected {
        return Ok(28);
    }
    Err(UtilsError::InvalidSignatureFormat)
}

/// The recovery byte names the recovery id that gives back the signer's
/// address: for a 32-byte hash and a 64-byte signature the answer is `Ok`
/// exactly when id 0 or id 1 recovers the address; it is 27 when id 0 does,
/// and 28 when id 1 does and id 0 does not. Any other lengths are refused.
pub proof fn lemma_eth_v_recovery_ids(signature: Seq<u8>, message: Seq<u8>, address: Seq<u8>)
    ensures
        message.len() != 32 || signature.len() != 64 ==> eth_v(signature, message, address)
            == Err::<u8, UtilsError>(UtilsError::InvalidSignatureFormat),
        message.len() == 32 && signature.len() == 64 ==> {
            &&& (eth_v(signature, message, address) is Ok <==> (recovered_address_hex(
                message,
                signature,
                0,
            ) == hex_lower(address) || recovered_address_hex(message, signature, 1) == hex_lower(
                address,
            )))
            &&& recovered_address_hex(message, signature, 0) == hex_lower(address) ==> eth_v(
                signature,
                message,
                address,
            ) == Ok::<u8, UtilsError>(27u8)
            &&& recovered_address_hex(message, signature, 0) != hex_lower(address)
                && recovered_address_hex(message, signature, 1) == hex_lower(address) ==> eth_v(
                signature,
                message,
                address,
            ) == Ok::<u8, UtilsError>(28u8)
        },
        eth_v(signature, message, address) matches Ok(v) ==> (v == 27 || v == 28)
            && recovered_address_hex(message, signature, (v - 27) as u8) == hex_lower(address),
        eth_v(signature, message, address) matches Err(e) ==> e == UtilsError::InvalidSignatureFormat,
{
}

} // verus!
