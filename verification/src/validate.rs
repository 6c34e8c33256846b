//! Field validators shared by the gateway endpoints.
//!
//! Each validator accepts or rejects one request field, with the exact
//! error message the gateway reports; the endpoint contracts are stated
//! over the same conditions.

use crate::codec::base58_decoding;
use crate::codec::bs58_decode;
use crate::types::Address;
use vstd::prelude::*;

verus! {

/// A field decodes as a public key exactly when its base58 decoding exists
/// and holds 32 bytes.
pub open spec fn valid_pubkey_string(s: Seq<char>) -> bool {
    base58_decoding(s) matches Some(b) && b.len() == 32
}

/// A field decodes as a secret key exactly when its base58 decoding exists
/// and holds 64 bytes.
pub open spec fn valid_secret_string(s: Seq<char>) -> bool {
    base58_decoding(s) matches Some(b) && b.len() == 64
}

/// An address field is accepted exactly when it base58-decodes to 32
/// bytes.
pub fn validate_pubkey(pubkey_str: &str) -> (r: Result<Address, String>)
    ensures
        valid_pubkey_string(pubkey_str@) ==> (r matches Ok(a) && a.wf() && a@
            == base58_decoding(pubkey_str@).unwrap()),
        !valid_pubkey_string(pubkey_str@) ==> (r matches Err(e) && e@
            == "Invalid public key format"@),
{
    match bs58_decode(pubkey_str) {
        Some(bytes) => {
            if bytes.len() == 32 {
                Ok(Address { bytes })
            } else {
                Err("Invalid public key format".to_owned())
            }
        },
        None => Err("Invalid public key format".to_owned()),
    }
}

/// An amount of tokens or lamports is accepted exactly when it is
/// strictly positive.
pub fn validate_amount(amount: u64) -> (r: Result<(), String>)
    ensures
        amount == 0 ==> (r matches Err(e) && e@ == "Amount must be greater than 0"@),
        amount > 0 ==> r is Ok,
{
    if amount == 0 {
        return Err("Amount must be greater than 0".to_owned());
    }
    Ok(())
}

/// A mint's decimals field is accepted exactly when it lies in `[0, 9]`.
pub fn validate_decimals(decimals: u8) -> (r: Result<(), String>)
    ensures
        decimals > 9 ==> (r matches Err(e) && e@ == "Decimals must be between 0 and 9"@),
        decimals <= 9 ==> r is Ok,
{
    if decimals > 9 {
        return Err("Decimals must be between 0 and 9".to_owned());
    }
    Ok(())
}

/// A secret key field is accepted exactly when it base58-decodes to 64
/// bytes; a decoding failure and a wrong length are reported apart.
pub fn validate_base58_secret(secret: &str) -> (r: Result<Vec<u8>, String>)
    ensures
        base58_decoding(secret@) is None ==> (r matches Err(e) && e@
            == "Invalid base58 secret key format"@),
        (base58_decoding(secret@) matches Some(b) && b.len() != 64) ==> (r matches Err(e) && e@
            == "Secret key must be 64 bytes"@),
        valid_secret_string(secret@) ==> (r matches Ok(v) && v@
            == base58_decoding(secret@).unwrap()),
{
    match bs58_decode(secret) {
        Some(bytes) => {
            if bytes.len() != 64 {
                Err("Secret key must be 64 bytes".to_owned())
            } else {
                Ok(bytes)
            }
        },
        None => Err("Invalid base58 secret key format".to_owned()),
    }
}

} // verus!
