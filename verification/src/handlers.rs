//! The gateway endpoints.
//!
//! Every endpoint runs the same pipeline: presence check first (one generic
//! message), then field-by-field validation in a fixed order (the first
//! failing field's message is returned and later fields are not looked at),
//! then delegation to a builder or signature primitive, then response
//! shaping.  Each endpoint's contract states the exact outcome for every
//! input as one chain of conditions, so the validation order is part of
//! what is proved.

use crate::builders::RawAccountMeta;
use crate::builders::associated_token_address_of;
use crate::builders::build_initialize_mint;
use crate::builders::build_mint_to;
use crate::builders::build_system_transfer;
use crate::builders::build_token_transfer;
use crate::builders::derive_associated_token_address;
use crate::builders::initialize_mint_data;
use crate::builders::mint_to_data;
use crate::builders::rent_sysvar_id;
use crate::builders::spl_token_program_id;
use crate::builders::system_program_id;
use crate::builders::system_transfer_data;
use crate::builders::token_transfer_data;
use crate::codec::base58_decoding;
use crate::codec::base58_encoding;
use crate::codec::base64_decoding;
use crate::codec::base64_encoding;
use crate::codec::base64_decode;
use crate::codec::base64_encode;
use crate::codec::bs58_decode;
use crate::codec::bs58_encode;
use crate::crypto::derive_public_key;
use crate::crypto::ed25519_point_valid;
use crate::crypto::ed25519_pubkey_of;
use crate::crypto::ed25519_signature_of;
use crate::crypto::ed25519_verifies;
use crate::crypto::fresh_keypair_bytes;
use crate::crypto::point_decompresses;
use crate::crypto::sign_with_seed;
use crate::crypto::signature_well_formed;
use crate::crypto::verify_signature;
use crate::types::AccountMeta;
use crate::types::HealthResponse;
use crate::types::InstructionResponse;
use crate::types::KeypairResponse;
use crate::types::SendSolResponse;
use crate::types::SendTokenAccountMeta;
use crate::types::SendTokenResponse;
use crate::types::SignMessageResponse;
use crate::types::VerifyMessageResponse;
use crate::validate::valid_pubkey_string;
use crate::validate::validate_base58_secret;
use crate::validate::validate_decimals;
use crate::validate::validate_pubkey;
use vstd::prelude::*;
use vstd::slice::slice_subrange;
use vstd::slice::slice_to_vec;

verus! {

/// The result is the error envelope's message `m`.
pub open spec fn is_err_with<T>(r: Result<T, String>, m: Seq<char>) -> bool {
    r matches Err(e) && e@ == m
}

/// What one reported account holds: an address in base58 and its flags.
pub open spec fn account_meta_is(m: AccountMeta, key: Seq<u8>, signer: bool, writable: bool) -> bool {
    m.pubkey@ == base58_encoding(key) && m.is_signer == signer && m.is_writable == writable
}

/// Shapes one raw account into its reported form.
fn meta_of(raw: &RawAccountMeta) -> (m: AccountMeta)
    ensures
        account_meta_is(m, raw.pubkey@, raw.is_signer, raw.is_writable),
{
    AccountMeta {
        pubkey: bs58_encode(&raw.pubkey),
        is_signer: raw.is_signer,
        is_writable: raw.is_writable,
    }
}

/// The root route's payload.
pub fn health_check() -> (r: HealthResponse)
    ensures
        r.status@ == "ok"@,
        r.message@ == "Solana HTTP Server is running"@,
{
    HealthResponse {
        status: "ok".to_owned(),
        message: "Solana HTTP Server is running".to_owned(),
    }
}

/// The response describes a keypair whose 64 serialized bytes are `kb`:
/// both halves are reported in base58, and the public half is derived from
/// the secret seed.
pub open spec fn generated_keypair(kb: Seq<u8>, r: KeypairResponse) -> bool {
    &&& kb.len() == 64
    &&& kb.subrange(32, 64) == ed25519_pubkey_of(kb.subrange(0, 32))
    &&& r.secret@ == base58_encoding(kb)
    &&& r.pubkey@ == base58_encoding(kb.subrange(32, 64))
}

/// Generates a fresh keypair and reports both halves in base58.
pub fn generate_keypair() -> (r: KeypairResponse)
    ensures
        exists|kb: Seq<u8>| generated_keypair(kb, r),
{
    let keypair_bytes = fresh_keypair_bytes();
    let public = slice_to_vec(slice_subrange(keypair_bytes.as_slice(), 32, 64));
    let resp = KeypairResponse {
        pubkey: bs58_encode(&public),
        secret: bs58_encode(&keypair_bytes),
    };
    proof {
        assert(generated_keypair(keypair_bytes@, resp));
    }
    resp
}

/// The initialize-mint descriptor for a mint and authority: the SPL token
/// program, the writable mint account, the read-only rent sysvar, and the
/// packed instruction data in base64.
pub open spec fn is_initialize_mint_response(
    resp: InstructionResponse,
    mint: Seq<u8>,
    authority: Seq<u8>,
    decimals: u8,
) -> bool {
    &&& resp.program_id@ == base58_encoding(spl_token_program_id())
    &&& resp.accounts@.len() == 2
    &&& account_meta_is(resp.accounts@[0], mint, false, true)
    &&& account_meta_is(resp.accounts@[1], rent_sysvar_id(), false, false)
    &&& resp.instruction_data@ == base64_encoding(initialize_mint_data(decimals, authority))
}

/// The outcome of `create_token`, as one chain: presence first, then the
/// mint authority, then the mint, then the decimals; else the descriptor.
pub open spec fn create_token_result(
    mint_authority: Seq<char>,
    mint: Seq<char>,
    decimals: u8,
    r: Result<InstructionResponse, String>,
) -> bool {
    if mint_authority.len() == 0 || mint.len() == 0 {
        is_err_with(r, "Missing required fields"@)
    } else if !valid_pubkey_string(mint_authority) {
        is_err_with(r, "Invalid mint authority: Invalid public key format"@)
    } else if !valid_pubkey_string(mint) {
        is_err_with(r, "Invalid mint: Invalid public key format"@)
    } else if decimals > 9 {
        is_err_with(r, "Decimals must be between 0 and 9"@)
    } else {
        r matches Ok(resp) && is_initialize_mint_response(
            resp,
            base58_decoding(mint).unwrap(),
            base58_decoding(mint_authority).unwrap(),
            decimals,
        )
    }
}

/// Builds the initialize-mint instruction for a new token.
pub fn create_token(mint_authority: &str, mint: &str, decimals: u8) -> (r: Result<
    InstructionResponse,
    String,
>)
    ensures
        create_token_result(mint_authority@, mint@, decimals, r),
        decimals > 9 ==> r is Err,
        decimals <= 9 ==> !is_err_with(r, "Decimals must be between 0 and 9"@),
{
    proof {
        reveal_strlit("Missing required fields");
        reveal_strlit("Invalid mint authority: Invalid public key format");
        reveal_strlit("Invalid mint: Invalid public key format");
        reveal_strlit("Decimals must be between 0 and 9");
        assert("Missing required fields"@.len() == 23);
        assert("Invalid mint authority: Invalid public key format"@.len() == 49);
        assert("Invalid mint: Invalid public key format"@.len() == 39);
        assert("Decimals must be between 0 and 9"@.len() == 32);
        assert("Missing required fields"@ != "Decimals must be between 0 and 9"@);
        assert("Invalid mint authority: Invalid public key format"@
            != "Decimals must be between 0 and 9"@);
        assert("Invalid mint: Invalid public key format"@
            != "Decimals must be between 0 and 9"@);
    }
    if mint_authority.is_empty() || mint.is_empty() {
        return Err("Missing required fields".to_owned());
    }
    let authority = match validate_pubkey(mint_authority) {
        Ok(a) => a,
        Err(_) => {
            return Err("Invalid mint authority: Invalid public key format".to_owned());
        },
    };
    let mint_key = match validate_pubkey(mint) {
        Ok(a) => a,
        Err(_) => {
            return Err("Invalid mint: Invalid public key format".to_owned());
        },
    };
    if let Err(e) = validate_decimals(decimals) {
        return Err(e);
    }
    let raw = build_initialize_mint(&mint_key, &authority, decimals);
    let mut accounts: Vec<AccountMeta> = Vec::new();
    accounts.push(meta_of(&raw.accounts[0]));
    accounts.push(meta_of(&raw.accounts[1]));
    Ok(InstructionResponse {
        program_id: bs58_encode(&raw.program_id),
        accounts,
        instruction_data: base64_encode(&raw.data),
    })
}

/// The mint-to descriptor: the SPL token program, writable mint and
/// destination accounts, the read-only signing authority, and the packed
/// instruction data in base64.
pub open spec fn is_mint_to_response(
    resp: InstructionResponse,
    mint: Seq<u8>,
    destination: Seq<u8>,
    authority: Seq<u8>,
    amount: u64,
) -> bool {
    &&& resp.program_id@ == base58_encoding(spl_token_program_id())
    &&& resp.accounts@.len() == 3
    &&& account_meta_is(resp.accounts@[0], mint, false, true)
    &&& account_meta_is(resp.accounts@[1], destination, false, true)
    &&& account_meta_is(resp.accounts@[2], authority, true, false)
    &&& resp.instruction_data@ == base64_encoding(mint_to_data(amount))
}

/// The outcome of `mint_token`, as one chain: presence first, then the
/// mint, the destination, the authority, and the amount; else the
/// descriptor.
pub open spec fn mint_token_result(
    mint: Seq<char>,
    destination: Seq<char>,
    authority: Seq<char>,
    amount: u64,
    r: Result<InstructionResponse, String>,
) -> bool {
    if mint.len() == 0 || destination.len() == 0 || authority.len() == 0 {
        is_err_with(r, "Missing required fields"@)
    } else if !valid_pubkey_string(mint) {
        is_err_with(r, "Invalid mint: Invalid public key format"@)
    } else if !valid_pubkey_string(destination) {
        is_err_with(r, "Invalid destination: Invalid public key format"@)
    } else if !valid_pubkey_string(authority) {
        is_err_with(r, "Invalid authority: Invalid public key format"@)
    } else if amount == 0 {
        is_err_with(r, "Amount must be greater than 0"@)
    } else {
        r matches Ok(resp) && is_mint_to_response(
            resp,
            base58_decoding(mint).unwrap(),
            base58_decoding(destination).unwrap(),
            base58_decoding(authority).unwrap(),
            amount,
        )
    }
}

/// Builds the mint-to instruction for an existing mint.
pub fn mint_token(mint: &str, destination: &str, authority: &str, amount: u64) -> (r: Result<
    InstructionResponse,
    String,
>)
    ensures
        mint_token_result(mint@, destination@, authority@, amount, r),
        amount == 0 ==> r is Err,
{
    if mint.is_empty() || destination.is_empty() || authority.is_empty() {
        return Err("Missing required fields".to_owned());
    }
    let mint_key = match validate_pubkey(mint) {
        Ok(a) => a,
        Err(_) => {
            return Err("Invalid mint: Invalid public key format".to_owned());
        },
    };
    let destination_key = match validate_pubkey(destination) {
        Ok(a) => a,
        Err(_) => {
            return Err("Invalid destination: Invalid public key format".to_owned());
        },
    };
    let authority_key = match validate_pubkey(authority) {
        Ok(a) => a,
        Err(_) => {
            return Err("Invalid authority: Invalid public key format".to_owned());
        },
    };
    if amount == 0 {
        return Err("Amount must be greater than 0".to_owned());
    }
    let raw = build_mint_to(&mint_key, &destination_key, &authority_key, amount);
    let mut accounts: Vec<AccountMeta> = Vec::new();
    accounts.push(meta_of(&raw.accounts[0]));
    accounts.push(meta_of(&raw.accounts[1]));
    accounts.push(meta_of(&raw.accounts[2]));
    Ok(InstructionResponse {
        program_id: bs58_encode(&raw.program_id),
        accounts,
        instruction_data: base64_encode(&raw.data),
    })
}

/// The verification pipeline accepts these strings and reports the
/// signature valid: the public key decodes to a curve point, the signature
/// decodes to a well-formed signature, and it verifies.
pub open spec fn verification_accepts(msg: Seq<char>, sig: Seq<char>, pk: Seq<char>) -> bool {
    &&& valid_pubkey_string(pk)
    &&& ed25519_point_valid(base58_decoding(pk).unwrap())
    &&& base64_decoding(sig) is Some
    &&& signature_well_formed(base64_decoding(sig).unwrap())
    &&& ed25519_verifies(base58_decoding(pk).unwrap(), msg, base64_decoding(sig).unwrap())
}

/// The outcome of `sign_message`, as one chain: presence first, then the
/// secret's decoding and length; else a signed response whose signature
/// and derived public key the verification endpoint accepts as valid.
pub open spec fn sign_message_result(
    msg: Seq<char>,
    secret: Seq<char>,
    r: Result<SignMessageResponse, String>,
) -> bool {
    if msg.len() == 0 || secret.len() == 0 {
        is_err_with(r, "Missing required fields"@)
    } else if base58_decoding(secret) is None {
        is_err_with(r, "Invalid base58 secret key format"@)
    } else if base58_decoding(secret).unwrap().len() != 64 {
        is_err_with(r, "Secret key must be 64 bytes"@)
    } else {
        let seed = base58_decoding(secret).unwrap().subrange(0, 32);
        r matches Ok(resp)
            && resp.signature@ == base64_encoding(ed25519_signature_of(seed, msg))
            && resp.public_key@ == base58_encoding(ed25519_pubkey_of(seed))
            && resp.message@ == msg
            && resp.signature@.len() > 0
            && resp.public_key@.len() > 0
            && verification_accepts(msg, resp.signature@, resp.public_key@)
    }
}

/// Signs a message with the keypair rebuilt from a base58 secret: the
/// public key is derived from the first 32 decoded bytes.
pub fn sign_message(message: &str, secret: &str) -> (r: Result<SignMessageResponse, String>)
    ensures
        sign_message_result(message@, secret@, r),
{
    if message.is_empty() || secret.is_empty() {
        return Err("Missing required fields".to_owned());
    }
    let secret_bytes = match validate_base58_secret(secret) {
        Ok(b) => b,
        Err(e) => {
            return Err(e);
        },
    };
    let seed = slice_to_vec(slice_subrange(secret_bytes.as_slice(), 0, 32));
    let public = derive_public_key(&seed);
    let signature = sign_with_seed(&seed, message);
    Ok(SignMessageResponse {
        signature: base64_encode(&signature),
        public_key: bs58_encode(&public),
        message: message.to_owned(),
    })
}

/// The outcome of `verify_message`, as one chain: presence first, then the
/// public key's decoding, length and curve point, then the signature's
/// decoding and shape; else a response reporting whether the signature
/// verifies.
pub open spec fn verify_message_result(
    msg: Seq<char>,
    sig: Seq<char>,
    pk: Seq<char>,
    r: Result<VerifyMessageResponse, String>,
) -> bool {
    if msg.len() == 0 || sig.len() == 0 || pk.len() == 0 {
        is_err_with(r, "Missing required fields"@)
    } else if base58_decoding(pk) is None {
        is_err_with(r, "Invalid public key format"@)
    } else if base58_decoding(pk).unwrap().len() != 32 {
        is_err_with(r, "Invalid public key: signature error: PublicKey must be 32 bytes in length"@)
    } else if !ed25519_point_valid(base58_decoding(pk).unwrap()) {
        is_err_with(r, "Invalid public key: signature error: Cannot decompress Edwards point"@)
    } else if base64_decoding(sig) is None {
        is_err_with(r, "Invalid signature format"@)
    } else if !signature_well_formed(base64_decoding(sig).unwrap()) {
        is_err_with(r, "Invalid signature: signature error"@)
    } else {
        r matches Ok(resp)
            && resp.valid == ed25519_verifies(
                base58_decoding(pk).unwrap(),
                msg,
                base64_decoding(sig).unwrap(),
            )
            && resp.message@ == msg
            && resp.pubkey@ == pk
    }
}

/// Verifies a base64 signature over a message against a base58 public
/// key.  A signature that parses but does not verify yields `valid:
/// false`, not an error.
pub fn verify_message(message: &str, signature: &str, pubkey: &str) -> (r: Result<
    VerifyMessageResponse,
    String,
>)
    ensures
        verify_message_result(message@, signature@, pubkey@, r),
{
    if message.is_empty() || signature.is_empty() || pubkey.is_empty() {
        return Err("Missing required fields".to_owned());
    }
    let pubkey_bytes = match bs58_decode(pubkey) {
        Some(b) => b,
        None => {
            return Err("Invalid public key format".to_owned());
        },
    };
    if pubkey_bytes.len() != 32 {
        return Err(
            "Invalid public key: signature error: PublicKey must be 32 bytes in length".to_owned(),
        );
    }
    if !point_decompresses(&pubkey_bytes) {
        return Err(
            "Invalid public key: signature error: Cannot decompress Edwards point".to_owned(),
        );
    }
    let sig_bytes = match base64_decode(signature) {
        Some(b) => b,
        None => {
            return Err("Invalid signature format".to_owned());
        },
    };
    if !(sig_bytes.len() == 64 && sig_bytes[63] & 0xE0 == 0) {
        return Err("Invalid signature: signature error".to_owned());
    }
    let valid = verify_signature(&pubkey_bytes, message, &sig_bytes);
    Ok(VerifyMessageResponse {
        valid,
        message: message.to_owned(),
        pubkey: pubkey.to_owned(),
    })
}

/// Signing then verifying round-trips: strings the signing endpoint
/// promises (`verification_accepts`) make the verification endpoint
/// return a response that reports the signature valid.
pub proof fn lemma_sign_then_verify(
    msg: Seq<char>,
    sig: Seq<char>,
    pk: Seq<char>,
    r: Result<VerifyMessageResponse, String>,
)
    requires
        msg.len() > 0,
        sig.len() > 0,
        pk.len() > 0,
        verification_accepts(msg, sig, pk),
        verify_message_result(msg, sig, pk, r),
    ensures
        r matches Ok(resp) && resp.valid,
{
}

/// Whatever the message, a public key and a signature that parse make the
/// verification endpoint answer rather than error: tampering with the
/// message (or with signature bytes that leave it well formed) can change
/// the reported verdict only, never the outcome class.
pub proof fn lemma_verify_answers_on_parsed_inputs(
    msg: Seq<char>,
    sig: Seq<char>,
    pk: Seq<char>,
    r: Result<VerifyMessageResponse, String>,
)
    requires
        msg.len() > 0,
        sig.len() > 0,
        pk.len() > 0,
        valid_pubkey_string(pk),
        ed25519_point_valid(base58_decoding(pk).unwrap()),
        base64_decoding(sig) is Some,
        signature_well_formed(base64_decoding(sig).unwrap()),
        verify_message_result(msg, sig, pk, r),
    ensures
        r matches Ok(resp) && resp.valid == ed25519_verifies(
            base58_decoding(pk).unwrap(),
            msg,
            base64_decoding(sig).unwrap(),
        ),
{
}

/// The native transfer descriptor: the system program, the signing
/// writable source, the writable destination, and the bincode data in
/// base64; accounts are reported as plain address strings.
pub open spec fn is_system_transfer_response(
    resp: SendSolResponse,
    from: Seq<u8>,
    to: Seq<u8>,
    lamports: u64,
) -> bool {
    &&& resp.program_id@ == base58_encoding(system_program_id())
    &&& resp.accounts@.len() == 2
    &&& resp.accounts@[0]@ == base58_encoding(from)
    &&& resp.accounts@[1]@ == base58_encoding(to)
    &&& resp.instruction_data@ == base64_encoding(system_transfer_data(lamports))
}

/// The outcome of `send_sol`, as one chain: presence first, then the from
/// address, the to address, and the lamports; else the descriptor.
pub open spec fn send_sol_result(
    from: Seq<char>,
    to: Seq<char>,
    lamports: u64,
    r: Result<SendSolResponse, String>,
) -> bool {
    if from.len() == 0 || to.len() == 0 {
        is_err_with(r, "Missing required fields"@)
    } else if !valid_pubkey_string(from) {
        is_err_with(r, "Invalid from address: Invalid public key format"@)
    } else if !valid_pubkey_string(to) {
        is_err_with(r, "Invalid to address: Invalid public key format"@)
    } else if lamports == 0 {
        is_err_with(r, "Amount must be greater than 0"@)
    } else {
        r matches Ok(resp) && is_system_transfer_response(
            resp,
            base58_decoding(from).unwrap(),
            base58_decoding(to).unwrap(),
            lamports,
        )
    }
}

/// Builds the native transfer instruction.
pub fn send_sol(from: &str, to: &str, lamports: u64) -> (r: Result<SendSolResponse, String>)
    ensures
        send_sol_result(from@, to@, lamports, r),
        lamports == 0 ==> r is Err,
{
    if from.is_empty() || to.is_empty() {
        return Err("Missing required fields".to_owned());
    }
    let from_key = match validate_pubkey(from) {
        Ok(a) => a,
        Err(_) => {
            return Err("Invalid from address: Invalid public key format".to_owned());
        },
    };
    let to_key = match validate_pubkey(to) {
        Ok(a) => a,
        Err(_) => {
            return Err("Invalid to address: Invalid public key format".to_owned());
        },
    };
    if lamports == 0 {
        return Err("Amount must be greater than 0".to_owned());
    }
    let raw = build_system_transfer(&from_key, &to_key, lamports);
    let mut accounts: Vec<String> = Vec::new();
    accounts.push(bs58_encode(&raw.accounts[0].pubkey));
    accounts.push(bs58_encode(&raw.accounts[1].pubkey));
    Ok(SendSolResponse {
        program_id: bs58_encode(&raw.program_id),
        accounts,
        instruction_data: base64_encode(&raw.data),
    })
}

/// What one reported token transfer account holds; this endpoint reports
/// no writable flag.
pub open spec fn send_token_meta_is(m: SendTokenAccountMeta, key: Seq<u8>, signer: bool) -> bool {
    m.pubkey@ == base58_encoding(key) && m.is_signer == signer
}

/// The token transfer descriptor: the SPL token program, the writable
/// associated token accounts of owner and destination, the read-only
/// signing owner, and the packed instruction data in base64.
pub open spec fn is_token_transfer_response(
    resp: SendTokenResponse,
    destination: Seq<u8>,
    mint: Seq<u8>,
    owner: Seq<u8>,
    amount: u64,
) -> bool {
    &&& resp.program_id@ == base58_encoding(spl_token_program_id())
    &&& resp.accounts@.len() == 3
    &&& send_token_meta_is(resp.accounts@[0], associated_token_address_of(owner, mint), false)
    &&& send_token_meta_is(resp.accounts@[1], associated_token_address_of(destination, mint), false)
    &&& send_token_meta_is(resp.accounts@[2], owner, true)
    &&& resp.instruction_data@ == base64_encoding(token_transfer_data(amount))
}

/// The outcome of `send_token`, as one chain: presence first, then the
/// destination, the mint, the owner, and the amount; else the descriptor.
pub open spec fn send_token_result(
    destination: Seq<char>,
    mint: Seq<char>,
    owner: Seq<char>,
    amount: u64,
    r: Result<SendTokenResponse, String>,
) -> bool {
    if destination.len() == 0 || mint.len() == 0 || owner.len() == 0 {
        is_err_with(r, "Missing required fields"@)
    } else if !valid_pubkey_string(destination) {
        is_err_with(r, "Invalid destination: Invalid public key format"@)
    } else if !valid_pubkey_string(mint) {
        is_err_with(r, "Invalid mint: Invalid public key format"@)
    } else if !valid_pubkey_string(owner) {
        is_err_with(r, "Invalid owner: Invalid public key format"@)
    } else if amount == 0 {
        is_err_with(r, "Amount must be greater than 0"@)
    } else {
        r matches Ok(resp) && is_token_transfer_response(
            resp,
            base58_decoding(destination).unwrap(),
            base58_decoding(mint).unwrap(),
            base58_decoding(owner).unwrap(),
            amount,
        )
    }
}

/// Builds the token transfer instruction between the associated token
/// accounts derived for the owner and the destination.
pub fn send_token(destination: &str, mint: &str, owner: &str, amount: u64) -> (r: Result<
    SendTokenResponse,
    String,
>)
    ensures
        send_token_result(destination@, mint@, owner@, amount, r),
        amount == 0 ==> r is Err,
{
    if destination.is_empty() || mint.is_empty() || owner.is_empty() {
        return Err("Missing required fields".to_owned());
    }
    let destination_key = match validate_pubkey(destination) {
        Ok(a) => a,
        Err(_) => {
            return Err("Invalid destination: Invalid public key format".to_owned());
        },
    };
    let mint_key = match validate_pubkey(mint) {
        Ok(a) => a,
        Err(_) => {
            return Err("Invalid mint: Invalid public key format".to_owned());
        },
    };
    let owner_key = match validate_pubkey(owner) {
        Ok(a) => a,
        Err(_) => {
            return Err("Invalid owner: Invalid public key format".to_owned());
        },
    };
    if amount == 0 {
        return Err("Amount must be greater than 0".to_owned());
    }
    let source = derive_associated_token_address(&owner_key, &mint_key);
    let destination_ata = derive_associated_token_address(&destination_key, &mint_key);
    let raw = build_token_transfer(&source, &destination_ata, &owner_key, amount);
    let mut accounts: Vec<SendTokenAccountMeta> = Vec::new();
    accounts.push(SendTokenAccountMeta {
        pubkey: bs58_encode(&raw.accounts[0].pubkey),
        is_signer: raw.accounts[0].is_signer,
    });
    accounts.push(SendTokenAccountMeta {
        pubkey: bs58_encode(&raw.accounts[1].pubkey),
        is_signer: raw.accounts[1].is_signer,
    });
    accounts.push(SendTokenAccountMeta {
        pubkey: bs58_encode(&raw.accounts[2].pubkey),
        is_signer: raw.accounts[2].is_signer,
    });
    Ok(SendTokenResponse {
        program_id: bs58_encode(&raw.program_id),
        accounts,
        instruction_data: base64_encode(&raw.data),
    })
}

} // verus!
