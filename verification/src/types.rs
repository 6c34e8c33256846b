//! Request-scoped data of the gateway: a validated address, the response
//! payload of each endpoint, and the uniform response envelope.

use vstd::prelude::*;

verus! {

/// A validated account address: exactly 32 bytes, obtained by base58
/// decoding a request field.
#[derive(Debug)]
pub struct Address {
    pub bytes: Vec<u8>,
}

impl View for Address {
    type V = Seq<u8>;

    open spec fn view(&self) -> Seq<u8> {
        self.bytes@
    }
}

impl Address {
    /// A well-formed address holds exactly 32 bytes.
    pub open spec fn wf(self) -> bool {
        self.bytes@.len() == 32
    }
}

/// One account of an instruction descriptor, with its address in base58.
#[derive(Debug)]
pub struct AccountMeta {
    pub pubkey: String,
    pub is_signer: bool,
    pub is_writable: bool,
}

/// An instruction descriptor: the owning program, the accounts it touches,
/// and its opaque data in base64.
#[derive(Debug)]
pub struct InstructionResponse {
    pub program_id: String,
    pub accounts: Vec<AccountMeta>,
    pub instruction_data: String,
}

/// A freshly generated keypair, both halves in base58.
#[derive(Debug)]
pub struct KeypairResponse {
    pub pubkey: String,
    pub secret: String,
}

/// The result of signing a message: the signature in base64, the signer's
/// public key in base58, and the message signed.
#[derive(Debug)]
pub struct SignMessageResponse {
    pub signature: String,
    pub public_key: String,
    pub message: String,
}

/// The result of verifying a signature against a message and public key.
#[derive(Debug)]
pub struct VerifyMessageResponse {
    pub valid: bool,
    pub message: String,
    pub pubkey: String,
}

/// A native transfer descriptor; its accounts are plain address strings.
#[derive(Debug)]
pub struct SendSolResponse {
    pub program_id: String,
    pub accounts: Vec<String>,
    pub instruction_data: String,
}

/// One account of a token transfer descriptor; the writable flag is not
/// reported on this endpoint.
#[derive(Debug)]
pub struct SendTokenAccountMeta {
    pub pubkey: String,
    pub is_signer: bool,
}

/// A token transfer descriptor between associated token accounts.
#[derive(Debug)]
pub struct SendTokenResponse {
    pub program_id: String,
    pub accounts: Vec<SendTokenAccountMeta>,
    pub instruction_data: String,
}

/// The health payload of the root route.
#[derive(Debug)]
pub struct HealthResponse {
    pub status: String,
    pub message: String,
}

/// The uniform response envelope: exactly one of `data` and `error` is
/// present, according to `success`.
pub struct ApiResponse<T> {
    pub success: bool,
    pub data: Option<T>,
    pub error: Option<String>,
}

impl<T> ApiResponse<T> {
    /// The envelope invariant: `success` carries data and no error, failure
    /// carries an error and no data.
    pub open spec fn wf(self) -> bool {
        &&& self.success ==> self.data is Some && self.error is None
        &&& !self.success ==> self.data is None && self.error is Some
    }

    /// The success envelope around a payload.
    pub fn success(data: T) -> (r: Self)
        ensures
            r.wf(),
            r.success,
            r.data == Some(data),
            r.error is None,
    {
        ApiResponse { success: true, data: Some(data), error: None }
    }

    /// The error envelope around a message.
    pub fn error(message: String) -> (r: Self)
        ensures
            r.wf(),
            !r.success,
            r.data is None,
            r.error == Some(message),
    {
        ApiResponse { success: false, data: None, error: Some(message) }
    }
}

/// Shapes an endpoint result into the envelope: a payload becomes the
/// success envelope, a validation failure the error envelope.
pub fn envelope<T>(result: Result<T, String>) -> (r: ApiResponse<T>)
    ensures
        r.wf(),
        match result {
            Ok(d) => r.success && r.data == Some(d) && r.error is None,
            Err(e) => !r.success && r.data is None && r.error == Some(e),
        },
{
    match result {
        Ok(d) => ApiResponse::success(d),
        Err(e) => ApiResponse::error(e),
    }
}

} // verus!
