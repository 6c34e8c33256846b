//! A verified request-validation core for a Solana instruction-building
//! HTTP gateway.
//!
//! Each endpoint of the gateway validates its request fields in a fixed
//! order, delegates to the Solana SDK or to Ed25519 primitives, and shapes
//! the result into a uniform response envelope.  The validation rules, the
//! order in which they run, and the exact shape of every response are
//! stated as contracts and proved here; the SDK and cryptographic calls
//! stand behind trusted wrappers.

mod builders;
mod codec;
mod crypto;
mod handlers;
mod types;
mod validate;

pub use handlers::account_meta_is;
pub use handlers::create_token;
pub use handlers::create_token_result;
pub use handlers::generate_keypair;
pub use handlers::generated_keypair;
pub use handlers::health_check;
pub use handlers::is_err_with;
pub use handlers::is_initialize_mint_response;
pub use handlers::is_mint_to_response;
pub use handlers::is_system_transfer_response;
pub use handlers::is_token_transfer_response;
pub use handlers::lemma_sign_then_verify;
pub use handlers::lemma_verify_answers_on_parsed_inputs;
pub use handlers::mint_token;
pub use handlers::mint_token_result;
pub use handlers::send_sol;
pub use handlers::send_sol_result;
pub use handlers::send_token;
pub use handlers::send_token_meta_is;
pub use handlers::send_token_result;
pub use handlers::sign_message;
pub use handlers::sign_message_result;
pub use handlers::verification_accepts;
pub use handlers::verify_message;
pub use handlers::verify_message_result;

pub use builders::associated_token_address_of;
pub use builders::initialize_mint_data;
pub use builders::mint_to_data;
pub use builders::rent_sysvar_id;
pub use builders::spl_token_program_id;
pub use builders::system_program_id;
pub use builders::system_transfer_data;
pub use builders::token_transfer_data;
pub use builders::u64_le_bytes;
pub use codec::base58_decoding;
pub use codec::base58_encoding;
pub use codec::base64_decoding;
pub use codec::base64_encoding;
pub use crypto::ed25519_point_valid;
pub use crypto::ed25519_pubkey_of;
pub use crypto::ed25519_signature_of;
pub use crypto::ed25519_verifies;
pub use crypto::signature_well_formed;
pub use types::AccountMeta;
pub use types::Address;
pub use types::ApiResponse;
pub use types::HealthResponse;
pub use types::InstructionResponse;
pub use types::KeypairResponse;
pub use types::SendSolResponse;
pub use types::SendTokenAccountMeta;
pub use types::SendTokenResponse;
pub use types::SignMessageResponse;
pub use types::VerifyMessageResponse;
pub use types::envelope;
pub use validate::valid_pubkey_string;
pub use validate::valid_secret_string;
pub use validate::validate_amount;
pub use validate::validate_base58_secret;
pub use validate::validate_decimals;
pub use validate::validate_pubkey;
