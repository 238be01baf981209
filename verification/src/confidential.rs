//! The request and the response of a confidential computation, as they travel between
//! a client and a node. Binary values are base64 text.

use vstd::prelude::*;

verus! {

/// How many tokens a request used.
#[derive(Debug, Clone, Copy, PartialEq, Eq, Structural)]
pub struct CompletionUsage {
    /// Tokens in the prompt.
    pub prompt_tokens: u64,
    /// Tokens in the completion.
    pub completion_tokens: u64,
    /// Tokens in all.
    pub total_tokens: u64,
}

/// A request for confidential computation: the encrypted payload and the
/// cryptographic parameters that go with it.
#[derive(Debug, PartialEq, Eq)]
pub struct ConfidentialComputeRequest {
    /// The encrypted payload that needs to be processed (base64 encoded).
    pub ciphertext: String,
    /// Unique identifier for the small stack being used.
    pub stack_small_id: u64,
    /// Cryptographic nonce used for encryption (base64 encoded).
    pub nonce: String,
    /// Salt value used in key derivation (base64 encoded).
    pub salt: String,
    /// Client's public key for the Diffie-Hellman key exchange (base64 encoded).
    pub client_dh_public_key: String,
    /// Node's public key for the Diffie-Hellman key exchange (base64 encoded).
    pub node_dh_public_key: String,
    /// Hash of the plaintext body, for integrity verification (base64 encoded).
    pub plaintext_body_hash: String,
    /// Indicates whether this is a streaming request.
    pub stream: Option<bool>,
    /// Model name.
    pub model_name: String,
    /// Number of compute units to be used for the request, where that is known in
    /// advance, as it is for image generation.
    pub num_compute_units: Option<u64>,
}

/// The response to a confidential compute request.
#[derive(Debug, PartialEq, Eq)]
pub struct ConfidentialComputeResponse {
    /// Encrypted response body (base64 encoded).
    pub ciphertext: String,
    /// Nonce used for encryption (base64 encoded).
    pub nonce: String,
    /// Signature of the response body (base64 encoded).
    pub signature: Option<String>,
    /// Hash of the response body (base64 encoded).
    pub response_hash: Option<String>,
    /// Usage statistics for the request.
    pub usage: Option<CompletionUsage>,
}

} // verus!
