//! What the backends report, and how they fail.
use vstd::prelude::*;

verus! {

/// Discovered hardware key backend
#[derive(Debug, PartialEq, Eq)]
pub struct HardwareKeyInfo {
    /// Name of the backend, such as `"yubikey-piv"`
    pub backend: String,
    /// Human-readable description
    pub description: String,
    /// Supported algorithms: `"ES256"`, `"RS256"`, etc.
    pub algorithms: Vec<String>,
    /// For YubiKey: serial number. For the other backends: `"local"`
    pub device_id: String,
}

/// The contents of a [`HardwareKeyInfo`].
pub struct HardwareKeyInfoView {
    pub backend: Seq<char>,
    pub description: Seq<char>,
    pub algorithms: Seq<Seq<char>>,
    pub device_id: Seq<char>,
}

impl DeepView for HardwareKeyInfo {
    type V = HardwareKeyInfoView;

    open spec fn deep_view(&self) -> HardwareKeyInfoView {
        HardwareKeyInfoView {
            backend: self.backend@,
            description: self.description@,
            algorithms: self.algorithms.deep_view(),
            device_id: self.device_id@,
        }
    }
}

/// Result of key generation
#[derive(Debug, PartialEq, Eq)]
pub struct GeneratedKey {
    /// Backend that holds the key
    pub backend: String,
    /// Key identifier, as `sign_hash` and `delete_key` take it
    pub key_id: String,
    /// Algorithm used
    pub algorithm: String,
    /// Public key as JWK JSON string
    pub public_jwk: String,
}

/// The contents of a [`GeneratedKey`].
pub struct GeneratedKeyView {
    pub backend: Seq<char>,
    pub key_id: Seq<char>,
    pub algorithm: Seq<char>,
    pub public_jwk: Seq<char>,
}

impl DeepView for GeneratedKey {
    type V = GeneratedKeyView;

    open spec fn deep_view(&self) -> GeneratedKeyView {
        GeneratedKeyView {
            backend: self.backend@,
            key_id: self.key_id@,
            algorithm: self.algorithm@,
            public_jwk: self.public_jwk@,
        }
    }
}

/// Result of a signing operation
#[derive(Debug, PartialEq, Eq)]
pub struct SignatureResult {
    /// Raw signature bytes (r||s for ECDSA, raw for RSA)
    pub signature: Vec<u8>,
    /// Algorithm used
    pub algorithm: String,
}

/// The contents of a [`SignatureResult`].
pub struct SignatureResultView {
    pub signature: Seq<u8>,
    pub algorithm: Seq<char>,
}

impl DeepView for SignatureResult {
    type V = SignatureResultView;

    open spec fn deep_view(&self) -> SignatureResultView {
        SignatureResultView { signature: self.signature@, algorithm: self.algorithm@ }
    }
}

/// What happens when a key with the requested label already exists.
#[derive(Clone, Copy, Debug, PartialEq, Eq, Structural)]
pub enum DuplicateLabelPolicy {
    /// Delete the existing key and create a new one.
    Replace,
    /// Leave the existing key alone.
    Error,
}

/// Why an operation failed.
#[derive(Debug, PartialEq, Eq)]
pub enum Error {
    /// A failure that one sentence describes.
    Reason { reason: String },
    /// A failure of one named step of an operation.
    KeyOperation { operation: String, detail: String },
}

/// The contents of an [`Error`].
pub enum ErrorView {
    Reason { reason: Seq<char> },
    KeyOperation { operation: Seq<char>, detail: Seq<char> },
}

impl DeepView for Error {
    type V = ErrorView;

    open spec fn deep_view(&self) -> ErrorView {
        match self {
            Error::Reason { reason } => ErrorView::Reason { reason: reason@ },
            Error::KeyOperation { operation, detail } => ErrorView::KeyOperation {
                operation: operation@,
                detail: detail@,
            },
        }
    }
}

impl ErrorView {
    /// The failure that a text describes.
    pub open spec fn because(reason: Seq<char>) -> ErrorView {
        ErrorView::Reason { reason }
    }
}

impl Error {
    /// A failure with a fixed description.
    pub fn from_reason(reason: &str) -> (error: Error)
        ensures
            error.deep_view() == ErrorView::because(reason@),
    {
        Error::Reason { reason: reason.to_owned() }
    }

    /// A failure described by a text followed by a detail.
    pub fn with_detail(text: &str, detail: &str) -> (error: Error)
        ensures
            error.deep_view() == ErrorView::because(text@ + detail@),
    {
        Error::Reason { reason: text.to_owned().concat(detail) }
    }
}

/// The contents of a description of a backend are its fields.
pub proof fn law_backend_shows_its_fields(info: HardwareKeyInfo)
    ensures
        info.deep_view().backend == info.backend@,
        info.deep_view().description == info.description@,
        info.deep_view().algorithms.len() == info.algorithms@.len(),
        forall|i: int|
            0 <= i < info.algorithms@.len() ==> #[trigger] info.deep_view().algorithms[i]
                == info.algorithms@[i]@,
        info.deep_view().device_id == info.device_id@,
{
}

/// The contents of a description of a key are its fields.
pub proof fn law_key_shows_its_fields(key: GeneratedKey)
    ensures
        key.deep_view().backend == key.backend@,
        key.deep_view().key_id == key.key_id@,
        key.deep_view().algorithm == key.algorithm@,
        key.deep_view().public_jwk == key.public_jwk@,
{
}

/// The contents of a signature are its fields.
pub proof fn law_signature_shows_its_fields(result: SignatureResult)
    ensures
        result.deep_view().signature == result.signature@,
        result.deep_view().algorithm == result.algorithm@,
{
}

/// The contents of an error are its fields.
pub proof fn law_error_shows_its_fields(error: Error)
    ensures
        match error {
            Error::Reason { reason } => error.deep_view() == (ErrorView::Reason {
                reason: reason@,
            }),
            Error::KeyOperation { operation, detail } => error.deep_view() == (
            ErrorView::KeyOperation { operation: operation@, detail: detail@ }),
        },
{
}

/// A failure is described by the text that is given for it.
pub proof fn law_reason_is_kept(reason: Seq<char>)
    ensures
        ErrorView::because(reason) == (ErrorView::Reason { reason }),
{
}

} // verus!
