//! Hardware key backends.
//!
//! The functions here route a request to the backend that it names: YubiKey PIV on every
//! platform, Secure Enclave on macOS. [`windows_tpm`] holds the operations of the Windows
//! TPM backend. No function makes a system call: each says which call to make and what
//! its reply means.
pub mod base64url;
pub mod hello;
pub mod jwk;
pub mod protocol;
pub mod routing;
pub mod runs;
pub mod text;
pub mod types;
pub mod windows_tpm;

use vstd::prelude::*;

pub use routing::{
    Backend, DeleteRequest, GenerateRequest, ListRequest, Platform, SignRequest,
};
pub use types::{Error, GeneratedKey, HardwareKeyInfo, SignatureResult};
use types::{DuplicateLabelPolicy, ErrorView};
use routing::{GenerateRequestView, ListRequestView};

verus! {

/// Discover available hardware key backends: the YubiKey, then on macOS the Secure
/// Enclave, as far as their probes found them.
pub fn discover(
    platform: Platform,
    yubikey: Option<HardwareKeyInfo>,
    enclave: Option<HardwareKeyInfo>,
) -> (backends: Vec<HardwareKeyInfo>)
    ensures
        backends.deep_view() == routing::discovered(
            platform,
            yubikey.deep_view(),
            enclave.deep_view(),
        ),
{
    let mut backends: Vec<HardwareKeyInfo> = Vec::new();
    match yubikey {
        Some(info) => backends.push(info),
        None => {},
    }
    assert(backends.deep_view() =~= routing::found(yubikey.deep_view()));
    match platform {
        Platform::Macos => match enclave {
            Some(info) => backends.push(info),
            None => {},
        },
        Platform::Other => {},
    }
    assert(backends.deep_view() =~= routing::discovered(
        platform,
        yubikey.deep_view(),
        enclave.deep_view(),
    ));
    backends
}

/// Generate a key on the specified backend.
///
/// # Parameters (Secure Enclave only)
/// - `label`           – Key label stored as `kSecAttrApplicationLabel`. Required for
///                       Secure Enclave; ignored for YubiKey (slot is fixed to 9e).
/// - `permanent`       – Persist to keychain (`kSecAttrIsPermanent`). Requires the
///                       binary to be codesigned with `keychain-access-groups`.
///                       Ignored for YubiKey.
/// - `replace_if_exists` – When `true` and `label` already exists, the old key is
///                       deleted before creating a new one. When `false` the call
///                       returns an error on duplicate labels. Ignored for YubiKey.
pub fn generate_key(
    platform: Platform,
    backend: String,
    algorithm: String,
    label: Option<String>,
    permanent: Option<bool>,
    replace_if_exists: Option<bool>,
) -> (res: Result<GenerateRequest, Error>)
    ensures
        ({
            let route = routing::route_generate(
                platform,
                backend@,
                algorithm@,
                label.deep_view(),
                permanent,
                replace_if_exists,
            );
            match res {
                Ok(request) => route == Ok::<GenerateRequestView, ErrorView>(request.deep_view()),
                Err(error) => route == Err::<GenerateRequestView, ErrorView>(error.deep_view()),
            }
        }),
{
    match routing::find_backend(platform, backend.as_str()) {
        Err(error) => Err(error),
        Ok(Backend::YubikeyPiv) => Ok(GenerateRequest::YubikeyPiv { algorithm }),
        Ok(Backend::SecureEnclave) => match label {
            None => Err(
                Error::from_reason("'label' is required for the secure-enclave backend"),
            ),
            Some(label) => {
                let permanent = permanent.unwrap_or(false);
                let policy = if replace_if_exists.unwrap_or(false) {
                    DuplicateLabelPolicy::Replace
                } else {
                    DuplicateLabelPolicy::Error
                };
                Ok(GenerateRequest::SecureEnclave { label, algorithm, permanent, policy })
            },
        },
    }
}

/// Sign a hash with a hardware key.
/// For JWT: pass the SHA-256 hash of the `header.payload` string.
pub fn sign_hash(platform: Platform, backend: String, key_id: String, hash: Vec<u8>) -> (res:
    Result<SignRequest, Error>)
    ensures
        match res {
            Ok(request) => {
                &&& routing::backend_named(platform, backend@) == Some(request.backend)
                &&& request.key_id == key_id
                &&& request.hash == hash
            },
            Err(error) => {
                &&& routing::backend_named(platform, backend@) is None
                &&& error.deep_view() == routing::unknown_backend(backend@)
            },
        },
{
    match routing::find_backend(platform, backend.as_str()) {
        Ok(backend) => Ok(SignRequest { backend, key_id, hash }),
        Err(error) => Err(error),
    }
}

/// List existing keys on a backend.
///
/// - `prefix` – Optional label prefix filter (Secure Enclave only; ignored for YubiKey).
pub fn list_keys(platform: Platform, backend: String, prefix: Option<String>) -> (res: Result<
    ListRequest,
    Error,
>)
    ensures
        match res {
            Ok(request) => routing::route_list(platform, backend@, prefix.deep_view()) == Ok::<
                ListRequestView,
                ErrorView,
            >(request.deep_view()),
            Err(error) => routing::route_list(platform, backend@, prefix.deep_view()) == Err::<
                ListRequestView,
                ErrorView,
            >(error.deep_view()),
        },
{
    match routing::find_backend(platform, backend.as_str()) {
        Ok(Backend::YubikeyPiv) => Ok(ListRequest::YubikeyPiv),
        Ok(Backend::SecureEnclave) => Ok(ListRequest::SecureEnclave { prefix }),
        Err(error) => Err(error),
    }
}

/// Delete a key by label.
///
/// For Secure Enclave: removes from the in-process cache and keychain (if permanent).
/// For YubiKey: no-op — PIV slots cannot be deleted, only overwritten via `generate_key`.
pub fn delete_key(platform: Platform, backend: String, label: String) -> (res: Result<
    DeleteRequest,
    Error,
>)
    ensures
        match res {
            Ok(request) => {
                &&& routing::backend_named(platform, backend@) == Some(request.backend)
                &&& request.label == label
            },
            Err(error) => {
                &&& routing::backend_named(platform, backend@) is None
                &&& error.deep_view() == routing::unknown_backend(backend@)
            },
        },
{
    match routing::find_backend(platform, backend.as_str()) {
        Ok(backend) => Ok(DeleteRequest { backend, label }),
        Err(error) => Err(error),
    }
}

} // verus!
