//! Windows TPM 2.0 backend for P-256/ES256 key operations
//!
//! Works with CNG (Cryptography Next Generation) and the Microsoft Platform Crypto Provider.
//! Keys are generated inside the TPM and never leave the hardware. CNG persists keys
//! internally by name — no private key files on disk.
//!
//! Key naming convention: `hwkey-<label>` (e.g. `hwkey-signing-key`)
//! Backend identifier: `"windows-tpm"`
//!
//! ## Windows Hello
//!
//! When `require_biometric: true`, Windows Hello is prompted via
//! `Windows.Security.Credentials.UI.UserConsentVerifier` before `sign_hash`.
//! The key itself is created without `NCRYPT_UI_POLICY` so CNG never shows
//! its own legacy CryptUI password dialog. The Hello prompt is surfaced at the
//! application level — this is a soft gate: other code of the same user can use the key
//! without it.
//!
//! Each function starts an operation, which goes on as a [`crate::protocol::Machine`].
pub mod delete;
pub mod discover;
pub mod export;
pub mod generate;
pub mod laws;
pub mod laws_generate;
pub mod laws_lifecycle;
pub mod laws_list;
pub mod laws_paths;
pub mod laws_sign;
pub mod laws_success;
pub mod list;
pub mod load;
pub mod names;
pub mod open_key;
pub mod sign;
pub mod store;

pub use crate::types::DuplicateLabelPolicy;
pub use delete::delete_key;
pub use discover::discover;
pub use generate::generate_key;
pub use list::list_keys;
pub use names::PLATFORM_PROVIDER;
pub use sign::sign_hash;
