//! Which backend an exported function goes to, and with what.
use vstd::prelude::*;

use crate::text;
use crate::types::{DuplicateLabelPolicy, Error, ErrorView, HardwareKeyInfoView};

verus! {

/// The platforms that the library tells apart.
#[derive(Clone, Copy, Debug, PartialEq, Eq, Structural)]
pub enum Platform {
    /// macOS, which has a Secure Enclave.
    Macos,
    /// Any other platform.
    Other,
}

/// A backend that callers can name.
#[derive(Clone, Copy, Debug, PartialEq, Eq, Structural)]
pub enum Backend {
    YubikeyPiv,
    SecureEnclave,
}

/// The backend with a name, where the platform has it.
pub open spec fn backend_named(platform: Platform, name: Seq<char>) -> Option<Backend> {
    if name == "yubikey-piv"@ {
        Some(Backend::YubikeyPiv)
    } else if name == "secure-enclave"@ && platform == Platform::Macos {
        Some(Backend::SecureEnclave)
    } else {
        None
    }
}

/// Why a name is refused.
pub open spec fn unknown_backend(name: Seq<char>) -> ErrorView {
    ErrorView::because("Unknown backend: "@ + name)
}

/// Finds the backend with a name.
pub fn find_backend(platform: Platform, name: &str) -> (res: Result<Backend, Error>)
    ensures
        match res {
            Ok(backend) => backend_named(platform, name@) == Some(backend),
            Err(error) => {
                &&& backend_named(platform, name@) is None
                &&& error.deep_view() == unknown_backend(name@)
            },
        },
{
    if text::same_text(name, "yubikey-piv") {
        return Ok(Backend::YubikeyPiv);
    }
    match platform {
        Platform::Macos => {
            if text::same_text(name, "secure-enclave") {
                return Ok(Backend::SecureEnclave);
            }
        },
        Platform::Other => {},
    }
    Err(Error::with_detail("Unknown backend: ", name))
}

/// What a probe found, as a list.
pub open spec fn found(info: Option<HardwareKeyInfoView>) -> Seq<HardwareKeyInfoView> {
    match info {
        Some(info) => seq![info],
        None => seq![],
    }
}

/// The backends that are there: the YubiKey, then on macOS the Secure Enclave, as far as
/// their probes found them.
pub open spec fn discovered(
    platform: Platform,
    yubikey: Option<HardwareKeyInfoView>,
    enclave: Option<HardwareKeyInfoView>,
) -> Seq<HardwareKeyInfoView> {
    found(yubikey) + (if platform == Platform::Macos {
        found(enclave)
    } else {
        seq![]
    })
}

/// How a backend is asked for a key.
#[derive(Debug, PartialEq, Eq)]
pub enum GenerateRequest {
    /// The slot of a YubiKey is fixed, so only the algorithm counts.
    YubikeyPiv { algorithm: String },
    SecureEnclave {
        label: String,
        algorithm: String,
        permanent: bool,
        policy: DuplicateLabelPolicy,
    },
}

/// The contents of a [`GenerateRequest`].
pub enum GenerateRequestView {
    YubikeyPiv { algorithm: Seq<char> },
    SecureEnclave {
        label: Seq<char>,
        algorithm: Seq<char>,
        permanent: bool,
        policy: DuplicateLabelPolicy,
    },
}

impl DeepView for GenerateRequest {
    type V = GenerateRequestView;

    open spec fn deep_view(&self) -> GenerateRequestView {
        match self {
            GenerateRequest::YubikeyPiv { algorithm } => GenerateRequestView::YubikeyPiv {
                algorithm: algorithm@,
            },
            GenerateRequest::SecureEnclave { label, algorithm, permanent, policy } => {
                GenerateRequestView::SecureEnclave {
                    label: label@,
                    algorithm: algorithm@,
                    permanent: *permanent,
                    policy: *policy,
                }
            },
        }
    }
}

/// What a flag says; one that is left out says no.
pub open spec fn flag(given: Option<bool>) -> bool {
    given == Some(true)
}

/// How a request for a key is routed.
pub open spec fn route_generate(
    platform: Platform,
    backend: Seq<char>,
    algorithm: Seq<char>,
    label: Option<Seq<char>>,
    permanent: Option<bool>,
    replace_if_exists: Option<bool>,
) -> Result<GenerateRequestView, ErrorView> {
    match backend_named(platform, backend) {
        None => Err(unknown_backend(backend)),
        Some(Backend::YubikeyPiv) => Ok(GenerateRequestView::YubikeyPiv { algorithm }),
        Some(Backend::SecureEnclave) => match label {
            None => Err(
                ErrorView::because("'label' is required for the secure-enclave backend"@),
            ),
            Some(label) => Ok(
                GenerateRequestView::SecureEnclave {
                    label,
                    algorithm,
                    permanent: flag(permanent),
                    policy: if flag(replace_if_exists) {
                        DuplicateLabelPolicy::Replace
                    } else {
                        DuplicateLabelPolicy::Error
                    },
                },
            ),
        },
    }
}

/// How a backend is asked for a signature.
#[derive(Debug, PartialEq, Eq)]
pub struct SignRequest {
    pub backend: Backend,
    pub key_id: String,
    pub hash: Vec<u8>,
}

/// How a backend is asked for its keys.
#[derive(Debug, PartialEq, Eq)]
pub enum ListRequest {
    YubikeyPiv,
    SecureEnclave { prefix: Option<String> },
}

/// The contents of a [`ListRequest`].
pub enum ListRequestView {
    YubikeyPiv,
    SecureEnclave { prefix: Option<Seq<char>> },
}

impl DeepView for ListRequest {
    type V = ListRequestView;

    open spec fn deep_view(&self) -> ListRequestView {
        match self {
            ListRequest::YubikeyPiv => ListRequestView::YubikeyPiv,
            ListRequest::SecureEnclave { prefix } => ListRequestView::SecureEnclave {
                prefix: prefix.deep_view(),
            },
        }
    }
}

/// How a request for a list of keys is routed.
pub open spec fn route_list(
    platform: Platform,
    backend: Seq<char>,
    prefix: Option<Seq<char>>,
) -> Result<ListRequestView, ErrorView> {
    match backend_named(platform, backend) {
        None => Err(unknown_backend(backend)),
        Some(Backend::YubikeyPiv) => Ok(ListRequestView::YubikeyPiv),
        Some(Backend::SecureEnclave) => Ok(ListRequestView::SecureEnclave { prefix }),
    }
}

/// How a backend is asked to delete a key.
#[derive(Debug, PartialEq, Eq)]
pub struct DeleteRequest {
    pub backend: Backend,
    pub label: String,
}

/// Every discovered backend can be named: where the probes report their own names, each
/// function of the same platform knows the name of each backend that is found, and no name
/// is found twice.
pub proof fn law_discovered_backends_are_known(
    platform: Platform,
    yubikey: Option<HardwareKeyInfoView>,
    enclave: Option<HardwareKeyInfoView>,
)
    requires
        yubikey is Some ==> yubikey->0.backend == "yubikey-piv"@,
        enclave is Some ==> enclave->0.backend == "secure-enclave"@,
    ensures
        ({
            let backends = discovered(platform, yubikey, enclave);
            &&& forall|i: int|
                0 <= i < backends.len() ==> is_known(platform, #[trigger] backends[i].backend)
            &&& forall|i: int, j: int|
                0 <= i < j < backends.len() ==> #[trigger] backends[i].backend
                    != #[trigger] backends[j].backend
        }),
{
    reveal_strlit("yubikey-piv");
    reveal_strlit("secure-enclave");
    reveal_strlit("Unknown backend: ");
    reveal_strlit("'label' is required for the secure-enclave backend");
    assert("yubikey-piv"@.len() != "secure-enclave"@.len());
    assert(("Unknown backend: "@ + "secure-enclave"@)[0] == 'U');
    assert("'label' is required for the secure-enclave backend"@[0] == '\'');
}

/// Whether no function of a platform refuses a name as unknown.
pub open spec fn is_known(platform: Platform, name: Seq<char>) -> bool {
    &&& name == "yubikey-piv"@ || platform == Platform::Macos && name == "secure-enclave"@
    &&& backend_named(platform, name) is Some
    &&& forall|
        algorithm: Seq<char>,
        label: Option<Seq<char>>,
        permanent: Option<bool>,
        replace_if_exists: Option<bool>,
    |
        #[trigger] route_generate(
            platform,
            name,
            algorithm,
            label,
            permanent,
            replace_if_exists,
        ) != Err::<GenerateRequestView, ErrorView>(unknown_backend(name))
    &&& forall|prefix: Option<Seq<char>>| #[trigger]
        route_list(platform, name, prefix) is Ok
}

/// A YubiKey looks at the algorithm alone, on every platform: label, persistence and
/// replacement are ignored.
pub proof fn law_yubikey_ignores_options(
    platform: Platform,
    algorithm: Seq<char>,
    label: Option<Seq<char>>,
    permanent: Option<bool>,
    replace_if_exists: Option<bool>,
)
    ensures
        route_generate(
            platform,
            "yubikey-piv"@,
            algorithm,
            label,
            permanent,
            replace_if_exists,
        ) == Ok::<GenerateRequestView, ErrorView>(GenerateRequestView::YubikeyPiv { algorithm }),
{
}

/// Only macOS has a Secure Enclave: elsewhere its name is as unknown as any other.
pub proof fn law_enclave_is_on_macos_only(name: Seq<char>)
    ensures
        backend_named(Platform::Other, name) is Some <==> name == "yubikey-piv"@,
        backend_named(Platform::Macos, name) is Some <==> name == "yubikey-piv"@ || name
            == "secure-enclave"@,
{
}

/// Persistence and replacement are off where they are left out.
pub proof fn law_options_default_to_no(
    platform: Platform,
    backend: Seq<char>,
    algorithm: Seq<char>,
    label: Option<Seq<char>>,
    permanent: Option<bool>,
    replace_if_exists: Option<bool>,
)
    ensures
        route_generate(platform, backend, algorithm, label, None, replace_if_exists)
            == route_generate(platform, backend, algorithm, label, Some(false), replace_if_exists),
        route_generate(platform, backend, algorithm, label, permanent, None) == route_generate(
            platform,
            backend,
            algorithm,
            label,
            permanent,
            Some(false),
        ),
{
}

/// The contents of a request for a key are its fields.
pub proof fn law_generate_request_shows_its_fields(request: GenerateRequest)
    ensures
        match (request, request.deep_view()) {
            (
                GenerateRequest::YubikeyPiv { algorithm },
                GenerateRequestView::YubikeyPiv { algorithm: a },
            ) => a == algorithm@,
            (
                GenerateRequest::SecureEnclave { label, algorithm, permanent, policy },
                GenerateRequestView::SecureEnclave {
                    label: l,
                    algorithm: a,
                    permanent: p,
                    policy: d,
                },
            ) => l == label@ && a == algorithm@ && p == permanent && d == policy,
            _ => false,
        },
{
}

/// The contents of a request for a list are its fields.
pub proof fn law_list_request_shows_its_fields(request: ListRequest)
    ensures
        match (request, request.deep_view()) {
            (ListRequest::YubikeyPiv, ListRequestView::YubikeyPiv) => true,
            (
                ListRequest::SecureEnclave { prefix: Some(prefix) },
                ListRequestView::SecureEnclave { prefix: Some(p) },
            ) => p == prefix@,
            (
                ListRequest::SecureEnclave { prefix: None },
                ListRequestView::SecureEnclave { prefix: None },
            ) => true,
            _ => false,
        },
{
}

/// Each backend goes by its own name, which reaches that backend and no other.
pub proof fn law_names_reach_their_backends(platform: Platform, name: Seq<char>)
    ensures
        backend_named(platform, name) == Some(Backend::YubikeyPiv) <==> name == "yubikey-piv"@,
        backend_named(platform, name) == Some(Backend::SecureEnclave) <==> platform
            == Platform::Macos && name == "secure-enclave"@,
{
    reveal_strlit("yubikey-piv");
    reveal_strlit("secure-enclave");
    assert("yubikey-piv"@.len() != "secure-enclave"@.len());
}

/// A name that no backend of the platform has is refused by every function, with an error that
/// repeats it.
pub proof fn law_unknown_names_are_refused(
    platform: Platform,
    name: Seq<char>,
    algorithm: Seq<char>,
    label: Option<Seq<char>>,
    permanent: Option<bool>,
    replace_if_exists: Option<bool>,
    prefix: Option<Seq<char>>,
)
    requires
        name != "yubikey-piv"@,
        platform == Platform::Macos ==> name != "secure-enclave"@,
    ensures
        unknown_backend(name) == (ErrorView::Reason { reason: "Unknown backend: "@ + name }),
        backend_named(platform, name) is None,
        route_generate(platform, name, algorithm, label, permanent, replace_if_exists) == Err::<
            GenerateRequestView,
            ErrorView,
        >(ErrorView::Reason { reason: "Unknown backend: "@ + name }),
        route_list(platform, name, prefix) == Err::<ListRequestView, ErrorView>(
            ErrorView::Reason { reason: "Unknown backend: "@ + name },
        ),
{
}

/// On macOS the Secure Enclave is asked for just what was requested: the label, the algorithm,
/// persistence where it was asked for, and replacement where it was asked for, each whatever
/// the others are.
pub proof fn law_enclave_is_asked_as_requested(
    algorithm: Seq<char>,
    label: Seq<char>,
    permanent: Option<bool>,
    replace_if_exists: Option<bool>,
)
    ensures
        match route_generate(
            Platform::Macos,
            "secure-enclave"@,
            algorithm,
            Some(label),
            permanent,
            replace_if_exists,
        ) {
            Ok(
                GenerateRequestView::SecureEnclave {
                    label: asked_label,
                    algorithm: asked_algorithm,
                    permanent: asked_permanent,
                    policy,
                },
            ) => {
                &&& asked_label == label
                &&& asked_algorithm == algorithm
                &&& asked_permanent <==> permanent == Some(true)
                &&& policy == DuplicateLabelPolicy::Replace <==> replace_if_exists == Some(true)
                &&& policy == DuplicateLabelPolicy::Error <==> replace_if_exists != Some(true)
            },
            _ => false,
        },
{
    law_names_reach_their_backends(Platform::Macos, "secure-enclave"@);
}

/// On macOS the Secure Enclave makes no key without a label.
pub proof fn law_enclave_needs_a_label(
    algorithm: Seq<char>,
    permanent: Option<bool>,
    replace_if_exists: Option<bool>,
)
    ensures
        route_generate(
            Platform::Macos,
            "secure-enclave"@,
            algorithm,
            None,
            permanent,
            replace_if_exists,
        ) == Err::<GenerateRequestView, ErrorView>(
            ErrorView::Reason { reason: "'label' is required for the secure-enclave backend"@ },
        ),
{
    law_names_reach_their_backends(Platform::Macos, "secure-enclave"@);
}

/// A prefix reaches the Secure Enclave as it was given, and a YubiKey not at all.
pub proof fn law_prefix_is_for_the_enclave(platform: Platform, prefix: Option<Seq<char>>)
    ensures
        route_list(platform, "yubikey-piv"@, prefix) == Ok::<ListRequestView, ErrorView>(
            ListRequestView::YubikeyPiv,
        ),
        route_list(Platform::Macos, "secure-enclave"@, prefix) == Ok::<ListRequestView, ErrorView>(
            ListRequestView::SecureEnclave { prefix },
        ),
{
    law_names_reach_their_backends(Platform::Macos, "secure-enclave"@);
}

/// What a probe found is discovered, whatever the other probe says: a YubiKey comes first, a
/// Secure Enclave comes last and on macOS only, and nothing else is there.
pub proof fn law_found_backends_are_discovered(
    platform: Platform,
    yubikey: Option<HardwareKeyInfoView>,
    enclave: Option<HardwareKeyInfoView>,
)
    ensures
        ({
            let backends = discovered(platform, yubikey, enclave);
            &&& yubikey matches Some(info) ==> backends.len() > 0 && backends.first() == info
            &&& enclave matches Some(info) ==> platform == Platform::Macos ==> backends.len() > 0
                && backends.last() == info
            &&& backends.len() == (if yubikey is Some {
                1int
            } else {
                0
            }) + (if platform == Platform::Macos && enclave is Some {
                1int
            } else {
                0
            })
        }),
{
}

} // verus!
