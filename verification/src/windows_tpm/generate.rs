//! Generating a key.
use vstd::multiset::Multiset;
use vstd::pervasive::unreached;
use vstd::prelude::*;

use super::delete;
use super::delete::{DeleteKey, DeleteKeyView};
use super::export;
use super::export::ExportJwk;
use super::load;
use super::load::{LoadKey, LoadKeyView};
use super::names;
use super::open_key;
use super::open_key::{OpenKey, OpenKeyView};
use crate::hello;
use crate::hello::{Availability, AvailabilityReport};
use crate::protocol;
use crate::protocol::{
    Call, CallView, Kind, Machine, Progress, ProgressView, Reply, ReplyView, Resource,
};
use crate::text;
use crate::types::{DuplicateLabelPolicy, Error, ErrorView, GeneratedKey, GeneratedKeyView};

verus! {

/// A key that is being generated. `name` is the name that CNG stores it under.
#[derive(Debug, PartialEq, Eq)]
pub enum GenerateKey {
    /// Windows Hello is being checked.
    Checking { name: String, on_duplicate: DuplicateLabelPolicy },
    /// A key with the name is being looked for.
    Probing { name: String, on_duplicate: DuplicateLabelPolicy, open: OpenKey },
    /// The existing key is being deleted.
    Deleting { name: String, delete: DeleteKey },
    /// The existing key is being read.
    Loading { load: LoadKey },
    /// The provider is being opened.
    Opening { name: String },
    /// The key is being created.
    Creating { name: String, provider: usize },
    /// The key is being finalized.
    Finalizing { name: String, provider: usize, key: usize },
    /// The public half of the new key is being exported.
    Exporting { name: String, provider: usize, export: ExportJwk },
}

/// The contents of a [`GenerateKey`].
pub enum GenerateKeyView {
    Checking { name: Seq<char>, on_duplicate: DuplicateLabelPolicy },
    Probing { name: Seq<char>, on_duplicate: DuplicateLabelPolicy, open: OpenKeyView },
    Deleting { name: Seq<char>, delete: DeleteKeyView },
    Loading { load: LoadKeyView },
    Opening { name: Seq<char> },
    Creating { name: Seq<char>, provider: usize },
    Finalizing { name: Seq<char>, provider: usize, key: usize },
    Exporting { name: Seq<char>, provider: usize, export: ExportJwk },
}

impl DeepView for GenerateKey {
    type V = GenerateKeyView;

    open spec fn deep_view(&self) -> GenerateKeyView {
        match self {
            GenerateKey::Checking { name, on_duplicate } => GenerateKeyView::Checking {
                name: name@,
                on_duplicate: *on_duplicate,
            },
            GenerateKey::Probing { name, on_duplicate, open } => GenerateKeyView::Probing {
                name: name@,
                on_duplicate: *on_duplicate,
                open: open.deep_view(),
            },
            GenerateKey::Deleting { name, delete } => GenerateKeyView::Deleting {
                name: name@,
                delete: delete.deep_view(),
            },
            GenerateKey::Loading { load } => GenerateKeyView::Loading { load: load.deep_view() },
            GenerateKey::Opening { name } => GenerateKeyView::Opening { name: name@ },
            GenerateKey::Creating { name, provider } => GenerateKeyView::Creating {
                name: name@,
                provider: *provider,
            },
            GenerateKey::Finalizing { name, provider, key } => GenerateKeyView::Finalizing {
                name: name@,
                provider: *provider,
                key: *key,
            },
            GenerateKey::Exporting { name, provider, export } => GenerateKeyView::Exporting {
                name: name@,
                provider: *provider,
                export: *export,
            },
        }
    }
}

/// Why a biometric key cannot be made for a user without Windows Hello.
pub const HELLO_MISSING: &'static str =
    "Windows Hello is not configured for this user. Set up a PIN or biometric in Windows Settings before creating a biometric-gated key.";

/// The report of a user who has set up Windows Hello.
pub open spec fn hello_ready() -> AvailabilityReport {
    AvailabilityReport::Reported { availability: Availability::Available }
}

/// A new key starts with its provider.
pub open spec fn creating(name: Seq<char>, release: Seq<Resource>) -> ProgressView<
    GenerateKeyView,
    GeneratedKeyView,
> {
    ProgressView::Pending {
        release,
        call: names::opens_provider(),
        machine: GenerateKeyView::Opening { name },
    }
}

/// How the search for an existing key goes on: a key that cannot be opened is not there.
pub open spec fn after_probe(
    name: Seq<char>,
    on_duplicate: DuplicateLabelPolicy,
    progress: ProgressView<OpenKeyView, usize>,
) -> ProgressView<GenerateKeyView, GeneratedKeyView> {
    match progress {
        ProgressView::Pending { release, call, machine } => ProgressView::Pending {
            release,
            call,
            machine: GenerateKeyView::Probing { name, on_duplicate, open: machine },
        },
        ProgressView::Failed { release, .. } => creating(name, release),
        ProgressView::Done { release, output } => {
            let release = release + protocol::object(output);
            match on_duplicate {
                DuplicateLabelPolicy::Replace => after_delete(name, delete::deleting(name)).after(
                    release,
                ),
                DuplicateLabelPolicy::Error => after_load(load::loading(name)).after(release),
            }
        },
    }
}

/// How the deletion of the existing key goes on.
pub open spec fn after_delete(
    name: Seq<char>,
    progress: ProgressView<DeleteKeyView, ()>,
) -> ProgressView<GenerateKeyView, GeneratedKeyView> {
    match progress {
        ProgressView::Pending { release, call, machine } => ProgressView::Pending {
            release,
            call,
            machine: GenerateKeyView::Deleting { name, delete: machine },
        },
        ProgressView::Failed { release, error } => ProgressView::Failed { release, error },
        ProgressView::Done { release, .. } => creating(name, release),
    }
}

/// How the reading of the existing key goes on.
pub open spec fn after_load(
    progress: ProgressView<LoadKeyView, GeneratedKeyView>,
) -> ProgressView<GenerateKeyView, GeneratedKeyView> {
    match progress {
        ProgressView::Pending { release, call, machine } => ProgressView::Pending {
            release,
            call,
            machine: GenerateKeyView::Loading { load: machine },
        },
        ProgressView::Failed { release, error } => ProgressView::Failed { release, error },
        ProgressView::Done { release, output } => ProgressView::Done { release, output },
    }
}

/// How the export of the new key goes on. The provider stays open until it ends.
pub open spec fn after_export(
    name: Seq<char>,
    provider: usize,
    progress: ProgressView<ExportJwk, Seq<char>>,
) -> ProgressView<GenerateKeyView, GeneratedKeyView> {
    match progress {
        ProgressView::Pending { release, call, machine } => ProgressView::Pending {
            release,
            call,
            machine: GenerateKeyView::Exporting { name, provider, export: machine },
        },
        ProgressView::Failed { release, error } => ProgressView::Failed {
            release: release + protocol::object(provider),
            error,
        },
        ProgressView::Done { release, output } => ProgressView::Done {
            release: release + protocol::object(provider),
            output: load::described(name, output),
        },
    }
}

/// The search for an existing key starts.
pub open spec fn probing(name: Seq<char>, on_duplicate: DuplicateLabelPolicy) -> ProgressView<
    GenerateKeyView,
    GeneratedKeyView,
> {
    after_probe(name, on_duplicate, open_key::opening(name))
}

/// The first step of generating a key.
pub open spec fn generating(
    label: Seq<char>,
    algorithm: Seq<char>,
    require_biometric: bool,
    on_duplicate: DuplicateLabelPolicy,
) -> ProgressView<GenerateKeyView, GeneratedKeyView> {
    let name = names::key_name(label, require_biometric);
    if algorithm != names::ALGORITHM@ {
        ProgressView::Failed {
            release: seq![],
            error: ErrorView::because("TPM Windows backend only supports ES256 (P-256)"@),
        }
    } else if require_biometric {
        ProgressView::Pending {
            release: seq![],
            call: CallView::CheckHello,
            machine: GenerateKeyView::Checking { name, on_duplicate },
        }
    } else {
        probing(name, on_duplicate)
    }
}

fn create(name: String, release: Vec<Resource>) -> (progress: Progress<GenerateKey, GeneratedKey>)
    ensures
        progress.deep_view() == creating(name@, release@),
{
    Progress::Pending {
        release,
        call: names::open_provider(),
        machine: GenerateKey::Opening { name },
    }
}

/// Whether a key exists is whether it can be opened.
fn resume_probe(
    name: String,
    on_duplicate: DuplicateLabelPolicy,
    progress: Progress<OpenKey, usize>,
) -> (next: Progress<GenerateKey, GeneratedKey>)
    ensures
        next.deep_view() == after_probe(name@, on_duplicate, progress.deep_view()),
{
    match progress {
        Progress::Pending { release, call, machine } => Progress::Pending {
            release,
            call,
            machine: GenerateKey::Probing { name, on_duplicate, open: machine },
        },
        Progress::Failed { release, .. } => create(name, release),
        Progress::Done { release, output } => {
            let mut release = release;
            protocol::release_object(&mut release, output);
            match on_duplicate {
                DuplicateLabelPolicy::Replace => {
                    let start = delete::delete_key(name.as_str());
                    resume_delete(name, start).after(release)
                },
                // get-or-create: return existing key
                DuplicateLabelPolicy::Error => {
                    resume_load(load::load_and_export_key(name.as_str())).after(release)
                },
            }
        },
    }
}

fn resume_delete(name: String, progress: Progress<DeleteKey, ()>) -> (next: Progress<
    GenerateKey,
    GeneratedKey,
>)
    ensures
        next.deep_view() == after_delete(name@, progress.deep_view()),
{
    match progress {
        Progress::Pending { release, call, machine } => Progress::Pending {
            release,
            call,
            machine: GenerateKey::Deleting { name, delete: machine },
        },
        Progress::Failed { release, error } => Progress::Failed { release, error },
        Progress::Done { release, .. } => create(name, release),
    }
}

fn resume_load(progress: Progress<LoadKey, GeneratedKey>) -> (next: Progress<
    GenerateKey,
    GeneratedKey,
>)
    ensures
        next.deep_view() == after_load(progress.deep_view()),
{
    match progress {
        Progress::Pending { release, call, machine } => Progress::Pending {
            release,
            call,
            machine: GenerateKey::Loading { load: machine },
        },
        Progress::Failed { release, error } => Progress::Failed { release, error },
        Progress::Done { release, output } => Progress::Done { release, output },
    }
}

fn resume_export(name: String, provider: usize, progress: Progress<ExportJwk, String>) -> (next:
    Progress<GenerateKey, GeneratedKey>)
    ensures
        next.deep_view() == after_export(name@, provider, progress.deep_view()),
{
    match progress {
        Progress::Pending { release, call, machine } => Progress::Pending {
            release,
            call,
            machine: GenerateKey::Exporting { name, provider, export: machine },
        },
        Progress::Failed { release, error } => {
            let mut release = release;
            protocol::release_object(&mut release, provider);
            Progress::Failed { release, error }
        },
        Progress::Done { release, output } => {
            let mut release = release;
            protocol::release_object(&mut release, provider);
            Progress::Done { release, output: load::describe(name, output) }
        },
    }
}

fn probe(name: String, on_duplicate: DuplicateLabelPolicy) -> (progress: Progress<
    GenerateKey,
    GeneratedKey,
>)
    ensures
        progress.deep_view() == probing(name@, on_duplicate),
{
    let start = open_key::open_key(name.as_str());
    resume_probe(name, on_duplicate, start)
}

/// Generate a P-256 key in the TPM.
///
/// # Parameters
/// - `label`              – Key name stored in CNG as `hwkey-<label>` or `hwkey-bio-<label>`.
/// - `algorithm`          – Only `"ES256"` is supported.
/// - `require_biometric`  – When `true`, Windows Hello will be prompted via
///                          `UserConsentVerifier` before every `sign_hash` call.
///                          The key itself is created without any CNG UI policy —
///                          the Hello gate is enforced at the application level.
/// - `on_duplicate`       – Controls behaviour when a key with the same label already
///                          exists. `Error` performs get-or-create; `Replace` deletes
///                          and re-creates.
pub fn generate_key(
    label: &str,
    algorithm: &str,
    require_biometric: bool,
    on_duplicate: DuplicateLabelPolicy,
) -> (progress: Progress<GenerateKey, GeneratedKey>)
    ensures
        progress.deep_view() == generating(label@, algorithm@, require_biometric, on_duplicate),
{
    if !text::same_text(algorithm, names::ALGORITHM) {
        return Progress::Failed {
            release: Vec::new(),
            error: Error::from_reason("TPM Windows backend only supports ES256 (P-256)"),
        };
    }
    let name = names::make_key_name(label, require_biometric);
    if require_biometric {
        // Verify Windows Hello is available before creating a biometric-gated key.
        Progress::Pending {
            release: Vec::new(),
            call: Call::CheckHello,
            machine: GenerateKey::Checking { name, on_duplicate },
        }
    } else {
        probe(name, on_duplicate)
    }
}

impl Machine for GenerateKey {
    type Output = GeneratedKey;

    open spec fn awaits(state: GenerateKeyView) -> Kind {
        match state {
            GenerateKeyView::Checking { .. } => Kind::Availability,
            GenerateKeyView::Probing { open, .. } => OpenKey::awaits(open),
            GenerateKeyView::Deleting { delete, .. } => DeleteKey::awaits(delete),
            GenerateKeyView::Loading { load } => LoadKey::awaits(load),
            GenerateKeyView::Opening { .. } => Kind::Handle,
            GenerateKeyView::Creating { .. } => Kind::Handle,
            GenerateKeyView::Finalizing { .. } => Kind::Status,
            GenerateKeyView::Exporting { export, .. } => ExportJwk::awaits(export),
        }
    }

    open spec fn next(state: GenerateKeyView, reply: ReplyView) -> ProgressView<
        GenerateKeyView,
        GeneratedKeyView,
    > {
        match (state, reply) {
            (
                GenerateKeyView::Checking { name, on_duplicate },
                ReplyView::Availability { availability },
            ) => {
                if availability == hello_ready() {
                    probing(name, on_duplicate)
                } else {
                    ProgressView::Failed {
                        release: seq![],
                        error: ErrorView::because(HELLO_MISSING@),
                    }
                }
            },
            (GenerateKeyView::Probing { name, on_duplicate, open }, _) => after_probe(
                name,
                on_duplicate,
                OpenKey::next(open, reply),
            ),
            (GenerateKeyView::Deleting { name, delete }, _) => after_delete(
                name,
                DeleteKey::next(delete, reply),
            ),
            (GenerateKeyView::Loading { load }, _) => after_load(LoadKey::next(load, reply)),
            (GenerateKeyView::Opening { name }, ReplyView::Handle { handle }) => {
                ProgressView::Pending {
                    release: seq![],
                    call: CallView::CreateKey {
                        provider: handle,
                        algorithm: names::CNG_ALGORITHM@,
                        name,
                    },
                    machine: GenerateKeyView::Creating { name, provider: handle },
                }
            },
            (GenerateKeyView::Opening { name }, ReplyView::Failed { message }) => {
                ProgressView::Failed {
                    release: seq![],
                    error: open_key::provider_failure(message),
                }
            },
            (GenerateKeyView::Creating { name, provider }, ReplyView::Handle { handle }) => {
                ProgressView::Pending {
                    release: seq![],
                    call: CallView::FinalizeKey { key: handle },
                    machine: GenerateKeyView::Finalizing { name, provider, key: handle },
                }
            },
            (GenerateKeyView::Creating { name, provider }, ReplyView::Failed { message }) => {
                ProgressView::Failed {
                    release: protocol::object(provider),
                    error: ErrorView::because("NCryptCreatePersistedKey failed: "@ + message),
                }
            },
            (GenerateKeyView::Finalizing { name, provider, key }, ReplyView::Success) => {
                after_export(name, provider, export::exporting(key))
            },
            (
                GenerateKeyView::Finalizing { name, provider, key },
                ReplyView::Failed { message },
            ) => ProgressView::Failed {
                release: protocol::object(key) + protocol::object(provider),
                error: ErrorView::because("NCryptFinalizeKey failed: "@ + message),
            },
            (GenerateKeyView::Exporting { name, provider, export }, _) => after_export(
                name,
                provider,
                ExportJwk::next(export, reply),
            ),
            _ => arbitrary(),
        }
    }

    open spec fn held(state: GenerateKeyView) -> Multiset<Resource> {
        match state {
            GenerateKeyView::Checking { .. } => Multiset::empty(),
            GenerateKeyView::Probing { open, .. } => OpenKey::held(open),
            GenerateKeyView::Deleting { delete, .. } => DeleteKey::held(delete),
            GenerateKeyView::Loading { load } => LoadKey::held(load),
            GenerateKeyView::Opening { .. } => Multiset::empty(),
            GenerateKeyView::Creating { provider, .. } => protocol::object(provider).to_multiset(),
            GenerateKeyView::Finalizing { provider, key, .. } => protocol::object(
                key,
            ).to_multiset().add(protocol::object(provider).to_multiset()),
            GenerateKeyView::Exporting { provider, export, .. } => ExportJwk::held(export).add(
                protocol::object(provider).to_multiset(),
            ),
        }
    }

    open spec fn yielded(output: GeneratedKeyView) -> Multiset<Resource> {
        Multiset::empty()
    }

    proof fn law_step(state: GenerateKeyView, reply: ReplyView) {
        protocol::lemma_no_resources();
        match state {
            GenerateKeyView::Probing { open, .. } => {
                OpenKey::law_step(open, reply);
                match OpenKey::next(open, reply) {
                    ProgressView::Done { release, output } => {
                        protocol::lemma_joined_resources(release, protocol::object(output));
                    },
                    _ => {},
                }
            },
            GenerateKeyView::Deleting { delete, .. } => {
                DeleteKey::law_step(delete, reply);
            },
            GenerateKeyView::Loading { load } => {
                LoadKey::law_step(load, reply);
            },
            GenerateKeyView::Finalizing { provider, key, .. } => {
                protocol::lemma_joined_resources(
                    protocol::object(key),
                    protocol::object(provider),
                );
            },
            GenerateKeyView::Exporting { provider, export, .. } => {
                ExportJwk::law_step(export, reply);
                protocol::lemma_joined_resources(
                    ExportJwk::next(export, reply).release(),
                    protocol::object(provider),
                );
            },
            _ => {},
        }
    }

    fn accepts(&self, reply: &Reply) -> (fits: bool) {
        match self {
            GenerateKey::Checking { .. } => reply.answers(Kind::Availability),
            GenerateKey::Probing { open, .. } => open.accepts(reply),
            GenerateKey::Deleting { delete, .. } => delete.accepts(reply),
            GenerateKey::Loading { load } => load.accepts(reply),
            GenerateKey::Opening { .. } => reply.answers(Kind::Handle),
            GenerateKey::Creating { .. } => reply.answers(Kind::Handle),
            GenerateKey::Finalizing { .. } => reply.answers(Kind::Status),
            GenerateKey::Exporting { export, .. } => export.accepts(reply),
        }
    }

    fn step(self, reply: Reply) -> (progress: Progress<Self, GeneratedKey>) {
        let ghost next = Self::next(self.deep_view(), reply.deep_view());
        let progress: Progress<Self, GeneratedKey> = match self {
            GenerateKey::Checking { name, on_duplicate } => match reply {
                Reply::Availability { availability } => {
                    if hello::hello_available(availability) {
                        probe(name, on_duplicate)
                    } else {
                        // Fail hard rather than silently create a key that can never be
                        // used with Hello.
                        Progress::Failed {
                            release: Vec::new(),
                            error: Error::from_reason(HELLO_MISSING),
                        }
                    }
                },
                _ => unreached(),
            },
            GenerateKey::Probing { name, on_duplicate, open } => resume_probe(
                name,
                on_duplicate,
                open.step(reply),
            ),
            GenerateKey::Deleting { name, delete } => resume_delete(name, delete.step(reply)),
            GenerateKey::Loading { load } => resume_load(load.step(reply)),
            GenerateKey::Opening { name } => match reply {
                Reply::Handle { handle } => Progress::Pending {
                    release: Vec::new(),
                    call: Call::CreateKey {
                        provider: handle,
                        algorithm: names::CNG_ALGORITHM.to_owned(),
                        name: name.clone(),
                    },
                    machine: GenerateKey::Creating { name, provider: handle },
                },
                Reply::Failed { message } => Progress::Failed {
                    release: Vec::new(),
                    error: Error::with_detail(
                        "NCryptOpenStorageProvider failed: ",
                        message.as_str(),
                    ),
                },
                _ => unreached(),
            },
            GenerateKey::Creating { name, provider } => match reply {
                Reply::Handle { handle } => Progress::Pending {
                    release: Vec::new(),
                    call: Call::FinalizeKey { key: handle },
                    machine: GenerateKey::Finalizing { name, provider, key: handle },
                },
                Reply::Failed { message } => Progress::Failed {
                    release: protocol::releasing_object(provider),
                    error: Error::with_detail(
                        "NCryptCreatePersistedKey failed: ",
                        message.as_str(),
                    ),
                },
                _ => unreached(),
            },
            GenerateKey::Finalizing { name, provider, key } => match reply {
                Reply::Success => resume_export(name, provider, export::export_public_jwk(key)),
                Reply::Failed { message } => {
                    let mut release = protocol::releasing_object(key);
                    protocol::release_object(&mut release, provider);
                    Progress::Failed {
                        release,
                        error: Error::with_detail("NCryptFinalizeKey failed: ", message.as_str()),
                    }
                },
                _ => unreached(),
            },
            GenerateKey::Exporting { name, provider, export } => resume_export(
                name,
                provider,
                export.step(reply),
            ),
        };
        assert(progress.deep_view() == next);
        progress
    }
}

} // verus!
