//! Reading an existing key.
use vstd::multiset::Multiset;
use vstd::prelude::*;

use super::export;
use super::export::ExportJwk;
use super::names;
use super::open_key;
use super::open_key::{OpenKey, OpenKeyView};
use crate::protocol;
use crate::protocol::{Kind, Machine, Progress, ProgressView, Reply, ReplyView, Resource};
use crate::types::{GeneratedKey, GeneratedKeyView};

verus! {

/// A key that is being opened and exported.
#[derive(Debug, PartialEq, Eq)]
pub enum LoadKey {
    /// The key is being opened.
    Opening { key_id: String, open: OpenKey },
    /// The key is open, and its public half is being exported.
    Exporting { key_id: String, export: ExportJwk },
}

/// The contents of a [`LoadKey`].
pub enum LoadKeyView {
    Opening { key_id: Seq<char>, open: OpenKeyView },
    Exporting { key_id: Seq<char>, export: ExportJwk },
}

impl DeepView for LoadKey {
    type V = LoadKeyView;

    open spec fn deep_view(&self) -> LoadKeyView {
        match self {
            LoadKey::Opening { key_id, open } => LoadKeyView::Opening {
                key_id: key_id@,
                open: open.deep_view(),
            },
            LoadKey::Exporting { key_id, export } => LoadKeyView::Exporting {
                key_id: key_id@,
                export: *export,
            },
        }
    }
}

/// The description of a key of this backend.
pub open spec fn described(key_id: Seq<char>, public_jwk: Seq<char>) -> GeneratedKeyView {
    GeneratedKeyView {
        backend: names::BACKEND@,
        key_id,
        algorithm: names::ALGORITHM@,
        public_jwk,
    }
}

/// Describes a key of this backend.
pub fn describe(key_id: String, public_jwk: String) -> (key: GeneratedKey)
    ensures
        key.deep_view() == described(key_id@, public_jwk@),
{
    GeneratedKey {
        backend: names::BACKEND.to_owned(),
        key_id,
        algorithm: names::ALGORITHM.to_owned(),
        public_jwk,
    }
}

/// How the opening of a key goes on as the loading of it.
pub open spec fn after_open(
    key_id: Seq<char>,
    progress: ProgressView<OpenKeyView, usize>,
) -> ProgressView<LoadKeyView, GeneratedKeyView> {
    match progress {
        ProgressView::Pending { release, call, machine } => ProgressView::Pending {
            release,
            call,
            machine: LoadKeyView::Opening { key_id, open: machine },
        },
        ProgressView::Failed { release, error } => ProgressView::Failed { release, error },
        ProgressView::Done { release, output } => after_export(
            key_id,
            export::exporting(output),
        ).after(release),
    }
}

/// How the export of a key goes on as the loading of it.
pub open spec fn after_export(
    key_id: Seq<char>,
    progress: ProgressView<ExportJwk, Seq<char>>,
) -> ProgressView<LoadKeyView, GeneratedKeyView> {
    match progress {
        ProgressView::Pending { release, call, machine } => ProgressView::Pending {
            release,
            call,
            machine: LoadKeyView::Exporting { key_id, export: machine },
        },
        ProgressView::Failed { release, error } => ProgressView::Failed { release, error },
        ProgressView::Done { release, output } => ProgressView::Done {
            release,
            output: described(key_id, output),
        },
    }
}

fn resume_open(key_id: String, progress: Progress<OpenKey, usize>) -> (next: Progress<
    LoadKey,
    GeneratedKey,
>)
    ensures
        next.deep_view() == after_open(key_id@, progress.deep_view()),
{
    match progress {
        Progress::Pending { release, call, machine } => Progress::Pending {
            release,
            call,
            machine: LoadKey::Opening { key_id, open: machine },
        },
        Progress::Failed { release, error } => Progress::Failed { release, error },
        Progress::Done { release, output } => resume_export(
            key_id,
            export::export_public_jwk(output),
        ).after(release),
    }
}

fn resume_export(key_id: String, progress: Progress<ExportJwk, String>) -> (next: Progress<
    LoadKey,
    GeneratedKey,
>)
    ensures
        next.deep_view() == after_export(key_id@, progress.deep_view()),
{
    match progress {
        Progress::Pending { release, call, machine } => Progress::Pending {
            release,
            call,
            machine: LoadKey::Exporting { key_id, export: machine },
        },
        Progress::Failed { release, error } => Progress::Failed { release, error },
        Progress::Done { release, output } => Progress::Done {
            release,
            output: describe(key_id, output),
        },
    }
}

/// The first step of loading a key.
pub open spec fn loading(key_id: Seq<char>) -> ProgressView<LoadKeyView, GeneratedKeyView> {
    after_open(key_id, open_key::opening(key_id))
}

/// Starts to read the key with a name. The output describes it.
pub fn load_and_export_key(key_id: &str) -> (progress: Progress<LoadKey, GeneratedKey>)
    ensures
        progress.deep_view() == loading(key_id@),
{
    resume_open(key_id.to_owned(), open_key::open_key(key_id))
}

impl Machine for LoadKey {
    type Output = GeneratedKey;

    open spec fn awaits(state: LoadKeyView) -> Kind {
        match state {
            LoadKeyView::Opening { open, .. } => OpenKey::awaits(open),
            LoadKeyView::Exporting { export, .. } => ExportJwk::awaits(export),
        }
    }

    open spec fn next(state: LoadKeyView, reply: ReplyView) -> ProgressView<
        LoadKeyView,
        GeneratedKeyView,
    > {
        match state {
            LoadKeyView::Opening { key_id, open } => after_open(key_id, OpenKey::next(open, reply)),
            LoadKeyView::Exporting { key_id, export } => after_export(
                key_id,
                ExportJwk::next(export, reply),
            ),
        }
    }

    open spec fn held(state: LoadKeyView) -> Multiset<Resource> {
        match state {
            LoadKeyView::Opening { open, .. } => OpenKey::held(open),
            LoadKeyView::Exporting { export, .. } => ExportJwk::held(export),
        }
    }

    open spec fn yielded(output: GeneratedKeyView) -> Multiset<Resource> {
        Multiset::empty()
    }

    proof fn law_step(state: LoadKeyView, reply: ReplyView) {
        protocol::lemma_no_resources();
        match state {
            LoadKeyView::Opening { open, .. } => {
                OpenKey::law_step(open, reply);
            },
            LoadKeyView::Exporting { export, .. } => {
                ExportJwk::law_step(export, reply);
            },
        }
    }

    fn accepts(&self, reply: &Reply) -> (fits: bool) {
        match self {
            LoadKey::Opening { open, .. } => open.accepts(reply),
            LoadKey::Exporting { export, .. } => export.accepts(reply),
        }
    }

    fn step(self, reply: Reply) -> (progress: Progress<Self, GeneratedKey>) {
        match self {
            LoadKey::Opening { key_id, open } => resume_open(key_id, open.step(reply)),
            LoadKey::Exporting { key_id, export } => resume_export(key_id, export.step(reply)),
        }
    }
}

/// A key of this backend is described by its name and its public key.
pub proof fn law_key_is_described_as_it_is(key_id: Seq<char>, public_jwk: Seq<char>)
    ensures
        described(key_id, public_jwk) == (GeneratedKeyView {
            backend: "windows-tpm"@,
            key_id,
            algorithm: "ES256"@,
            public_jwk,
        }),
{
}

} // verus!
