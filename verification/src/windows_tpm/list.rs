//! Listing the keys of the backend.
use vstd::multiset::Multiset;
use vstd::pervasive::unreached;
use vstd::prelude::*;

use super::load;
use super::load::{LoadKey, LoadKeyView};
use super::names;
use super::open_key;
use crate::protocol;
use crate::protocol::{
    Call, CallView, Kind, Machine, Progress, ProgressView, Reply, ReplyView, Resource,
};
use crate::text;
use crate::types::{Error, GeneratedKey, GeneratedKeyView};

verus! {

/// A list of keys that is being put together.
#[derive(Debug, PartialEq, Eq)]
pub enum ListKeys {
    /// The provider is being opened.
    Opening,
    /// The next key is being asked for.
    Enumerating { provider: usize, keys: Vec<GeneratedKey> },
    /// A key is being read.
    Loading { provider: usize, cursor: usize, keys: Vec<GeneratedKey>, load: LoadKey },
}

/// The contents of a [`ListKeys`].
pub enum ListKeysView {
    Opening,
    Enumerating { provider: usize, keys: Seq<GeneratedKeyView> },
    Loading { provider: usize, cursor: usize, keys: Seq<GeneratedKeyView>, load: LoadKeyView },
}

impl DeepView for ListKeys {
    type V = ListKeysView;

    open spec fn deep_view(&self) -> ListKeysView {
        match self {
            ListKeys::Opening => ListKeysView::Opening,
            ListKeys::Enumerating { provider, keys } => ListKeysView::Enumerating {
                provider: *provider,
                keys: keys.deep_view(),
            },
            ListKeys::Loading { provider, cursor, keys, load } => ListKeysView::Loading {
                provider: *provider,
                cursor: *cursor,
                keys: keys.deep_view(),
                load: load.deep_view(),
            },
        }
    }
}

/// The enumeration goes on.
pub open spec fn enumerating(
    release: Seq<Resource>,
    provider: usize,
    cursor: usize,
    keys: Seq<GeneratedKeyView>,
) -> ProgressView<ListKeysView, Seq<GeneratedKeyView>> {
    ProgressView::Pending {
        release,
        call: CallView::EnumKeys { provider, cursor },
        machine: ListKeysView::Enumerating { provider, keys },
    }
}

/// How the reading of a key goes on: a key that can be read joins the list, another is
/// passed over.
pub open spec fn after_load(
    provider: usize,
    cursor: usize,
    keys: Seq<GeneratedKeyView>,
    progress: ProgressView<LoadKeyView, GeneratedKeyView>,
) -> ProgressView<ListKeysView, Seq<GeneratedKeyView>> {
    match progress {
        ProgressView::Pending { release, call, machine } => ProgressView::Pending {
            release,
            call,
            machine: ListKeysView::Loading { provider, cursor, keys, load: machine },
        },
        ProgressView::Failed { release, .. } => enumerating(release, provider, cursor, keys),
        ProgressView::Done { release, output } => enumerating(
            release,
            provider,
            cursor,
            keys.push(output),
        ),
    }
}

/// What follows a name: a key that this library manages is read, another is passed over.
/// A name that is no valid text counts as the empty one.
pub open spec fn after_name(
    provider: usize,
    cursor: usize,
    keys: Seq<GeneratedKeyView>,
    name: Option<Seq<char>>,
) -> ProgressView<ListKeysView, Seq<GeneratedKeyView>> {
    match name {
        Some(name) => if names::is_managed(name) {
            after_load(provider, cursor, keys, load::loading(name))
        } else {
            enumerating(seq![], provider, cursor, keys)
        },
        None => enumerating(seq![], provider, cursor, keys),
    }
}

fn enumerate(
    release: Vec<Resource>,
    provider: usize,
    cursor: usize,
    keys: Vec<GeneratedKey>,
) -> (progress: Progress<ListKeys, Vec<GeneratedKey>>)
    ensures
        progress.deep_view() == enumerating(release@, provider, cursor, keys.deep_view()),
{
    Progress::Pending {
        release,
        call: Call::EnumKeys { provider, cursor },
        machine: ListKeys::Enumerating { provider, keys },
    }
}

fn resume_load(
    provider: usize,
    cursor: usize,
    keys: Vec<GeneratedKey>,
    progress: Progress<LoadKey, GeneratedKey>,
) -> (next: Progress<ListKeys, Vec<GeneratedKey>>)
    ensures
        next.deep_view() == after_load(provider, cursor, keys.deep_view(), progress.deep_view()),
{
    match progress {
        Progress::Pending { release, call, machine } => Progress::Pending {
            release,
            call,
            machine: ListKeys::Loading { provider, cursor, keys, load: machine },
        },
        Progress::Failed { release, .. } => enumerate(release, provider, cursor, keys),
        Progress::Done { release, output } => {
            let mut keys = keys;
            let ghost before = keys.deep_view();
            let ghost key = output.deep_view();
            keys.push(output);
            assert(keys.deep_view() =~= before.push(key));
            enumerate(release, provider, cursor, keys)
        },
    }
}

fn resume_name(
    provider: usize,
    cursor: usize,
    keys: Vec<GeneratedKey>,
    name: Option<String>,
) -> (next: Progress<ListKeys, Vec<GeneratedKey>>)
    ensures
        next.deep_view() == after_name(provider, cursor, keys.deep_view(), name.deep_view()),
{
    let name = match name {
        Some(name) => name,
        None => String::new(),
    };
    proof {
        reveal_strlit("hwkey-");
    }
    // Only include keys managed by this library (hwkey- or hwkey-bio- prefix)
    if text::has_prefix(name.as_str(), names::KEY_NAME_PREFIX) {
        resume_load(provider, cursor, keys, load::load_and_export_key(name.as_str()))
    } else {
        enumerate(Vec::new(), provider, cursor, keys)
    }
}

/// The first step of listing: the provider.
pub open spec fn listing() -> ProgressView<ListKeysView, Seq<GeneratedKeyView>> {
    ProgressView::Pending {
        release: seq![],
        call: names::opens_provider(),
        machine: ListKeysView::Opening,
    }
}

/// List all TPM keys with the `hwkey-` prefix.
pub fn list_keys() -> (progress: Progress<ListKeys, Vec<GeneratedKey>>)
    ensures
        progress.deep_view() == listing(),
{
    Progress::Pending {
        release: Vec::new(),
        call: names::open_provider(),
        machine: ListKeys::Opening,
    }
}

impl Machine for ListKeys {
    type Output = Vec<GeneratedKey>;

    open spec fn awaits(state: ListKeysView) -> Kind {
        match state {
            ListKeysView::Opening => Kind::Handle,
            ListKeysView::Enumerating { .. } => Kind::Enumeration,
            ListKeysView::Loading { load, .. } => LoadKey::awaits(load),
        }
    }

    open spec fn next(state: ListKeysView, reply: ReplyView) -> ProgressView<
        ListKeysView,
        Seq<GeneratedKeyView>,
    > {
        match (state, reply) {
            (ListKeysView::Opening, ReplyView::Handle { handle }) => enumerating(
                seq![],
                handle,
                0,
                seq![],
            ),
            (ListKeysView::Opening, ReplyView::Failed { message }) => ProgressView::Failed {
                release: seq![],
                error: open_key::provider_failure(message),
            },
            (
                ListKeysView::Enumerating { provider, keys },
                ReplyView::Named { cursor, address, name },
            ) => {
                if address == 0 {
                    enumerating(seq![], provider, cursor, keys)
                } else {
                    after_name(provider, cursor, keys, name).after(protocol::buffer(address))
                }
            },
            (ListKeysView::Enumerating { provider, keys }, ReplyView::Ended { cursor }) => {
                ProgressView::Done {
                    release: protocol::buffer(cursor) + protocol::object(provider),
                    output: keys,
                }
            },
            (ListKeysView::Loading { provider, cursor, keys, load }, _) => after_load(
                provider,
                cursor,
                keys,
                LoadKey::next(load, reply),
            ),
            _ => arbitrary(),
        }
    }

    open spec fn held(state: ListKeysView) -> Multiset<Resource> {
        match state {
            ListKeysView::Opening => Multiset::empty(),
            ListKeysView::Enumerating { provider, .. } => protocol::object(provider).to_multiset(),
            ListKeysView::Loading { provider, cursor, load, .. } => LoadKey::held(load).add(
                protocol::object(provider).to_multiset(),
            ).add(protocol::buffer(cursor).to_multiset()),
        }
    }

    open spec fn yielded(output: Seq<GeneratedKeyView>) -> Multiset<Resource> {
        Multiset::empty()
    }

    proof fn law_step(state: ListKeysView, reply: ReplyView) {
        protocol::lemma_no_resources();
        match (state, reply) {
            (
                ListKeysView::Enumerating { provider, keys },
                ReplyView::Named { cursor, address, name },
            ) => {
                protocol::lemma_joined_resources(
                    protocol::buffer(cursor),
                    protocol::buffer(address),
                );
                protocol::lemma_joined_resources(protocol::buffer(address), seq![]);
                protocol::lemma_joined_resources(
                    protocol::object(provider),
                    protocol::buffer(cursor),
                );
            },
            (ListKeysView::Enumerating { provider, keys }, ReplyView::Ended { cursor }) => {
                protocol::lemma_joined_resources(
                    protocol::buffer(cursor),
                    protocol::object(provider),
                );
            },
            (ListKeysView::Loading { provider, cursor, keys, load }, _) => {
                LoadKey::law_step(load, reply);
                protocol::lemma_joined_resources(
                    protocol::object(provider),
                    protocol::buffer(cursor),
                );
            },
            (ListKeysView::Opening, ReplyView::Handle { handle }) => {
                protocol::lemma_joined_resources(protocol::object(handle), seq![]);
            },
            _ => {},
        }
    }

    fn accepts(&self, reply: &Reply) -> (fits: bool) {
        match self {
            ListKeys::Opening => reply.answers(Kind::Handle),
            ListKeys::Enumerating { .. } => reply.answers(Kind::Enumeration),
            ListKeys::Loading { load, .. } => load.accepts(reply),
        }
    }

    fn step(self, reply: Reply) -> (progress: Progress<Self, Vec<GeneratedKey>>) {
        let ghost next = Self::next(self.deep_view(), reply.deep_view());
        let progress: Progress<Self, Vec<GeneratedKey>> = match self {
            ListKeys::Opening => match reply {
                Reply::Handle { handle } => {
                    let keys: Vec<GeneratedKey> = Vec::new();
                    assert(keys.deep_view() =~= seq![]);
                    enumerate(Vec::new(), handle, 0, keys)
                },
                Reply::Failed { message } => Progress::Failed {
                    release: Vec::new(),
                    error: Error::with_detail(
                        "NCryptOpenStorageProvider failed: ",
                        message.as_str(),
                    ),
                },
                _ => unreached(),
            },
            ListKeys::Enumerating { provider, keys } => match reply {
                Reply::Named { cursor, address, name } => {
                    if address == 0 {
                        enumerate(Vec::new(), provider, cursor, keys)
                    } else {
                        let release = protocol::releasing_buffer(address);
                        resume_name(provider, cursor, keys, name).after(release)
                    }
                },
                Reply::Ended { cursor } => {
                    let mut release = protocol::releasing_buffer(cursor);
                    protocol::release_object(&mut release, provider);
                    Progress::Done { release, output: keys }
                },
                _ => unreached(),
            },
            ListKeys::Loading { provider, cursor, keys, load } => resume_load(
                provider,
                cursor,
                keys,
                load.step(reply),
            ),
        };
        assert(progress.deep_view() == next);
        progress
    }
}

} // verus!
