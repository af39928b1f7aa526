//! Opening an existing key.
use vstd::multiset::Multiset;
use vstd::pervasive::unreached;
use vstd::prelude::*;

use super::names;
use crate::protocol;
use crate::protocol::{
    Call, CallView, Kind, Machine, Progress, ProgressView, Reply, ReplyView, Resource,
};
use crate::types::{Error, ErrorView};

verus! {

/// A key that is being opened.
#[derive(Debug, PartialEq, Eq)]
pub enum OpenKey {
    /// The provider is being opened.
    Provider { name: String },
    /// The provider is open, and the key is being opened.
    Key { name: String, provider: usize },
}

/// The contents of an [`OpenKey`].
pub enum OpenKeyView {
    Provider { name: Seq<char> },
    Key { name: Seq<char>, provider: usize },
}

impl DeepView for OpenKey {
    type V = OpenKeyView;

    open spec fn deep_view(&self) -> OpenKeyView {
        match self {
            OpenKey::Provider { name } => OpenKeyView::Provider { name: name@ },
            OpenKey::Key { name, provider } => OpenKeyView::Key {
                name: name@,
                provider: *provider,
            },
        }
    }
}

/// Why the provider could not be opened.
pub open spec fn provider_failure(message: Seq<char>) -> ErrorView {
    ErrorView::because("NCryptOpenStorageProvider failed: "@ + message)
}

/// Why the key could not be opened.
pub open spec fn key_failure(name: Seq<char>, message: Seq<char>) -> ErrorView {
    ErrorView::because("NCryptOpenKey failed for '"@ + name + "': "@ + message)
}

/// The first step of opening a key: the provider.
pub open spec fn opening(name: Seq<char>) -> ProgressView<OpenKeyView, usize> {
    ProgressView::Pending {
        release: seq![],
        call: names::opens_provider(),
        machine: OpenKeyView::Provider { name },
    }
}

/// Starts to open the key with a name. The output is its handle, which the caller owns.
pub fn open_key(name: &str) -> (progress: Progress<OpenKey, usize>)
    ensures
        progress.deep_view() == opening(name@),
{
    Progress::Pending {
        release: Vec::new(),
        call: names::open_provider(),
        machine: OpenKey::Provider { name: name.to_owned() },
    }
}

impl Machine for OpenKey {
    type Output = usize;

    open spec fn awaits(state: OpenKeyView) -> Kind {
        Kind::Handle
    }

    open spec fn next(state: OpenKeyView, reply: ReplyView) -> ProgressView<OpenKeyView, usize> {
        match (state, reply) {
            (OpenKeyView::Provider { name }, ReplyView::Handle { handle }) => {
                ProgressView::Pending {
                    release: seq![],
                    call: CallView::OpenKey { provider: handle, name },
                    machine: OpenKeyView::Key { name, provider: handle },
                }
            },
            (OpenKeyView::Provider { name }, ReplyView::Failed { message }) => {
                ProgressView::Failed { release: seq![], error: provider_failure(message) }
            },
            (OpenKeyView::Key { name, provider }, ReplyView::Handle { handle }) => {
                ProgressView::Done { release: protocol::object(provider), output: handle }
            },
            (OpenKeyView::Key { name, provider }, ReplyView::Failed { message }) => {
                ProgressView::Failed {
                    release: protocol::object(provider),
                    error: key_failure(name, message),
                }
            },
            _ => arbitrary(),
        }
    }

    open spec fn held(state: OpenKeyView) -> Multiset<Resource> {
        match state {
            OpenKeyView::Provider { .. } => Multiset::empty(),
            OpenKeyView::Key { provider, .. } => protocol::object(provider).to_multiset(),
        }
    }

    open spec fn yielded(output: usize) -> Multiset<Resource> {
        protocol::object(output).to_multiset()
    }

    proof fn law_step(state: OpenKeyView, reply: ReplyView) {
        protocol::lemma_no_resources();
    }

    fn accepts(&self, reply: &Reply) -> (fits: bool) {
        reply.answers(Kind::Handle)
    }

    fn step(self, reply: Reply) -> (progress: Progress<Self, usize>) {
        let ghost next = Self::next(self.deep_view(), reply.deep_view());
        let progress: Progress<Self, usize> = match self {
            OpenKey::Provider { name } => match reply {
                Reply::Handle { handle } => Progress::Pending {
                    release: Vec::new(),
                    call: Call::OpenKey { provider: handle, name: name.clone() },
                    machine: OpenKey::Key { name, provider: handle },
                },
                Reply::Failed { message } => Progress::Failed {
                    release: Vec::new(),
                    error: Error::with_detail(
                        "NCryptOpenStorageProvider failed: ",
                        message.as_str(),
                    ),
                },
                _ => unreached(),
            },
            OpenKey::Key { name, provider } => {
                let release = protocol::releasing_object(provider);
                match reply {
                    Reply::Handle { handle } => Progress::Done { release, output: handle },
                    Reply::Failed { message } => Progress::Failed {
                        release,
                        error: Error::Reason {
                            reason: "NCryptOpenKey failed for '".to_owned().concat(
                                name.as_str(),
                            ).concat("': ").concat(message.as_str()),
                        },
                    },
                    _ => unreached(),
                }
            },
        };
        assert(progress.deep_view() == next);
        progress
    }
}

} // verus!
