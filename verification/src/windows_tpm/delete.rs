//! Deleting a key.
use vstd::multiset::Multiset;
use vstd::pervasive::unreached;
use vstd::prelude::*;

use super::open_key;
use super::open_key::{OpenKey, OpenKeyView};
use crate::protocol;
use crate::protocol::{
    Call, CallView, Kind, Machine, Progress, ProgressView, Reply, ReplyView, Resource,
};
use crate::types::{Error, ErrorView};

verus! {

/// A key that is being deleted.
#[derive(Debug, PartialEq, Eq)]
pub enum DeleteKey {
    /// The key is being opened.
    Opening { key_id: String, open: OpenKey },
    /// The key is being deleted. `NCryptDeleteKey` has taken its handle over, so it is
    /// not given back, whatever the reply.
    Deleting,
}

/// The contents of a [`DeleteKey`].
pub enum DeleteKeyView {
    Opening { key_id: Seq<char>, open: OpenKeyView },
    Deleting,
}

impl DeepView for DeleteKey {
    type V = DeleteKeyView;

    open spec fn deep_view(&self) -> DeleteKeyView {
        match self {
            DeleteKey::Opening { key_id, open } => DeleteKeyView::Opening {
                key_id: key_id@,
                open: open.deep_view(),
            },
            DeleteKey::Deleting => DeleteKeyView::Deleting,
        }
    }
}

/// Why a key that cannot be opened cannot be deleted.
pub open spec fn not_found(key_id: Seq<char>) -> ErrorView {
    ErrorView::because("Key not found for key_id: '"@ + key_id + "'"@)
}

/// How the opening of a key goes on as the deletion of it.
pub open spec fn after_open(
    key_id: Seq<char>,
    progress: ProgressView<OpenKeyView, usize>,
) -> ProgressView<DeleteKeyView, ()> {
    match progress {
        ProgressView::Pending { release, call, machine } => ProgressView::Pending {
            release,
            call,
            machine: DeleteKeyView::Opening { key_id, open: machine },
        },
        ProgressView::Failed { release, .. } => ProgressView::Failed {
            release,
            error: not_found(key_id),
        },
        ProgressView::Done { release, output } => ProgressView::Pending {
            release,
            call: CallView::DeleteKey { key: output },
            machine: DeleteKeyView::Deleting,
        },
    }
}

fn resume_open(key_id: String, progress: Progress<OpenKey, usize>) -> (next: Progress<
    DeleteKey,
    (),
>)
    ensures
        next.deep_view() == after_open(key_id@, progress.deep_view()),
{
    match progress {
        Progress::Pending { release, call, machine } => Progress::Pending {
            release,
            call,
            machine: DeleteKey::Opening { key_id, open: machine },
        },
        Progress::Failed { release, .. } => Progress::Failed {
            release,
            error: Error::Reason {
                reason: "Key not found for key_id: '".to_owned().concat(key_id.as_str()).concat(
                    "'",
                ),
            },
        },
        Progress::Done { release, output } => Progress::Pending {
            release,
            call: Call::DeleteKey { key: output },
            machine: DeleteKey::Deleting,
        },
    }
}

/// The first step of deleting a key.
pub open spec fn deleting(key_id: Seq<char>) -> ProgressView<DeleteKeyView, ()> {
    after_open(key_id, open_key::opening(key_id))
}

/// Delete a TPM key by its full key_id (e.g. `"hwkey-signing-key"` or `"hwkey-bio-signing-key"`).
/// `NCryptDeleteKey` takes ownership of the handle, which is not given back after it.
pub fn delete_key(key_id: &str) -> (progress: Progress<DeleteKey, ()>)
    ensures
        progress.deep_view() == deleting(key_id@),
{
    resume_open(key_id.to_owned(), open_key::open_key(key_id))
}

impl Machine for DeleteKey {
    type Output = ();

    open spec fn awaits(state: DeleteKeyView) -> Kind {
        match state {
            DeleteKeyView::Opening { open, .. } => OpenKey::awaits(open),
            DeleteKeyView::Deleting => Kind::Status,
        }
    }

    open spec fn next(state: DeleteKeyView, reply: ReplyView) -> ProgressView<DeleteKeyView, ()> {
        match state {
            DeleteKeyView::Opening { key_id, open } => after_open(
                key_id,
                OpenKey::next(open, reply),
            ),
            DeleteKeyView::Deleting => match reply {
                ReplyView::Success => ProgressView::Done { release: seq![], output: () },
                ReplyView::Failed { message } => ProgressView::Failed {
                    release: seq![],
                    error: ErrorView::because("NCryptDeleteKey failed: "@ + message),
                },
                _ => arbitrary(),
            },
        }
    }

    open spec fn held(state: DeleteKeyView) -> Multiset<Resource> {
        match state {
            DeleteKeyView::Opening { open, .. } => OpenKey::held(open),
            DeleteKeyView::Deleting => Multiset::empty(),
        }
    }

    open spec fn yielded(output: ()) -> Multiset<Resource> {
        Multiset::empty()
    }

    proof fn law_step(state: DeleteKeyView, reply: ReplyView) {
        protocol::lemma_no_resources();
        match state {
            DeleteKeyView::Opening { open, .. } => {
                OpenKey::law_step(open, reply);
            },
            DeleteKeyView::Deleting => {},
        }
    }

    fn accepts(&self, reply: &Reply) -> (fits: bool) {
        match self {
            DeleteKey::Opening { open, .. } => open.accepts(reply),
            DeleteKey::Deleting => reply.answers(Kind::Status),
        }
    }

    fn step(self, reply: Reply) -> (progress: Progress<Self, ()>) {
        let ghost next = Self::next(self.deep_view(), reply.deep_view());
        let progress: Progress<Self, ()> = match self {
            DeleteKey::Opening { key_id, open } => resume_open(key_id, open.step(reply)),
            DeleteKey::Deleting => match reply {
                Reply::Success => Progress::Done { release: Vec::new(), output: () },
                Reply::Failed { message } => Progress::Failed {
                    release: Vec::new(),
                    error: Error::with_detail("NCryptDeleteKey failed: ", message.as_str()),
                },
                _ => unreached(),
            },
        };
        assert(progress.deep_view() == next);
        progress
    }
}

} // verus!
