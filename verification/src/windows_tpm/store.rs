//! The keys that CNG holds, as far as calls and replies show them.
use vstd::prelude::*;

use crate::protocol::{CallView, Machine, ProgressView, ReplyView};

verus! {

/// The names of the persisted keys, and the name behind each handle of a key.
#[verifier::ext_equal]
pub struct Store {
    pub names: Set<Seq<char>>,
    pub handles: Map<usize, Seq<char>>,
}

impl Store {
    /// What a call and its reply make of the store: a key joins it when it is finalized and
    /// leaves it when it is deleted.
    pub open spec fn after_call(self, call: CallView, reply: ReplyView) -> Store {
        match (call, reply) {
            (CallView::OpenKey { name, .. }, ReplyView::Handle { handle }) => Store {
                names: self.names,
                handles: self.handles.insert(handle, name),
            },
            (CallView::CreateKey { name, .. }, ReplyView::Handle { handle }) => Store {
                names: self.names,
                handles: self.handles.insert(handle, name),
            },
            (CallView::FinalizeKey { key }, ReplyView::Success) => Store {
                names: self.names.insert(self.handles[key]),
                handles: self.handles,
            },
            (CallView::DeleteKey { key }, ReplyView::Success) => Store {
                names: self.names.remove(self.handles[key]),
                handles: self.handles,
            },
            _ => self,
        }
    }

    /// Whether a reply is true to the store: a key that is not there cannot be opened.
    pub open spec fn allows(self, call: CallView, reply: ReplyView) -> bool {
        match (call, reply) {
            (CallView::OpenKey { name, .. }, ReplyView::Handle { .. }) => self.names.contains(name),
            _ => true,
        }
    }

    /// What a conversation makes of the store.
    pub open spec fn after<M: Machine>(
        self,
        progress: ProgressView<M::V, <M::Output as DeepView>::V>,
        replies: Seq<ReplyView>,
    ) -> Store
        decreases replies.len(),
    {
        if replies.len() == 0 {
            self
        } else {
            match progress {
                ProgressView::Pending { call, machine, .. } => self.after_call(
                    call,
                    replies.first(),
                ).after::<M>(M::next(machine, replies.first()), replies.drop_first()),
                _ => self,
            }
        }
    }

    /// Whether the replies of a conversation are true to the store.
    pub open spec fn serves<M: Machine>(
        self,
        progress: ProgressView<M::V, <M::Output as DeepView>::V>,
        replies: Seq<ReplyView>,
    ) -> bool
        decreases replies.len(),
    {
        if replies.len() == 0 {
            true
        } else {
            match progress {
                ProgressView::Pending { call, machine, .. } => {
                    &&& self.allows(call, replies.first())
                    &&& self.after_call(call, replies.first()).serves::<M>(
                        M::next(machine, replies.first()),
                        replies.drop_first(),
                    )
                },
                _ => true,
            }
        }
    }
}

} // verus!
