//! Exporting the public half of a key.
use vstd::multiset::Multiset;
use vstd::pervasive::unreached;
use vstd::prelude::*;

use super::names;
use crate::jwk;
use crate::protocol;
use crate::protocol::{
    Call, CallView, Kind, Machine, Progress, ProgressView, Reply, ReplyView, Resource,
};
use crate::types::{Error, ErrorView};

verus! {

/// A key whose public half is being exported. The export owns the handle and gives it
/// back when it ends.
#[derive(Clone, Copy, Debug, PartialEq, Eq, Structural)]
pub enum ExportJwk {
    /// The size of the blob is being asked for.
    Size { key: usize },
    /// The blob is being exported.
    Blob { key: usize },
}

impl DeepView for ExportJwk {
    type V = ExportJwk;

    open spec fn deep_view(&self) -> ExportJwk {
        *self
    }
}

impl ExportJwk {
    /// The handle that the export owns.
    pub open spec fn key(self) -> usize {
        match self {
            ExportJwk::Size { key } => key,
            ExportJwk::Blob { key } => key,
        }
    }
}

/// The first step of an export: the size of the blob.
pub open spec fn exporting(key: usize) -> ProgressView<ExportJwk, Seq<char>> {
    ProgressView::Pending {
        release: seq![],
        call: CallView::ExportSize { key, blob_type: names::BLOB_TYPE@ },
        machine: ExportJwk::Size { key },
    }
}

/// Starts to export the public half of a key. The output is a JSON web key.
pub fn export_public_jwk(key: usize) -> (progress: Progress<ExportJwk, String>)
    ensures
        progress.deep_view() == exporting(key),
{
    Progress::Pending {
        release: Vec::new(),
        call: Call::ExportSize { key, blob_type: names::BLOB_TYPE.to_owned() },
        machine: ExportJwk::Size { key },
    }
}

impl Machine for ExportJwk {
    type Output = String;

    open spec fn awaits(state: ExportJwk) -> Kind {
        match state {
            ExportJwk::Size { .. } => Kind::Size,
            ExportJwk::Blob { .. } => Kind::Data,
        }
    }

    open spec fn next(state: ExportJwk, reply: ReplyView) -> ProgressView<ExportJwk, Seq<char>> {
        match (state, reply) {
            (ExportJwk::Size { key }, ReplyView::Size { size }) => ProgressView::Pending {
                release: seq![],
                call: CallView::Export { key, blob_type: names::BLOB_TYPE@, capacity: size },
                machine: ExportJwk::Blob { key },
            },
            (ExportJwk::Size { key }, ReplyView::Failed { message }) => ProgressView::Failed {
                release: protocol::object(key),
                error: ErrorView::because("NCryptExportKey (size) failed: "@ + message),
            },
            (ExportJwk::Blob { key }, ReplyView::Data { bytes, written }) => {
                match jwk::blob_to_jwk(protocol::filled(bytes, written)) {
                    Ok(text) => ProgressView::Done {
                        release: protocol::object(key),
                        output: text,
                    },
                    Err(error) => ProgressView::Failed { release: protocol::object(key), error },
                }
            },
            (ExportJwk::Blob { key }, ReplyView::Failed { message }) => ProgressView::Failed {
                release: protocol::object(key),
                error: ErrorView::because("NCryptExportKey failed: "@ + message),
            },
            _ => arbitrary(),
        }
    }

    open spec fn held(state: ExportJwk) -> Multiset<Resource> {
        protocol::object(state.key()).to_multiset()
    }

    open spec fn yielded(output: Seq<char>) -> Multiset<Resource> {
        Multiset::empty()
    }

    proof fn law_step(state: ExportJwk, reply: ReplyView) {
        protocol::lemma_no_resources();
    }

    fn accepts(&self, reply: &Reply) -> (fits: bool) {
        match self {
            ExportJwk::Size { .. } => reply.answers(Kind::Size),
            ExportJwk::Blob { .. } => reply.answers(Kind::Data),
        }
    }

    fn step(self, reply: Reply) -> (progress: Progress<Self, String>) {
        match self {
            ExportJwk::Size { key } => match reply {
                Reply::Size { size } => Progress::Pending {
                    release: Vec::new(),
                    call: Call::Export {
                        key,
                        blob_type: names::BLOB_TYPE.to_owned(),
                        capacity: size,
                    },
                    machine: ExportJwk::Blob { key },
                },
                Reply::Failed { message } => Progress::Failed {
                    release: protocol::releasing_object(key),
                    error: Error::with_detail("NCryptExportKey (size) failed: ", message.as_str()),
                },
                _ => unreached(),
            },
            ExportJwk::Blob { key } => {
                let release = protocol::releasing_object(key);
                match reply {
                    Reply::Data { bytes, written } => {
                        let blob = protocol::cut(bytes, written);
                        match jwk::eccpublic_blob_to_jwk(blob.as_slice()) {
                            Ok(text) => Progress::Done { release, output: text },
                            Err(error) => Progress::Failed { release, error },
                        }
                    },
                    Reply::Failed { message } => Progress::Failed {
                        release,
                        error: Error::with_detail("NCryptExportKey failed: ", message.as_str()),
                    },
                    _ => unreached(),
                }
            },
        }
    }
}

} // verus!
