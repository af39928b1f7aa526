//! Signing a hash.
use vstd::multiset::Multiset;
use vstd::pervasive::unreached;
use vstd::prelude::*;
use vstd::slice::slice_to_vec;

use super::names;
use super::open_key;
use super::open_key::{OpenKey, OpenKeyView};
use crate::hello;
use crate::protocol;
use crate::protocol::{
    Call, CallView, Kind, Machine, Progress, ProgressView, Reply, ReplyView, Resource,
};
use crate::text;
use crate::types::{Error, ErrorView, SignatureResult, SignatureResultView};

verus! {

/// A hash that is being signed.
#[derive(Debug, PartialEq, Eq)]
pub enum SignHash {
    /// The user is being asked for consent.
    Consenting { key_id: String, hash: Vec<u8> },
    /// The key is being opened.
    Opening { hash: Vec<u8>, open: OpenKey },
    /// The size of the signature is being asked for.
    Sizing { hash: Vec<u8>, key: usize },
    /// The signature is being made.
    Signing { key: usize },
}

/// The contents of a [`SignHash`].
pub enum SignHashView {
    Consenting { key_id: Seq<char>, hash: Seq<u8> },
    Opening { hash: Seq<u8>, open: OpenKeyView },
    Sizing { hash: Seq<u8>, key: usize },
    Signing { key: usize },
}

impl DeepView for SignHash {
    type V = SignHashView;

    open spec fn deep_view(&self) -> SignHashView {
        match self {
            SignHash::Consenting { key_id, hash } => SignHashView::Consenting {
                key_id: key_id@,
                hash: hash@,
            },
            SignHash::Opening { hash, open } => SignHashView::Opening {
                hash: hash@,
                open: open.deep_view(),
            },
            SignHash::Sizing { hash, key } => SignHashView::Sizing { hash: hash@, key: *key },
            SignHash::Signing { key } => SignHashView::Signing { key: *key },
        }
    }
}

/// What the user reads in the prompt.
pub open spec fn consent_reason(key_id: Seq<char>) -> Seq<char> {
    "Authenticate to sign with key '"@ + key_id + "'"@
}

/// How the opening of a key goes on as the signing of a hash with it.
pub open spec fn after_open(
    hash: Seq<u8>,
    progress: ProgressView<OpenKeyView, usize>,
) -> ProgressView<SignHashView, SignatureResultView> {
    match progress {
        ProgressView::Pending { release, call, machine } => ProgressView::Pending {
            release,
            call,
            machine: SignHashView::Opening { hash, open: machine },
        },
        ProgressView::Failed { release, error } => ProgressView::Failed { release, error },
        ProgressView::Done { release, output } => ProgressView::Pending {
            release,
            call: CallView::SignSize { key: output, hash },
            machine: SignHashView::Sizing { hash, key: output },
        },
    }
}

fn resume_open(hash: Vec<u8>, progress: Progress<OpenKey, usize>) -> (next: Progress<
    SignHash,
    SignatureResult,
>)
    ensures
        next.deep_view() == after_open(hash@, progress.deep_view()),
{
    match progress {
        Progress::Pending { release, call, machine } => Progress::Pending {
            release,
            call,
            machine: SignHash::Opening { hash, open: machine },
        },
        Progress::Failed { release, error } => Progress::Failed { release, error },
        Progress::Done { release, output } => {
            let copy = slice_to_vec(hash.as_slice());
            Progress::Pending {
                release,
                call: Call::SignSize { key: output, hash: copy },
                machine: SignHash::Sizing { hash, key: output },
            }
        },
    }
}

/// The first step of signing: consent where it is required, else the key.
pub open spec fn signing(
    key_id: Seq<char>,
    hash: Seq<u8>,
    require_biometric: bool,
) -> ProgressView<SignHashView, SignatureResultView> {
    if require_biometric {
        ProgressView::Pending {
            release: seq![],
            call: CallView::RequestConsent { reason: consent_reason(key_id) },
            machine: SignHashView::Consenting { key_id, hash },
        }
    } else {
        after_open(hash, open_key::opening(key_id))
    }
}

/// Sign a SHA-256 hash with a TPM key.
///
/// `key_id` is the full key name returned by `generate_key`:
/// - `"hwkey-<label>"` — no biometric, signs immediately.
/// - `"hwkey-bio-<label>"` — prompts Windows Hello before signing.
pub fn sign_hash(key_id: &str, hash: &[u8]) -> (progress: Progress<SignHash, SignatureResult>)
    ensures
        progress.deep_view() == signing(key_id@, hash@, names::needs_consent(key_id@)),
{
    let require_biometric = text::has_prefix(key_id, names::KEY_NAME_PREFIX_BIO);
    sign_hash_with_options(key_id, hash, require_biometric)
}

/// Signs a hash, after consent if that is required.
pub fn sign_hash_with_options(key_id: &str, hash: &[u8], require_biometric: bool) -> (progress:
    Progress<SignHash, SignatureResult>)
    ensures
        progress.deep_view() == signing(key_id@, hash@, require_biometric),
{
    let hash = slice_to_vec(hash);
    if require_biometric {
        let reason = "Authenticate to sign with key '".to_owned().concat(key_id).concat("'");
        Progress::Pending {
            release: Vec::new(),
            call: Call::RequestConsent { reason },
            machine: SignHash::Consenting { key_id: key_id.to_owned(), hash },
        }
    } else {
        resume_open(hash, open_key::open_key(key_id))
    }
}

impl Machine for SignHash {
    type Output = SignatureResult;

    open spec fn awaits(state: SignHashView) -> Kind {
        match state {
            SignHashView::Consenting { .. } => Kind::Consent,
            SignHashView::Opening { open, .. } => OpenKey::awaits(open),
            SignHashView::Sizing { .. } => Kind::Size,
            SignHashView::Signing { .. } => Kind::Data,
        }
    }

    open spec fn next(state: SignHashView, reply: ReplyView) -> ProgressView<
        SignHashView,
        SignatureResultView,
    > {
        match (state, reply) {
            (SignHashView::Consenting { key_id, hash }, ReplyView::Consent { consent }) => {
                match hello::report_refusal(consent) {
                    Some(error) => ProgressView::Failed { release: seq![], error },
                    None => after_open(hash, open_key::opening(key_id)),
                }
            },
            (SignHashView::Opening { hash, open }, _) => after_open(
                hash,
                OpenKey::next(open, reply),
            ),
            (SignHashView::Sizing { hash, key }, ReplyView::Size { size }) => {
                ProgressView::Pending {
                    release: seq![],
                    call: CallView::Sign { key, hash, capacity: size },
                    machine: SignHashView::Signing { key },
                }
            },
            (SignHashView::Sizing { hash, key }, ReplyView::Failed { message }) => {
                ProgressView::Failed {
                    release: protocol::object(key),
                    error: ErrorView::because("NCryptSignHash (size query) failed: "@ + message),
                }
            },
            (SignHashView::Signing { key }, ReplyView::Data { bytes, written }) => {
                ProgressView::Done {
                    release: protocol::object(key),
                    output: SignatureResultView {
                        signature: protocol::filled(bytes, written),
                        algorithm: names::ALGORITHM@,
                    },
                }
            },
            (SignHashView::Signing { key }, ReplyView::Failed { message }) => {
                ProgressView::Failed {
                    release: protocol::object(key),
                    error: ErrorView::because("NCryptSignHash failed: "@ + message),
                }
            },
            _ => arbitrary(),
        }
    }

    open spec fn held(state: SignHashView) -> Multiset<Resource> {
        match state {
            SignHashView::Consenting { .. } => Multiset::empty(),
            SignHashView::Opening { open, .. } => OpenKey::held(open),
            SignHashView::Sizing { key, .. } => protocol::object(key).to_multiset(),
            SignHashView::Signing { key } => protocol::object(key).to_multiset(),
        }
    }

    open spec fn yielded(output: SignatureResultView) -> Multiset<Resource> {
        Multiset::empty()
    }

    proof fn law_step(state: SignHashView, reply: ReplyView) {
        protocol::lemma_no_resources();
        match state {
            SignHashView::Opening { open, .. } => {
                OpenKey::law_step(open, reply);
            },
            _ => {},
        }
    }

    fn accepts(&self, reply: &Reply) -> (fits: bool) {
        match self {
            SignHash::Consenting { .. } => reply.answers(Kind::Consent),
            SignHash::Opening { open, .. } => open.accepts(reply),
            SignHash::Sizing { .. } => reply.answers(Kind::Size),
            SignHash::Signing { .. } => reply.answers(Kind::Data),
        }
    }

    fn step(self, reply: Reply) -> (progress: Progress<Self, SignatureResult>) {
        let ghost next = Self::next(self.deep_view(), reply.deep_view());
        let progress: Progress<Self, SignatureResult> = match self {
            SignHash::Consenting { key_id, hash } => match reply {
                Reply::Consent { consent } => match hello::hello_verify(consent) {
                    Ok(_) => resume_open(hash, open_key::open_key(key_id.as_str())),
                    Err(error) => Progress::Failed { release: Vec::new(), error },
                },
                _ => unreached(),
            },
            SignHash::Opening { hash, open } => resume_open(hash, open.step(reply)),
            SignHash::Sizing { hash, key } => match reply {
                Reply::Size { size } => Progress::Pending {
                    release: Vec::new(),
                    call: Call::Sign { key, hash, capacity: size },
                    machine: SignHash::Signing { key },
                },
                Reply::Failed { message } => Progress::Failed {
                    release: protocol::releasing_object(key),
                    error: Error::with_detail(
                        "NCryptSignHash (size query) failed: ",
                        message.as_str(),
                    ),
                },
                _ => unreached(),
            },
            SignHash::Signing { key } => match reply {
                Reply::Data { bytes, written } => Progress::Done {
                    release: protocol::releasing_object(key),
                    output: SignatureResult {
                        signature: protocol::cut(bytes, written),
                        algorithm: names::ALGORITHM.to_owned(),
                    },
                },
                Reply::Failed { message } => Progress::Failed {
                    release: protocol::releasing_object(key),
                    error: Error::with_detail("NCryptSignHash failed: ", message.as_str()),
                },
                _ => unreached(),
            },
        };
        assert(progress.deep_view() == next);
        progress
    }
}

} // verus!
