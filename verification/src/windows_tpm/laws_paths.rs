//! Where each reply leads: every call, every resource that is given back and every error, on
//! each path of each operation.
use vstd::prelude::*;

use super::delete;
use super::delete::{DeleteKey, DeleteKeyView};
use super::discover;
use super::discover::Discover;
use super::export;
use super::export::ExportJwk;
use super::generate;
use super::generate::{GenerateKey, GenerateKeyView};
use super::list;
use super::list::{ListKeys, ListKeysView};
use super::load;
use super::load::{LoadKey, LoadKeyView};
use super::names;
use super::open_key;
use super::open_key::{OpenKey, OpenKeyView};
use super::sign;
use super::sign::{SignHash, SignHashView};
use crate::hello::{
    Availability, AvailabilityReport, ConsentAnswerView, ConsentReportView, ConsentResultView,
};
use crate::jwk;
use crate::protocol;
use crate::protocol::{CallView, Machine, ProgressView, ReplyView, Resource};
use crate::runs;
use crate::types::{
    DuplicateLabelPolicy, ErrorView, GeneratedKeyView, HardwareKeyInfoView, SignatureResultView,
};

verus! {

/// Where a discovery stands.
pub type Discovering = ProgressView<Discover, Option<HardwareKeyInfoView>>;

/// Where the opening of a key stands.
pub type Opening = ProgressView<OpenKeyView, usize>;

/// Where the export of a key stands.
pub type Exporting = ProgressView<ExportJwk, Seq<char>>;

/// Where the reading of a key stands.
pub type Loading = ProgressView<LoadKeyView, GeneratedKeyView>;

/// Where a deletion stands.
pub type Deleting = ProgressView<DeleteKeyView, ()>;

/// Where a signing stands.
pub type Signing = ProgressView<SignHashView, SignatureResultView>;

/// Where a generation stands.
pub type Generating = ProgressView<GenerateKeyView, GeneratedKeyView>;

/// Where a listing stands.
pub type Listing = ProgressView<ListKeysView, Seq<GeneratedKeyView>>;

/// Discovery: a provider that opens is given back and means that the backend is there; one
/// that does not means that it is not.
pub proof fn law_discovery_paths(provider: usize, message: Seq<char>)
    ensures
        ({
            let start = discover::discovering();
            let p = ReplyView::Handle { handle: provider };
            let f = ReplyView::Failed { message };
            &&& runs::is_run::<Discover>(start, seq![p])
            &&& runs::is_run::<Discover>(start, seq![f])
            &&& runs::calls::<Discover>(start, seq![]) == seq![names::opens_provider()]
            &&& runs::reached::<Discover>(start, seq![p]) == Discovering::Done {
                release: protocol::object(provider),
                output: Some(
                    HardwareKeyInfoView {
                        backend: "windows-tpm"@,
                        description: "Windows TPM 2.0 (Microsoft Platform Crypto Provider)"@,
                        algorithms: seq!["ES256"@],
                        device_id: "local"@,
                    },
                ),
            }
            &&& runs::reached::<Discover>(start, seq![f]) == Discovering::Done {
                release: seq![],
                output: None,
            }
        }),
{
    let p = ReplyView::Handle { handle: provider };
    let f = ReplyView::Failed { message };
    reveal_with_fuel(runs::is_run, 2);
    reveal_with_fuel(runs::reached, 2);
    runs::lemma_few_replies(p, p, p, p, p);
    runs::lemma_few_replies(f, f, f, f, f);
}

/// Opening a key: the provider is given back when the key was tried, and each failure says
/// which call failed, for which key, and why.
pub proof fn law_opening_paths(name: Seq<char>, provider: usize, key: usize, message: Seq<char>)
    ensures
        ({
            let start = open_key::opening(name);
            let p = ReplyView::Handle { handle: provider };
            let k = ReplyView::Handle { handle: key };
            let f = ReplyView::Failed { message };
            &&& runs::is_run::<OpenKey>(start, seq![f])
            &&& runs::is_run::<OpenKey>(start, seq![p, f])
            &&& runs::is_run::<OpenKey>(start, seq![p, k])
            &&& runs::calls::<OpenKey>(start, seq![p]) == seq![
                names::opens_provider(),
                CallView::OpenKey { provider, name },
            ]
            &&& runs::released::<OpenKey>(start, seq![p]) == Seq::<Resource>::empty()
            &&& runs::reached::<OpenKey>(start, seq![f]) == Opening::Failed {
                release: seq![],
                error: ErrorView::Reason {
                    reason: "NCryptOpenStorageProvider failed: "@ + message,
                },
            }
            &&& runs::reached::<OpenKey>(start, seq![p, f]) == Opening::Failed {
                release: protocol::object(provider),
                error: ErrorView::Reason {
                    reason: "NCryptOpenKey failed for '"@ + name + "': "@ + message,
                },
            }
            &&& runs::reached::<OpenKey>(start, seq![p, k]) == Opening::Done {
                release: protocol::object(provider),
                output: key,
            }
        }),
{
    let start = open_key::opening(name);
    let p = ReplyView::Handle { handle: provider };
    let k = ReplyView::Handle { handle: key };
    let f = ReplyView::Failed { message };
    reveal_with_fuel(runs::is_run, 3);
    reveal_with_fuel(runs::reached, 3);
    reveal_with_fuel(runs::calls, 3);
    reveal_with_fuel(runs::released, 3);
    runs::lemma_few_replies(p, k, f, f, f);
    runs::lemma_few_replies(p, f, f, f, f);
    runs::lemma_few_replies(k, f, f, f, f);
    runs::lemma_few_replies(f, f, f, f, f);
    assert(runs::calls::<OpenKey>(start, seq![p]) =~= seq![
        names::opens_provider(),
        CallView::OpenKey { provider, name },
    ]);
    assert(runs::released::<OpenKey>(start, seq![p]) =~= Seq::<Resource>::empty());
}

/// Exporting a key: the handle is given back when the export ends, each failure says which
/// call failed and why, and the blob that was written decides about the key.
pub proof fn law_export_paths(
    key: usize,
    size: u32,
    bytes: Seq<u8>,
    written: u32,
    message: Seq<char>,
)
    requires
        bytes.len() <= isize::MAX,
    ensures
        ({
            let start = export::exporting(key);
            let n = ReplyView::Size { size };
            let d = ReplyView::Data { bytes, written };
            let f = ReplyView::Failed { message };
            &&& runs::is_run::<ExportJwk>(start, seq![f])
            &&& runs::is_run::<ExportJwk>(start, seq![n, f])
            &&& runs::is_run::<ExportJwk>(start, seq![n, d])
            &&& runs::calls::<ExportJwk>(start, seq![n]) == seq![
                CallView::ExportSize { key, blob_type: "ECCPUBLICBLOB"@ },
                CallView::Export { key, blob_type: "ECCPUBLICBLOB"@, capacity: size },
            ]
            &&& runs::released::<ExportJwk>(start, seq![n]) == Seq::<Resource>::empty()
            &&& runs::reached::<ExportJwk>(start, seq![f]) == Exporting::Failed {
                release: protocol::object(key),
                error: ErrorView::Reason { reason: "NCryptExportKey (size) failed: "@ + message },
            }
            &&& runs::reached::<ExportJwk>(start, seq![n, f]) == Exporting::Failed {
                release: protocol::object(key),
                error: ErrorView::Reason { reason: "NCryptExportKey failed: "@ + message },
            }
            &&& runs::reached::<ExportJwk>(start, seq![n, d]) == match jwk::blob_to_jwk(
                protocol::filled(bytes, written),
            ) {
                Ok(text) => Exporting::Done { release: protocol::object(key), output: text },
                Err(error) => Exporting::Failed { release: protocol::object(key), error },
            }
        }),
{
    let start = export::exporting(key);
    let n = ReplyView::Size { size };
    let d = ReplyView::Data { bytes, written };
    let f = ReplyView::Failed { message };
    reveal_with_fuel(runs::is_run, 3);
    reveal_with_fuel(runs::reached, 3);
    reveal_with_fuel(runs::calls, 3);
    reveal_with_fuel(runs::released, 3);
    runs::lemma_few_replies(n, d, f, f, f);
    runs::lemma_few_replies(n, f, f, f, f);
    runs::lemma_few_replies(d, f, f, f, f);
    runs::lemma_few_replies(f, f, f, f, f);
    assert(runs::calls::<ExportJwk>(start, seq![n]) =~= seq![
        CallView::ExportSize { key, blob_type: "ECCPUBLICBLOB"@ },
        CallView::Export { key, blob_type: "ECCPUBLICBLOB"@, capacity: size },
    ]);
    assert(runs::released::<ExportJwk>(start, seq![n]) =~= Seq::<Resource>::empty());
}

/// Reading a key: it is opened by its name and exported, and described by that name and by the
/// key that the blob holds.
pub proof fn law_loading_paths(
    name: Seq<char>,
    provider: usize,
    key: usize,
    size: u32,
    bytes: Seq<u8>,
    written: u32,
    message: Seq<char>,
)
    requires
        bytes.len() <= isize::MAX,
    ensures
        ({
            let start = load::loading(name);
            let p = ReplyView::Handle { handle: provider };
            let k = ReplyView::Handle { handle: key };
            let n = ReplyView::Size { size };
            let d = ReplyView::Data { bytes, written };
            let f = ReplyView::Failed { message };
            &&& runs::is_run::<LoadKey>(start, seq![f])
            &&& runs::is_run::<LoadKey>(start, seq![p, f])
            &&& runs::is_run::<LoadKey>(start, seq![p, k, f])
            &&& runs::is_run::<LoadKey>(start, seq![p, k, n, f])
            &&& runs::is_run::<LoadKey>(start, seq![p, k, n, d])
            &&& runs::calls::<LoadKey>(start, seq![p, k, n]) == seq![
                names::opens_provider(),
                CallView::OpenKey { provider, name },
                CallView::ExportSize { key, blob_type: "ECCPUBLICBLOB"@ },
                CallView::Export { key, blob_type: "ECCPUBLICBLOB"@, capacity: size },
            ]
            &&& runs::released::<LoadKey>(start, seq![p]) == Seq::<Resource>::empty()
            &&& runs::released::<LoadKey>(start, seq![p, k, n]) == protocol::object(provider)
            &&& runs::reached::<LoadKey>(start, seq![f]) == Loading::Failed {
                release: seq![],
                error: ErrorView::Reason {
                    reason: "NCryptOpenStorageProvider failed: "@ + message,
                },
            }
            &&& runs::reached::<LoadKey>(start, seq![p, f]) == Loading::Failed {
                release: protocol::object(provider),
                error: ErrorView::Reason {
                    reason: "NCryptOpenKey failed for '"@ + name + "': "@ + message,
                },
            }
            &&& runs::reached::<LoadKey>(start, seq![p, k, f]) == Loading::Failed {
                release: protocol::object(key),
                error: ErrorView::Reason { reason: "NCryptExportKey (size) failed: "@ + message },
            }
            &&& runs::reached::<LoadKey>(start, seq![p, k, n, f]) == Loading::Failed {
                release: protocol::object(key),
                error: ErrorView::Reason { reason: "NCryptExportKey failed: "@ + message },
            }
            &&& runs::reached::<LoadKey>(start, seq![p, k, n, d]) == match jwk::blob_to_jwk(
                protocol::filled(bytes, written),
            ) {
                Ok(text) => Loading::Done {
                    release: protocol::object(key),
                    output: GeneratedKeyView {
                        backend: "windows-tpm"@,
                        key_id: name,
                        algorithm: "ES256"@,
                        public_jwk: text,
                    },
                },
                Err(error) => Loading::Failed { release: protocol::object(key), error },
            }
        }),
{
    let start = load::loading(name);
    let p = ReplyView::Handle { handle: provider };
    let k = ReplyView::Handle { handle: key };
    let n = ReplyView::Size { size };
    let d = ReplyView::Data { bytes, written };
    let f = ReplyView::Failed { message };
    reveal_with_fuel(runs::is_run, 5);
    reveal_with_fuel(runs::reached, 5);
    reveal_with_fuel(runs::calls, 5);
    reveal_with_fuel(runs::released, 5);
    lemma_tails(p, k, n, d, f);
    assert(runs::calls::<LoadKey>(start, seq![p, k, n]) =~= seq![
        names::opens_provider(),
        CallView::OpenKey { provider, name },
        CallView::ExportSize { key, blob_type: "ECCPUBLICBLOB"@ },
        CallView::Export { key, blob_type: "ECCPUBLICBLOB"@, capacity: size },
    ]);
    assert(runs::released::<LoadKey>(start, seq![p]) =~= Seq::<Resource>::empty());
    assert(runs::released::<LoadKey>(start, seq![p, k, n]) =~= protocol::object(provider));
}

/// The tails of the replies that lead through an opening and a delivery, with or without a
/// failure at the end.
proof fn lemma_tails(
    p: ReplyView,
    k: ReplyView,
    n: ReplyView,
    d: ReplyView,
    f: ReplyView,
)
    ensures
        seq![f].drop_first() == Seq::<ReplyView>::empty(),
        seq![d].drop_first() == Seq::<ReplyView>::empty(),
        seq![n].drop_first() == Seq::<ReplyView>::empty(),
        seq![k].drop_first() == Seq::<ReplyView>::empty(),
        seq![p].drop_first() == Seq::<ReplyView>::empty(),
        seq![p, f].drop_first() == seq![f],
        seq![k, f].drop_first() == seq![f],
        seq![n, f].drop_first() == seq![f],
        seq![p, k].drop_first() == seq![k],
        seq![k, n].drop_first() == seq![n],
        seq![n, d].drop_first() == seq![d],
        seq![p, k, f].drop_first() == seq![k, f],
        seq![k, n, f].drop_first() == seq![n, f],
        seq![p, k, n].drop_first() == seq![k, n],
        seq![k, n, d].drop_first() == seq![n, d],
        seq![p, k, n, f].drop_first() == seq![k, n, f],
        seq![p, k, n, d].drop_first() == seq![k, n, d],
{
    runs::lemma_few_replies(p, k, n, d, f);
    runs::lemma_few_replies(p, k, n, f, f);
    runs::lemma_few_replies(p, k, f, f, f);
    runs::lemma_few_replies(p, f, f, f, f);
    runs::lemma_few_replies(k, n, d, f, f);
    runs::lemma_few_replies(k, n, f, f, f);
    runs::lemma_few_replies(k, f, f, f, f);
    runs::lemma_few_replies(n, d, f, f, f);
    runs::lemma_few_replies(n, f, f, f, f);
    runs::lemma_few_replies(d, f, f, f, f);
    runs::lemma_few_replies(f, f, f, f, f);
}

/// Deleting a key: it is opened by its name, and the handle that was opened is deleted. A key
/// that does not open is not found, and a deletion that fails says why.
pub proof fn law_deletion_paths(
    key_id: Seq<char>,
    provider: usize,
    key: usize,
    message: Seq<char>,
)
    ensures
        ({
            let start = delete::deleting(key_id);
            let p = ReplyView::Handle { handle: provider };
            let k = ReplyView::Handle { handle: key };
            let s = ReplyView::Success;
            let f = ReplyView::Failed { message };
            let not_found = ErrorView::Reason {
                reason: "Key not found for key_id: '"@ + key_id + "'"@,
            };
            &&& runs::is_run::<DeleteKey>(start, seq![f])
            &&& runs::is_run::<DeleteKey>(start, seq![p, f])
            &&& runs::is_run::<DeleteKey>(start, seq![p, k, f])
            &&& runs::is_run::<DeleteKey>(start, seq![p, k, s])
            &&& runs::calls::<DeleteKey>(start, seq![p, k]) == seq![
                names::opens_provider(),
                CallView::OpenKey { provider, name: key_id },
                CallView::DeleteKey { key },
            ]
            &&& runs::released::<DeleteKey>(start, seq![p]) == Seq::<Resource>::empty()
            &&& runs::released::<DeleteKey>(start, seq![p, k]) == protocol::object(provider)
            &&& runs::reached::<DeleteKey>(start, seq![f]) == Deleting::Failed {
                release: seq![],
                error: not_found,
            }
            &&& runs::reached::<DeleteKey>(start, seq![p, f]) == Deleting::Failed {
                release: protocol::object(provider),
                error: not_found,
            }
            &&& runs::reached::<DeleteKey>(start, seq![p, k, f]) == Deleting::Failed {
                release: seq![],
                error: ErrorView::Reason { reason: "NCryptDeleteKey failed: "@ + message },
            }
            &&& runs::reached::<DeleteKey>(start, seq![p, k, s]) == Deleting::Done {
                release: seq![],
                output: (),
            }
        }),
{
    let start = delete::deleting(key_id);
    let p = ReplyView::Handle { handle: provider };
    let k = ReplyView::Handle { handle: key };
    let s = ReplyView::Success;
    let f = ReplyView::Failed { message };
    reveal_with_fuel(runs::is_run, 4);
    reveal_with_fuel(runs::reached, 4);
    reveal_with_fuel(runs::calls, 4);
    reveal_with_fuel(runs::released, 4);
    lemma_tails(p, k, s, f, f);
    assert(runs::calls::<DeleteKey>(start, seq![p, k]) =~= seq![
        names::opens_provider(),
        CallView::OpenKey { provider, name: key_id },
        CallView::DeleteKey { key },
    ]);
    assert(runs::released::<DeleteKey>(start, seq![p]) =~= Seq::<Resource>::empty());
    assert(runs::released::<DeleteKey>(start, seq![p, k]) =~= protocol::object(provider));
}

/// Signing without consent: the key is opened by its name, CNG is handed the hash as it is,
/// first for the size and then for the signature, and each failure says which call failed and
/// why. The signature is what CNG wrote.
pub proof fn law_signing_paths(
    key_id: Seq<char>,
    hash: Seq<u8>,
    provider: usize,
    key: usize,
    size: u32,
    bytes: Seq<u8>,
    written: u32,
    message: Seq<char>,
)
    requires
        bytes.len() <= isize::MAX,
    ensures
        ({
            let start = sign::signing(key_id, hash, false);
            let p = ReplyView::Handle { handle: provider };
            let k = ReplyView::Handle { handle: key };
            let n = ReplyView::Size { size };
            let d = ReplyView::Data { bytes, written };
            let f = ReplyView::Failed { message };
            &&& runs::is_run::<SignHash>(start, seq![f])
            &&& runs::is_run::<SignHash>(start, seq![p, f])
            &&& runs::is_run::<SignHash>(start, seq![p, k, f])
            &&& runs::is_run::<SignHash>(start, seq![p, k, n, f])
            &&& runs::is_run::<SignHash>(start, seq![p, k, n, d])
            &&& runs::calls::<SignHash>(start, seq![p, k, n]) == seq![
                names::opens_provider(),
                CallView::OpenKey { provider, name: key_id },
                CallView::SignSize { key, hash },
                CallView::Sign { key, hash, capacity: size },
            ]
            &&& runs::released::<SignHash>(start, seq![p]) == Seq::<Resource>::empty()
            &&& runs::released::<SignHash>(start, seq![p, k, n]) == protocol::object(provider)
            &&& runs::reached::<SignHash>(start, seq![f]) == Signing::Failed {
                release: seq![],
                error: ErrorView::Reason {
                    reason: "NCryptOpenStorageProvider failed: "@ + message,
                },
            }
            &&& runs::reached::<SignHash>(start, seq![p, f]) == Signing::Failed {
                release: protocol::object(provider),
                error: ErrorView::Reason {
                    reason: "NCryptOpenKey failed for '"@ + key_id + "': "@ + message,
                },
            }
            &&& runs::reached::<SignHash>(start, seq![p, k, f]) == Signing::Failed {
                release: protocol::object(key),
                error: ErrorView::Reason {
                    reason: "NCryptSignHash (size query) failed: "@ + message,
                },
            }
            &&& runs::reached::<SignHash>(start, seq![p, k, n, f]) == Signing::Failed {
                release: protocol::object(key),
                error: ErrorView::Reason { reason: "NCryptSignHash failed: "@ + message },
            }
            &&& runs::reached::<SignHash>(start, seq![p, k, n, d]) == Signing::Done {
                release: protocol::object(key),
                output: SignatureResultView {
                    signature: if written < bytes.len() {
                        bytes.take(written as int)
                    } else {
                        bytes
                    },
                    algorithm: "ES256"@,
                },
            }
        }),
{
    let start = sign::signing(key_id, hash, false);
    let p = ReplyView::Handle { handle: provider };
    let k = ReplyView::Handle { handle: key };
    let n = ReplyView::Size { size };
    let d = ReplyView::Data { bytes, written };
    let f = ReplyView::Failed { message };
    reveal_with_fuel(runs::is_run, 5);
    reveal_with_fuel(runs::reached, 5);
    reveal_with_fuel(runs::calls, 5);
    reveal_with_fuel(runs::released, 5);
    lemma_tails(p, k, n, d, f);
    assert(runs::calls::<SignHash>(start, seq![p, k, n]) =~= seq![
        names::opens_provider(),
        CallView::OpenKey { provider, name: key_id },
        CallView::SignSize { key, hash },
        CallView::Sign { key, hash, capacity: size },
    ]);
    assert(runs::released::<SignHash>(start, seq![p]) =~= Seq::<Resource>::empty());
    assert(runs::released::<SignHash>(start, seq![p, k, n]) =~= protocol::object(provider));
}

/// Signing with consent: the user reads which key is about to be used. Once verified, signing
/// goes on just as it does without consent.
pub proof fn law_consent_leads_to_signing(key_id: Seq<char>, hash: Seq<u8>, rest: Seq<ReplyView>)
    ensures
        ({
            let guarded = sign::signing(key_id, hash, true);
            let plain = sign::signing(key_id, hash, false);
            let consent = ReplyView::Consent {
                consent: ConsentReportView::Prompted {
                    answer: ConsentAnswerView::Answered { result: ConsentResultView::Verified },
                },
            };
            let prompt = CallView::RequestConsent {
                reason: "Authenticate to sign with key '"@ + key_id + "'"@,
            };
            &&& runs::calls::<SignHash>(guarded, seq![]) == seq![prompt]
            &&& runs::is_run::<SignHash>(guarded, seq![consent] + rest) <==> runs::is_run::<
                SignHash,
            >(plain, rest)
            &&& runs::calls::<SignHash>(guarded, seq![consent] + rest) == seq![prompt]
                + runs::calls::<SignHash>(plain, rest)
            &&& runs::released::<SignHash>(guarded, seq![consent] + rest) == runs::released::<
                SignHash,
            >(plain, rest)
            &&& runs::reached::<SignHash>(guarded, seq![consent] + rest) == runs::reached::<
                SignHash,
            >(plain, rest)
        }),
{
    let consent = ReplyView::Consent {
        consent: ConsentReportView::Prompted {
            answer: ConsentAnswerView::Answered { result: ConsentResultView::Verified },
        },
    };
    let plain = sign::signing(key_id, hash, false);
    runs::lemma_first_step::<SignHash>(sign::signing(key_id, hash, true), consent, rest);
    assert(seq![] + runs::released::<SignHash>(plain, rest) =~= runs::released::<SignHash>(
        plain,
        rest,
    ));
}

/// Only ES256 keys are generated: for any other algorithm nothing is called.
pub proof fn law_other_algorithms_are_refused(
    label: Seq<char>,
    algorithm: Seq<char>,
    require_biometric: bool,
    on_duplicate: DuplicateLabelPolicy,
)
    requires
        algorithm != "ES256"@,
    ensures
        generate::generating(label, algorithm, require_biometric, on_duplicate) == (
        Generating::Failed {
            release: seq![],
            error: ErrorView::Reason {
                reason: "TPM Windows backend only supports ES256 (P-256)"@,
            },
        }),
{
}

/// A biometric key starts with the check for Windows Hello. A user who has set it up goes on as
/// with any key, and another is told to.
pub proof fn law_hello_decides_on_biometric_keys(
    label: Seq<char>,
    on_duplicate: DuplicateLabelPolicy,
    report: AvailabilityReport,
)
    ensures
        ({
            let start = generate::generating(label, "ES256"@, true, on_duplicate);
            let name = "hwkey-bio-"@ + label;
            let replies = seq![ReplyView::Availability { availability: report }];
            &&& runs::is_run::<GenerateKey>(start, replies)
            &&& runs::calls::<GenerateKey>(start, seq![]) == seq![CallView::CheckHello]
            &&& runs::released::<GenerateKey>(start, seq![]) == Seq::<Resource>::empty()
            &&& runs::reached::<GenerateKey>(start, replies) == if report == (
            AvailabilityReport::Reported { availability: Availability::Available }) {
                Generating::Pending {
                    release: seq![],
                    call: names::opens_provider(),
                    machine: GenerateKeyView::Probing {
                        name,
                        on_duplicate,
                        open: OpenKeyView::Provider { name },
                    },
                }
            } else {
                Generating::Failed {
                    release: seq![],
                    error: ErrorView::Reason {
                        reason: "Windows Hello is not configured for this user. Set up a PIN or biometric in Windows Settings before creating a biometric-gated key."@,
                    },
                }
            }
        }),
{
    let r = ReplyView::Availability { availability: report };
    reveal_with_fuel(runs::is_run, 2);
    reveal_with_fuel(runs::reached, 2);
    runs::lemma_few_replies(r, r, r, r, r);
}

/// A plain key starts with the search for a key of its name.
pub proof fn law_plain_key_is_looked_for(label: Seq<char>, on_duplicate: DuplicateLabelPolicy)
    ensures
        ({
            let name = "hwkey-"@ + label;
            generate::generating(label, "ES256"@, false, on_duplicate) == Generating::Pending {
                release: seq![],
                call: names::opens_provider(),
                machine: GenerateKeyView::Probing {
                    name,
                    on_duplicate,
                    open: OpenKeyView::Provider { name },
                },
            }
        }),
{
}

/// The search for a key: one that does not open, for whatever reason, is created; one that
/// opens is closed again and then replaced or read, as the policy says.
pub proof fn law_search_paths(
    name: Seq<char>,
    on_duplicate: DuplicateLabelPolicy,
    provider: usize,
    key: usize,
    message: Seq<char>,
)
    ensures
        ({
            let start = Generating::Pending {
                release: seq![],
                call: names::opens_provider(),
                machine: GenerateKeyView::Probing {
                    name,
                    on_duplicate,
                    open: OpenKeyView::Provider { name },
                },
            };
            let p = ReplyView::Handle { handle: provider };
            let k = ReplyView::Handle { handle: key };
            let f = ReplyView::Failed { message };
            &&& runs::is_run::<GenerateKey>(start, seq![f])
            &&& runs::is_run::<GenerateKey>(start, seq![p, f])
            &&& runs::is_run::<GenerateKey>(start, seq![p, k])
            &&& runs::reached::<GenerateKey>(start, seq![p]) == Generating::Pending {
                release: seq![],
                call: CallView::OpenKey { provider, name },
                machine: GenerateKeyView::Probing {
                    name,
                    on_duplicate,
                    open: OpenKeyView::Key { name, provider },
                },
            }
            &&& runs::reached::<GenerateKey>(start, seq![f]) == Generating::Pending {
                release: seq![],
                call: names::opens_provider(),
                machine: GenerateKeyView::Opening { name },
            }
            &&& runs::reached::<GenerateKey>(start, seq![p, f]) == Generating::Pending {
                release: protocol::object(provider),
                call: names::opens_provider(),
                machine: GenerateKeyView::Opening { name },
            }
            &&& runs::reached::<GenerateKey>(start, seq![p, k]) == Generating::Pending {
                release: protocol::object(provider) + protocol::object(key),
                call: names::opens_provider(),
                machine: match on_duplicate {
                    DuplicateLabelPolicy::Replace => GenerateKeyView::Deleting {
                        name,
                        delete: DeleteKeyView::Opening {
                            key_id: name,
                            open: OpenKeyView::Provider { name },
                        },
                    },
                    DuplicateLabelPolicy::Error => GenerateKeyView::Loading {
                        load: LoadKeyView::Opening {
                            key_id: name,
                            open: OpenKeyView::Provider { name },
                        },
                    },
                },
            }
        }),
{
    let start = Generating::Pending {
        release: seq![],
        call: names::opens_provider(),
        machine: GenerateKeyView::Probing {
            name,
            on_duplicate,
            open: OpenKeyView::Provider { name },
        },
    };
    let p = ReplyView::Handle { handle: provider };
    let k = ReplyView::Handle { handle: key };
    let f = ReplyView::Failed { message };
    reveal_with_fuel(runs::is_run, 3);
    reveal_with_fuel(runs::reached, 3);
    lemma_tails(p, k, f, f, f);
    let both = protocol::object(provider) + protocol::object(key);
    assert(both + seq![] =~= both);
}

/// The replacement of a key that was found: it is deleted as any key is, and then created.
pub proof fn law_replacement_paths(
    name: Seq<char>,
    release: Seq<Resource>,
    provider: usize,
    key: usize,
    message: Seq<char>,
)
    ensures
        ({
            let start = Generating::Pending {
                release,
                call: names::opens_provider(),
                machine: GenerateKeyView::Deleting {
                    name,
                    delete: DeleteKeyView::Opening {
                        key_id: name,
                        open: OpenKeyView::Provider { name },
                    },
                },
            };
            let p = ReplyView::Handle { handle: provider };
            let k = ReplyView::Handle { handle: key };
            let s = ReplyView::Success;
            let f = ReplyView::Failed { message };
            let not_found = ErrorView::Reason {
                reason: "Key not found for key_id: '"@ + name + "'"@,
            };
            &&& runs::is_run::<GenerateKey>(start, seq![f])
            &&& runs::is_run::<GenerateKey>(start, seq![p, f])
            &&& runs::is_run::<GenerateKey>(start, seq![p, k, f])
            &&& runs::is_run::<GenerateKey>(start, seq![p, k, s])
            &&& runs::calls::<GenerateKey>(start, seq![p, k]) == seq![
                names::opens_provider(),
                CallView::OpenKey { provider, name },
                CallView::DeleteKey { key },
            ]
            &&& runs::released::<GenerateKey>(start, seq![p]) == release
            &&& runs::released::<GenerateKey>(start, seq![p, k]) == release + protocol::object(
                provider,
            )
            &&& runs::reached::<GenerateKey>(start, seq![f]) == Generating::Failed {
                release: seq![],
                error: not_found,
            }
            &&& runs::reached::<GenerateKey>(start, seq![p, f]) == Generating::Failed {
                release: protocol::object(provider),
                error: not_found,
            }
            &&& runs::reached::<GenerateKey>(start, seq![p, k, f]) == Generating::Failed {
                release: seq![],
                error: ErrorView::Reason { reason: "NCryptDeleteKey failed: "@ + message },
            }
            &&& runs::reached::<GenerateKey>(start, seq![p, k, s]) == Generating::Pending {
                release: seq![],
                call: names::opens_provider(),
                machine: GenerateKeyView::Opening { name },
            }
        }),
{
    let start = Generating::Pending {
        release,
        call: names::opens_provider(),
        machine: GenerateKeyView::Deleting {
            name,
            delete: DeleteKeyView::Opening { key_id: name, open: OpenKeyView::Provider { name } },
        },
    };
    let p = ReplyView::Handle { handle: provider };
    let k = ReplyView::Handle { handle: key };
    let s = ReplyView::Success;
    let f = ReplyView::Failed { message };
    reveal_with_fuel(runs::is_run, 4);
    reveal_with_fuel(runs::reached, 4);
    reveal_with_fuel(runs::calls, 4);
    reveal_with_fuel(runs::released, 4);
    lemma_tails(p, k, s, f, f);
    assert(runs::calls::<GenerateKey>(start, seq![p, k]) =~= seq![
        names::opens_provider(),
        CallView::OpenKey { provider, name },
        CallView::DeleteKey { key },
    ]);
    assert(runs::released::<GenerateKey>(start, seq![p]) =~= release);
    assert(runs::released::<GenerateKey>(start, seq![p, k]) =~= release + protocol::object(
        provider,
    ));
}

/// The return of a key that was found: it is read as any key is, and returned or refused with
/// what its reading gives.
pub proof fn law_return_paths(
    name: Seq<char>,
    release: Seq<Resource>,
    provider: usize,
    key: usize,
    size: u32,
    bytes: Seq<u8>,
    written: u32,
    message: Seq<char>,
)
    requires
        bytes.len() <= isize::MAX,
    ensures
        ({
            let start = Generating::Pending {
                release,
                call: names::opens_provider(),
                machine: GenerateKeyView::Loading {
                    load: LoadKeyView::Opening {
                        key_id: name,
                        open: OpenKeyView::Provider { name },
                    },
                },
            };
            let p = ReplyView::Handle { handle: provider };
            let k = ReplyView::Handle { handle: key };
            let n = ReplyView::Size { size };
            let d = ReplyView::Data { bytes, written };
            let f = ReplyView::Failed { message };
            &&& runs::is_run::<GenerateKey>(start, seq![f])
            &&& runs::is_run::<GenerateKey>(start, seq![p, f])
            &&& runs::is_run::<GenerateKey>(start, seq![p, k, f])
            &&& runs::is_run::<GenerateKey>(start, seq![p, k, n, f])
            &&& runs::is_run::<GenerateKey>(start, seq![p, k, n, d])
            &&& runs::calls::<GenerateKey>(start, seq![p, k, n]) == seq![
                names::opens_provider(),
                CallView::OpenKey { provider, name },
                CallView::ExportSize { key, blob_type: "ECCPUBLICBLOB"@ },
                CallView::Export { key, blob_type: "ECCPUBLICBLOB"@, capacity: size },
            ]
            &&& runs::released::<GenerateKey>(start, seq![p]) == release
            &&& runs::released::<GenerateKey>(start, seq![p, k, n]) == release + protocol::object(
                provider,
            )
            &&& runs::reached::<GenerateKey>(start, seq![f]) == Generating::Failed {
                release: seq![],
                error: ErrorView::Reason {
                    reason: "NCryptOpenStorageProvider failed: "@ + message,
                },
            }
            &&& runs::reached::<GenerateKey>(start, seq![p, f]) == Generating::Failed {
                release: protocol::object(provider),
                error: ErrorView::Reason {
                    reason: "NCryptOpenKey failed for '"@ + name + "': "@ + message,
                },
            }
            &&& runs::reached::<GenerateKey>(start, seq![p, k, f]) == Generating::Failed {
                release: protocol::object(key),
                error: ErrorView::Reason { reason: "NCryptExportKey (size) failed: "@ + message },
            }
            &&& runs::reached::<GenerateKey>(start, seq![p, k, n, f]) == Generating::Failed {
                release: protocol::object(key),
                error: ErrorView::Reason { reason: "NCryptExportKey failed: "@ + message },
            }
            &&& runs::reached::<GenerateKey>(start, seq![p, k, n, d]) == match jwk::blob_to_jwk(
                protocol::filled(bytes, written),
            ) {
                Ok(text) => Generating::Done {
                    release: protocol::object(key),
                    output: GeneratedKeyView {
                        backend: "windows-tpm"@,
                        key_id: name,
                        algorithm: "ES256"@,
                        public_jwk: text,
                    },
                },
                Err(error) => Generating::Failed { release: protocol::object(key), error },
            }
        }),
{
    let start = Generating::Pending {
        release,
        call: names::opens_provider(),
        machine: GenerateKeyView::Loading {
            load: LoadKeyView::Opening { key_id: name, open: OpenKeyView::Provider { name } },
        },
    };
    let p = ReplyView::Handle { handle: provider };
    let k = ReplyView::Handle { handle: key };
    let n = ReplyView::Size { size };
    let d = ReplyView::Data { bytes, written };
    let f = ReplyView::Failed { message };
    reveal_with_fuel(runs::is_run, 5);
    reveal_with_fuel(runs::reached, 5);
    reveal_with_fuel(runs::calls, 5);
    reveal_with_fuel(runs::released, 5);
    lemma_tails(p, k, n, d, f);
    assert(runs::calls::<GenerateKey>(start, seq![p, k, n]) =~= seq![
        names::opens_provider(),
        CallView::OpenKey { provider, name },
        CallView::ExportSize { key, blob_type: "ECCPUBLICBLOB"@ },
        CallView::Export { key, blob_type: "ECCPUBLICBLOB"@, capacity: size },
    ]);
    assert(runs::released::<GenerateKey>(start, seq![p]) =~= release);
    assert(runs::released::<GenerateKey>(start, seq![p, k, n]) =~= release + protocol::object(
        provider,
    ));
}

/// The creation of a key: it is created under its name for ECDSA over P-256, finalized and
/// exported. The key is given back before the provider, and each failure says which call failed
/// and why.
pub proof fn law_creation_paths(
    name: Seq<char>,
    release: Seq<Resource>,
    provider: usize,
    key: usize,
    message: Seq<char>,
)
    ensures
        ({
            let start = Generating::Pending {
                release,
                call: names::opens_provider(),
                machine: GenerateKeyView::Opening { name },
            };
            let p = ReplyView::Handle { handle: provider };
            let k = ReplyView::Handle { handle: key };
            let s = ReplyView::Success;
            let f = ReplyView::Failed { message };
            &&& runs::is_run::<GenerateKey>(start, seq![f])
            &&& runs::is_run::<GenerateKey>(start, seq![p, f])
            &&& runs::is_run::<GenerateKey>(start, seq![p, k, f])
            &&& runs::is_run::<GenerateKey>(start, seq![p, k, s])
            &&& runs::calls::<GenerateKey>(start, seq![p, k]) == seq![
                names::opens_provider(),
                CallView::CreateKey { provider, algorithm: "ECDSA_P256"@, name },
                CallView::FinalizeKey { key },
            ]
            &&& runs::released::<GenerateKey>(start, seq![p, k]) == release
            &&& runs::reached::<GenerateKey>(start, seq![f]) == Generating::Failed {
                release: seq![],
                error: ErrorView::Reason {
                    reason: "NCryptOpenStorageProvider failed: "@ + message,
                },
            }
            &&& runs::reached::<GenerateKey>(start, seq![p, f]) == Generating::Failed {
                release: protocol::object(provider),
                error: ErrorView::Reason {
                    reason: "NCryptCreatePersistedKey failed: "@ + message,
                },
            }
            &&& runs::reached::<GenerateKey>(start, seq![p, k, f]) == Generating::Failed {
                release: protocol::object(key) + protocol::object(provider),
                error: ErrorView::Reason { reason: "NCryptFinalizeKey failed: "@ + message },
            }
            &&& runs::reached::<GenerateKey>(start, seq![p, k, s]) == Generating::Pending {
                release: seq![],
                call: CallView::ExportSize { key, blob_type: "ECCPUBLICBLOB"@ },
                machine: GenerateKeyView::Exporting {
                    name,
                    provider,
                    export: ExportJwk::Size { key },
                },
            }
        }),
{
    let start = Generating::Pending {
        release,
        call: names::opens_provider(),
        machine: GenerateKeyView::Opening { name },
    };
    let p = ReplyView::Handle { handle: provider };
    let k = ReplyView::Handle { handle: key };
    let s = ReplyView::Success;
    let f = ReplyView::Failed { message };
    reveal_with_fuel(runs::is_run, 4);
    reveal_with_fuel(runs::reached, 4);
    reveal_with_fuel(runs::calls, 4);
    reveal_with_fuel(runs::released, 4);
    lemma_tails(p, k, s, f, f);
    assert(runs::calls::<GenerateKey>(start, seq![p, k]) =~= seq![
        names::opens_provider(),
        CallView::CreateKey { provider, algorithm: "ECDSA_P256"@, name },
        CallView::FinalizeKey { key },
    ]);
    assert(runs::released::<GenerateKey>(start, seq![p, k]) =~= release);
}

/// The export of a new key: its blob decides about the public key, and the description names
/// the key.
pub proof fn law_new_key_export_paths(
    name: Seq<char>,
    provider: usize,
    key: usize,
    size: u32,
    bytes: Seq<u8>,
    written: u32,
    message: Seq<char>,
)
    requires
        bytes.len() <= isize::MAX,
    ensures
        ({
            let start = Generating::Pending {
                release: seq![],
                call: CallView::ExportSize { key, blob_type: "ECCPUBLICBLOB"@ },
                machine: GenerateKeyView::Exporting {
                    name,
                    provider,
                    export: ExportJwk::Size { key },
                },
            };
            let n = ReplyView::Size { size };
            let d = ReplyView::Data { bytes, written };
            let f = ReplyView::Failed { message };
            let both = protocol::object(key) + protocol::object(provider);
            &&& runs::is_run::<GenerateKey>(start, seq![f])
            &&& runs::is_run::<GenerateKey>(start, seq![n, f])
            &&& runs::is_run::<GenerateKey>(start, seq![n, d])
            &&& runs::calls::<GenerateKey>(start, seq![n]) == seq![
                CallView::ExportSize { key, blob_type: "ECCPUBLICBLOB"@ },
                CallView::Export { key, blob_type: "ECCPUBLICBLOB"@, capacity: size },
            ]
            &&& runs::released::<GenerateKey>(start, seq![n]) == Seq::<Resource>::empty()
            &&& runs::reached::<GenerateKey>(start, seq![f]) == Generating::Failed {
                release: both,
                error: ErrorView::Reason { reason: "NCryptExportKey (size) failed: "@ + message },
            }
            &&& runs::reached::<GenerateKey>(start, seq![n, f]) == Generating::Failed {
                release: both,
                error: ErrorView::Reason { reason: "NCryptExportKey failed: "@ + message },
            }
            &&& runs::reached::<GenerateKey>(start, seq![n, d]) == match jwk::blob_to_jwk(
                protocol::filled(bytes, written),
            ) {
                Ok(text) => Generating::Done {
                    release: both,
                    output: GeneratedKeyView {
                        backend: "windows-tpm"@,
                        key_id: name,
                        algorithm: "ES256"@,
                        public_jwk: text,
                    },
                },
                Err(error) => Generating::Failed { release: both, error },
            }
        }),
{
    let start = Generating::Pending {
        release: seq![],
        call: CallView::ExportSize { key, blob_type: "ECCPUBLICBLOB"@ },
        machine: GenerateKeyView::Exporting { name, provider, export: ExportJwk::Size { key } },
    };
    let n = ReplyView::Size { size };
    let d = ReplyView::Data { bytes, written };
    let f = ReplyView::Failed { message };
    reveal_with_fuel(runs::is_run, 3);
    reveal_with_fuel(runs::reached, 3);
    reveal_with_fuel(runs::calls, 3);
    reveal_with_fuel(runs::released, 3);
    lemma_tails(n, d, f, f, f);
    runs::lemma_few_replies(n, d, f, f, f);
    runs::lemma_few_replies(n, f, f, f, f);
    assert(runs::calls::<GenerateKey>(start, seq![n]) =~= seq![
        CallView::ExportSize { key, blob_type: "ECCPUBLICBLOB"@ },
        CallView::Export { key, blob_type: "ECCPUBLICBLOB"@, capacity: size },
    ]);
    assert(runs::released::<GenerateKey>(start, seq![n]) =~= Seq::<Resource>::empty());
}

/// Listing opens the provider and starts the enumeration with nothing in hand.
pub proof fn law_listing_starts_with_the_provider(provider: usize, message: Seq<char>)
    ensures
        ({
            let start = list::listing();
            let p = ReplyView::Handle { handle: provider };
            let f = ReplyView::Failed { message };
            &&& runs::is_run::<ListKeys>(start, seq![p])
            &&& runs::is_run::<ListKeys>(start, seq![f])
            &&& runs::calls::<ListKeys>(start, seq![]) == seq![names::opens_provider()]
            &&& runs::released::<ListKeys>(start, seq![]) == Seq::<Resource>::empty()
            &&& runs::reached::<ListKeys>(start, seq![f]) == Listing::Failed {
                release: seq![],
                error: ErrorView::Reason {
                    reason: "NCryptOpenStorageProvider failed: "@ + message,
                },
            }
            &&& runs::reached::<ListKeys>(start, seq![p]) == Listing::Pending {
                release: seq![],
                call: CallView::EnumKeys { provider, cursor: 0 },
                machine: ListKeysView::Enumerating { provider, keys: seq![] },
            }
        }),
{
    let p = ReplyView::Handle { handle: provider };
    let f = ReplyView::Failed { message };
    reveal_with_fuel(runs::is_run, 2);
    reveal_with_fuel(runs::reached, 2);
    runs::lemma_few_replies(p, p, p, p, p);
    runs::lemma_few_replies(f, f, f, f, f);
}

/// A report in an enumeration: the memory of the name is given back, a key whose name begins
/// with `hwkey-` is read, and any other is passed over. At the end the state of the enumeration
/// is given back, then the provider, and the keys are yielded.
pub proof fn law_enumeration_paths(
    provider: usize,
    keys: Seq<GeneratedKeyView>,
    cursor: usize,
    address: usize,
    name: Option<Seq<char>>,
)
    ensures
        ({
            let state = ListKeysView::Enumerating { provider, keys };
            &&& ListKeys::next(state, ReplyView::Ended { cursor }) == Listing::Done {
                release: protocol::buffer(cursor) + protocol::object(provider),
                output: keys,
            }
            &&& ListKeys::next(state, ReplyView::Named { cursor, address, name })
                == match name {
                Some(name) => if address != 0 && name.len() >= 6 && name[0] == 'h' && name[1] == 'w'
                    && name[2] == 'k' && name[3] == 'e' && name[4] == 'y' && name[5] == '-' {
                    Listing::Pending {
                        release: protocol::buffer(address),
                        call: names::opens_provider(),
                        machine: ListKeysView::Loading {
                            provider,
                            cursor,
                            keys,
                            load: LoadKeyView::Opening {
                                key_id: name,
                                open: OpenKeyView::Provider { name },
                            },
                        },
                    }
                } else {
                    Listing::Pending {
                        release: protocol::buffer(address),
                        call: CallView::EnumKeys { provider, cursor },
                        machine: state,
                    }
                },
                None => Listing::Pending {
                    release: protocol::buffer(address),
                    call: CallView::EnumKeys { provider, cursor },
                    machine: state,
                },
            }
        }),
{
    assert(protocol::buffer(address) + seq![] =~= protocol::buffer(address));
    match name {
        Some(name) => {
            names::law_managed_names_begin_with_hwkey(name);
        },
        None => {},
    }
}

/// The reading of a reported key: when it ends the enumeration goes on where it stood. A key
/// that was read stands at the end of the list, under its name and with the key of its blob;
/// one that was not leaves the list as it was.
pub proof fn law_reading_paths(
    provider: usize,
    cursor: usize,
    keys: Seq<GeneratedKeyView>,
    name: Seq<char>,
    release: Seq<Resource>,
    second: usize,
    key: usize,
    size: u32,
    bytes: Seq<u8>,
    written: u32,
    message: Seq<char>,
)
    requires
        bytes.len() <= isize::MAX,
    ensures
        ({
            let start = Listing::Pending {
                release,
                call: names::opens_provider(),
                machine: ListKeysView::Loading {
                    provider,
                    cursor,
                    keys,
                    load: LoadKeyView::Opening {
                        key_id: name,
                        open: OpenKeyView::Provider { name },
                    },
                },
            };
            let p = ReplyView::Handle { handle: second };
            let k = ReplyView::Handle { handle: key };
            let n = ReplyView::Size { size };
            let d = ReplyView::Data { bytes, written };
            let f = ReplyView::Failed { message };
            let call = CallView::EnumKeys { provider, cursor };
            let same = ListKeysView::Enumerating { provider, keys };
            &&& runs::is_run::<ListKeys>(start, seq![f])
            &&& runs::is_run::<ListKeys>(start, seq![p, f])
            &&& runs::is_run::<ListKeys>(start, seq![p, k, f])
            &&& runs::is_run::<ListKeys>(start, seq![p, k, n, f])
            &&& runs::is_run::<ListKeys>(start, seq![p, k, n, d])
            &&& runs::calls::<ListKeys>(start, seq![p, k, n]) == seq![
                names::opens_provider(),
                CallView::OpenKey { provider: second, name },
                CallView::ExportSize { key, blob_type: "ECCPUBLICBLOB"@ },
                CallView::Export { key, blob_type: "ECCPUBLICBLOB"@, capacity: size },
            ]
            &&& runs::released::<ListKeys>(start, seq![p]) == release
            &&& runs::released::<ListKeys>(start, seq![p, k, n]) == release + protocol::object(
                second,
            )
            &&& runs::reached::<ListKeys>(start, seq![f]) == Listing::Pending {
                release: seq![],
                call,
                machine: same,
            }
            &&& runs::reached::<ListKeys>(start, seq![p, f]) == Listing::Pending {
                release: protocol::object(second),
                call,
                machine: same,
            }
            &&& runs::reached::<ListKeys>(start, seq![p, k, f]) == Listing::Pending {
                release: protocol::object(key),
                call,
                machine: same,
            }
            &&& runs::reached::<ListKeys>(start, seq![p, k, n, f]) == Listing::Pending {
                release: protocol::object(key),
                call,
                machine: same,
            }
            &&& runs::reached::<ListKeys>(start, seq![p, k, n, d]) == Listing::Pending {
                release: protocol::object(key),
                call,
                machine: match jwk::blob_to_jwk(protocol::filled(bytes, written)) {
                    Ok(text) => ListKeysView::Enumerating {
                        provider,
                        keys: keys.push(
                            GeneratedKeyView {
                                backend: "windows-tpm"@,
                                key_id: name,
                                algorithm: "ES256"@,
                                public_jwk: text,
                            },
                        ),
                    },
                    Err(_) => same,
                },
            }
        }),
{
    let start = Listing::Pending {
        release,
        call: names::opens_provider(),
        machine: ListKeysView::Loading {
            provider,
            cursor,
            keys,
            load: LoadKeyView::Opening { key_id: name, open: OpenKeyView::Provider { name } },
        },
    };
    let p = ReplyView::Handle { handle: second };
    let k = ReplyView::Handle { handle: key };
    let n = ReplyView::Size { size };
    let d = ReplyView::Data { bytes, written };
    let f = ReplyView::Failed { message };
    reveal_with_fuel(runs::is_run, 5);
    reveal_with_fuel(runs::reached, 5);
    reveal_with_fuel(runs::calls, 5);
    reveal_with_fuel(runs::released, 5);
    lemma_tails(p, k, n, d, f);
    assert(runs::calls::<ListKeys>(start, seq![p, k, n]) =~= seq![
        names::opens_provider(),
        CallView::OpenKey { provider: second, name },
        CallView::ExportSize { key, blob_type: "ECCPUBLICBLOB"@ },
        CallView::Export { key, blob_type: "ECCPUBLICBLOB"@, capacity: size },
    ]);
    assert(runs::released::<ListKeys>(start, seq![p]) =~= release);
    assert(runs::released::<ListKeys>(start, seq![p, k, n]) =~= release + protocol::object(second));
}

} // verus!
