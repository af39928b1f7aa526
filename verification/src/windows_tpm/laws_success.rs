//! When an operation succeeds, and with what: every call that the system grants is used.
use vstd::prelude::*;

use super::generate;
use super::generate::{GenerateKey, GenerateKeyView};
use super::laws_generate;
use super::laws_sign;
use super::load;
use super::names;
use super::sign;
use super::sign::{SignHash, SignHashView};
use crate::hello;
use crate::jwk;
use crate::protocol;
use crate::protocol::{CallView, Machine, ProgressView, ReplyView};
use crate::runs;
use crate::types::{DuplicateLabelPolicy, ErrorView, GeneratedKeyView, SignatureResultView};

verus! {

/// The replies to opening a key: the handles of its provider and of the key.
pub open spec fn opened(provider: usize, key: usize) -> Seq<ReplyView> {
    seq![ReplyView::Handle { handle: provider }, ReplyView::Handle { handle: key }]
}

/// The calls that open a key.
pub open spec fn open_calls(provider: usize, name: Seq<char>) -> Seq<CallView> {
    seq![names::opens_provider(), CallView::OpenKey { provider, name }]
}

/// The replies to a call that fills a buffer: the size that it needs, and what it wrote.
pub open spec fn delivered(size: u32, bytes: Seq<u8>, written: u32) -> Seq<ReplyView> {
    seq![ReplyView::Size { size }, ReplyView::Data { bytes, written }]
}

/// The calls that sign a hash.
pub open spec fn sign_calls(key: usize, hash: Seq<u8>, size: u32) -> Seq<CallView> {
    seq![CallView::SignSize { key, hash }, CallView::Sign { key, hash, capacity: size }]
}

/// The calls that export a key.
pub open spec fn export_calls(key: usize, size: u32) -> Seq<CallView> {
    seq![
        CallView::ExportSize { key, blob_type: names::BLOB_TYPE@ },
        CallView::Export { key, blob_type: names::BLOB_TYPE@, capacity: size },
    ]
}

/// What the user's consent adds to the replies.
pub open spec fn consented(require_biometric: bool) -> Seq<ReplyView> {
    if require_biometric {
        seq![ReplyView::Consent { consent: hello::verified() }]
    } else {
        seq![]
    }
}

/// What the user's consent adds to the calls.
pub open spec fn consent_calls(key_id: Seq<char>, require_biometric: bool) -> Seq<CallView> {
    if require_biometric {
        seq![CallView::RequestConsent { reason: sign::consent_reason(key_id) }]
    } else {
        seq![]
    }
}

/// Signing succeeds where the user consents, if that is required, and CNG opens the key and
/// signs. The signature is what CNG wrote.
pub proof fn law_signing_succeeds(
    key_id: Seq<char>,
    hash: Seq<u8>,
    require_biometric: bool,
    provider: usize,
    key: usize,
    size: u32,
    bytes: Seq<u8>,
    written: u32,
)
    requires
        bytes.len() <= isize::MAX,
    ensures
        ({
            let start = sign::signing(key_id, hash, require_biometric);
            let replies = signed(require_biometric, provider, key, size, bytes, written);
            &&& runs::is_run::<SignHash>(start, replies)
            &&& runs::calls::<SignHash>(start, replies) == consent_calls(key_id, require_biometric)
                + (open_calls(provider, key_id) + sign_calls(key, hash, size))
            &&& runs::reached::<SignHash>(start, replies) == (ProgressView::<
                SignHashView,
                SignatureResultView,
            >::Done {
                release: protocol::object(key),
                output: SignatureResultView {
                    signature: protocol::filled(bytes, written),
                    algorithm: names::ALGORITHM@,
                },
            })
        }),
{
    let replies = opened(provider, key) + delivered(size, bytes, written);
    let calls = open_calls(provider, key_id) + sign_calls(key, hash, size);
    let direct = sign::signing(key_id, hash, false);
    let (r0, r1, r2, r3) = (replies[0], replies[1], replies[2], replies[3]);
    reveal_with_fuel(runs::is_run, 5);
    reveal_with_fuel(runs::calls, 5);
    reveal_with_fuel(runs::reached, 5);
    assert(replies.drop_first() =~= seq![r1, r2, r3]);
    assert(seq![r1, r2, r3].drop_first() =~= seq![r2, r3]);
    assert(seq![r2, r3].drop_first() =~= seq![r3]);
    assert(seq![r3].drop_first() =~= seq![]);
    assert(runs::calls::<SignHash>(direct, replies) =~= calls);
    if require_biometric {
        hello::law_only_verified_is_consent(hello::verified());
        runs::lemma_first_step::<SignHash>(
            sign::signing(key_id, hash, true),
            ReplyView::Consent { consent: hello::verified() },
            replies,
        );
    } else {
        assert(seq![] + replies =~= replies);
        assert(seq![] + calls =~= calls);
    }
}

/// The replies with which signing succeeds.
pub open spec fn signed(
    require_biometric: bool,
    provider: usize,
    key: usize,
    size: u32,
    bytes: Seq<u8>,
    written: u32,
) -> Seq<ReplyView> {
    consented(require_biometric) + (opened(provider, key) + delivered(size, bytes, written))
}

/// Signing succeeds in no other way: the user consented, if that is required, CNG opened
/// the key with the given name, and signed the given hash with it.
pub proof fn law_signing_succeeds_only_so(
    key_id: Seq<char>,
    hash: Seq<u8>,
    require_biometric: bool,
    replies: Seq<ReplyView>,
)
    requires
        runs::is_run::<SignHash>(sign::signing(key_id, hash, require_biometric), replies),
        runs::reached::<SignHash>(sign::signing(key_id, hash, require_biometric), replies) is Done,
    ensures
        exists|provider: usize, key: usize, size: u32, bytes: Seq<u8>, written: u32|
            bytes.len() <= isize::MAX && replies == #[trigger] signed(
                require_biometric,
                provider,
                key,
                size,
                bytes,
                written,
            ),
{
    if require_biometric {
        let start = sign::signing(key_id, hash, true);
        assert(replies.len() > 0);
        let rest = replies.drop_first();
        assert(replies =~= seq![replies.first()] + rest);
        runs::lemma_first_step::<SignHash>(start, replies.first(), rest);
        hello::law_only_verified_is_consent(replies.first()->consent);
        lemma_signed_directly(key_id, hash, rest);
        let (provider, key, size, bytes, written) = choose|
            provider: usize,
            key: usize,
            size: u32,
            bytes: Seq<u8>,
            written: u32,
        |
            bytes.len() <= isize::MAX && rest == #[trigger] signed(
                false,
                provider,
                key,
                size,
                bytes,
                written,
            );
        assert(signed(false, provider, key, size, bytes, written) =~= opened(provider, key)
            + delivered(size, bytes, written));
        assert(replies =~= signed(true, provider, key, size, bytes, written));
    } else {
        lemma_signed_directly(key_id, hash, replies);
    }
}

proof fn lemma_signed_directly(key_id: Seq<char>, hash: Seq<u8>, replies: Seq<ReplyView>)
    requires
        runs::is_run::<SignHash>(sign::signing(key_id, hash, false), replies),
        runs::reached::<SignHash>(sign::signing(key_id, hash, false), replies) is Done,
    ensures
        exists|provider: usize, key: usize, size: u32, bytes: Seq<u8>, written: u32|
            bytes.len() <= isize::MAX && replies == #[trigger] signed(
                false,
                provider,
                key,
                size,
                bytes,
                written,
            ),
{
    reveal_with_fuel(runs::is_run, 6);
    reveal_with_fuel(runs::reached, 6);
    assert(replies.len() > 3);
    let rest = replies.drop_first().drop_first().drop_first();
    assert(rest.drop_first().len() == 0);
    match (replies[0], replies[1], replies[2], replies[3]) {
        (
            ReplyView::Handle { handle: provider },
            ReplyView::Handle { handle: key },
            ReplyView::Size { size },
            ReplyView::Data { bytes, written },
        ) => {
            assert(replies =~= signed(false, provider, key, size, bytes, written));
        },
        _ => {
            assert(false);
        },
    }
}

/// A generated key signs by the identifier that generation yielded: where that succeeds, CNG
/// opened the key under the name that it was generated with and signed the given hash as it
/// is, and both results name the same algorithm. Whether the bytes that CNG wrote hold as a
/// signature under the public key of the key is up to the TPM and not stated.
pub proof fn law_generated_key_signs(
    label: Seq<char>,
    algorithm: Seq<char>,
    require_biometric: bool,
    on_duplicate: DuplicateLabelPolicy,
    generation: Seq<ReplyView>,
    key_id: Seq<char>,
    hash: Seq<u8>,
    replies: Seq<ReplyView>,
)
    requires
        runs::is_run::<GenerateKey>(
            generate::generating(label, algorithm, require_biometric, on_duplicate),
            generation,
        ),
        match runs::reached::<GenerateKey>(
            generate::generating(label, algorithm, require_biometric, on_duplicate),
            generation,
        ) {
            ProgressView::Done { output, .. } => output.key_id == key_id,
            _ => false,
        },
        runs::is_run::<SignHash>(
            sign::signing(key_id, hash, names::needs_consent(key_id)),
            replies,
        ),
        runs::reached::<SignHash>(
            sign::signing(key_id, hash, names::needs_consent(key_id)),
            replies,
        ) is Done,
    ensures
        key_id == names::key_name(label, require_biometric),
        match (
            runs::reached::<GenerateKey>(
                generate::generating(label, algorithm, require_biometric, on_duplicate),
                generation,
            ),
            runs::reached::<SignHash>(
                sign::signing(key_id, hash, names::needs_consent(key_id)),
                replies,
            ),
        ) {
            (
                ProgressView::Done { output: key, .. },
                ProgressView::Done { output: result, .. },
            ) => key.algorithm == names::ALGORITHM@ && result.algorithm == names::ALGORITHM@,
            _ => false,
        },
        exists|provider: usize, key: usize, size: u32, bytes: Seq<u8>, written: u32|
            {
                &&& replies == #[trigger] signed(
                    names::needs_consent(key_id),
                    provider,
                    key,
                    size,
                    bytes,
                    written,
                )
                &&& runs::calls::<SignHash>(
                    sign::signing(key_id, hash, names::needs_consent(key_id)),
                    replies,
                ) == consent_calls(key_id, names::needs_consent(key_id)) + (open_calls(
                    provider,
                    key_id,
                ) + sign_calls(key, hash, size))
            },
{
    let consent = names::needs_consent(key_id);
    laws_generate::law_generation_works_on_the_request(
        label,
        algorithm,
        require_biometric,
        on_duplicate,
        generation,
    );
    laws_sign::law_signing_works_on_the_request(key_id, hash, consent, replies);
    law_signing_succeeds_only_so(key_id, hash, consent, replies);
    let (provider, key, size, bytes, written) = choose|
        provider: usize,
        key: usize,
        size: u32,
        bytes: Seq<u8>,
        written: u32,
    |
        bytes.len() <= isize::MAX && replies == #[trigger] signed(
            consent,
            provider,
            key,
            size,
            bytes,
            written,
        );
    law_signing_succeeds(key_id, hash, consent, provider, key, size, bytes, written);
}

/// What the check for Windows Hello adds to the replies.
pub open spec fn checked(require_biometric: bool) -> Seq<ReplyView> {
    if require_biometric {
        seq![ReplyView::Availability { availability: generate::hello_ready() }]
    } else {
        seq![]
    }
}

/// What the check for Windows Hello adds to the calls.
pub open spec fn check_calls(require_biometric: bool) -> Seq<CallView> {
    if require_biometric {
        seq![CallView::CheckHello]
    } else {
        seq![]
    }
}

/// The replies to creating a key and exporting its public half.
pub open spec fn created(
    provider: usize,
    key: usize,
    size: u32,
    bytes: Seq<u8>,
    written: u32,
) -> Seq<ReplyView> {
    opened(provider, key) + (seq![ReplyView::Success] + delivered(size, bytes, written))
}

/// The calls that create a key and export its public half.
pub open spec fn create_calls(
    name: Seq<char>,
    provider: usize,
    key: usize,
    size: u32,
) -> Seq<CallView> {
    seq![
        names::opens_provider(),
        CallView::CreateKey { provider, algorithm: names::CNG_ALGORITHM@, name },
        CallView::FinalizeKey { key },
    ] + export_calls(key, size)
}

proof fn lemma_creation(
    name: Seq<char>,
    release: Seq<protocol::Resource>,
    provider: usize,
    key: usize,
    size: u32,
    bytes: Seq<u8>,
    written: u32,
    text: Seq<char>,
)
    requires
        bytes.len() <= isize::MAX,
        jwk::blob_to_jwk(protocol::filled(bytes, written)) == Ok::<Seq<char>, ErrorView>(text),
    ensures
        ({
            let start = generate::creating(name, release);
            let replies = created(provider, key, size, bytes, written);
            &&& runs::is_run::<GenerateKey>(start, replies)
            &&& runs::calls::<GenerateKey>(start, replies) == create_calls(
                name,
                provider,
                key,
                size,
            )
            &&& runs::reached::<GenerateKey>(start, replies) == (ProgressView::<
                GenerateKeyView,
                GeneratedKeyView,
            >::Done {
                release: protocol::object(key) + protocol::object(provider),
                output: load::described(name, text),
            })
        }),
{
    let start = generate::creating(name, release);
    let replies = created(provider, key, size, bytes, written);
    let (r1, r2, r3, r4) = (replies[1], replies[2], replies[3], replies[4]);
    reveal_with_fuel(runs::is_run, 6);
    reveal_with_fuel(runs::calls, 6);
    reveal_with_fuel(runs::reached, 6);
    assert(replies.drop_first() =~= seq![r1, r2, r3, r4]);
    assert(seq![r1, r2, r3, r4].drop_first() =~= seq![r2, r3, r4]);
    assert(seq![r2, r3, r4].drop_first() =~= seq![r3, r4]);
    assert(seq![r3, r4].drop_first() =~= seq![r4]);
    assert(seq![r4].drop_first() =~= seq![]);
    assert(runs::calls::<GenerateKey>(start, replies) =~= create_calls(name, provider, key, size));
}

/// Once Windows Hello is known to be set up, where it has to be, the search begins.
proof fn lemma_after_check(
    label: Seq<char>,
    require_biometric: bool,
    on_duplicate: DuplicateLabelPolicy,
    rest: Seq<ReplyView>,
)
    ensures
        ({
            let start = generate::generating(
                label,
                names::ALGORITHM@,
                require_biometric,
                on_duplicate,
            );
            let probe = generate::probing(
                names::key_name(label, require_biometric),
                on_duplicate,
            );
            let replies = checked(require_biometric) + rest;
            &&& runs::is_run::<GenerateKey>(start, replies) <==> runs::is_run::<GenerateKey>(
                probe,
                rest,
            )
            &&& runs::calls::<GenerateKey>(start, replies) == check_calls(require_biometric)
                + runs::calls::<GenerateKey>(probe, rest)
            &&& runs::reached::<GenerateKey>(start, replies) == runs::reached::<GenerateKey>(
                probe,
                rest,
            )
        }),
{
    let start = generate::generating(label, names::ALGORITHM@, require_biometric, on_duplicate);
    if require_biometric {
        runs::lemma_first_step::<GenerateKey>(
            start,
            ReplyView::Availability { availability: generate::hello_ready() },
            rest,
        );
    } else {
        assert(seq![] + rest =~= rest);
        assert(seq![] + runs::calls::<GenerateKey>(start, rest) =~= runs::calls::<GenerateKey>(
            start,
            rest,
        ));
    }
}

proof fn lemma_second_step(
    progress: ProgressView<GenerateKeyView, GeneratedKeyView>,
    first: ReplyView,
    second: ReplyView,
    rest: Seq<ReplyView>,
)
    requires
        progress is Pending,
        GenerateKey::next(progress->machine, first) is Pending,
        first.answers(GenerateKey::awaits(progress->machine)),
        second.answers(
            GenerateKey::awaits(GenerateKey::next(progress->machine, first)->machine),
        ),
    ensures
        ({
            let middle = GenerateKey::next(progress->machine, first);
            let next = GenerateKey::next(middle->machine, second);
            let replies = seq![first, second] + rest;
            &&& runs::is_run::<GenerateKey>(progress, replies) <==> runs::is_run::<GenerateKey>(
                next,
                rest,
            )
            &&& runs::calls::<GenerateKey>(progress, replies) == seq![
                progress->call,
                middle->call,
            ] + runs::calls::<GenerateKey>(next, rest)
            &&& runs::reached::<GenerateKey>(progress, replies) == runs::reached::<GenerateKey>(
                next,
                rest,
            )
        }),
{
    let middle = GenerateKey::next(progress->machine, first);
    let next = GenerateKey::next(middle->machine, second);
    assert(seq![first, second] + rest =~= seq![first] + (seq![second] + rest));
    runs::lemma_first_step::<GenerateKey>(progress, first, seq![second] + rest);
    runs::lemma_first_step::<GenerateKey>(middle, second, rest);
    assert(seq![progress->call, middle->call] + runs::calls::<GenerateKey>(next, rest)
        =~= seq![progress->call] + (seq![middle->call] + runs::calls::<GenerateKey>(next, rest)));
}

/// A key that is not there is created, whatever the policy, where CNG grants each call. Its
/// public key is that of the blob that CNG exported.
pub proof fn law_missing_key_is_created(
    label: Seq<char>,
    require_biometric: bool,
    on_duplicate: DuplicateLabelPolicy,
    probe: usize,
    message: Seq<char>,
    provider: usize,
    key: usize,
    size: u32,
    bytes: Seq<u8>,
    written: u32,
    text: Seq<char>,
)
    requires
        bytes.len() <= isize::MAX,
        jwk::blob_to_jwk(protocol::filled(bytes, written)) == Ok::<Seq<char>, ErrorView>(text),
    ensures
        ({
            let start = generate::generating(
                label,
                names::ALGORITHM@,
                require_biometric,
                on_duplicate,
            );
            let name = names::key_name(label, require_biometric);
            let replies = checked(require_biometric) + (seq![
                ReplyView::Handle { handle: probe },
                ReplyView::Failed { message },
            ] + created(provider, key, size, bytes, written));
            &&& runs::is_run::<GenerateKey>(start, replies)
            &&& runs::calls::<GenerateKey>(start, replies) == check_calls(require_biometric) + (
            open_calls(probe, name) + create_calls(name, provider, key, size))
            &&& runs::reached::<GenerateKey>(start, replies) == (ProgressView::<
                GenerateKeyView,
                GeneratedKeyView,
            >::Done {
                release: protocol::object(key) + protocol::object(provider),
                output: load::described(name, text),
            })
        }),
{
    let name = names::key_name(label, require_biometric);
    let tail = created(provider, key, size, bytes, written);
    let (first, second) = (ReplyView::Handle { handle: probe }, ReplyView::Failed { message });
    lemma_after_check(label, require_biometric, on_duplicate, seq![first, second] + tail);
    lemma_second_step(generate::probing(name, on_duplicate), first, second, tail);
    lemma_creation(name, protocol::object(probe), provider, key, size, bytes, written, text);
}

/// An existing key is replaced, under that policy, where CNG grants each call: it is deleted,
/// and a key with the same name is created.
pub proof fn law_existing_key_is_replaced(
    label: Seq<char>,
    require_biometric: bool,
    probe: usize,
    found: usize,
    again: usize,
    old_key: usize,
    provider: usize,
    key: usize,
    size: u32,
    bytes: Seq<u8>,
    written: u32,
    text: Seq<char>,
)
    requires
        bytes.len() <= isize::MAX,
        jwk::blob_to_jwk(protocol::filled(bytes, written)) == Ok::<Seq<char>, ErrorView>(text),
    ensures
        ({
            let start = generate::generating(
                label,
                names::ALGORITHM@,
                require_biometric,
                DuplicateLabelPolicy::Replace,
            );
            let name = names::key_name(label, require_biometric);
            let replies = checked(require_biometric) + (opened(probe, found) + (opened(
                again,
                old_key,
            ) + (seq![ReplyView::Success] + created(provider, key, size, bytes, written))));
            &&& runs::is_run::<GenerateKey>(start, replies)
            &&& runs::calls::<GenerateKey>(start, replies) == check_calls(require_biometric) + (
            open_calls(probe, name) + (open_calls(again, name) + (seq![
                CallView::DeleteKey { key: old_key },
            ] + create_calls(name, provider, key, size))))
            &&& runs::reached::<GenerateKey>(start, replies) == (ProgressView::<
                GenerateKeyView,
                GeneratedKeyView,
            >::Done {
                release: protocol::object(key) + protocol::object(provider),
                output: load::described(name, text),
            })
        }),
{
    let name = names::key_name(label, require_biometric);
    let policy = DuplicateLabelPolicy::Replace;
    let tail = created(provider, key, size, bytes, written);
    let (p1, k1) = (ReplyView::Handle { handle: probe }, ReplyView::Handle { handle: found });
    let (p2, k2) = (ReplyView::Handle { handle: again }, ReplyView::Handle { handle: old_key });
    let deletion = seq![ReplyView::Success] + tail;
    let start = generate::probing(name, policy);
    lemma_after_check(label, require_biometric, policy, opened(probe, found) + (opened(
        again,
        old_key,
    ) + deletion));
    lemma_second_step(start, p1, k1, opened(again, old_key) + deletion);
    let here = GenerateKey::next(GenerateKey::next(start->machine, p1)->machine, k1);
    lemma_second_step(here, p2, k2, deletion);
    let there = GenerateKey::next(GenerateKey::next(here->machine, p2)->machine, k2);
    runs::lemma_first_step::<GenerateKey>(there, ReplyView::Success, tail);
    lemma_creation(name, seq![], provider, key, size, bytes, written, text);
}

/// An existing key is returned as it is, under the other policy, where CNG grants each call:
/// it is opened and exported.
pub proof fn law_existing_key_is_returned(
    label: Seq<char>,
    require_biometric: bool,
    probe: usize,
    found: usize,
    provider: usize,
    key: usize,
    size: u32,
    bytes: Seq<u8>,
    written: u32,
    text: Seq<char>,
)
    requires
        bytes.len() <= isize::MAX,
        jwk::blob_to_jwk(protocol::filled(bytes, written)) == Ok::<Seq<char>, ErrorView>(text),
    ensures
        ({
            let start = generate::generating(
                label,
                names::ALGORITHM@,
                require_biometric,
                DuplicateLabelPolicy::Error,
            );
            let name = names::key_name(label, require_biometric);
            let replies = checked(require_biometric) + (opened(probe, found) + (opened(
                provider,
                key,
            ) + delivered(size, bytes, written)));
            &&& runs::is_run::<GenerateKey>(start, replies)
            &&& runs::calls::<GenerateKey>(start, replies) == check_calls(require_biometric) + (
            open_calls(probe, name) + (open_calls(provider, name) + export_calls(key, size)))
            &&& runs::reached::<GenerateKey>(start, replies) == (ProgressView::<
                GenerateKeyView,
                GeneratedKeyView,
            >::Done { release: protocol::object(key), output: load::described(name, text) })
        }),
{
    let name = names::key_name(label, require_biometric);
    let policy = DuplicateLabelPolicy::Error;
    let (p1, k1) = (ReplyView::Handle { handle: probe }, ReplyView::Handle { handle: found });
    let (p2, k2) = (ReplyView::Handle { handle: provider }, ReplyView::Handle { handle: key });
    let tail = delivered(size, bytes, written);
    let start = generate::probing(name, policy);
    lemma_after_check(label, require_biometric, policy, opened(probe, found) + (opened(
        provider,
        key,
    ) + tail));
    lemma_second_step(start, p1, k1, opened(provider, key) + tail);
    let here = GenerateKey::next(GenerateKey::next(start->machine, p1)->machine, k1);
    lemma_second_step(here, p2, k2, tail);
    let there = GenerateKey::next(GenerateKey::next(here->machine, p2)->machine, k2);
    assert(tail =~= tail + seq![]);
    lemma_second_step(there, tail[0], tail[1], seq![]);
    assert(export_calls(key, size) + seq![] =~= export_calls(key, size));
}

} // verus!
