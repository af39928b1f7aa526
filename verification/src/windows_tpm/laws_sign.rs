//! What holds of every signing operation.
use vstd::prelude::*;

use super::names;
use super::open_key::OpenKeyView;
use super::sign;
use super::sign::{SignHash, SignHashView};
use crate::hello;
use crate::protocol;
use crate::protocol::{CallView, Machine, ProgressView, ReplyView};
use crate::runs;
use crate::types::SignatureResultView;

verus! {

/// Nothing is done with a guarded key before the user has consented: the first call is
/// the prompt, and there is a second one only if the prompt verified the user.
pub proof fn law_consent_comes_first(key_id: Seq<char>, hash: Seq<u8>, replies: Seq<ReplyView>)
    requires
        names::needs_consent(key_id),
        runs::is_run::<SignHash>(sign::signing(key_id, hash, names::needs_consent(key_id)), replies),
    ensures
        ({
            let calls = runs::calls::<SignHash>(
                sign::signing(key_id, hash, names::needs_consent(key_id)),
                replies,
            );
            &&& calls.first() == CallView::RequestConsent { reason: sign::consent_reason(key_id) }
            &&& calls.len() > 1 ==> replies.first() == ReplyView::Consent {
                consent: hello::verified(),
            }
        }),
{
    let start = sign::signing(key_id, hash, true);
    if replies.len() > 0 {
        hello::law_only_verified_is_consent(replies.first()->consent);
        let call = CallView::RequestConsent { reason: sign::consent_reason(key_id) };
        let state = SignHashView::Consenting { key_id, hash };
        let later = runs::calls::<SignHash>(
            SignHash::next(state, replies.first()),
            replies.drop_first(),
        );
        assert(runs::calls::<SignHash>(start, replies) == seq![call] + later);
        assert((seq![call] + later).first() == call);
    }
}

/// A prompt that did not verify the user ends the operation with its error, and CNG is
/// never called.
pub proof fn law_refusal_ends_signing(
    key_id: Seq<char>,
    hash: Seq<u8>,
    report: hello::ConsentReportView,
)
    requires
        names::needs_consent(key_id),
        report != hello::verified(),
    ensures
        ({
            let start = sign::signing(key_id, hash, names::needs_consent(key_id));
            let replies = seq![ReplyView::Consent { consent: report }];
            &&& runs::is_run::<SignHash>(start, replies)
            &&& runs::calls::<SignHash>(start, replies).len() == 1
            &&& hello::report_refusal(report) matches Some(error) && runs::reached::<SignHash>(
                start,
                replies,
            ) == ProgressView::<SignHashView, SignatureResultView>::Failed {
                release: seq![],
                error,
            }
        }),
{
    let replies = seq![ReplyView::Consent { consent: report }];
    hello::law_only_verified_is_consent(report);
    reveal_with_fuel(runs::is_run, 2);
    reveal_with_fuel(runs::calls, 2);
    reveal_with_fuel(runs::reached, 2);
    assert(replies.drop_first() =~= Seq::<ReplyView>::empty());
}

/// Whether a call goes to Windows Hello.
pub open spec fn asks_hello(call: CallView) -> bool {
    call is CheckHello || call is RequestConsent
}

/// Whether no call goes to Windows Hello.
pub open spec fn asks_no_hello(calls: Seq<CallView>) -> bool {
    forall|i: int| 0 <= i < calls.len() ==> !asks_hello(#[trigger] calls[i])
}

/// Signing without consent shows no prompt, and does not ask whether there is one.
pub proof fn law_plain_signing_never_prompts(
    key_id: Seq<char>,
    hash: Seq<u8>,
    replies: Seq<ReplyView>,
)
    requires
        runs::is_run::<SignHash>(sign::signing(key_id, hash, false), replies),
    ensures
        asks_no_hello(runs::calls::<SignHash>(sign::signing(key_id, hash, false), replies)),
{
    lemma_no_more_prompts(sign::signing(key_id, hash, false), replies);
}

/// Signing with consent shows one prompt: its first call, and no later one, goes to Windows
/// Hello.
pub proof fn law_guarded_signing_prompts_once(
    key_id: Seq<char>,
    hash: Seq<u8>,
    replies: Seq<ReplyView>,
)
    requires
        runs::is_run::<SignHash>(sign::signing(key_id, hash, true), replies),
    ensures
        ({
            let calls = runs::calls::<SignHash>(sign::signing(key_id, hash, true), replies);
            &&& calls.len() > 0
            &&& forall|i: int|
                0 <= i < calls.len() ==> (asks_hello(#[trigger] calls[i]) <==> i == 0)
            &&& calls[0] == CallView::RequestConsent { reason: sign::consent_reason(key_id) }
        }),
{
    let start = sign::signing(key_id, hash, true);
    if replies.len() > 0 {
        let state = SignHashView::Consenting { key_id, hash };
        let next = SignHash::next(state, replies.first());
        lemma_no_more_prompts(next, replies.drop_first());
        let later = runs::calls::<SignHash>(next, replies.drop_first());
        let calls = runs::calls::<SignHash>(start, replies);
        assert forall|i: int| 0 < i < calls.len() implies !asks_hello(#[trigger] calls[i]) by {
            assert(calls[i] == later[i - 1]);
        }
    }
}

proof fn lemma_no_more_prompts(
    progress: ProgressView<SignHashView, SignatureResultView>,
    replies: Seq<ReplyView>,
)
    requires
        runs::is_run::<SignHash>(progress, replies),
        match progress {
            ProgressView::Pending { machine, call, .. } => !(machine is Consenting) && !asks_hello(
                call,
            ),
            _ => true,
        },
    ensures
        asks_no_hello(runs::calls::<SignHash>(progress, replies)),
{
    runs::lemma_invariant::<SignHash>(
        progress,
        replies,
        |state: SignHashView| !(state is Consenting),
        |call: CallView| !asks_hello(call),
        |output: SignatureResultView| true,
    );
}

/// What signing without consent yields does not depend on Windows Hello: two systems that
/// answer alike as long as Windows Hello is not asked get the same calls and the same result.
pub proof fn law_plain_signing_ignores_hello(
    key_id: Seq<char>,
    hash: Seq<u8>,
    a: spec_fn(Seq<CallView>) -> ReplyView,
    b: spec_fn(Seq<CallView>) -> ReplyView,
    replies_a: Seq<ReplyView>,
    replies_b: Seq<ReplyView>,
)
    requires
        forall|calls: Seq<CallView>| asks_no_hello(calls) ==> #[trigger] a(calls) == b(calls),
        runs::is_run::<SignHash>(sign::signing(key_id, hash, false), replies_a),
        runs::is_run::<SignHash>(sign::signing(key_id, hash, false), replies_b),
        runs::is_served_by::<SignHash>(sign::signing(key_id, hash, false), replies_a, a),
        runs::is_served_by::<SignHash>(sign::signing(key_id, hash, false), replies_b, b),
        !(runs::reached::<SignHash>(sign::signing(key_id, hash, false), replies_a) is Pending),
        !(runs::reached::<SignHash>(sign::signing(key_id, hash, false), replies_b) is Pending),
    ensures
        ({
            let start = sign::signing(key_id, hash, false);
            &&& runs::calls::<SignHash>(start, replies_a) == runs::calls::<SignHash>(
                start,
                replies_b,
            )
            &&& runs::reached::<SignHash>(start, replies_a) == runs::reached::<SignHash>(
                start,
                replies_b,
            )
        }),
{
    let start = sign::signing(key_id, hash, false);
    let calls_a = runs::calls::<SignHash>(start, replies_a);
    let calls_b = runs::calls::<SignHash>(start, replies_b);
    assert forall|i: int| 0 <= i < replies_a.len() implies #[trigger] replies_a[i] == a(
        Seq::<CallView>::empty() + calls_a.take(i + 1),
    ) by {
        assert(Seq::<CallView>::empty() + calls_a.take(i + 1) =~= calls_a.take(i + 1));
    }
    assert forall|i: int| 0 <= i < replies_b.len() implies #[trigger] replies_b[i] == b(
        Seq::<CallView>::empty() + calls_b.take(i + 1),
    ) by {
        assert(Seq::<CallView>::empty() + calls_b.take(i + 1) =~= calls_b.take(i + 1));
    }
    lemma_same_replies(start, Seq::empty(), a, b, replies_a, replies_b);
}

proof fn lemma_same_replies(
    progress: ProgressView<SignHashView, SignatureResultView>,
    before: Seq<CallView>,
    a: spec_fn(Seq<CallView>) -> ReplyView,
    b: spec_fn(Seq<CallView>) -> ReplyView,
    replies_a: Seq<ReplyView>,
    replies_b: Seq<ReplyView>,
)
    requires
        forall|calls: Seq<CallView>| asks_no_hello(calls) ==> #[trigger] a(calls) == b(calls),
        match progress {
            ProgressView::Pending { machine, call, .. } => !(machine is Consenting) && !asks_hello(
                call,
            ),
            _ => true,
        },
        asks_no_hello(before),
        runs::is_run::<SignHash>(progress, replies_a),
        runs::is_run::<SignHash>(progress, replies_b),
        !(runs::reached::<SignHash>(progress, replies_a) is Pending),
        !(runs::reached::<SignHash>(progress, replies_b) is Pending),
        forall|i: int|
            0 <= i < replies_a.len() ==> #[trigger] replies_a[i] == a(
                before + runs::calls::<SignHash>(progress, replies_a).take(i + 1),
            ),
        forall|i: int|
            0 <= i < replies_b.len() ==> #[trigger] replies_b[i] == b(
                before + runs::calls::<SignHash>(progress, replies_b).take(i + 1),
            ),
    ensures
        replies_a == replies_b,
    decreases replies_a.len(),
{
    match progress {
        ProgressView::Pending { machine, call, .. } => {
            assert(replies_a.len() > 0 && replies_b.len() > 0);
            let calls_a = runs::calls::<SignHash>(progress, replies_a);
            let calls_b = runs::calls::<SignHash>(progress, replies_b);
            let now = before.push(call);
            assert(before + calls_a.take(1) =~= now);
            assert(before + calls_b.take(1) =~= now);
            assert(asks_no_hello(now));
            assert(replies_a[0] == a(now));
            assert(replies_b[0] == b(now));
            let next = SignHash::next(machine, replies_a[0]);
            let (rest_a, rest_b) = (replies_a.drop_first(), replies_b.drop_first());
            let later_a = runs::calls::<SignHash>(next, rest_a);
            let later_b = runs::calls::<SignHash>(next, rest_b);
            assert(calls_a == seq![call] + later_a);
            assert(calls_b == seq![call] + later_b);
            assert forall|i: int| 0 <= i < rest_a.len() implies #[trigger] rest_a[i] == a(
                now + later_a.take(i + 1),
            ) by {
                assert(rest_a[i] == replies_a[i + 1]);
                lemma_enough_calls(next, rest_a);
                assert(before + calls_a.take(i + 2) =~= now + later_a.take(i + 1));
            }
            assert forall|i: int| 0 <= i < rest_b.len() implies #[trigger] rest_b[i] == b(
                now + later_b.take(i + 1),
            ) by {
                assert(rest_b[i] == replies_b[i + 1]);
                lemma_enough_calls(next, rest_b);
                assert(before + calls_b.take(i + 2) =~= now + later_b.take(i + 1));
            }
            lemma_same_replies(next, now, a, b, rest_a, rest_b);
            assert(replies_a =~= seq![replies_a[0]] + rest_a);
            assert(replies_b =~= seq![replies_b[0]] + rest_b);
        },
        _ => {
            assert(replies_a =~= replies_b);
        },
    }
}

/// Every reply answers a call.
proof fn lemma_enough_calls(
    progress: ProgressView<SignHashView, SignatureResultView>,
    replies: Seq<ReplyView>,
)
    requires
        runs::is_run::<SignHash>(progress, replies),
    ensures
        replies.len() <= runs::calls::<SignHash>(progress, replies).len(),
    decreases replies.len(),
{
    match progress {
        ProgressView::Pending { machine, .. } => {
            if replies.len() > 0 {
                lemma_enough_calls(
                    SignHash::next(machine, replies.first()),
                    replies.drop_first(),
                );
            }
        },
        _ => {},
    }
}

/// Whether a call of a signing operation fits the request.
pub open spec fn is_signing_call(call: CallView, key_id: Seq<char>, hash: Seq<u8>) -> bool {
    match call {
        CallView::RequestConsent { reason } => reason == sign::consent_reason(key_id),
        CallView::OpenProvider { .. } => true,
        CallView::OpenKey { name, .. } => name == key_id,
        CallView::SignSize { hash: given, .. } => given == hash,
        CallView::Sign { hash: given, .. } => given == hash,
        _ => false,
    }
}

/// Whether a state of a signing operation fits the request.
pub open spec fn is_signing_state(state: SignHashView, key_id: Seq<char>, hash: Seq<u8>) -> bool {
    match state {
        SignHashView::Consenting { key_id: id, hash: given } => id == key_id && given == hash,
        SignHashView::Opening { hash: given, open } => {
            &&& given == hash
            &&& match open {
                OpenKeyView::Provider { name } => name == key_id,
                OpenKeyView::Key { name, .. } => name == key_id,
            }
        },
        SignHashView::Sizing { hash: given, .. } => given == hash,
        SignHashView::Signing { .. } => true,
    }
}

/// Signing opens the key that was named, hands CNG the hash that was given, and creates,
/// exports or deletes nothing. A signature is of the algorithm ES256.
pub proof fn law_signing_works_on_the_request(
    key_id: Seq<char>,
    hash: Seq<u8>,
    require_biometric: bool,
    replies: Seq<ReplyView>,
)
    requires
        runs::is_run::<SignHash>(sign::signing(key_id, hash, require_biometric), replies),
    ensures
        ({
            let start = sign::signing(key_id, hash, require_biometric);
            let calls = runs::calls::<SignHash>(start, replies);
            &&& forall|i: int|
                0 <= i < calls.len() ==> is_signing_call(#[trigger] calls[i], key_id, hash)
            &&& match runs::reached::<SignHash>(start, replies) {
                ProgressView::Done { output, .. } => output.algorithm == names::ALGORITHM@,
                _ => true,
            }
        }),
{
    runs::lemma_invariant::<SignHash>(
        sign::signing(key_id, hash, require_biometric),
        replies,
        |state: SignHashView| is_signing_state(state, key_id, hash),
        |call: CallView| is_signing_call(call, key_id, hash),
        |output: SignatureResultView| output.algorithm == names::ALGORITHM@,
    );
}

/// A signature is what CNG wrote with its last reply, cut to the length that it reported.
/// What CNG writes is up to the TPM: that the bytes are a signature of the hash that holds
/// under the public key of the key is not stated.
pub proof fn law_signature_is_what_cng_wrote(
    key_id: Seq<char>,
    hash: Seq<u8>,
    require_biometric: bool,
    replies: Seq<ReplyView>,
)
    requires
        runs::is_run::<SignHash>(sign::signing(key_id, hash, require_biometric), replies),
        runs::reached::<SignHash>(
            sign::signing(key_id, hash, require_biometric),
            replies,
        ) is Done,
    ensures
        replies.len() > 0,
        match (
            replies.last(),
            runs::reached::<SignHash>(sign::signing(key_id, hash, require_biometric), replies),
        ) {
            (
                ReplyView::Data { bytes, written },
                ProgressView::Done { output, .. },
            ) => {
                &&& output.signature == protocol::filled(bytes, written)
                &&& output.signature.len() == (if written < bytes.len() {
                    written as nat
                } else {
                    bytes.len()
                })
                &&& forall|i: int|
                    0 <= i < output.signature.len() ==> #[trigger] output.signature[i] == bytes[i]
            },
            _ => false,
        },
{
    let start = sign::signing(key_id, hash, require_biometric);
    assert(replies.len() > 0);
    let state = runs::lemma_last_step::<SignHash>(start, replies);
}

/// Signing asks for at most five calls.
pub proof fn law_signing_ends(
    key_id: Seq<char>,
    hash: Seq<u8>,
    require_biometric: bool,
    replies: Seq<ReplyView>,
)
    requires
        runs::is_run::<SignHash>(sign::signing(key_id, hash, require_biometric), replies),
    ensures
        runs::calls::<SignHash>(sign::signing(key_id, hash, require_biometric), replies).len() <= 5,
{
    runs::lemma_bounded::<SignHash>(
        sign::signing(key_id, hash, require_biometric),
        replies,
        |state: SignHashView|
            match state {
                SignHashView::Consenting { .. } => 5,
                SignHashView::Opening { open, .. } => match open {
                    OpenKeyView::Provider { .. } => 4,
                    OpenKeyView::Key { .. } => 3,
                },
                SignHashView::Sizing { .. } => 2,
                SignHashView::Signing { .. } => 1,
            },
    );
}

} // verus!
