//! What holds of every generation of a key.
use vstd::prelude::*;

use super::delete::DeleteKeyView;
use super::export::ExportJwk;
use super::generate;
use super::generate::{GenerateKey, GenerateKeyView};
use super::laws_sign;
use super::load;
use super::load::{LoadKey, LoadKeyView};
use super::names;
use super::open_key::OpenKeyView;
use super::sign;
use crate::jwk;
use crate::protocol;
use crate::protocol::{CallView, Machine, ProgressView, ReplyView};
use crate::runs;
use crate::types::{DuplicateLabelPolicy, ErrorView, GeneratedKeyView};

verus! {

/// Whether the opening of a key is that of the key with a name.
pub open spec fn opens(open: OpenKeyView, name: Seq<char>) -> bool {
    match open {
        OpenKeyView::Provider { name: given } => given == name,
        OpenKeyView::Key { name: given, .. } => given == name,
    }
}

/// Whether the reading of a key is that of the key with a name.
pub open spec fn loads(load: LoadKeyView, name: Seq<char>) -> bool {
    match load {
        LoadKeyView::Opening { key_id, open } => key_id == name && opens(open, name),
        LoadKeyView::Exporting { key_id, .. } => key_id == name,
    }
}

/// Whether a state of a generation is about the key with a name.
pub open spec fn is_about(state: GenerateKeyView, name: Seq<char>) -> bool {
    match state {
        GenerateKeyView::Checking { name: given, .. } => given == name,
        GenerateKeyView::Probing { name: given, open, .. } => given == name && opens(open, name),
        GenerateKeyView::Deleting { name: given, delete } => {
            &&& given == name
            &&& match delete {
                DeleteKeyView::Opening { key_id, open } => key_id == name && opens(open, name),
                DeleteKeyView::Deleting => true,
            }
        },
        GenerateKeyView::Loading { load } => loads(load, name),
        GenerateKeyView::Opening { name: given } => given == name,
        GenerateKeyView::Creating { name: given, .. } => given == name,
        GenerateKeyView::Finalizing { name: given, .. } => given == name,
        GenerateKeyView::Exporting { name: given, .. } => given == name,
    }
}

/// Whether a call of a generation fits the key with a name.
pub open spec fn is_generating_call(call: CallView, name: Seq<char>) -> bool {
    match call {
        CallView::OpenKey { name: given, .. } => given == name,
        CallView::CreateKey { algorithm, name: given, .. } => {
            &&& algorithm == names::CNG_ALGORITHM@
            &&& given == name
        },
        CallView::SignSize { .. } => false,
        CallView::Sign { .. } => false,
        CallView::EnumKeys { .. } => false,
        CallView::RequestConsent { .. } => false,
        _ => true,
    }
}

/// Generation opens and creates no key but the one with the requested name, and signs
/// nothing. What it yields describes that key.
pub proof fn law_generation_works_on_the_request(
    label: Seq<char>,
    algorithm: Seq<char>,
    require_biometric: bool,
    on_duplicate: DuplicateLabelPolicy,
    replies: Seq<ReplyView>,
)
    requires
        runs::is_run::<GenerateKey>(
            generate::generating(label, algorithm, require_biometric, on_duplicate),
            replies,
        ),
    ensures
        ({
            let start = generate::generating(label, algorithm, require_biometric, on_duplicate);
            let name = names::key_name(label, require_biometric);
            let calls = runs::calls::<GenerateKey>(start, replies);
            &&& forall|i: int|
                0 <= i < calls.len() ==> is_generating_call(#[trigger] calls[i], name)
            &&& match runs::reached::<GenerateKey>(start, replies) {
                ProgressView::Done { output, .. } => output == load::described(
                    name,
                    output.public_jwk,
                ),
                _ => true,
            }
        }),
{
    let name = names::key_name(label, require_biometric);
    runs::lemma_invariant::<GenerateKey>(
        generate::generating(label, algorithm, require_biometric, on_duplicate),
        replies,
        |state: GenerateKeyView| is_about(state, name),
        |call: CallView| is_generating_call(call, name),
        |output: GeneratedKeyView| output == load::described(name, output.public_jwk),
    );
}

/// The public key that generation yields, for a new key as for an existing one, is the
/// JSON web key of the blob that CNG exported with its last reply.
pub proof fn law_public_key_is_what_cng_exported(
    label: Seq<char>,
    algorithm: Seq<char>,
    require_biometric: bool,
    on_duplicate: DuplicateLabelPolicy,
    replies: Seq<ReplyView>,
)
    requires
        runs::is_run::<GenerateKey>(
            generate::generating(label, algorithm, require_biometric, on_duplicate),
            replies,
        ),
        runs::reached::<GenerateKey>(
            generate::generating(label, algorithm, require_biometric, on_duplicate),
            replies,
        ) is Done,
    ensures
        replies.len() > 0,
        match (
            replies.last(),
            runs::reached::<GenerateKey>(
                generate::generating(label, algorithm, require_biometric, on_duplicate),
                replies,
            ),
        ) {
            (ReplyView::Data { bytes, written }, ProgressView::Done { output, .. }) => {
                jwk::blob_to_jwk(protocol::filled(bytes, written)) == Ok::<Seq<char>, ErrorView>(
                    output.public_jwk,
                )
            },
            _ => false,
        },
{
    let start = generate::generating(label, algorithm, require_biometric, on_duplicate);
    assert(replies.len() > 0);
    let state = runs::lemma_last_step::<GenerateKey>(start, replies);
}

/// The public key that generation yields carries the point that CNG exported: decoding its
/// coordinates gives back the bytes behind the header of the blob, first X and then Y.
pub proof fn law_public_key_carries_the_exported_point(
    label: Seq<char>,
    algorithm: Seq<char>,
    require_biometric: bool,
    on_duplicate: DuplicateLabelPolicy,
    replies: Seq<ReplyView>,
)
    requires
        runs::is_run::<GenerateKey>(
            generate::generating(label, algorithm, require_biometric, on_duplicate),
            replies,
        ),
        runs::reached::<GenerateKey>(
            generate::generating(label, algorithm, require_biometric, on_duplicate),
            replies,
        ) is Done,
    ensures
        match (
            replies.last(),
            runs::reached::<GenerateKey>(
                generate::generating(label, algorithm, require_biometric, on_duplicate),
                replies,
            ),
        ) {
            (ReplyView::Data { bytes, written }, ProgressView::Done { output, .. }) => {
                let n = bytes[4] + 256 * bytes[5] + 65536 * bytes[6] + 16777216 * bytes[7];
                &&& 8 + 2 * n <= bytes.len()
                &&& 8 + 2 * n <= written
                &&& jwk::is_key_of(
                    output.public_jwk,
                    bytes.subrange(8, 8 + n),
                    bytes.subrange(8 + n, 8 + 2 * n),
                )
            },
            _ => false,
        },
{
    law_public_key_is_what_cng_exported(
        label,
        algorithm,
        require_biometric,
        on_duplicate,
        replies,
    );
    match replies.last() {
        ReplyView::Data { bytes, written } => {
            let kept = protocol::filled(bytes, written);
            protocol::law_buffer_is_cut_at_its_end(bytes, written);
            jwk::law_incomplete_blob_has_no_key(kept);
            assert(kept.len() >= 8);
            let n = bytes[4] + 256 * bytes[5] + 65536 * bytes[6] + 16777216 * bytes[7];
            assert(kept[4] == bytes[4] && kept[5] == bytes[5] && kept[6] == bytes[6] && kept[7]
                == bytes[7]);
            jwk::law_jwk_carries_the_point(kept, n);
            assert(kept.subrange(8, 8 + n) =~= bytes.subrange(8, 8 + n));
            assert(kept.subrange(8 + n, 8 + 2 * n) =~= bytes.subrange(8 + n, 8 + 2 * n));
        },
        _ => {},
    }
}

/// A key that was generated as biometric is never used without asking: signing with the
/// identifier that generation yielded starts with the prompt.
pub proof fn law_generated_biometric_keys_prompt(
    label: Seq<char>,
    algorithm: Seq<char>,
    on_duplicate: DuplicateLabelPolicy,
    replies: Seq<ReplyView>,
    hash: Seq<u8>,
)
    requires
        runs::is_run::<GenerateKey>(
            generate::generating(label, algorithm, true, on_duplicate),
            replies,
        ),
    ensures
        match runs::reached::<GenerateKey>(
            generate::generating(label, algorithm, true, on_duplicate),
            replies,
        ) {
            ProgressView::Done { output, .. } => match sign::signing(
                output.key_id,
                hash,
                names::needs_consent(output.key_id),
            ) {
                ProgressView::Pending { call, .. } => call == CallView::RequestConsent {
                    reason: sign::consent_reason(output.key_id),
                },
                _ => false,
            },
            _ => true,
        },
{
    law_generation_works_on_the_request(label, algorithm, true, on_duplicate, replies);
    names::law_biometric_keys_need_consent(label);
}

/// A generated key is one that the library manages, so that listing takes it up.
pub proof fn law_generated_keys_are_managed(
    label: Seq<char>,
    algorithm: Seq<char>,
    require_biometric: bool,
    on_duplicate: DuplicateLabelPolicy,
    replies: Seq<ReplyView>,
)
    requires
        runs::is_run::<GenerateKey>(
            generate::generating(label, algorithm, require_biometric, on_duplicate),
            replies,
        ),
    ensures
        match runs::reached::<GenerateKey>(
            generate::generating(label, algorithm, require_biometric, on_duplicate),
            replies,
        ) {
            ProgressView::Done { output, .. } => names::is_managed(output.key_id),
            _ => true,
        },
{
    law_generation_works_on_the_request(
        label,
        algorithm,
        require_biometric,
        on_duplicate,
        replies,
    );
    names::law_key_names_are_managed(label, require_biometric);
}

/// Without Windows Hello no biometric key is made: CNG is never called.
pub proof fn law_no_biometric_key_without_hello(
    label: Seq<char>,
    on_duplicate: DuplicateLabelPolicy,
    replies: Seq<ReplyView>,
)
    requires
        runs::is_run::<GenerateKey>(
            generate::generating(label, names::ALGORITHM@, true, on_duplicate),
            replies,
        ),
        replies.len() > 0,
        replies.first() != (ReplyView::Availability { availability: generate::hello_ready() }),
    ensures
        runs::calls::<GenerateKey>(
            generate::generating(label, names::ALGORITHM@, true, on_duplicate),
            replies,
        ) == seq![CallView::CheckHello],
        runs::reached::<GenerateKey>(
            generate::generating(label, names::ALGORITHM@, true, on_duplicate),
            replies,
        ) == (ProgressView::<GenerateKeyView, GeneratedKeyView>::Failed {
            release: seq![],
            error: ErrorView::because(generate::HELLO_MISSING@),
        }),
{
    let start = generate::generating(label, names::ALGORITHM@, true, on_duplicate);
    let state = GenerateKeyView::Checking { name: names::key_name(label, true), on_duplicate };
    let next = GenerateKey::next(state, replies.first());
    assert(runs::calls::<GenerateKey>(start, replies) == seq![CallView::CheckHello]
        + runs::calls::<GenerateKey>(next, replies.drop_first()));
    assert(runs::calls::<GenerateKey>(start, replies) =~= seq![CallView::CheckHello]);
    assert(runs::reached::<GenerateKey>(start, replies) == runs::reached::<GenerateKey>(
        next,
        replies.drop_first(),
    ));
}

/// Generation asks Windows Hello at most once: for a biometric key with its first call, and
/// for another not at all.
pub proof fn law_hello_is_checked_once(
    label: Seq<char>,
    require_biometric: bool,
    on_duplicate: DuplicateLabelPolicy,
    replies: Seq<ReplyView>,
)
    requires
        runs::is_run::<GenerateKey>(
            generate::generating(label, names::ALGORITHM@, require_biometric, on_duplicate),
            replies,
        ),
    ensures
        ({
            let calls = runs::calls::<GenerateKey>(
                generate::generating(label, names::ALGORITHM@, require_biometric, on_duplicate),
                replies,
            );
            &&& calls.len() > 0
            &&& forall|i: int|
                0 <= i < calls.len() ==> (laws_sign::asks_hello(#[trigger] calls[i]) <==> i == 0
                    && require_biometric)
            &&& require_biometric ==> calls[0] is CheckHello
        }),
{
    let start = generate::generating(label, names::ALGORITHM@, require_biometric, on_duplicate);
    let calls = runs::calls::<GenerateKey>(start, replies);
    if !require_biometric {
        lemma_no_more_checks(start, replies);
    } else if replies.len() > 0 {
        let state = GenerateKeyView::Checking { name: names::key_name(label, true), on_duplicate };
        let next = GenerateKey::next(state, replies.first());
        lemma_no_more_checks(next, replies.drop_first());
        let later = runs::calls::<GenerateKey>(next, replies.drop_first());
        assert forall|i: int| 0 < i < calls.len() implies !laws_sign::asks_hello(
            #[trigger] calls[i],
        ) by {
            assert(calls[i] == later[i - 1]);
        }
    }
}

proof fn lemma_no_more_checks(
    progress: ProgressView<GenerateKeyView, GeneratedKeyView>,
    replies: Seq<ReplyView>,
)
    requires
        runs::is_run::<GenerateKey>(progress, replies),
        match progress {
            ProgressView::Pending { machine, call, .. } => !(machine is Checking)
                && !laws_sign::asks_hello(call),
            _ => true,
        },
    ensures
        laws_sign::asks_no_hello(runs::calls::<GenerateKey>(progress, replies)),
{
    runs::lemma_invariant::<GenerateKey>(
        progress,
        replies,
        |state: GenerateKeyView| !(state is Checking),
        |call: CallView| !laws_sign::asks_hello(call),
        |output: GeneratedKeyView| true,
    );
}

/// Get-or-create deletes nothing.
pub proof fn law_get_or_create_deletes_nothing(
    label: Seq<char>,
    algorithm: Seq<char>,
    require_biometric: bool,
    replies: Seq<ReplyView>,
)
    requires
        runs::is_run::<GenerateKey>(
            generate::generating(
                label,
                algorithm,
                require_biometric,
                DuplicateLabelPolicy::Error,
            ),
            replies,
        ),
    ensures
        ({
            let calls = runs::calls::<GenerateKey>(
                generate::generating(
                    label,
                    algorithm,
                    require_biometric,
                    DuplicateLabelPolicy::Error,
                ),
                replies,
            );
            forall|i: int| 0 <= i < calls.len() ==> !(#[trigger] calls[i] is DeleteKey)
        }),
{
    runs::lemma_invariant::<GenerateKey>(
        generate::generating(label, algorithm, require_biometric, DuplicateLabelPolicy::Error),
        replies,
        |state: GenerateKeyView|
            match state {
                GenerateKeyView::Checking { on_duplicate, .. } => on_duplicate
                    == DuplicateLabelPolicy::Error,
                GenerateKeyView::Probing { on_duplicate, .. } => on_duplicate
                    == DuplicateLabelPolicy::Error,
                GenerateKeyView::Deleting { .. } => false,
                _ => true,
            },
        |call: CallView| !(call is DeleteKey),
        |output: GeneratedKeyView| true,
    );
}

/// Get-or-create leaves an existing key as it is: once the key was opened, none is
/// created or deleted, and what is yielded is what loading that key yields.
pub proof fn law_get_or_create_keeps_existing_key(
    name: Seq<char>,
    provider: usize,
    key: usize,
    replies: Seq<ReplyView>,
)
    requires
        runs::is_run::<GenerateKey>(
            GenerateKey::next(
                GenerateKeyView::Probing {
                    name,
                    on_duplicate: DuplicateLabelPolicy::Error,
                    open: OpenKeyView::Key { name, provider },
                },
                ReplyView::Handle { handle: key },
            ),
            replies,
        ),
    ensures
        ({
            let found = GenerateKey::next(
                GenerateKeyView::Probing {
                    name,
                    on_duplicate: DuplicateLabelPolicy::Error,
                    open: OpenKeyView::Key { name, provider },
                },
                ReplyView::Handle { handle: key },
            );
            let calls = runs::calls::<GenerateKey>(found, replies);
            &&& forall|i: int|
                0 <= i < calls.len() ==> !(#[trigger] calls[i] is CreateKey)
                    && !(calls[i] is DeleteKey)
            &&& match (
                runs::reached::<GenerateKey>(found, replies),
                runs::reached::<LoadKey>(load::loading(name), replies),
            ) {
                (
                    ProgressView::Done { output: a, .. },
                    ProgressView::Done { output: b, .. },
                ) => a == b,
                (
                    ProgressView::Failed { error: a, .. },
                    ProgressView::Failed { error: b, .. },
                ) => a == b,
                (ProgressView::Pending { .. }, ProgressView::Pending { .. }) => true,
                _ => false,
            }
        }),
{
    let found = GenerateKey::next(
        GenerateKeyView::Probing {
            name,
            on_duplicate: DuplicateLabelPolicy::Error,
            open: OpenKeyView::Key { name, provider },
        },
        ReplyView::Handle { handle: key },
    );
    runs::lemma_invariant::<GenerateKey>(
        found,
        replies,
        |state: GenerateKeyView| state is Loading,
        |call: CallView| !(call is CreateKey) && !(call is DeleteKey),
        |output: GeneratedKeyView| true,
    );
    lemma_loading_is_loading(found, load::loading(name), replies);
}

/// Whether a generation that reads an existing key is where the reading is.
spec fn mirrors(
    outer: ProgressView<GenerateKeyView, GeneratedKeyView>,
    inner: ProgressView<LoadKeyView, GeneratedKeyView>,
) -> bool {
    match (outer, inner) {
        (
            ProgressView::Pending { machine: GenerateKeyView::Loading { load }, .. },
            ProgressView::Pending { machine, .. },
        ) => load == machine,
        (ProgressView::Done { output: a, .. }, ProgressView::Done { output: b, .. }) => a == b,
        (ProgressView::Failed { error: a, .. }, ProgressView::Failed { error: b, .. }) => a == b,
        _ => false,
    }
}

proof fn lemma_loading_is_loading(
    outer: ProgressView<GenerateKeyView, GeneratedKeyView>,
    inner: ProgressView<LoadKeyView, GeneratedKeyView>,
    replies: Seq<ReplyView>,
)
    requires
        mirrors(outer, inner),
    ensures
        mirrors(
            runs::reached::<GenerateKey>(outer, replies),
            runs::reached::<LoadKey>(inner, replies),
        ),
    decreases replies.len(),
{
    if replies.len() > 0 {
        match (outer, inner) {
            (
                ProgressView::Pending { machine: GenerateKeyView::Loading { load }, .. },
                ProgressView::Pending { machine, .. },
            ) => {
                lemma_loading_is_loading(
                    GenerateKey::next(GenerateKeyView::Loading { load }, replies.first()),
                    LoadKey::next(machine, replies.first()),
                    replies.drop_first(),
                );
            },
            _ => {},
        }
    }
}

/// A key that could not be opened is not there: nothing is deleted, whatever the policy,
/// and the next call opens the provider that the new key is created with.
pub proof fn law_missing_key_is_not_deleted(
    name: Seq<char>,
    on_duplicate: DuplicateLabelPolicy,
    open: OpenKeyView,
    message: Seq<char>,
    replies: Seq<ReplyView>,
)
    requires
        runs::is_run::<GenerateKey>(
            GenerateKey::next(
                GenerateKeyView::Probing { name, on_duplicate, open },
                ReplyView::Failed { message },
            ),
            replies,
        ),
    ensures
        ({
            let missing = GenerateKey::next(
                GenerateKeyView::Probing { name, on_duplicate, open },
                ReplyView::Failed { message },
            );
            let calls = runs::calls::<GenerateKey>(missing, replies);
            &&& calls.first() == names::opens_provider()
            &&& forall|i: int| 0 <= i < calls.len() ==> !(#[trigger] calls[i] is DeleteKey)
        }),
{
    let missing = GenerateKey::next(
        GenerateKeyView::Probing { name, on_duplicate, open },
        ReplyView::Failed { message },
    );
    runs::lemma_invariant::<GenerateKey>(
        missing,
        replies,
        |state: GenerateKeyView|
            state is Opening || state is Creating || state is Finalizing || state is Exporting,
        |call: CallView| !(call is DeleteKey),
        |output: GeneratedKeyView| true,
    );
    let state = GenerateKeyView::Opening { name };
    if replies.len() > 0 {
        let later = runs::calls::<GenerateKey>(
            GenerateKey::next(state, replies.first()),
            replies.drop_first(),
        );
        assert(runs::calls::<GenerateKey>(missing, replies) == seq![names::opens_provider()]
            + later);
        assert((seq![names::opens_provider()] + later).first() == names::opens_provider());
    }
}

/// Whether call `j` deleted the key with a name: it took the handle that the call before it
/// had opened under that name, and succeeded.
pub open spec fn is_deleted_at(
    calls: Seq<CallView>,
    replies: Seq<ReplyView>,
    j: int,
    name: Seq<char>,
) -> bool {
    &&& 0 < j < calls.len()
    &&& j < replies.len()
    &&& match (calls[j - 1], replies[j - 1]) {
        (
            CallView::OpenKey { name: given, .. },
            ReplyView::Handle { handle },
        ) => given == name && calls[j] == CallView::DeleteKey { key: handle },
        _ => false,
    }
    &&& replies[j] is Success
}

/// Whether call `j` found no key with a name: it tried to open the key and failed. A
/// provider that cannot be opened is treated as no key found.
pub open spec fn is_missing_at(
    calls: Seq<CallView>,
    replies: Seq<ReplyView>,
    j: int,
    name: Seq<char>,
) -> bool {
    &&& 0 <= j < calls.len()
    &&& j < replies.len()
    &&& match calls[j] {
        CallView::OpenKey { name: given, .. } => given == name,
        CallView::OpenProvider { .. } => true,
        _ => false,
    }
    &&& replies[j] is Failed
}

/// Whether call `j` found no key with a name, or deleted it.
pub open spec fn is_free_at(
    calls: Seq<CallView>,
    replies: Seq<ReplyView>,
    j: int,
    name: Seq<char>,
) -> bool {
    is_missing_at(calls, replies, j, name) || is_deleted_at(calls, replies, j, name)
}

/// Replacement deletes before it creates: once the key was opened, a new one is created
/// only after the old one, opened again by its name, was deleted.
pub proof fn law_replacement_deletes_first(
    name: Seq<char>,
    provider: usize,
    key: usize,
    replies: Seq<ReplyView>,
    i: int,
)
    requires
        ({
            let found = GenerateKey::next(
                GenerateKeyView::Probing {
                    name,
                    on_duplicate: DuplicateLabelPolicy::Replace,
                    open: OpenKeyView::Key { name, provider },
                },
                ReplyView::Handle { handle: key },
            );
            &&& runs::is_run::<GenerateKey>(found, replies)
            &&& 0 <= i < runs::calls::<GenerateKey>(found, replies).len()
            &&& runs::calls::<GenerateKey>(found, replies)[i] is CreateKey
        }),
    ensures
        ({
            let found = GenerateKey::next(
                GenerateKeyView::Probing {
                    name,
                    on_duplicate: DuplicateLabelPolicy::Replace,
                    open: OpenKeyView::Key { name, provider },
                },
                ReplyView::Handle { handle: key },
            );
            exists|j: int|
                0 <= j < i && #[trigger] is_deleted_at(
                    runs::calls::<GenerateKey>(found, replies),
                    replies,
                    j,
                    name,
                )
        }),
{
    let found = GenerateKey::next(
        GenerateKeyView::Probing {
            name,
            on_duplicate: DuplicateLabelPolicy::Replace,
            open: OpenKeyView::Key { name, provider },
        },
        ReplyView::Handle { handle: key },
    );
    let j = lemma_deletion_precedes(found, name, replies, i);
}

/// What holds of the calls after the first holds of all calls, one place further on.
proof fn lemma_later(
    call: CallView,
    later: Seq<CallView>,
    replies: Seq<ReplyView>,
    j: int,
    name: Seq<char>,
)
    requires
        replies.len() > 0,
    ensures
        is_deleted_at(later, replies.drop_first(), j, name) ==> is_deleted_at(
            seq![call] + later,
            replies,
            j + 1,
            name,
        ),
        is_missing_at(later, replies.drop_first(), j, name) ==> is_missing_at(
            seq![call] + later,
            replies,
            j + 1,
            name,
        ),
{
}

proof fn lemma_deletion_precedes(
    progress: ProgressView<GenerateKeyView, GeneratedKeyView>,
    name: Seq<char>,
    replies: Seq<ReplyView>,
    i: int,
) -> (j: int)
    requires
        runs::is_run::<GenerateKey>(progress, replies),
        match progress {
            ProgressView::Pending { machine, call, .. } => {
                &&& is_about(machine, name)
                &&& !(call is CreateKey)
                &&& match machine {
                    GenerateKeyView::Deleting {
                        delete: DeleteKeyView::Opening { open, .. },
                        ..
                    } => match open {
                        OpenKeyView::Provider { .. } => true,
                        OpenKeyView::Key { provider, .. } => call == CallView::OpenKey {
                            provider,
                            name,
                        },
                    },
                    _ => false,
                }
            },
            ProgressView::Failed { .. } => true,
            _ => false,
        },
        0 <= i < runs::calls::<GenerateKey>(progress, replies).len(),
        runs::calls::<GenerateKey>(progress, replies)[i] is CreateKey,
    ensures
        0 <= j < i,
        is_deleted_at(runs::calls::<GenerateKey>(progress, replies), replies, j, name),
    decreases replies.len(),
{
    match progress {
        ProgressView::Pending { machine, call, .. } => {
            assert(replies.len() > 0 && i > 0);
            let next = GenerateKey::next(machine, replies.first());
            let rest = replies.drop_first();
            let all = runs::calls::<GenerateKey>(progress, replies);
            let later = runs::calls::<GenerateKey>(next, rest);
            assert(all == seq![call] + later);
            assert(all[i] == later[i - 1]);
            match next {
                ProgressView::Pending {
                    machine: GenerateKeyView::Deleting { delete: DeleteKeyView::Deleting, .. },
                    call: second,
                    ..
                } => {
                    assert(later[0] == second);
                    assert(rest.len() > 0);
                    let third = GenerateKey::next(next->machine, rest.first());
                    assert(later == seq![second] + runs::calls::<GenerateKey>(
                        third,
                        rest.drop_first(),
                    ));
                    assert(runs::is_run::<GenerateKey>(next, rest));
                    assert(GenerateKey::awaits(next->machine) == protocol::Kind::Status);
                    if rest.first() is Failed {
                        assert(runs::calls::<GenerateKey>(third, rest.drop_first()) =~= seq![]);
                    }
                    assert(rest.first() is Success);
                    assert(replies[1] == rest[0]);
                    assert(all[1] == second);
                    1
                },
                _ => {
                    let j = lemma_deletion_precedes(next, name, rest, i - 1);
                    lemma_later(call, later, replies, j, name);
                    j + 1
                },
            }
        },
        _ => 0,
    }
}

/// A key is created only under a name that was found to be free, whatever the policy:
/// before that, the key with the name could not be opened, or was deleted.
pub proof fn law_creation_needs_a_free_name(
    label: Seq<char>,
    algorithm: Seq<char>,
    require_biometric: bool,
    on_duplicate: DuplicateLabelPolicy,
    replies: Seq<ReplyView>,
    i: int,
)
    requires
        ({
            let start = generate::generating(label, algorithm, require_biometric, on_duplicate);
            &&& runs::is_run::<GenerateKey>(start, replies)
            &&& 0 <= i < runs::calls::<GenerateKey>(start, replies).len()
            &&& runs::calls::<GenerateKey>(start, replies)[i] is CreateKey
        }),
    ensures
        ({
            let start = generate::generating(label, algorithm, require_biometric, on_duplicate);
            exists|j: int|
                0 <= j < i && #[trigger] is_free_at(
                    runs::calls::<GenerateKey>(start, replies),
                    replies,
                    j,
                    names::key_name(label, require_biometric),
                )
        }),
{
    let j = lemma_name_is_free(
        generate::generating(label, algorithm, require_biometric, on_duplicate),
        names::key_name(label, require_biometric),
        replies,
        i,
    );
}

proof fn lemma_name_is_free(
    progress: ProgressView<GenerateKeyView, GeneratedKeyView>,
    name: Seq<char>,
    replies: Seq<ReplyView>,
    i: int,
) -> (j: int)
    requires
        runs::is_run::<GenerateKey>(progress, replies),
        match progress {
            ProgressView::Pending { machine, call, .. } => {
                &&& is_about(machine, name)
                &&& !(call is CreateKey)
                &&& match machine {
                    GenerateKeyView::Checking { .. } => true,
                    GenerateKeyView::Probing { open, .. } => match open {
                        OpenKeyView::Provider { .. } => call is OpenProvider,
                        OpenKeyView::Key { provider, .. } => call == CallView::OpenKey {
                            provider,
                            name,
                        },
                    },
                    GenerateKeyView::Loading { .. } => true,
                    _ => false,
                }
            },
            _ => true,
        },
        0 <= i < runs::calls::<GenerateKey>(progress, replies).len(),
        runs::calls::<GenerateKey>(progress, replies)[i] is CreateKey,
    ensures
        0 <= j < i,
        is_free_at(runs::calls::<GenerateKey>(progress, replies), replies, j, name),
    decreases replies.len(),
{
    match progress {
        ProgressView::Pending { machine, call, .. } => {
            assert(replies.len() > 0 && i > 0);
            let next = GenerateKey::next(machine, replies.first());
            let rest = replies.drop_first();
            let all = runs::calls::<GenerateKey>(progress, replies);
            let later = runs::calls::<GenerateKey>(next, rest);
            assert(all == seq![call] + later);
            assert(all[i] == later[i - 1]);
            match next {
                ProgressView::Pending { machine: GenerateKeyView::Opening { .. }, .. } => {
                    assert(all[0] == call);
                    0
                },
                ProgressView::Pending { machine: GenerateKeyView::Deleting { .. }, .. } => {
                    let j = lemma_deletion_precedes(next, name, rest, i - 1);
                    lemma_later(call, later, replies, j, name);
                    j + 1
                },
                _ => {
                    let j = lemma_name_is_free(next, name, rest, i - 1);
                    lemma_later(call, later, replies, j, name);
                    j + 1
                },
            }
        },
        _ => 0,
    }
}

/// Generation asks for at most eleven calls.
pub proof fn law_generation_ends(
    label: Seq<char>,
    algorithm: Seq<char>,
    require_biometric: bool,
    on_duplicate: DuplicateLabelPolicy,
    replies: Seq<ReplyView>,
)
    requires
        runs::is_run::<GenerateKey>(
            generate::generating(label, algorithm, require_biometric, on_duplicate),
            replies,
        ),
    ensures
        runs::calls::<GenerateKey>(
            generate::generating(label, algorithm, require_biometric, on_duplicate),
            replies,
        ).len() <= 11,
{
    runs::lemma_bounded::<GenerateKey>(
        generate::generating(label, algorithm, require_biometric, on_duplicate),
        replies,
        |state: GenerateKeyView| generation_rank(state),
    );
}

/// How many calls a generation may still ask for, the pending one among them.
pub open spec fn generation_rank(state: GenerateKeyView) -> nat {
    match state {
        GenerateKeyView::Checking { .. } => 11,
        GenerateKeyView::Probing { open, .. } => match open {
            OpenKeyView::Provider { .. } => 10,
            OpenKeyView::Key { .. } => 9,
        },
        GenerateKeyView::Deleting { delete, .. } => match delete {
            DeleteKeyView::Opening { open, .. } => match open {
                OpenKeyView::Provider { .. } => 8,
                OpenKeyView::Key { .. } => 7,
            },
            DeleteKeyView::Deleting => 6,
        },
        GenerateKeyView::Loading { load } => match load {
            LoadKeyView::Opening { open, .. } => match open {
                OpenKeyView::Provider { .. } => 4,
                OpenKeyView::Key { .. } => 3,
            },
            LoadKeyView::Exporting { export, .. } => match export {
                ExportJwk::Size { .. } => 2,
                ExportJwk::Blob { .. } => 1,
            },
        },
        GenerateKeyView::Opening { .. } => 5,
        GenerateKeyView::Creating { .. } => 4,
        GenerateKeyView::Finalizing { .. } => 3,
        GenerateKeyView::Exporting { export, .. } => match export {
            ExportJwk::Size { .. } => 2,
            ExportJwk::Blob { .. } => 1,
        },
    }
}

} // verus!
