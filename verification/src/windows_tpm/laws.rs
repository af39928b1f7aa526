//! What holds of whole operations of the backend, whatever the system replies.
use vstd::prelude::*;

use super::delete;
use super::delete::{DeleteKey, DeleteKeyView};
use super::discover;
use super::discover::Discover;
use super::generate;
use super::generate::{GenerateKey, GenerateKeyView};
use super::list;
use super::list::{ListKeys, ListKeysView};
use super::names;
use super::sign;
use super::sign::{SignHash, SignHashView};
use crate::protocol;
use crate::protocol::{CallView, ProgressView, ReplyView};
use crate::runs;
use crate::types::{
    DuplicateLabelPolicy, GeneratedKeyView, HardwareKeyInfoView, SignatureResultView,
};

verus! {

/// Discovery gives back all that it took.
pub proof fn law_discover_returns_resources(replies: Seq<ReplyView>)
    requires
        runs::is_run::<Discover>(discover::discovering(), replies),
        !(runs::reached::<Discover>(discover::discovering(), replies) is Pending),
    ensures
        runs::is_even::<Discover>(discover::discovering(), replies),
{
    runs::law_nothing_is_kept::<Discover>(discover::discovering(), replies);
}

/// Generation gives back all that it took, but for the handle of a key that it deletes.
pub proof fn law_generate_key_returns_resources(
    label: Seq<char>,
    algorithm: Seq<char>,
    require_biometric: bool,
    on_duplicate: DuplicateLabelPolicy,
    replies: Seq<ReplyView>,
)
    requires
        runs::is_run::<GenerateKey>(
            generate::generating(label, algorithm, require_biometric, on_duplicate),
            replies,
        ),
        !(runs::reached::<GenerateKey>(
            generate::generating(label, algorithm, require_biometric, on_duplicate),
            replies,
        ) is Pending),
    ensures
        runs::is_even::<GenerateKey>(
            generate::generating(label, algorithm, require_biometric, on_duplicate),
            replies,
        ),
{
    runs::law_nothing_is_kept::<GenerateKey>(
        generate::generating(label, algorithm, require_biometric, on_duplicate),
        replies,
    );
}

/// Signing gives back all that it took.
pub proof fn law_sign_hash_returns_resources(
    key_id: Seq<char>,
    hash: Seq<u8>,
    require_biometric: bool,
    replies: Seq<ReplyView>,
)
    requires
        runs::is_run::<SignHash>(sign::signing(key_id, hash, require_biometric), replies),
        !(runs::reached::<SignHash>(
            sign::signing(key_id, hash, require_biometric),
            replies,
        ) is Pending),
    ensures
        runs::is_even::<SignHash>(sign::signing(key_id, hash, require_biometric), replies),
{
    runs::law_nothing_is_kept::<SignHash>(
        sign::signing(key_id, hash, require_biometric),
        replies,
    );
}

/// Listing gives back all that it took: handles, names and the enumeration state.
pub proof fn law_list_keys_returns_resources(replies: Seq<ReplyView>)
    requires
        runs::is_run::<ListKeys>(list::listing(), replies),
        !(runs::reached::<ListKeys>(list::listing(), replies) is Pending),
    ensures
        runs::is_even::<ListKeys>(list::listing(), replies),
{
    runs::law_nothing_is_kept::<ListKeys>(list::listing(), replies);
}

/// Deletion gives back all that it took, but for the handle of the deleted key.
pub proof fn law_delete_key_returns_resources(key_id: Seq<char>, replies: Seq<ReplyView>)
    requires
        runs::is_run::<DeleteKey>(delete::deleting(key_id), replies),
        !(runs::reached::<DeleteKey>(delete::deleting(key_id), replies) is Pending),
    ensures
        runs::is_even::<DeleteKey>(delete::deleting(key_id), replies),
{
    runs::law_nothing_is_kept::<DeleteKey>(delete::deleting(key_id), replies);
}

/// `NCryptDeleteKey` takes the handle over: whether it succeeds or not, the provider alone
/// is given back, and nothing after the deletion.
pub proof fn law_deleted_handle_is_not_freed(
    key_id: Seq<char>,
    provider: usize,
    key: usize,
    reply: ReplyView,
)
    requires
        reply.answers(protocol::Kind::Status),
    ensures
        ({
            let replies = seq![
                ReplyView::Handle { handle: provider },
                ReplyView::Handle { handle: key },
                reply,
            ];
            let start = delete::deleting(key_id);
            &&& runs::is_run::<DeleteKey>(start, replies)
            &&& runs::calls::<DeleteKey>(start, replies) == seq![
                names::opens_provider(),
                CallView::OpenKey { provider, name: key_id },
                CallView::DeleteKey { key },
            ]
            &&& runs::released::<DeleteKey>(start, replies) == protocol::object(provider)
            &&& runs::reached::<DeleteKey>(start, replies) is Done <==> reply is Success
        }),
{
    let r1 = ReplyView::Handle { handle: provider };
    let r2 = ReplyView::Handle { handle: key };
    let replies = seq![r1, r2, reply];
    let start = delete::deleting(key_id);
    reveal_with_fuel(runs::is_run, 4);
    reveal_with_fuel(runs::calls, 4);
    reveal_with_fuel(runs::released, 4);
    reveal_with_fuel(runs::reached, 4);
    assert(replies.drop_first() =~= seq![r2, reply]);
    assert(seq![r2, reply].drop_first() =~= seq![reply]);
    assert(seq![reply].drop_first() =~= Seq::<ReplyView>::empty());
    assert(runs::calls::<DeleteKey>(start, replies) =~= seq![
        names::opens_provider(),
        CallView::OpenKey { provider, name: key_id },
        CallView::DeleteKey { key },
    ]);
    assert(runs::released::<DeleteKey>(start, replies) =~= protocol::object(provider));
}

/// A key counts as deleted only where CNG opened the key of that name and then deleted it.
pub proof fn law_deletion_deletes_the_key(key_id: Seq<char>, replies: Seq<ReplyView>)
    requires
        runs::is_run::<DeleteKey>(delete::deleting(key_id), replies),
        runs::reached::<DeleteKey>(delete::deleting(key_id), replies) is Done,
    ensures
        replies.len() == 3,
        match (replies[0], replies[1]) {
            (ReplyView::Handle { handle: provider }, ReplyView::Handle { handle: key }) => {
                runs::calls::<DeleteKey>(delete::deleting(key_id), replies) == seq![
                    names::opens_provider(),
                    CallView::OpenKey { provider, name: key_id },
                    CallView::DeleteKey { key },
                ]
            },
            _ => false,
        },
        replies[2] is Success,
{
    let start = delete::deleting(key_id);
    reveal_with_fuel(runs::is_run, 5);
    reveal_with_fuel(runs::reached, 5);
    assert(replies.len() > 2);
    let rest = replies.drop_first();
    let last = rest.drop_first();
    assert(last.drop_first().len() == 0);
    match (replies[0], replies[1]) {
        (ReplyView::Handle { handle: provider }, ReplyView::Handle { handle: key }) => {
            assert(replies =~= seq![replies[0], replies[1], replies[2]]);
            law_deleted_handle_is_not_freed(key_id, provider, key, replies[2]);
        },
        _ => {},
    }
}

/// Discovery makes one call, and reports the backend exactly where that opened the
/// provider.
pub proof fn law_discovery_reports_the_provider(reply: ReplyView)
    requires
        reply.answers(protocol::Kind::Handle),
    ensures
        runs::calls::<Discover>(discover::discovering(), seq![reply]) == seq![
            names::opens_provider(),
        ],
        match runs::reached::<Discover>(discover::discovering(), seq![reply]) {
            ProgressView::Done { output, .. } => output == (if reply is Handle {
                Some(discover::backend_info())
            } else {
                None
            }),
            _ => false,
        },
{
    reveal_with_fuel(runs::calls, 2);
    reveal_with_fuel(runs::reached, 2);
    assert(seq![reply].drop_first() =~= seq![]);
    assert(runs::calls::<Discover>(discover::discovering(), seq![reply]) =~= seq![
        names::opens_provider(),
    ]);
}

/// Whether a call opens no provider other than that of TPM-backed keys.
pub open spec fn is_platform_call(call: CallView) -> bool {
    call is OpenProvider ==> call == names::opens_provider()
}

/// Discovery asks the platform provider alone: there is no fallback to software keys.
pub proof fn law_discover_has_no_fallback(replies: Seq<ReplyView>)
    requires
        runs::is_run::<Discover>(discover::discovering(), replies),
    ensures
        forall|i: int|
            0 <= i < runs::calls::<Discover>(discover::discovering(), replies).len()
                ==> is_platform_call(
                #[trigger] runs::calls::<Discover>(discover::discovering(), replies)[i],
            ),
{
    runs::lemma_invariant::<Discover>(
        discover::discovering(),
        replies,
        |state: Discover| true,
        |call: CallView| is_platform_call(call),
        |output: Option<HardwareKeyInfoView>| true,
    );
}

/// Generation works with the platform provider alone.
pub proof fn law_generate_key_has_no_fallback(
    label: Seq<char>,
    algorithm: Seq<char>,
    require_biometric: bool,
    on_duplicate: DuplicateLabelPolicy,
    replies: Seq<ReplyView>,
)
    requires
        runs::is_run::<GenerateKey>(
            generate::generating(label, algorithm, require_biometric, on_duplicate),
            replies,
        ),
    ensures
        ({
            let calls = runs::calls::<GenerateKey>(
                generate::generating(label, algorithm, require_biometric, on_duplicate),
                replies,
            );
            forall|i: int| 0 <= i < calls.len() ==> is_platform_call(#[trigger] calls[i])
        }),
{
    runs::lemma_invariant::<GenerateKey>(
        generate::generating(label, algorithm, require_biometric, on_duplicate),
        replies,
        |state: GenerateKeyView| true,
        |call: CallView| is_platform_call(call),
        |output: GeneratedKeyView| true,
    );
}

/// Signing works with the platform provider alone.
pub proof fn law_sign_hash_has_no_fallback(
    key_id: Seq<char>,
    hash: Seq<u8>,
    require_biometric: bool,
    replies: Seq<ReplyView>,
)
    requires
        runs::is_run::<SignHash>(sign::signing(key_id, hash, require_biometric), replies),
    ensures
        ({
            let calls = runs::calls::<SignHash>(
                sign::signing(key_id, hash, require_biometric),
                replies,
            );
            forall|i: int| 0 <= i < calls.len() ==> is_platform_call(#[trigger] calls[i])
        }),
{
    runs::lemma_invariant::<SignHash>(
        sign::signing(key_id, hash, require_biometric),
        replies,
        |state: SignHashView| true,
        |call: CallView| is_platform_call(call),
        |output: SignatureResultView| true,
    );
}

/// Listing works with the platform provider alone.
pub proof fn law_list_keys_has_no_fallback(replies: Seq<ReplyView>)
    requires
        runs::is_run::<ListKeys>(list::listing(), replies),
    ensures
        forall|i: int|
            0 <= i < runs::calls::<ListKeys>(list::listing(), replies).len() ==> is_platform_call(
                #[trigger] runs::calls::<ListKeys>(list::listing(), replies)[i],
            ),
{
    runs::lemma_invariant::<ListKeys>(
        list::listing(),
        replies,
        |state: ListKeysView| true,
        |call: CallView| is_platform_call(call),
        |output: Seq<GeneratedKeyView>| true,
    );
}

/// Deletion works with the platform provider alone.
pub proof fn law_delete_key_has_no_fallback(key_id: Seq<char>, replies: Seq<ReplyView>)
    requires
        runs::is_run::<DeleteKey>(delete::deleting(key_id), replies),
    ensures
        forall|i: int|
            0 <= i < runs::calls::<DeleteKey>(delete::deleting(key_id), replies).len()
                ==> is_platform_call(
                #[trigger] runs::calls::<DeleteKey>(delete::deleting(key_id), replies)[i],
            ),
{
    runs::lemma_invariant::<DeleteKey>(
        delete::deleting(key_id),
        replies,
        |state: DeleteKeyView| true,
        |call: CallView| is_platform_call(call),
        |output: ()| true,
    );
}

} // verus!
