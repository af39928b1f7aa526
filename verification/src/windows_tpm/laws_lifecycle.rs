//! What holds from one operation to the next: a key is generated, listed and deleted.
use vstd::prelude::*;

use super::delete;
use super::delete::{DeleteKey, DeleteKeyView};
use super::generate;
use super::generate::{GenerateKey, GenerateKeyView};
use super::laws_generate;
use super::laws_list;
use super::laws_success;
use super::list;
use super::list::ListKeys;
use super::load;
use super::load::LoadKey;
use super::names;
use super::open_key::OpenKeyView;
use super::sign;
use super::sign::SignHash;
use super::store::Store;
use crate::jwk;
use crate::protocol;
use crate::protocol::{CallView, Machine, ProgressView, ReplyView};
use crate::runs;
use crate::types::{DuplicateLabelPolicy, ErrorView, GeneratedKeyView};

verus! {

/// Whether a call leaves the store as it is, whatever the reply.
pub open spec fn is_harmless(call: CallView) -> bool {
    !(call is FinalizeKey) && !(call is DeleteKey)
}

/// A generated key is listed: where a listing reports it, no call fails while it is read, and
/// the blob is the one that generation exported, the list holds the key just as generation
/// yielded it.
pub proof fn law_generated_key_is_listed(
    label: Seq<char>,
    algorithm: Seq<char>,
    require_biometric: bool,
    on_duplicate: DuplicateLabelPolicy,
    generation: Seq<ReplyView>,
    replies: Seq<ReplyView>,
    start: int,
)
    requires
        runs::is_run::<GenerateKey>(
            generate::generating(label, algorithm, require_biometric, on_duplicate),
            generation,
        ),
        runs::reached::<GenerateKey>(
            generate::generating(label, algorithm, require_biometric, on_duplicate),
            generation,
        ) is Done,
        runs::is_run::<ListKeys>(list::listing(), replies),
        runs::reached::<ListKeys>(list::listing(), replies) is Done,
        0 < start,
        start + 4 <= replies.len(),
        laws_list::reports(replies[start - 1], names::key_name(label, require_biometric)),
        forall|i: int| start <= i < start + 4 ==> !(#[trigger] replies[i] is Failed),
        match (generation.last(), replies[start + 3]) {
            (
                ReplyView::Data { bytes: a, written: n },
                ReplyView::Data { bytes: b, written: m },
            ) => protocol::filled(a, n) == protocol::filled(b, m),
            _ => false,
        },
    ensures
        match (
            runs::reached::<GenerateKey>(
                generate::generating(label, algorithm, require_biometric, on_duplicate),
                generation,
            ),
            runs::reached::<ListKeys>(list::listing(), replies),
        ) {
            (
                ProgressView::Done { output: key, .. },
                ProgressView::Done { output: keys, .. },
            ) => keys.contains(key),
            _ => false,
        },
{
    let made = runs::reached::<GenerateKey>(
        generate::generating(label, algorithm, require_biometric, on_duplicate),
        generation,
    );
    let name = names::key_name(label, require_biometric);
    laws_generate::law_generation_works_on_the_request(
        label,
        algorithm,
        require_biometric,
        on_duplicate,
        generation,
    );
    laws_generate::law_public_key_is_what_cng_exported(
        label,
        algorithm,
        require_biometric,
        on_duplicate,
        generation,
    );
    names::law_key_names_are_managed(label, require_biometric);
    lemma_granted_replies(name, replies, start);
    match (made, replies[start], replies[start + 1], replies[start + 2], replies[start + 3]) {
        (
            ProgressView::Done { output: key, .. },
            ReplyView::Handle { handle: provider },
            ReplyView::Handle { handle },
            ReplyView::Size { size },
            ReplyView::Data { bytes, written },
        ) => {
            let seen = laws_success::opened(provider, handle) + laws_success::delivered(
                size,
                bytes,
                written,
            );
            assert(replies.subrange(start, start + 4) =~= seen);
            lemma_reading_succeeds(name, provider, handle, size, bytes, written, key.public_jwk);
            assert(laws_list::is_read_from(key, replies, start, start + 4));
            laws_list::law_readable_keys_are_listed(replies, key, start, start + 4);
        },
        _ => {},
    }
}

proof fn lemma_reading_succeeds(
    name: Seq<char>,
    provider: usize,
    key: usize,
    size: u32,
    bytes: Seq<u8>,
    written: u32,
    text: Seq<char>,
)
    requires
        bytes.len() <= isize::MAX,
        jwk::blob_to_jwk(protocol::filled(bytes, written)) == Ok::<Seq<char>, ErrorView>(text),
    ensures
        ({
            let replies = laws_success::opened(provider, key) + laws_success::delivered(
                size,
                bytes,
                written,
            );
            &&& runs::is_run::<LoadKey>(load::loading(name), replies)
            &&& match runs::reached::<LoadKey>(load::loading(name), replies) {
                ProgressView::Done { output, .. } => output == load::described(name, text),
                _ => false,
            }
        }),
{
    let replies = laws_success::opened(provider, key) + laws_success::delivered(
        size,
        bytes,
        written,
    );
    let (r1, r2, r3) = (replies[1], replies[2], replies[3]);
    reveal_with_fuel(runs::is_run, 5);
    reveal_with_fuel(runs::reached, 5);
    assert(replies.drop_first() =~= seq![r1, r2, r3]);
    assert(seq![r1, r2, r3].drop_first() =~= seq![r2, r3]);
    assert(seq![r2, r3].drop_first() =~= seq![r3]);
    assert(seq![r3].drop_first() =~= seq![]);
}

/// The replies behind the report of a key, where none of them is a failure.
proof fn lemma_granted_replies(name: Seq<char>, replies: Seq<ReplyView>, start: int)
    requires
        runs::is_run::<ListKeys>(list::listing(), replies),
        names::is_managed(name),
        0 < start,
        start + 4 <= replies.len(),
        laws_list::reports(replies[start - 1], name),
        forall|i: int| start <= i < start + 4 ==> !(#[trigger] replies[i] is Failed),
    ensures
        replies[start] is Handle,
        replies[start + 1] is Handle,
        replies[start + 2] is Size,
        match replies[start + 3] {
            ReplyView::Data { bytes, .. } => bytes.len() <= isize::MAX,
            _ => false,
        },
{
    let (before, rest) = (replies.take(start), replies.skip(start));
    assert(replies =~= before + rest);
    runs::lemma_split::<ListKeys>(list::listing(), before, rest);
    let state = runs::lemma_last_step::<ListKeys>(list::listing(), before);
    assert(before.last() == replies[start - 1]);
    let r1 = rest.drop_first();
    let r2 = r1.drop_first();
    let r3 = r2.drop_first();
    assert(rest.first() == replies[start]);
    assert(r1.first() == replies[start + 1]);
    assert(r2.first() == replies[start + 2]);
    assert(r3.first() == replies[start + 3]);
    reveal_with_fuel(runs::is_run, 5);
}

/// What the states of a generation know of the store, where `before` holds the names at its
/// start.
spec fn fits(
    store: Store,
    progress: ProgressView<GenerateKeyView, GeneratedKeyView>,
    before: Set<Seq<char>>,
    name: Seq<char>,
) -> bool {
    match progress {
        ProgressView::Pending { machine, call, .. } => {
            &&& laws_generate::is_about(machine, name)
            &&& match machine {
                GenerateKeyView::Checking { .. } => {
                    is_harmless(call) && store.names == before
                },
                GenerateKeyView::Probing { open, .. } => {
                    &&& is_harmless(call)
                    &&& store.names == before
                    &&& open matches OpenKeyView::Key { provider, .. } ==> call
                        == (CallView::OpenKey { provider, name })
                },
                GenerateKeyView::Deleting { delete, .. } => {
                    &&& store.names == before
                    &&& match delete {
                        DeleteKeyView::Opening { open, .. } => {
                            &&& is_harmless(call)
                            &&& open matches OpenKeyView::Key { provider, .. } ==> call
                                == (CallView::OpenKey { provider, name })
                        },
                        DeleteKeyView::Deleting => match call {
                            CallView::DeleteKey { key } => store.handles[key] == name,
                            _ => false,
                        },
                    }
                },
                GenerateKeyView::Loading { .. } => {
                    is_harmless(call) && store.names == before && before.contains(name)
                },
                GenerateKeyView::Opening { .. } => {
                    is_harmless(call) && store.names.insert(name) == before.insert(name)
                },
                GenerateKeyView::Creating { provider, .. } => {
                    &&& store.names.insert(name) == before.insert(name)
                    &&& match call {
                        CallView::CreateKey { name: given, .. } => given == name,
                        _ => false,
                    }
                },
                GenerateKeyView::Finalizing { key, .. } => {
                    &&& store.names.insert(name) == before.insert(name)
                    &&& store.handles[key] == name
                    &&& call == CallView::FinalizeKey { key }
                },
                GenerateKeyView::Exporting { .. } => {
                    is_harmless(call) && store.names == before.insert(name)
                },
            }
        },
        ProgressView::Done { .. } => store.names == before.insert(name),
        ProgressView::Failed { .. } => store.names.insert(name) == before.insert(name),
    }
}

proof fn lemma_generation_step(
    store: Store,
    progress: ProgressView<GenerateKeyView, GeneratedKeyView>,
    reply: ReplyView,
    before: Set<Seq<char>>,
    name: Seq<char>,
)
    requires
        progress is Pending,
        fits(store, progress, before, name),
        reply.answers(GenerateKey::awaits(progress->machine)),
        store.allows(progress->call, reply),
    ensures
        fits(
            store.after_call(progress->call, reply),
            GenerateKey::next(progress->machine, reply),
            before,
            name,
        ),
{
    assert(before.contains(name) ==> before.insert(name) =~= before);
    assert(before.remove(name).insert(name) =~= before.insert(name));
    assert(before.insert(name).insert(name) =~= before.insert(name));
}

proof fn lemma_generation(
    store: Store,
    progress: ProgressView<GenerateKeyView, GeneratedKeyView>,
    replies: Seq<ReplyView>,
    before: Set<Seq<char>>,
    name: Seq<char>,
)
    requires
        runs::is_run::<GenerateKey>(progress, replies),
        store.serves::<GenerateKey>(progress, replies),
        fits(store, progress, before, name),
    ensures
        fits(
            store.after::<GenerateKey>(progress, replies),
            runs::reached::<GenerateKey>(progress, replies),
            before,
            name,
        ),
    decreases replies.len(),
{
    if replies.len() > 0 {
        match progress {
            ProgressView::Pending { call, machine, .. } => {
                lemma_generation_step(store, progress, replies.first(), before, name);
                lemma_generation(
                    store.after_call(call, replies.first()),
                    GenerateKey::next(machine, replies.first()),
                    replies.drop_first(),
                    before,
                    name,
                );
            },
            _ => {},
        }
    }
}

/// Generation leaves the key in the store, whether it was created, replaced or already there,
/// and touches no other: the names are those from before and the requested one.
pub proof fn law_generation_stores_the_key(
    label: Seq<char>,
    algorithm: Seq<char>,
    require_biometric: bool,
    on_duplicate: DuplicateLabelPolicy,
    store: Store,
    replies: Seq<ReplyView>,
)
    requires
        runs::is_run::<GenerateKey>(
            generate::generating(label, algorithm, require_biometric, on_duplicate),
            replies,
        ),
        store.serves::<GenerateKey>(
            generate::generating(label, algorithm, require_biometric, on_duplicate),
            replies,
        ),
    ensures
        ({
            let start = generate::generating(label, algorithm, require_biometric, on_duplicate);
            let name = names::key_name(label, require_biometric);
            let after = store.after::<GenerateKey>(start, replies);
            &&& after.names.remove(name) == store.names.remove(name)
            &&& runs::reached::<GenerateKey>(start, replies) is Done ==> after.names
                == store.names.insert(name)
        }),
{
    let start = generate::generating(label, algorithm, require_biometric, on_duplicate);
    let name = names::key_name(label, require_biometric);
    lemma_generation(store, start, replies, store.names, name);
    let after = store.after::<GenerateKey>(start, replies);
    assert(store.names.insert(name).remove(name) =~= store.names.remove(name));
    assert(after.names.insert(name).remove(name) =~= after.names.remove(name));
}

/// Deletion takes the key out of the store, and no other: where it succeeds the name is gone,
/// and else the store is as before.
pub proof fn law_deletion_removes_the_key(
    key_id: Seq<char>,
    store: Store,
    replies: Seq<ReplyView>,
)
    requires
        runs::is_run::<DeleteKey>(delete::deleting(key_id), replies),
    ensures
        store.after::<DeleteKey>(delete::deleting(key_id), replies).names == (if runs::reached::<
            DeleteKey,
        >(delete::deleting(key_id), replies) is Done {
            store.names.remove(key_id)
        } else {
            store.names
        }),
{
    lemma_deletion(store, delete::deleting(key_id), replies, key_id);
}

proof fn lemma_deletion(
    store: Store,
    progress: ProgressView<DeleteKeyView, ()>,
    replies: Seq<ReplyView>,
    key_id: Seq<char>,
)
    requires
        runs::is_run::<DeleteKey>(progress, replies),
        match progress {
            ProgressView::Pending { machine, call, .. } => match machine {
                DeleteKeyView::Opening { open, .. } => match open {
                    OpenKeyView::Provider { name } => name == key_id && call is OpenProvider,
                    OpenKeyView::Key { name, provider } => name == key_id && call
                        == CallView::OpenKey { provider, name },
                },
                DeleteKeyView::Deleting => match call {
                    CallView::DeleteKey { key } => store.handles[key] == key_id,
                    _ => false,
                },
            },
            ProgressView::Failed { .. } => true,
            ProgressView::Done { .. } => false,
        },
    ensures
        store.after::<DeleteKey>(progress, replies).names == (if runs::reached::<DeleteKey>(
            progress,
            replies,
        ) is Done {
            store.names.remove(key_id)
        } else {
            store.names
        }),
    decreases replies.len(),
{
    if replies.len() > 0 {
        match progress {
            ProgressView::Pending { call, machine, .. } => {
                let next = DeleteKey::next(machine, replies.first());
                let after = store.after_call(call, replies.first());
                let rest = replies.drop_first();
                if next is Done {
                    assert(runs::is_run::<DeleteKey>(next, rest));
                    assert(rest.len() == 0);
                    assert(after.after::<DeleteKey>(next, rest) == after);
                    assert(runs::reached::<DeleteKey>(next, rest) == next);
                } else {
                    lemma_deletion(after, next, rest, key_id);
                }
            },
            _ => {},
        }
    }
}

/// A key that is not in the store cannot be deleted: the deletion ends with the error that the
/// key was not found.
pub proof fn law_missing_key_is_not_found(key_id: Seq<char>, store: Store, replies: Seq<ReplyView>)
    requires
        !store.names.contains(key_id),
        runs::is_run::<DeleteKey>(delete::deleting(key_id), replies),
        store.serves::<DeleteKey>(delete::deleting(key_id), replies),
        !(runs::reached::<DeleteKey>(delete::deleting(key_id), replies) is Pending),
    ensures
        match runs::reached::<DeleteKey>(delete::deleting(key_id), replies) {
            ProgressView::Failed { error, .. } => error == delete::not_found(key_id),
            _ => false,
        },
{
    reveal_with_fuel(runs::is_run, 4);
    reveal_with_fuel(runs::reached, 4);
    reveal_with_fuel(Store::serves, 4);
    assert(replies.len() > 0);
    let rest = replies.drop_first();
    if replies.first() is Handle {
        assert(rest.len() > 0);
        assert(!(rest.first() is Handle));
    }
}

/// Deletion undoes the generation of a new key: the store holds the names that it held before,
/// and a further deletion fails because the key is not found.
pub proof fn law_deletion_undoes_generation(
    label: Seq<char>,
    algorithm: Seq<char>,
    require_biometric: bool,
    on_duplicate: DuplicateLabelPolicy,
    store: Store,
    generation: Seq<ReplyView>,
    key_id: Seq<char>,
    deletion: Seq<ReplyView>,
    further: Seq<ReplyView>,
)
    requires
        ({
            let generating = generate::generating(
                label,
                algorithm,
                require_biometric,
                on_duplicate,
            );
            let deleting = delete::deleting(key_id);
            let generated = store.after::<GenerateKey>(generating, generation);
            let deleted = generated.after::<DeleteKey>(deleting, deletion);
            &&& !store.names.contains(names::key_name(label, require_biometric))
            &&& runs::is_run::<GenerateKey>(generating, generation)
            &&& store.serves::<GenerateKey>(generating, generation)
            &&& match runs::reached::<GenerateKey>(generating, generation) {
                ProgressView::Done { output, .. } => output.key_id == key_id,
                _ => false,
            }
            &&& runs::is_run::<DeleteKey>(deleting, deletion)
            &&& runs::reached::<DeleteKey>(deleting, deletion) is Done
            &&& runs::is_run::<DeleteKey>(deleting, further)
            &&& deleted.serves::<DeleteKey>(deleting, further)
            &&& !(runs::reached::<DeleteKey>(deleting, further) is Pending)
        }),
    ensures
        ({
            let generating = generate::generating(
                label,
                algorithm,
                require_biometric,
                on_duplicate,
            );
            let deleting = delete::deleting(key_id);
            let generated = store.after::<GenerateKey>(generating, generation);
            let deleted = generated.after::<DeleteKey>(deleting, deletion);
            &&& generated.names == store.names.insert(key_id)
            &&& deleted.names == store.names
            &&& match runs::reached::<DeleteKey>(deleting, further) {
                ProgressView::Failed { error, .. } => error == delete::not_found(key_id),
                _ => false,
            }
        }),
{
    let generating = generate::generating(label, algorithm, require_biometric, on_duplicate);
    let generated = store.after::<GenerateKey>(generating, generation);
    let deleted = generated.after::<DeleteKey>(delete::deleting(key_id), deletion);
    laws_generate::law_generation_works_on_the_request(
        label,
        algorithm,
        require_biometric,
        on_duplicate,
        generation,
    );
    law_generation_stores_the_key(
        label,
        algorithm,
        require_biometric,
        on_duplicate,
        store,
        generation,
    );
    law_deletion_removes_the_key(key_id, generated, deletion);
    assert(deleted.names =~= store.names);
    law_missing_key_is_not_found(key_id, deleted, further);
}

/// Signing changes no key.
pub proof fn law_signing_keeps_the_store(
    key_id: Seq<char>,
    hash: Seq<u8>,
    require_biometric: bool,
    store: Store,
    replies: Seq<ReplyView>,
)
    requires
        runs::is_run::<SignHash>(sign::signing(key_id, hash, require_biometric), replies),
    ensures
        store.after::<SignHash>(sign::signing(key_id, hash, require_biometric), replies).names
            == store.names,
{
    lemma_store_is_kept::<SignHash>(
        store,
        sign::signing(key_id, hash, require_biometric),
        replies,
    );
}

/// Listing changes no key.
pub proof fn law_listing_keeps_the_store(store: Store, replies: Seq<ReplyView>)
    requires
        runs::is_run::<ListKeys>(list::listing(), replies),
    ensures
        store.after::<ListKeys>(list::listing(), replies).names == store.names,
{
    lemma_store_is_kept::<ListKeys>(store, list::listing(), replies);
}

/// An operation whose calls are all harmless leaves the names as they are.
proof fn lemma_store_is_kept<M: Machine>(
    store: Store,
    progress: ProgressView<M::V, <M::Output as DeepView>::V>,
    replies: Seq<ReplyView>,
)
    requires
        progress matches ProgressView::Pending { call, .. } ==> is_harmless(call),
        forall|state: M::V, reply: ReplyView|
            reply.answers(M::awaits(state)) ==> (#[trigger] M::next(
                state,
                reply,
            ) matches ProgressView::Pending { call, .. } ==> is_harmless(call)),
        runs::is_run::<M>(progress, replies),
    ensures
        store.after::<M>(progress, replies).names == store.names,
    decreases replies.len(),
{
    if replies.len() > 0 {
        match progress {
            ProgressView::Pending { call, machine, .. } => {
                lemma_store_is_kept::<M>(
                    store.after_call(call, replies.first()),
                    M::next(machine, replies.first()),
                    replies.drop_first(),
                );
            },
            _ => {},
        }
    }
}

} // verus!
