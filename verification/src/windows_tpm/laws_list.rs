//! What holds of every listing.
use vstd::prelude::*;

use super::laws_generate;
use super::list;
use super::list::{ListKeys, ListKeysView};
use super::load;
use super::load::{LoadKey, LoadKeyView};
use super::names;
use crate::jwk;
use crate::protocol;
use crate::protocol::{CallView, Machine, ProgressView, ReplyView};
use crate::runs;
use crate::types::GeneratedKeyView;

verus! {

/// Whether a call only looks: nothing is created, deleted or signed, and nobody is asked.
pub open spec fn is_reading_call(call: CallView) -> bool {
    match call {
        CallView::OpenProvider { .. } => true,
        CallView::OpenKey { name, .. } => names::is_managed(name),
        CallView::ExportSize { .. } => true,
        CallView::Export { .. } => true,
        CallView::EnumKeys { .. } => true,
        _ => false,
    }
}

/// Whether a key is described as one that this library manages.
pub open spec fn is_listed_key(key: GeneratedKeyView) -> bool {
    &&& names::is_managed(key.key_id)
    &&& key == load::described(key.key_id, key.public_jwk)
}

/// Whether all keys are described as ones that this library manages.
pub open spec fn are_listed_keys(keys: Seq<GeneratedKeyView>) -> bool {
    forall|i: int| 0 <= i < keys.len() ==> is_listed_key(#[trigger] keys[i])
}

/// The name of the key that is being read.
pub open spec fn loaded_name(load: LoadKeyView) -> Seq<char> {
    match load {
        LoadKeyView::Opening { key_id, .. } => key_id,
        LoadKeyView::Exporting { key_id, .. } => key_id,
    }
}

/// Whether a state of a listing has met managed keys alone.
pub open spec fn is_listing_state(state: ListKeysView) -> bool {
    match state {
        ListKeysView::Opening => true,
        ListKeysView::Enumerating { keys, .. } => are_listed_keys(keys),
        ListKeysView::Loading { keys, load, .. } => {
            &&& are_listed_keys(keys)
            &&& names::is_managed(loaded_name(load))
            &&& laws_generate::loads(load, loaded_name(load))
        },
    }
}

/// Listing shows only keys that this library manages, opens no others, and changes nothing.
pub proof fn law_listing_shows_managed_keys(replies: Seq<ReplyView>)
    requires
        runs::is_run::<ListKeys>(list::listing(), replies),
    ensures
        ({
            let calls = runs::calls::<ListKeys>(list::listing(), replies);
            &&& forall|i: int| 0 <= i < calls.len() ==> is_reading_call(#[trigger] calls[i])
            &&& match runs::reached::<ListKeys>(list::listing(), replies) {
                ProgressView::Done { output, .. } => are_listed_keys(output),
                _ => true,
            }
        }),
{
    runs::lemma_invariant::<ListKeys>(
        list::listing(),
        replies,
        |state: ListKeysView| is_listing_state(state),
        |call: CallView| is_reading_call(call),
        |output: Seq<GeneratedKeyView>| are_listed_keys(output),
    );
}

/// Whether a name begins with the six characters `hwkey-`.
pub open spec fn begins_with_hwkey(name: Seq<char>) -> bool {
    &&& name.len() >= 6
    &&& name[0] == 'h'
    &&& name[1] == 'w'
    &&& name[2] == 'k'
    &&& name[3] == 'e'
    &&& name[4] == 'y'
    &&& name[5] == '-'
}

/// Listing keeps to the names that begin with `hwkey-`: it opens no other key and shows no
/// other key.
pub proof fn law_listing_keeps_to_the_prefix(replies: Seq<ReplyView>)
    requires
        runs::is_run::<ListKeys>(list::listing(), replies),
    ensures
        ({
            let calls = runs::calls::<ListKeys>(list::listing(), replies);
            &&& forall|i: int|
                0 <= i < calls.len() ==> match #[trigger] calls[i] {
                    CallView::OpenKey { name, .. } => begins_with_hwkey(name),
                    _ => true,
                }
            &&& match runs::reached::<ListKeys>(list::listing(), replies) {
                ProgressView::Done { output, .. } => forall|i: int|
                    0 <= i < output.len() ==> begins_with_hwkey(
                        (#[trigger] output[i]).key_id,
                    ),
                _ => true,
            }
        }),
{
    law_listing_shows_managed_keys(replies);
    assert forall|name: Seq<char>| #[trigger] names::is_managed(name) implies begins_with_hwkey(
        name,
    ) by {
        names::law_managed_names_begin_with_hwkey(name);
    }
    let calls = runs::calls::<ListKeys>(list::listing(), replies);
    assert forall|i: int| 0 <= i < calls.len() implies match #[trigger] calls[i] {
        CallView::OpenKey { name, .. } => begins_with_hwkey(name),
        _ => true,
    } by {
        assert(is_reading_call(calls[i]));
    }
    match runs::reached::<ListKeys>(list::listing(), replies) {
        ProgressView::Done { output, .. } => {
            assert forall|i: int| 0 <= i < output.len() implies begins_with_hwkey(
                (#[trigger] output[i]).key_id,
            ) by {
                assert(is_listed_key(output[i]));
            }
        },
        _ => {},
    }
}

/// A reported name that does not begin with `hwkey-` adds nothing: the list is the one that
/// comes out without that report.
pub proof fn law_foreign_keys_add_nothing(
    before: Seq<ReplyView>,
    cursor: usize,
    address: usize,
    name: Seq<char>,
    rest: Seq<ReplyView>,
)
    requires
        !begins_with_hwkey(name),
        ({
            let report = ReplyView::Named { cursor, address, name: Some(name) };
            let replies = before + (seq![report] + rest);
            &&& runs::is_run::<ListKeys>(list::listing(), replies)
            &&& runs::reached::<ListKeys>(list::listing(), replies) is Done
        }),
    ensures
        ({
            let report = ReplyView::Named { cursor, address, name: Some(name) };
            let replies = before + (seq![report] + rest);
            &&& runs::is_run::<ListKeys>(list::listing(), before + rest)
            &&& match (
                runs::reached::<ListKeys>(list::listing(), replies),
                runs::reached::<ListKeys>(list::listing(), before + rest),
            ) {
                (
                    ProgressView::Done { output: a, .. },
                    ProgressView::Done { output: b, .. },
                ) => a == b,
                _ => false,
            }
        }),
{
    let report = ReplyView::Named { cursor, address, name: Some(name) };
    names::law_managed_names_begin_with_hwkey(name);
    let here = runs::reached::<ListKeys>(list::listing(), before);
    runs::lemma_split::<ListKeys>(list::listing(), before, seq![report] + rest);
    runs::lemma_split::<ListKeys>(list::listing(), before, rest);
    assert(here is Pending) by {
        assert(runs::is_run::<ListKeys>(here, seq![report] + rest));
    }
    runs::lemma_first_step::<ListKeys>(here, report, rest);
    let next = ListKeys::next(here->machine, report);
    assert(next is Pending && next->machine == here->machine);
    assert(rest.len() > 0);
    assert(runs::reached::<ListKeys>(next, rest) == runs::reached::<ListKeys>(here, rest));
    assert(runs::is_run::<ListKeys>(next, rest) == runs::is_run::<ListKeys>(here, rest));
}

/// The managed names that an enumeration reported, in order.
pub open spec fn reported(replies: Seq<ReplyView>) -> Seq<Seq<char>>
    decreases replies.len(),
{
    if replies.len() == 0 {
        seq![]
    } else {
        match replies.first() {
            ReplyView::Named { address, name: Some(name), .. } => if address != 0
                && names::is_managed(name) {
                seq![name] + reported(replies.drop_first())
            } else {
                reported(replies.drop_first())
            },
            _ => reported(replies.drop_first()),
        }
    }
}

/// Whether a sequence is what is left of another when some of its items are left out.
pub open spec fn is_part_of(some: Seq<Seq<char>>, all: Seq<Seq<char>>) -> bool
    decreases all.len(),
{
    ||| some.len() == 0
    ||| all.len() > 0 && some.first() == all.first() && is_part_of(
        some.drop_first(),
        all.drop_first(),
    )
    ||| all.len() > 0 && is_part_of(some, all.drop_first())
}

/// The names of keys.
pub open spec fn names_of(keys: Seq<GeneratedKeyView>) -> Seq<Seq<char>> {
    Seq::new(keys.len(), |i: int| keys[i].key_id)
}

/// Listing neither invents nor repeats a key nor changes their order: the keys that it
/// yields are among those that the enumeration reported, in the same order.
pub proof fn law_listing_follows_enumeration(replies: Seq<ReplyView>)
    requires
        runs::is_run::<ListKeys>(list::listing(), replies),
    ensures
        match runs::reached::<ListKeys>(list::listing(), replies) {
            ProgressView::Done { output, .. } => is_part_of(names_of(output), reported(replies)),
            _ => true,
        },
{
    match runs::reached::<ListKeys>(list::listing(), replies) {
        ProgressView::Done { output, .. } => {
            let shown = lemma_shown(list::listing(), replies);
            assert(names_of(seq![]) + shown =~= shown);
        },
        _ => {},
    }
}

/// The keys that a listing has found so far.
spec fn found(state: ListKeysView) -> Seq<GeneratedKeyView> {
    match state {
        ListKeysView::Opening => seq![],
        ListKeysView::Enumerating { keys, .. } => keys,
        ListKeysView::Loading { keys, .. } => keys,
    }
}

/// The names that a listing has yet to decide on.
spec fn undecided(state: ListKeysView, replies: Seq<ReplyView>) -> Seq<Seq<char>> {
    match state {
        ListKeysView::Loading { load, .. } => seq![loaded_name(load)] + reported(replies),
        _ => reported(replies),
    }
}

proof fn lemma_shown(
    progress: ProgressView<ListKeysView, Seq<GeneratedKeyView>>,
    replies: Seq<ReplyView>,
) -> (shown: Seq<Seq<char>>)
    requires
        runs::is_run::<ListKeys>(progress, replies),
        progress is Pending,
        runs::reached::<ListKeys>(progress, replies) is Done,
    ensures
        match (progress, runs::reached::<ListKeys>(progress, replies)) {
            (ProgressView::Pending { machine, .. }, ProgressView::Done { output, .. }) => {
                &&& names_of(output) == names_of(found(machine)) + shown
                &&& is_part_of(shown, undecided(machine, replies))
            },
            _ => true,
        },
    decreases replies.len(),
{
    match progress {
        ProgressView::Pending { machine, .. } => {
            let next = ListKeys::next(machine, replies.first());
            let rest = replies.drop_first();
            match next {
                ProgressView::Pending { machine: after, .. } => {
                    let later = lemma_shown(next, rest);
                    match (machine, after) {
                        (
                            ListKeysView::Loading { load, keys, .. },
                            ListKeysView::Enumerating { keys: more, .. },
                        ) => {
                            let name = loaded_name(load);
                            let all = undecided(machine, replies);
                            assert(reported(replies) == reported(rest));
                            assert(all.drop_first() =~= reported(rest));
                            if LoadKey::next(load, replies.first()) is Done {
                                let shown = seq![name] + later;
                                assert(shown.drop_first() =~= later);
                                assert(names_of(more) =~= names_of(keys) + seq![name]);
                                assert(names_of(more) + later =~= names_of(keys) + shown);
                                shown
                            } else {
                                later
                            }
                        },
                        _ => later,
                    }
                },
                _ => {
                    assert(runs::reached::<ListKeys>(next, rest) == next);
                    let shown = Seq::<Seq<char>>::empty();
                    assert(names_of(found(machine)) + shown =~= names_of(found(machine)));
                    shown
                },
            }
        },
        _ => arbitrary(),
    }
}

/// Whether a reply stands in the way of no key: no call failed, and what was exported is a
/// public key.
pub open spec fn is_granted(reply: ReplyView) -> bool {
    match reply {
        ReplyView::Failed { .. } => false,
        ReplyView::Data { bytes, written } => jwk::blob_to_jwk(
            protocol::filled(bytes, written),
        ) is Ok,
        _ => true,
    }
}

/// Listing leaves no key out: where every key can be read, the list holds exactly the
/// managed keys that the enumeration reported, in the same order.
pub proof fn law_listing_is_complete(replies: Seq<ReplyView>)
    requires
        runs::is_run::<ListKeys>(list::listing(), replies),
        runs::reached::<ListKeys>(list::listing(), replies) is Done,
        forall|i: int| 0 <= i < replies.len() ==> is_granted(#[trigger] replies[i]),
    ensures
        match runs::reached::<ListKeys>(list::listing(), replies) {
            ProgressView::Done { output, .. } => names_of(output) == reported(replies),
            _ => false,
        },
{
    lemma_complete(list::listing(), replies);
    assert(names_of(seq![]) + reported(replies) =~= reported(replies));
}

proof fn lemma_complete(
    progress: ProgressView<ListKeysView, Seq<GeneratedKeyView>>,
    replies: Seq<ReplyView>,
)
    requires
        runs::is_run::<ListKeys>(progress, replies),
        progress is Pending,
        runs::reached::<ListKeys>(progress, replies) is Done,
        forall|i: int| 0 <= i < replies.len() ==> is_granted(#[trigger] replies[i]),
    ensures
        match (progress, runs::reached::<ListKeys>(progress, replies)) {
            (
                ProgressView::Pending { machine, .. },
                ProgressView::Done { output, .. },
            ) => names_of(output) == names_of(found(machine)) + undecided(machine, replies),
            _ => true,
        },
    decreases replies.len(),
{
    match progress {
        ProgressView::Pending { machine, .. } => {
            let next = ListKeys::next(machine, replies.first());
            let rest = replies.drop_first();
            assert(is_granted(replies[0]));
            assert forall|i: int| 0 <= i < rest.len() implies is_granted(#[trigger] rest[i]) by {
                assert(rest[i] == replies[i + 1]);
            }
            match next {
                ProgressView::Pending { machine: after, .. } => {
                    lemma_complete(next, rest);
                    match (machine, after) {
                        (
                            ListKeysView::Loading { load, keys, .. },
                            ListKeysView::Enumerating { keys: more, .. },
                        ) => {
                            let name = loaded_name(load);
                            assert(LoadKey::next(load, replies.first()) is Done);
                            assert(reported(replies) == reported(rest));
                            assert(names_of(more) =~= names_of(keys) + seq![name]);
                            assert(names_of(more) + reported(rest) =~= names_of(keys) + (seq![name]
                                + reported(rest)));
                        },
                        _ => {},
                    }
                },
                _ => {
                    assert(runs::reached::<ListKeys>(next, rest) == next);
                    assert(runs::is_run::<ListKeys>(next, rest));
                    assert(rest.len() == 0);
                    assert(undecided(machine, replies) =~= seq![]);
                    assert(names_of(found(machine)) + seq![] =~= names_of(found(machine)));
                },
            }
        },
        _ => {},
    }
}

/// Whether a reply reports the key with a name.
pub open spec fn reports(reply: ReplyView, name: Seq<char>) -> bool {
    match reply {
        ReplyView::Named { address, name: Some(given), .. } => address != 0 && given == name,
        _ => false,
    }
}

/// Whether a key is what reading it yields on the replies from `start` to `end`, right
/// behind the reply that reported it.
pub open spec fn is_read_from(
    key: GeneratedKeyView,
    replies: Seq<ReplyView>,
    start: int,
    end: int,
) -> bool {
    &&& 0 < start <= end <= replies.len()
    &&& reports(replies[start - 1], key.key_id)
    &&& runs::is_run::<LoadKey>(load::loading(key.key_id), replies.subrange(start, end))
    &&& match runs::reached::<LoadKey>(load::loading(key.key_id), replies.subrange(start, end)) {
        ProgressView::Done { output, .. } => output == key,
        _ => false,
    }
}

/// Whether a key is what reading it yields on some of the replies.
pub open spec fn was_read(key: GeneratedKeyView, replies: Seq<ReplyView>) -> bool {
    exists|start: int, end: int| #[trigger] is_read_from(key, replies, start, end)
}

/// Whether each key is what reading it yields on some of the replies.
pub open spec fn were_read(keys: Seq<GeneratedKeyView>, replies: Seq<ReplyView>) -> bool {
    forall|i: int| 0 <= i < keys.len() ==> was_read(#[trigger] keys[i], replies)
}

/// Every listed key is what reading it yields: its description is made of the replies that
/// followed the report of its name.
pub proof fn law_listed_keys_are_read(replies: Seq<ReplyView>)
    requires
        runs::is_run::<ListKeys>(list::listing(), replies),
    ensures
        match runs::reached::<ListKeys>(list::listing(), replies) {
            ProgressView::Done { output, .. } => were_read(output, replies),
            _ => true,
        },
{
    lemma_read(replies);
}

/// Whether a key is being read since the reply before `start` reported it.
spec fn is_reading_since(load: LoadKeyView, replies: Seq<ReplyView>, start: int) -> bool {
    let name = loaded_name(load);
    let seen = replies.subrange(start, replies.len() as int);
    &&& 0 < start <= replies.len()
    &&& reports(replies[start - 1], name)
    &&& laws_generate::loads(load, name)
    &&& runs::is_run::<LoadKey>(load::loading(name), seen)
    &&& match runs::reached::<LoadKey>(load::loading(name), seen) {
        ProgressView::Pending { machine, .. } => machine == load,
        _ => false,
    }
}

/// Whether all that a listing knows was read.
spec fn is_read(
    progress: ProgressView<ListKeysView, Seq<GeneratedKeyView>>,
    replies: Seq<ReplyView>,
) -> bool {
    match progress {
        ProgressView::Pending { machine, .. } => {
            &&& were_read(found(machine), replies)
            &&& match machine {
                ListKeysView::Loading { load, .. } => exists|start: int|
                    is_reading_since(load, replies, start),
                _ => true,
            }
        },
        ProgressView::Done { output, .. } => were_read(output, replies),
        ProgressView::Failed { .. } => true,
    }
}

proof fn lemma_read_remains(keys: Seq<GeneratedKeyView>, replies: Seq<ReplyView>, reply: ReplyView)
    requires
        were_read(keys, replies),
    ensures
        were_read(keys, replies.push(reply)),
{
    let more = replies.push(reply);
    assert forall|i: int| 0 <= i < keys.len() implies was_read(#[trigger] keys[i], more) by {
        let (start, end) = choose|start: int, end: int|
            is_read_from(keys[i], replies, start, end);
        assert(more.subrange(start, end) =~= replies.subrange(start, end));
        assert(more[start - 1] == replies[start - 1]);
        assert(is_read_from(keys[i], more, start, end));
    }
}

proof fn lemma_read(replies: Seq<ReplyView>)
    requires
        runs::is_run::<ListKeys>(list::listing(), replies),
    ensures
        is_read(runs::reached::<ListKeys>(list::listing(), replies), replies),
    decreases replies.len(),
{
    if replies.len() > 0 {
        let state = runs::lemma_last_step::<ListKeys>(list::listing(), replies);
        let before = replies.drop_last();
        let reply = replies.last();
        let next = ListKeys::next(state, reply);
        lemma_read(before);
        assert(before.push(reply) =~= replies);
        lemma_read_remains(found(state), before, reply);
        match (state, reply) {
            (ListKeysView::Loading { load, keys, .. }, _) => {
                let start = choose|start: int| is_reading_since(load, before, start);
                let end = replies.len() as int;
                let name = loaded_name(load);
                let seen = before.subrange(start, before.len() as int);
                assert(replies.subrange(start, end) =~= seen.push(reply));
                assert(replies[start - 1] == before[start - 1]);
                runs::lemma_one_more::<LoadKey>(load::loading(name), seen, reply);
                match LoadKey::next(load, reply) {
                    ProgressView::Pending { machine, .. } => {
                        assert(is_reading_since(machine, replies, start));
                    },
                    ProgressView::Done { output, .. } => {
                        assert(is_read_from(output, replies, start, end));
                        let more = keys.push(output);
                        assert forall|i: int| 0 <= i < more.len() implies was_read(
                            #[trigger] more[i],
                            replies,
                        ) by {
                            if i < keys.len() {
                                assert(more[i] == keys[i]);
                            }
                        }
                    },
                    ProgressView::Failed { .. } => {},
                }
            },
            (
                ListKeysView::Enumerating { .. },
                ReplyView::Named { address, name: Some(name), .. },
            ) => {
                if address != 0 && names::is_managed(name) {
                    let start = replies.len() as int;
                    assert(replies.subrange(start, start) =~= seq![]);
                    match load::loading(name) {
                        ProgressView::Pending { machine, .. } => {
                            assert(is_reading_since(machine, replies, start));
                        },
                        _ => {},
                    }
                }
            },
            _ => {},
        }
    }
}

/// The key that a reading yielded, if it did.
pub open spec fn read_key(
    progress: ProgressView<LoadKeyView, GeneratedKeyView>,
) -> Seq<GeneratedKeyView> {
    match progress {
        ProgressView::Done { output, .. } => seq![output],
        _ => seq![],
    }
}

/// The keys that a listing shows: in the order of their reports, each managed key whose
/// reading, on the replies that follow the report, succeeds.
pub open spec fn listed(replies: Seq<ReplyView>) -> Seq<GeneratedKeyView>
    decreases replies.len(),
{
    if replies.len() == 0 {
        seq![]
    } else {
        let rest = replies.drop_first();
        match replies.first() {
            ReplyView::Named { address, name: Some(name), .. } => if address != 0
                && names::is_managed(name) {
                read_key(runs::reached::<LoadKey>(load::loading(name), rest)) + listed(rest)
            } else {
                listed(rest)
            },
            _ => listed(rest),
        }
    }
}

/// Listing shows exactly the managed keys that the enumeration reported and that could be
/// read, in the order of their reports. What becomes of one key changes nothing for another.
pub proof fn law_listing_is_exact(replies: Seq<ReplyView>)
    requires
        runs::is_run::<ListKeys>(list::listing(), replies),
    ensures
        match runs::reached::<ListKeys>(list::listing(), replies) {
            ProgressView::Done { output, .. } => output == listed(replies),
            _ => true,
        },
{
    if runs::reached::<ListKeys>(list::listing(), replies) is Done {
        lemma_exact(list::listing(), replies);
        let none = Seq::<GeneratedKeyView>::empty();
        assert(none + (none + listed(replies)) =~= listed(replies));
    }
}

/// The key that a reading in progress will yield, if it does.
spec fn outstanding(state: ListKeysView, replies: Seq<ReplyView>) -> Seq<GeneratedKeyView> {
    match state {
        ListKeysView::Loading { load, .. } => if replies.len() == 0 {
            seq![]
        } else {
            read_key(
                runs::reached::<LoadKey>(
                    LoadKey::next(load, replies.first()),
                    replies.drop_first(),
                ),
            )
        },
        _ => seq![],
    }
}

proof fn lemma_exact(
    progress: ProgressView<ListKeysView, Seq<GeneratedKeyView>>,
    replies: Seq<ReplyView>,
)
    requires
        runs::is_run::<ListKeys>(progress, replies),
        progress is Pending,
        runs::reached::<ListKeys>(progress, replies) is Done,
    ensures
        match (progress, runs::reached::<ListKeys>(progress, replies)) {
            (
                ProgressView::Pending { machine, .. },
                ProgressView::Done { output, .. },
            ) => output == found(machine) + (outstanding(machine, replies) + listed(replies)),
            _ => true,
        },
    decreases replies.len(),
{
    match progress {
        ProgressView::Pending { machine, .. } => {
            let next = ListKeys::next(machine, replies.first());
            let rest = replies.drop_first();
            let none = Seq::<GeneratedKeyView>::empty();
            match next {
                ProgressView::Pending { machine: after, .. } => {
                    lemma_exact(next, rest);
                    match (machine, after) {
                        (
                            ListKeysView::Loading { load, keys, .. },
                            ListKeysView::Enumerating { keys: more, .. },
                        ) => {
                            let inner = LoadKey::next(load, replies.first());
                            assert(runs::reached::<LoadKey>(inner, rest) == inner);
                            assert(more =~= keys + read_key(inner));
                            assert(more + (none + listed(rest)) =~= keys + (read_key(inner)
                                + listed(rest)));
                        },
                        (
                            ListKeysView::Loading { load, .. },
                            ListKeysView::Loading { load: later, .. },
                        ) => {
                            let inner = LoadKey::next(load, replies.first());
                            assert(outstanding(after, rest) == read_key(
                                runs::reached::<LoadKey>(inner, rest),
                            ));
                        },
                        (ListKeysView::Enumerating { keys, .. }, ListKeysView::Loading { .. }) => {
                            let name = replies.first()->Named_name->0;
                            assert(outstanding(after, rest) == read_key(
                                runs::reached::<LoadKey>(load::loading(name), rest),
                            ));
                            assert(none + listed(replies) =~= listed(replies));
                        },
                        _ => {
                            assert(none + listed(replies) =~= listed(replies));
                        },
                    }
                },
                _ => {
                    assert(runs::reached::<ListKeys>(next, rest) == next);
                    assert(runs::is_run::<ListKeys>(next, rest));
                    assert(rest.len() == 0);
                    assert(listed(rest) =~= none);
                    assert(found(machine) + (none + none) =~= found(machine));
                },
            }
        },
        _ => {},
    }
}

/// Every managed key that the enumeration reports and whose own reading succeeds is listed,
/// whatever becomes of other keys.
pub proof fn law_readable_keys_are_listed(
    replies: Seq<ReplyView>,
    key: GeneratedKeyView,
    start: int,
    end: int,
)
    requires
        runs::is_run::<ListKeys>(list::listing(), replies),
        runs::reached::<ListKeys>(list::listing(), replies) is Done,
        names::is_managed(key.key_id),
        is_read_from(key, replies, start, end),
    ensures
        match runs::reached::<ListKeys>(list::listing(), replies) {
            ProgressView::Done { output, .. } => output.contains(key),
            _ => false,
        },
{
    let (seen, rest) = (replies.subrange(start, end), replies.skip(end));
    let reading = load::loading(key.key_id);
    assert(replies.skip(start) =~= seen + rest);
    runs::lemma_split::<LoadKey>(reading, seen, rest);
    assert(runs::reached::<LoadKey>(reading, replies.skip(start)) == runs::reached::<LoadKey>(
        reading,
        seen,
    ));
    law_listing_is_exact(replies);
    lemma_listed(replies, key, start);
}

proof fn lemma_listed(replies: Seq<ReplyView>, key: GeneratedKeyView, start: int)
    requires
        0 < start <= replies.len(),
        reports(replies[start - 1], key.key_id),
        names::is_managed(key.key_id),
        match runs::reached::<LoadKey>(load::loading(key.key_id), replies.skip(start)) {
            ProgressView::Done { output, .. } => output == key,
            _ => false,
        },
    ensures
        listed(replies).contains(key),
    decreases start,
{
    let rest = replies.drop_first();
    if start == 1 {
        assert(replies.skip(1) =~= rest);
        assert(listed(replies) == seq![key] + listed(rest));
        assert(listed(replies)[0] == key);
    } else {
        assert(replies.skip(start) =~= rest.skip(start - 1));
        assert(rest[start - 2] == replies[start - 1]);
        lemma_listed(rest, key, start - 1);
        let i = choose|i: int| 0 <= i < listed(rest).len() && listed(rest)[i] == key;
        let n = listed(replies).len() - listed(rest).len();
        assert(listed(replies)[n + i] == key);
    }
}

/// Every managed key that the enumeration reports is read. When the reading has ended, the
/// enumeration goes on with the key in the list if it could be read, and without it if not.
pub proof fn law_listing_reads_each_key(
    provider: usize,
    cursor: usize,
    address: usize,
    keys: Seq<GeneratedKeyView>,
    name: Seq<char>,
    replies: Seq<ReplyView>,
)
    requires
        address != 0,
        names::is_managed(name),
        runs::is_run::<LoadKey>(load::loading(name), replies),
        !(runs::reached::<LoadKey>(load::loading(name), replies) is Pending),
    ensures
        ({
            let read = runs::reached::<LoadKey>(load::loading(name), replies);
            runs::reached::<ListKeys>(
                ListKeys::next(
                    ListKeysView::Enumerating { provider, keys },
                    ReplyView::Named { cursor, address, name: Some(name) },
                ),
                replies,
            ) == list::enumerating(
                read.release(),
                provider,
                cursor,
                match read {
                    ProgressView::Done { output, .. } => keys.push(output),
                    _ => keys,
                },
            )
        }),
{
    let outer = ListKeys::next(
        ListKeysView::Enumerating { provider, keys },
        ReplyView::Named { cursor, address, name: Some(name) },
    );
    assert(replies.len() > 0);
    lemma_reading(provider, cursor, keys, outer, load::loading(name), replies);
}

proof fn lemma_reading(
    provider: usize,
    cursor: usize,
    keys: Seq<GeneratedKeyView>,
    outer: ProgressView<ListKeysView, Seq<GeneratedKeyView>>,
    inner: ProgressView<LoadKeyView, GeneratedKeyView>,
    replies: Seq<ReplyView>,
)
    requires
        runs::is_run::<LoadKey>(inner, replies),
        !(runs::reached::<LoadKey>(inner, replies) is Pending),
        replies.len() > 0,
        match (outer, inner) {
            (
                ProgressView::Pending { machine: state, .. },
                ProgressView::Pending { machine: load, .. },
            ) => state == (ListKeysView::Loading { provider, cursor, keys, load }),
            _ => false,
        },
    ensures
        runs::reached::<ListKeys>(outer, replies) == list::after_load(
            provider,
            cursor,
            keys,
            runs::reached::<LoadKey>(inner, replies),
        ),
    decreases replies.len(),
{
    match inner {
        ProgressView::Pending { machine: load, .. } => {
            let rest = replies.drop_first();
            let next_inner = LoadKey::next(load, replies.first());
            let next_outer = list::after_load(provider, cursor, keys, next_inner);
            assert(runs::reached::<ListKeys>(outer, replies) == runs::reached::<ListKeys>(
                next_outer,
                rest,
            ));
            if next_inner is Pending {
                lemma_reading(provider, cursor, keys, next_outer, next_inner, rest);
            } else {
                assert(runs::is_run::<LoadKey>(next_inner, rest));
                assert(rest.len() == 0);
            }
        },
        _ => {},
    }
}

/// A listing fails only where the provider cannot be opened: no key that cannot be read makes
/// it fail. An enumeration that breaks off is reported as ended, and ends the list.
pub proof fn law_listing_fails_only_without_provider(replies: Seq<ReplyView>)
    requires
        runs::is_run::<ListKeys>(list::listing(), replies),
    ensures
        runs::reached::<ListKeys>(list::listing(), replies) is Failed <==> replies.len() > 0
            && replies.first() is Failed,
{
    if replies.len() > 0 {
        let next = ListKeys::next(ListKeysView::Opening, replies.first());
        let rest = replies.drop_first();
        assert(runs::reached::<ListKeys>(list::listing(), replies) == runs::reached::<ListKeys>(
            next,
            rest,
        ));
        if next is Pending {
            lemma_never_fails(next, rest);
        }
    }
}

proof fn lemma_never_fails(
    progress: ProgressView<ListKeysView, Seq<GeneratedKeyView>>,
    replies: Seq<ReplyView>,
)
    requires
        runs::is_run::<ListKeys>(progress, replies),
        match progress {
            ProgressView::Pending { machine, .. } => !(machine is Opening),
            ProgressView::Done { .. } => true,
            ProgressView::Failed { .. } => false,
        },
    ensures
        !(runs::reached::<ListKeys>(progress, replies) is Failed),
    decreases replies.len(),
{
    match progress {
        ProgressView::Pending { machine, .. } => {
            if replies.len() > 0 {
                lemma_never_fails(
                    ListKeys::next(machine, replies.first()),
                    replies.drop_first(),
                );
            }
        },
        _ => {},
    }
}

} // verus!
