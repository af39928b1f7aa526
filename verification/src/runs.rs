//! Whole conversations: what an operation did after a number of replies.
use vstd::multiset::Multiset;
use vstd::prelude::*;

use crate::protocol::{CallView, Machine, ProgressView, ReplyView, Resource};

verus! {

/// Whether each reply in turn answers the call that the operation waits on.
pub open spec fn is_run<M: Machine>(
    progress: ProgressView<M::V, <M::Output as DeepView>::V>,
    replies: Seq<ReplyView>,
) -> bool
    decreases replies.len(),
{
    if replies.len() == 0 {
        true
    } else {
        match progress {
            ProgressView::Pending { machine, .. } => {
                &&& replies.first().answers(M::awaits(machine))
                &&& is_run::<M>(M::next(machine, replies.first()), replies.drop_first())
            },
            _ => false,
        }
    }
}

/// Where the operation stands after the replies.
pub open spec fn reached<M: Machine>(
    progress: ProgressView<M::V, <M::Output as DeepView>::V>,
    replies: Seq<ReplyView>,
) -> ProgressView<M::V, <M::Output as DeepView>::V>
    decreases replies.len(),
{
    if replies.len() == 0 {
        progress
    } else {
        match progress {
            ProgressView::Pending { machine, .. } => reached::<M>(
                M::next(machine, replies.first()),
                replies.drop_first(),
            ),
            _ => progress,
        }
    }
}

/// The calls that the operation asked for, in order.
pub open spec fn calls<M: Machine>(
    progress: ProgressView<M::V, <M::Output as DeepView>::V>,
    replies: Seq<ReplyView>,
) -> Seq<CallView>
    decreases replies.len(),
{
    match progress {
        ProgressView::Pending { call, machine, .. } => if replies.len() == 0 {
            seq![call]
        } else {
            seq![call] + calls::<M>(M::next(machine, replies.first()), replies.drop_first())
        },
        _ => seq![],
    }
}

/// The resources that the operation gave back, in order.
pub open spec fn released<M: Machine>(
    progress: ProgressView<M::V, <M::Output as DeepView>::V>,
    replies: Seq<ReplyView>,
) -> Seq<Resource>
    decreases replies.len(),
{
    match progress {
        ProgressView::Pending { release, machine, .. } => if replies.len() == 0 {
            release
        } else {
            release + released::<M>(M::next(machine, replies.first()), replies.drop_first())
        },
        _ => progress.release(),
    }
}

/// The resources that came with the replies.
pub open spec fn brought(replies: Seq<ReplyView>) -> Multiset<Resource>
    decreases replies.len(),
{
    if replies.len() == 0 {
        Multiset::empty()
    } else {
        replies.first().brings().to_multiset().add(brought(replies.drop_first()))
    }
}

/// The resources that were surrendered to the calls.
pub open spec fn surrendered(calls: Seq<CallView>) -> Multiset<Resource>
    decreases calls.len(),
{
    if calls.len() == 0 {
        Multiset::empty()
    } else {
        calls.first().surrenders().to_multiset().add(surrendered(calls.drop_first()))
    }
}

/// What the operation still owns, or has passed to its caller with the output.
pub open spec fn remaining<M: Machine>(
    progress: ProgressView<M::V, <M::Output as DeepView>::V>,
) -> Multiset<Resource> {
    match progress {
        ProgressView::Pending { machine, .. } => M::held(machine),
        ProgressView::Done { output, .. } => M::yielded(output),
        ProgressView::Failed { .. } => Multiset::empty(),
    }
}

/// Whether an operation begins with nothing of the system's: it gives nothing back, and
/// its first call takes nothing.
pub open spec fn starts_clean<M: Machine>(
    progress: ProgressView<M::V, <M::Output as DeepView>::V>,
) -> bool {
    match progress {
        ProgressView::Pending { release, call, machine } => {
            &&& release.len() == 0
            &&& call.uses().len() == 0
            &&& call.surrenders().len() == 0
            &&& M::held(machine) == Multiset::<Resource>::empty()
            &&& call.kind() == M::awaits(machine)
        },
        ProgressView::Done { release, output } => {
            &&& release.len() == 0
            &&& M::yielded(output) == Multiset::<Resource>::empty()
        },
        ProgressView::Failed { release, .. } => release.len() == 0,
    }
}

/// Whether everything that came with the replies was given back or surrendered to a call.
pub open spec fn is_even<M: Machine>(
    progress: ProgressView<M::V, <M::Output as DeepView>::V>,
    replies: Seq<ReplyView>,
) -> bool {
    brought(replies) == released::<M>(progress, replies).to_multiset().add(
        surrendered(calls::<M>(progress, replies)),
    )
}

/// What a progress accounts for at its own point of the conversation.
pub open spec fn settled<M: Machine>(
    progress: ProgressView<M::V, <M::Output as DeepView>::V>,
) -> Multiset<Resource> {
    match progress {
        ProgressView::Pending { release, call, machine } => release.to_multiset().add(
            call.surrenders().to_multiset(),
        ).add(M::held(machine)),
        _ => progress.release().to_multiset().add(remaining::<M>(progress)),
    }
}

proof fn lemma_count(
    a: Multiset<Resource>,
    b: Multiset<Resource>,
    c: Multiset<Resource>,
    x: Resource,
)
    ensures
        a.add(b).add(c).count(x) == a.count(x) + b.count(x) + c.count(x),
{
}

proof fn lemma_regroup(
    r: Multiset<Resource>,
    s: Multiset<Resource>,
    h: Multiset<Resource>,
    b: Multiset<Resource>,
    later_b: Multiset<Resource>,
    later_r: Multiset<Resource>,
    later_s: Multiset<Resource>,
    k: Multiset<Resource>,
)
    requires
        h.add(b).add(later_b) == later_r.add(later_s).add(k),
    ensures
        r.add(s).add(h).add(b.add(later_b)) == r.add(later_r).add(s.add(later_s)).add(k),
{
    assert forall|x: Resource|
        r.add(s).add(h).add(b.add(later_b)).count(x) == r.add(later_r).add(s.add(later_s)).add(
            k,
        ).count(x) by {
        lemma_count(h, b, later_b, x);
        lemma_count(later_r, later_s, k, x);
    }
    assert(r.add(s).add(h).add(b.add(later_b)) =~= r.add(later_r).add(s.add(later_s)).add(k));
}

proof fn lemma_balance<M: Machine>(
    progress: ProgressView<M::V, <M::Output as DeepView>::V>,
    replies: Seq<ReplyView>,
)
    requires
        is_run::<M>(progress, replies),
    ensures
        settled::<M>(progress).add(brought(replies)) == released::<M>(
            progress,
            replies,
        ).to_multiset().add(surrendered(calls::<M>(progress, replies))).add(
            remaining::<M>(reached::<M>(progress, replies)),
        ),
    decreases replies.len(),
{
    match progress {
        ProgressView::Pending { release, call, machine } => {
            assert(seq![call].drop_first() =~= Seq::<CallView>::empty());
            if replies.len() == 0 {
                assert(surrendered(seq![call]) =~= call.surrenders().to_multiset()) by {
                    reveal_with_fuel(surrendered, 2);
                }
                assert(settled::<M>(progress).add(brought(replies)) =~= released::<M>(
                    progress,
                    replies,
                ).to_multiset().add(surrendered(calls::<M>(progress, replies))).add(
                    remaining::<M>(reached::<M>(progress, replies)),
                ));
            } else {
                let reply = replies.first();
                let rest = replies.drop_first();
                let next = M::next(machine, reply);
                M::law_step(machine, reply);
                lemma_balance::<M>(next, rest);
                let later = calls::<M>(next, rest);
                assert((seq![call] + later).drop_first() =~= later);
                assert((seq![call] + later).first() == call);
                crate::protocol::lemma_joined_resources(release, released::<M>(next, rest));
                assert(calls::<M>(progress, replies) == seq![call] + later);
                assert(surrendered(seq![call] + later) == call.surrenders().to_multiset().add(
                    surrendered(later),
                ));
                assert(released::<M>(progress, replies) == release + released::<M>(next, rest));
                assert(reached::<M>(progress, replies) == reached::<M>(next, rest));
                assert(brought(replies) == reply.brings().to_multiset().add(brought(rest)));
                assert(M::held(machine).add(reply.brings().to_multiset()) == settled::<M>(next));
                lemma_regroup(
                    release.to_multiset(),
                    call.surrenders().to_multiset(),
                    M::held(machine),
                    reply.brings().to_multiset(),
                    brought(rest),
                    released::<M>(next, rest).to_multiset(),
                    surrendered(later),
                    remaining::<M>(reached::<M>(next, rest)),
                );
            }
        },
        _ => {
            assert(settled::<M>(progress).add(brought(replies)) =~= released::<M>(
                progress,
                replies,
            ).to_multiset().add(surrendered(calls::<M>(progress, replies))).add(
                remaining::<M>(reached::<M>(progress, replies)),
            ));
        },
    }
}

/// Whatever the system replies, an operation loses none of its resources and gives none
/// back twice: at every point of the conversation, what came with the replies has been
/// given back, surrendered to a call, passed to the caller, or is still held.
pub proof fn law_resources_balance<M: Machine>(
    progress: ProgressView<M::V, <M::Output as DeepView>::V>,
    replies: Seq<ReplyView>,
)
    requires
        starts_clean::<M>(progress),
        is_run::<M>(progress, replies),
    ensures
        brought(replies) == released::<M>(progress, replies).to_multiset().add(
            surrendered(calls::<M>(progress, replies)),
        ).add(remaining::<M>(reached::<M>(progress, replies))),
{
    lemma_balance::<M>(progress, replies);
    crate::protocol::lemma_no_resources();
    assert(progress.release() =~= seq![]);
    match progress {
        ProgressView::Pending { call, .. } => {
            assert(call.surrenders() =~= seq![]);
        },
        _ => {},
    }
    assert(settled::<M>(progress) =~= Multiset::empty());
    assert(settled::<M>(progress).add(brought(replies)) =~= brought(replies));
}

/// An operation that ends with nothing in hand has given back, or surrendered, all that it
/// took.
pub proof fn law_nothing_is_kept<M: Machine>(
    progress: ProgressView<M::V, <M::Output as DeepView>::V>,
    replies: Seq<ReplyView>,
)
    requires
        starts_clean::<M>(progress),
        is_run::<M>(progress, replies),
        remaining::<M>(reached::<M>(progress, replies)) == Multiset::<Resource>::empty(),
    ensures
        is_even::<M>(progress, replies),
{
    law_resources_balance::<M>(progress, replies);
    let given = released::<M>(progress, replies).to_multiset().add(
        surrendered(calls::<M>(progress, replies)),
    );
    assert(given.add(Multiset::empty()) =~= given);
}

/// No call works on a resource that was given back: at every point of the conversation,
/// what the pending call works on is still held or surrendered to that call. And the
/// reply that the call gets is one that the operation can take.
pub proof fn law_calls_use_what_is_held<M: Machine>(
    progress: ProgressView<M::V, <M::Output as DeepView>::V>,
    replies: Seq<ReplyView>,
)
    requires
        starts_clean::<M>(progress),
        is_run::<M>(progress, replies),
    ensures
        match reached::<M>(progress, replies) {
            ProgressView::Pending { call, machine, .. } => {
                &&& call.uses().to_multiset().subset_of(
                    call.surrenders().to_multiset().add(M::held(machine)),
                )
                &&& call.kind() == M::awaits(machine)
            },
            _ => true,
        },
{
    match progress {
        ProgressView::Pending { call, machine, .. } => {
            crate::protocol::lemma_no_resources();
            assert(call.uses() =~= seq![]);
            if replies.len() > 0 {
                M::law_step(machine, replies.first());
                lemma_uses::<M>(M::next(machine, replies.first()), replies.drop_first());
            }
        },
        _ => {},
    }
}

proof fn lemma_uses<M: Machine>(
    progress: ProgressView<M::V, <M::Output as DeepView>::V>,
    replies: Seq<ReplyView>,
)
    requires
        is_run::<M>(progress, replies),
        match progress {
            ProgressView::Pending { call, machine, .. } => {
                &&& call.uses().to_multiset().subset_of(
                    call.surrenders().to_multiset().add(M::held(machine)),
                )
                &&& call.kind() == M::awaits(machine)
            },
            _ => true,
        },
    ensures
        match reached::<M>(progress, replies) {
            ProgressView::Pending { call, machine, .. } => {
                &&& call.uses().to_multiset().subset_of(
                    call.surrenders().to_multiset().add(M::held(machine)),
                )
                &&& call.kind() == M::awaits(machine)
            },
            _ => true,
        },
    decreases replies.len(),
{
    if replies.len() > 0 {
        match progress {
            ProgressView::Pending { machine, .. } => {
                M::law_step(machine, replies.first());
                lemma_uses::<M>(M::next(machine, replies.first()), replies.drop_first());
            },
            _ => {},
        }
    }
}

/// Whether the replies are those of a system, which answers each call by the calls so far.
pub open spec fn is_served_by<M: Machine>(
    progress: ProgressView<M::V, <M::Output as DeepView>::V>,
    replies: Seq<ReplyView>,
    system: spec_fn(Seq<CallView>) -> ReplyView,
) -> bool {
    forall|i: int|
        0 <= i < replies.len() ==> #[trigger] replies[i] == system(
            calls::<M>(progress, replies).take(i + 1),
        )
}

/// A conversation goes on with what the machine makes of the first reply.
pub proof fn lemma_first_step<M: Machine>(
    progress: ProgressView<M::V, <M::Output as DeepView>::V>,
    reply: ReplyView,
    rest: Seq<ReplyView>,
)
    requires
        progress is Pending,
    ensures
        match progress {
            ProgressView::Pending { release, call, machine } => {
                let replies = seq![reply] + rest;
                let next = M::next(machine, reply);
                &&& is_run::<M>(progress, replies) <==> reply.answers(M::awaits(machine))
                    && is_run::<M>(next, rest)
                &&& released::<M>(progress, replies) == release + released::<M>(next, rest)
                &&& calls::<M>(progress, replies) == seq![call] + calls::<M>(next, rest)
                &&& reached::<M>(progress, replies) == reached::<M>(next, rest)
            },
            _ => true,
        },
{
    let replies = seq![reply] + rest;
    assert(replies.first() == reply);
    assert(replies.drop_first() =~= rest);
}

/// What is left of a few replies when the first is taken.
pub proof fn lemma_few_replies(
    a: ReplyView,
    b: ReplyView,
    c: ReplyView,
    d: ReplyView,
    e: ReplyView,
)
    ensures
        seq![a].drop_first() == Seq::<ReplyView>::empty(),
        seq![a, b].drop_first() == seq![b],
        seq![a, b, c].drop_first() == seq![b, c],
        seq![a, b, c, d].drop_first() == seq![b, c, d],
        seq![a, b, c, d, e].drop_first() == seq![b, c, d, e],
{
    assert(seq![a].drop_first() =~= Seq::<ReplyView>::empty());
    assert(seq![a, b].drop_first() =~= seq![b]);
    assert(seq![a, b, c].drop_first() =~= seq![b, c]);
    assert(seq![a, b, c, d].drop_first() =~= seq![b, c, d]);
    assert(seq![a, b, c, d, e].drop_first() =~= seq![b, c, d, e]);
}

/// A property of the machine that every step keeps holds throughout: of every call that
/// is asked for, and of the point that the conversation reaches.
pub proof fn lemma_invariant<M: Machine>(
    progress: ProgressView<M::V, <M::Output as DeepView>::V>,
    replies: Seq<ReplyView>,
    keeps: spec_fn(M::V) -> bool,
    allows: spec_fn(CallView) -> bool,
    accepts: spec_fn(<M::Output as DeepView>::V) -> bool,
)
    requires
        is_run::<M>(progress, replies),
        holds_at::<M>(progress, keeps, allows, accepts),
        forall|state: M::V, reply: ReplyView|
            keeps(state) && reply.answers(M::awaits(state)) ==> holds_at::<M>(
                #[trigger] M::next(state, reply),
                keeps,
                allows,
                accepts,
            ),
    ensures
        forall|i: int|
            0 <= i < calls::<M>(progress, replies).len() ==> allows(
                #[trigger] calls::<M>(progress, replies)[i],
            ),
        holds_at::<M>(reached::<M>(progress, replies), keeps, allows, accepts),
    decreases replies.len(),
{
    match progress {
        ProgressView::Pending { call, machine, .. } => {
            if replies.len() > 0 {
                let next = M::next(machine, replies.first());
                let rest = replies.drop_first();
                lemma_invariant::<M>(next, rest, keeps, allows, accepts);
                let later = calls::<M>(next, rest);
                assert forall|i: int| 0 <= i < calls::<M>(progress, replies).len() implies allows(
                    #[trigger] calls::<M>(progress, replies)[i],
                ) by {
                    if i > 0 {
                        assert(calls::<M>(progress, replies)[i] == later[i - 1]);
                    }
                }
            }
        },
        _ => {},
    }
}

/// What a property says at one point of the conversation.
pub open spec fn holds_at<M: Machine>(
    progress: ProgressView<M::V, <M::Output as DeepView>::V>,
    keeps: spec_fn(M::V) -> bool,
    allows: spec_fn(CallView) -> bool,
    accepts: spec_fn(<M::Output as DeepView>::V) -> bool,
) -> bool {
    match progress {
        ProgressView::Pending { call, machine, .. } => keeps(machine) && allows(call),
        ProgressView::Done { output, .. } => accepts(output),
        ProgressView::Failed { .. } => true,
    }
}

/// The point that a conversation reaches is what the machine made of the last reply.
pub proof fn lemma_last_step<M: Machine>(
    progress: ProgressView<M::V, <M::Output as DeepView>::V>,
    replies: Seq<ReplyView>,
) -> (state: M::V)
    requires
        is_run::<M>(progress, replies),
        replies.len() > 0,
    ensures
        replies.last().answers(M::awaits(state)),
        reached::<M>(progress, replies) == M::next(state, replies.last()),
        is_run::<M>(progress, replies.drop_last()),
        match reached::<M>(progress, replies.drop_last()) {
            ProgressView::Pending { machine, .. } => machine == state,
            _ => false,
        },
    decreases replies.len(),
{
    match progress {
        ProgressView::Pending { machine, .. } => {
            let next = M::next(machine, replies.first());
            let rest = replies.drop_first();
            if rest.len() == 0 {
                assert(reached::<M>(next, rest) == next);
                machine
            } else {
                let before = replies.drop_last();
                assert(rest.last() == replies.last());
                assert(before.drop_first() =~= rest.drop_last());
                assert(before.first() == replies.first());
                let state = lemma_last_step::<M>(next, rest);
                assert(is_run::<M>(progress, before) == (replies.first().answers(M::awaits(machine))
                    && is_run::<M>(next, rest.drop_last())));
                assert(reached::<M>(progress, before) == reached::<M>(next, rest.drop_last()));
                state
            }
        },
        _ => arbitrary(),
    }
}

/// A conversation that waits goes on with one more reply.
pub proof fn lemma_one_more<M: Machine>(
    progress: ProgressView<M::V, <M::Output as DeepView>::V>,
    replies: Seq<ReplyView>,
    reply: ReplyView,
)
    requires
        is_run::<M>(progress, replies),
        match reached::<M>(progress, replies) {
            ProgressView::Pending { machine, .. } => reply.answers(M::awaits(machine)),
            _ => false,
        },
    ensures
        is_run::<M>(progress, replies.push(reply)),
        match reached::<M>(progress, replies) {
            ProgressView::Pending { machine, .. } => reached::<M>(progress, replies.push(reply))
                == M::next(machine, reply),
            _ => false,
        },
    decreases replies.len(),
{
    let more = replies.push(reply);
    match progress {
        ProgressView::Pending { machine, .. } => {
            if replies.len() == 0 {
                let next = M::next(machine, reply);
                assert(more.drop_first() =~= seq![]);
                assert(is_run::<M>(next, seq![]));
                assert(reached::<M>(next, seq![]) == next);
            } else {
                let next = M::next(machine, replies.first());
                assert(more.drop_first() =~= replies.drop_first().push(reply));
                assert(more.first() == replies.first());
                lemma_one_more::<M>(next, replies.drop_first(), reply);
            }
        },
        _ => {},
    }
}

/// A conversation can be taken in two parts.
pub proof fn lemma_split<M: Machine>(
    progress: ProgressView<M::V, <M::Output as DeepView>::V>,
    replies: Seq<ReplyView>,
    more: Seq<ReplyView>,
)
    ensures
        reached::<M>(progress, replies + more) == reached::<M>(
            reached::<M>(progress, replies),
            more,
        ),
        is_run::<M>(progress, replies + more) <==> is_run::<M>(progress, replies) && is_run::<M>(
            reached::<M>(progress, replies),
            more,
        ),
    decreases replies.len(),
{
    let all = replies + more;
    if replies.len() == 0 {
        assert(all =~= more);
    } else {
        assert(all.first() == replies.first());
        assert(all.drop_first() =~= replies.drop_first() + more);
        match progress {
            ProgressView::Pending { machine, .. } => {
                lemma_split::<M>(
                    M::next(machine, replies.first()),
                    replies.drop_first(),
                    more,
                );
            },
            _ => {},
        }
    }
}

/// Where every step lowers a rank, the rank bounds the number of calls.
pub proof fn lemma_bounded<M: Machine>(
    progress: ProgressView<M::V, <M::Output as DeepView>::V>,
    replies: Seq<ReplyView>,
    rank: spec_fn(M::V) -> nat,
)
    requires
        is_run::<M>(progress, replies),
        forall|state: M::V| #[trigger] rank(state) > 0,
        forall|state: M::V, reply: ReplyView|
            reply.answers(M::awaits(state)) ==> rank_of::<M>(
                #[trigger] M::next(state, reply),
                rank,
            ) < rank(state),
    ensures
        calls::<M>(progress, replies).len() <= rank_of::<M>(progress, rank),
    decreases replies.len(),
{
    match progress {
        ProgressView::Pending { machine, .. } => {
            if replies.len() > 0 {
                lemma_bounded::<M>(
                    M::next(machine, replies.first()),
                    replies.drop_first(),
                    rank,
                );
            }
        },
        _ => {},
    }
}

/// The rank of a progress: none is left where the operation has ended.
pub open spec fn rank_of<M: Machine>(
    progress: ProgressView<M::V, <M::Output as DeepView>::V>,
    rank: spec_fn(M::V) -> nat,
) -> nat {
    match progress {
        ProgressView::Pending { machine, .. } => rank(machine),
        _ => 0,
    }
}

} // verus!
