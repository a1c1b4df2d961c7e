//! What holds of the store whatever is asked of it.

use crate::errors::{CreateMessageErrorView, GetMessageErrorView};
use crate::message::{CreateMessageRequestView, MessageView};
use crate::model::{
    lemma_filter_keeps_order, lemma_first_index, lemma_first_index_is, lemma_first_index_none,
    lemma_position, lemma_position_of, lemma_position_same_names, lemma_store_swept, QueueView,
    StoreView,
};
use crate::options::{GetMessageAction, OptionsView};
use crate::time::{Instant, NANOS_PER_SECOND};
use vstd::prelude::*;

verus! {

/// Whether `msg` is available at `now`: nobody holds it and it has not
/// expired.
pub open spec fn is_available(msg: MessageView, now: Instant) -> bool {
    !msg.is_reserved(now) && !msg.is_expired(now)
}

/// Whether the request carries no filter.
pub open spec fn is_unfiltered(opts: OptionsView) -> bool {
    opts.mid is None && opts.cid is None && opts.cursor is None
}

/// A request for a message leaves the store in order, with the same
/// queues under the same names: no queue is made or dropped, and in each
/// queue the places still go up from the front to the back, none beyond
/// the last one handed out.
pub proof fn law_select_keeps_order(store: StoreView, opts: OptionsView, now: Instant)
    requires
        store.valid(),
    ensures
        store.select(opts, now).0.valid(),
        store.select(opts, now).0.names() == store.names(),
        forall|q: int|
            0 <= q < store.queues.len() ==> (#[trigger] store.select(opts, now).0.queues[q]).max_serial
                == store.queues[q].max_serial,
{
    lemma_position(store, opts.queue_name);
    if store.position(opts.queue_name) is Some {
        let q = store.position(opts.queue_name)->0;
        lemma_first_index(store.queues[q].messages, |m: MessageView| opts.matches(m, now));
    }
}

/// Creating a message leaves the store in order: no two queues share a
/// name, and in each queue the places go up from the front to the back,
/// none beyond the last one handed out.  No queue is dropped, not even an
/// empty one; the queue of the new message is there afterwards, made at
/// the end if it was not there before.
pub proof fn law_create_keeps_order(
    store: StoreView,
    name: Seq<char>,
    req: CreateMessageRequestView,
    mid: u128,
    now: Instant,
)
    requires
        store.valid(),
    ensures
        store.create(name, req, mid, now).0.valid(),
        store.names().is_prefix_of(store.create(name, req, mid, now).0.names()),
        store.create(name, req, mid, now).1 is Ok ==> store.create(name, req, mid, now).0.has_queue(
            name,
        ),
        store.has_queue(name) ==> store.create(name, req, mid, now).0.names() == store.names(),
        !store.has_queue(name) ==> store.create(name, req, mid, now).0.names() == store.names().push(
            name,
        ),
{
    let swept = store.swept(now);
    let after = store.create(name, req, mid, now).0;
    lemma_store_swept(store, now);
    lemma_position(swept, name);
    match swept.position(name) {
        None => {
            lemma_position_of(after, swept.queues.len() as int);
        },
        Some(q) => {
            if swept.queues[q].max_serial < usize::MAX {
                lemma_position_same_names(after, swept, name);
            }
        },
    }
}

/// Whether `after` is `before` but for who holds it: the same identifiers,
/// payload, place and end of life.
pub open spec fn is_same_message(before: MessageView, after: MessageView) -> bool {
    after == (MessageView { reservation: after.reservation, ..before })
}

/// Whether `msg` is one of `messages`, but for who holds it.
pub open spec fn was_stored(messages: Seq<MessageView>, msg: MessageView) -> bool {
    exists|j: int| 0 <= j < messages.len() && is_same_message(#[trigger] messages[j], msg)
}

/// A request for a message makes no message and changes none but in who
/// holds it: every message stored afterwards was stored before, in the
/// same queue, with the same identifiers, payload, place and end of life.
pub proof fn law_messages_keep_their_identity(store: StoreView, opts: OptionsView, now: Instant)
    requires
        store.valid(),
    ensures
        store.select(opts, now).0.queues.len() == store.queues.len(),
        forall|q: int, k: int|
            0 <= q < store.queues.len() && 0 <= k < store.select(
                opts,
                now,
            ).0.queues[q].messages.len() ==> was_stored(
                store.queues[q].messages,
                #[trigger] store.select(opts, now).0.queues[q].messages[k],
            ),
{
    let after = store.select(opts, now).0;
    lemma_position(store, opts.queue_name);
    assert forall|q: int, k: int|
        0 <= q < store.queues.len() && 0 <= k < after.queues[q].messages.len() implies was_stored(
        store.queues[q].messages,
        #[trigger] after.queues[q].messages[k],
    ) by {
        let messages = store.queues[q].messages;
        if store.position(opts.queue_name) == Some(q) && store.queues[q].first_match(opts, now)
            is Some {
            lemma_first_index(messages, |m: MessageView| opts.matches(m, now));
            let i = store.queues[q].first_match(opts, now)->0;
            if after.queues[q].messages.len() < messages.len() && k >= i {
                assert(is_same_message(messages[k + 1], after.queues[q].messages[k]));
            } else {
                assert(is_same_message(messages[k], after.queues[q].messages[k]));
            }
        } else {
            assert(is_same_message(messages[k], after.queues[q].messages[k]));
        }
    }
}

/// Creating a message sweeps the store: of the messages stored afterwards,
/// none but the new one has expired at that moment, and each of the others
/// was stored before, unchanged and in the same queue.
pub proof fn law_create_sweeps(
    store: StoreView,
    name: Seq<char>,
    req: CreateMessageRequestView,
    mid: u128,
    now: Instant,
)
    requires
        store.valid(),
        store.create(name, req, mid, now).1 is Ok,
    ensures
        forall|q: int, k: int|
            #![trigger store.create(name, req, mid, now).0.queues[q].messages[k]]
            0 <= q < store.queues.len() && 0 <= k < store.create(
                name,
                req,
                mid,
                now,
            ).0.queues[q].messages.len() ==> {
                let msg = store.create(name, req, mid, now).0.queues[q].messages[k];
                ||| msg == store.create(name, req, mid, now).1->Ok_0
                ||| !msg.is_expired(now) && store.queues[q].messages.contains(msg)
            },
{
    let swept = store.swept(now);
    let after = store.create(name, req, mid, now).0;
    lemma_position(swept, name);
    assert forall|q: int, k: int|
        #![trigger after.queues[q].messages[k]]
        0 <= q < store.queues.len() && 0 <= k < after.queues[q].messages.len() implies {
        let msg = after.queues[q].messages[k];
        ||| msg == store.create(name, req, mid, now).1->Ok_0
        ||| !msg.is_expired(now) && store.queues[q].messages.contains(msg)
    } by {
        lemma_filter_keeps_order(store.queues[q].messages, |m: MessageView| !m.is_expired(now));
        let kept = swept.queues[q].messages;
        if k < kept.len() {
            assert(after.queues[q].messages[k] == kept[k]);
        }
    }
}

/// A peek never changes the store, so the same peek at the same moment
/// gives the same answer again, however often it is repeated.
pub proof fn law_peek_changes_nothing(store: StoreView, opts: OptionsView, now: Instant)
    requires
        opts.action == GetMessageAction::Browse,
    ensures
        store.select(opts, now).0 == store,
        store.select(opts, now).0.select(opts, now) == store.select(opts, now),
{
    match store.position(opts.queue_name) {
        None => {},
        Some(q) => {
            match store.queues[q].first_match(opts, now) {
                None => {},
                Some(i) => {
                    lemma_position(store, opts.queue_name);
                    assert(store.queues.update(q, store.queues[q]) =~= store.queues);
                },
            }
        },
    }
}

/// Oldest first: the message that a request is answered with is one that
/// the request selects, and no message that it selects stands at a lower
/// place.  The answer is that there is no message only where the request
/// selects none.
pub proof fn law_oldest_first(store: StoreView, opts: OptionsView, now: Instant)
    requires
        store.valid(),
        store.has_queue(opts.queue_name),
    ensures
        match store.select(opts, now).1 {
            Ok(msg) => {
                &&& exists|i: int|
                    0 <= i < store.queue(opts.queue_name).messages.len() && opts.matches(
                        #[trigger] store.queue(opts.queue_name).messages[i],
                        now,
                    ) && store.queue(opts.queue_name).messages[i].cursor == msg.cursor
                &&& forall|k: int|
                    0 <= k < store.queue(opts.queue_name).messages.len() && opts.matches(
                        #[trigger] store.queue(opts.queue_name).messages[k],
                        now,
                    ) ==> msg.cursor <= store.queue(opts.queue_name).messages[k].cursor
            },
            Err(e) => {
                &&& e == GetMessageErrorView::NoMessage(opts.queue_name)
                &&& forall|k: int|
                    0 <= k < store.queue(opts.queue_name).messages.len() ==> !opts.matches(
                        #[trigger] store.queue(opts.queue_name).messages[k],
                        now,
                    )
            },
        },
{
    let q = store.position(opts.queue_name)->0;
    lemma_position(store, opts.queue_name);
    let queue = store.queues[q];
    lemma_first_index(queue.messages, |m: MessageView| opts.matches(m, now));
}

/// First in, first out: a peek, take or lease without filters is answered
/// with the available message at the lowest place, and finds no message
/// only where none is available.
pub proof fn law_fifo_without_filters(store: StoreView, opts: OptionsView, now: Instant)
    requires
        store.valid(),
        store.has_queue(opts.queue_name),
        opts.action.reads(),
        is_unfiltered(opts),
    ensures
        match store.select(opts, now).1 {
            Ok(msg) => forall|k: int|
                0 <= k < store.queue(opts.queue_name).messages.len() && is_available(
                    #[trigger] store.queue(opts.queue_name).messages[k],
                    now,
                ) ==> msg.cursor <= store.queue(opts.queue_name).messages[k].cursor,
            Err(_) => forall|k: int|
                0 <= k < store.queue(opts.queue_name).messages.len() ==> !is_available(
                    #[trigger] store.queue(opts.queue_name).messages[k],
                    now,
                ),
        },
{
    law_oldest_first(store, opts, now);
}

/// A lease excludes: while the lease runs, the held message is in its
/// queue and no peek, take or lease selects it, so none is answered with
/// it; one that asks for it by its identifier, which no other message of
/// the queue has, finds no message.
pub proof fn law_lease_excludes(
    store: StoreView,
    lease: OptionsView,
    now: Instant,
    other: OptionsView,
    later: Instant,
)
    requires
        store.valid(),
        lease.action == GetMessageAction::Reserve,
        lease.reservation is Some,
        store.select(lease, now).1 is Ok,
        other.action.reads(),
        other.queue_name == lease.queue_name,
        now.is_reading(),
        later.nanos < now.nanos + lease.reservation->0 * NANOS_PER_SECOND,
    ensures
        ({
            let held = store.select(lease, now).1->Ok_0;
            let after = store.select(lease, now).0;
            let messages = after.queue(lease.queue_name).messages;
            &&& after.has_queue(lease.queue_name)
            &&& messages.contains(held)
            &&& held.is_reserved(later)
            &&& !other.matches(held, later)
            &&& after.select(other, later).1 is Ok ==> after.select(other, later).1->Ok_0.cursor
                != held.cursor
            &&& other.mid == Some(held.mid) && (forall|k: int|
                0 <= k < messages.len() && (#[trigger] messages[k]).mid == held.mid
                    ==> messages[k].cursor == held.cursor) ==> after.select(other, later).1 == Err::<
                MessageView,
                GetMessageErrorView,
            >(GetMessageErrorView::NoMessage(lease.queue_name))
        }),
{
    let name = lease.queue_name;
    let held = store.select(lease, now).1->Ok_0;
    let after = store.select(lease, now).0;
    lemma_position(store, name);
    let q = store.position(name)->0;
    let queue = store.queues[q];
    lemma_first_index(queue.messages, |m: MessageView| lease.matches(m, now));
    let i = queue.first_match(lease, now)->0;
    lemma_position_of(after, q);
    let messages = after.queue(name).messages;
    assert(messages[i] == held);
    law_oldest_first(after, other, later);
}

/// A lease lapses by itself: once its duration is over the message is held
/// no more, and a peek, take or lease whose filters let it through selects
/// it unless it has expired.
pub proof fn law_lease_lapses(
    store: StoreView,
    lease: OptionsView,
    now: Instant,
    other: OptionsView,
    later: Instant,
)
    requires
        store.valid(),
        lease.action == GetMessageAction::Reserve,
        lease.reservation is Some,
        store.select(lease, now).1 is Ok,
        other.action.reads(),
        now.nanos + lease.reservation->0 * NANOS_PER_SECOND <= later.nanos,
    ensures
        ({
            let held = store.select(lease, now).1->Ok_0;
            &&& !held.is_reserved(later)
            &&& other.matches(held, later) == (!held.is_expired(later) && other.admits(held))
        }),
{
}

/// A release ends a lease at once: the message stays in its queue, nobody
/// holds it from then on, and a peek, take or lease whose filters let it
/// through selects it unless it has expired.
pub proof fn law_release_frees(
    store: StoreView,
    release: OptionsView,
    now: Instant,
    other: OptionsView,
    later: Instant,
)
    requires
        store.valid(),
        release.action == GetMessageAction::Return,
        store.select(release, now).1 is Ok,
        other.action.reads(),
    ensures
        ({
            let freed = store.select(release, now).1->Ok_0;
            let after = store.select(release, now).0;
            &&& release.mid == Some(freed.mid)
            &&& after.has_queue(release.queue_name)
            &&& after.queue(release.queue_name).messages.contains(freed)
            &&& !freed.is_reserved(later)
            &&& other.matches(freed, later) == (!freed.is_expired(later) && other.admits(freed))
        }),
{
    let name = release.queue_name;
    let freed = store.select(release, now).1->Ok_0;
    let after = store.select(release, now).0;
    lemma_position(store, name);
    let q = store.position(name)->0;
    let queue = store.queues[q];
    lemma_first_index(queue.messages, |m: MessageView| release.matches(m, now));
    let i = queue.first_match(release, now)->0;
    lemma_position_of(after, q);
    assert(after.queue(name).messages[i] == freed);
}

/// Settling needs a hold: an ack or a release is answered with a message
/// only if that message is held at that moment and has the identifier
/// asked for.
pub proof fn law_settling_needs_a_hold(store: StoreView, opts: OptionsView, now: Instant)
    requires
        store.valid(),
        opts.action.settles(),
        store.select(opts, now).1 is Ok,
    ensures
        ({
            let name = opts.queue_name;
            let msg = store.select(opts, now).1->Ok_0;
            &&& store.has_queue(name)
            &&& opts.mid == Some(msg.mid)
            &&& exists|i: int|
                0 <= i < store.queue(name).messages.len() && (#[trigger] store.queue(
                    name,
                ).messages[i]).is_reserved(now) && store.queue(name).messages[i].cursor
                    == msg.cursor
        }),
{
    let name = opts.queue_name;
    let q = store.position(name)->0;
    let queue = store.queues[q];
    lemma_first_index(queue.messages, |m: MessageView| opts.matches(m, now));
    let i = queue.first_match(opts, now)->0;
    assert(store.queue(name).messages[i].is_reserved(now));
}

/// An expired message is out of reach: once the life span given at its
/// creation is over, no peek, take or lease selects the message, whether
/// it is held or not.
pub proof fn law_expired_is_unselectable(
    store: StoreView,
    name: Seq<char>,
    req: CreateMessageRequestView,
    mid: u128,
    now: Instant,
    opts: OptionsView,
    later: Instant,
)
    requires
        req.expiry is Some,
        store.create(name, req, mid, now).1 is Ok,
        opts.action.reads(),
        now.nanos + req.expiry->0 * NANOS_PER_SECOND <= later.nanos,
    ensures
        ({
            let created = store.create(name, req, mid, now).1->Ok_0;
            &&& created.is_expired(later)
            &&& forall|msg: MessageView|
                msg.expiry == created.expiry ==> !#[trigger] opts.matches(msg, later)
        }),
{
}

/// No answer is an expired or held message: whatever a peek, take or lease
/// is answered with was available when it was selected.
pub proof fn law_answers_were_available(store: StoreView, opts: OptionsView, now: Instant)
    requires
        store.valid(),
        opts.action.reads(),
        store.select(opts, now).1 is Ok,
    ensures
        ({
            let name = opts.queue_name;
            let msg = store.select(opts, now).1->Ok_0;
            &&& store.has_queue(name)
            &&& !msg.is_expired(now)
            &&& exists|i: int|
                0 <= i < store.queue(name).messages.len() && is_available(
                    #[trigger] store.queue(name).messages[i],
                    now,
                ) && opts.admits(store.queue(name).messages[i]) && store.queue(
                    name,
                ).messages[i].cursor == msg.cursor
        }),
{
    let name = opts.queue_name;
    let q = store.position(name)->0;
    let queue = store.queues[q];
    lemma_first_index(queue.messages, |m: MessageView| opts.matches(m, now));
    let i = queue.first_match(opts, now)->0;
    assert(is_available(store.queue(name).messages[i], now));
}

/// Round trip: a message that was created, under an identifier that is new
/// to its queue, is what a take by that identifier is answered with, as
/// long as it has not expired; the take removes it, and a second take by
/// the same identifier finds no message.
pub proof fn law_round_trip(
    store: StoreView,
    name: Seq<char>,
    req: CreateMessageRequestView,
    mid: u128,
    now: Instant,
    take: OptionsView,
    later: Instant,
    again: Instant,
)
    requires
        store.valid(),
        now.is_reading(),
        store.create(name, req, mid, now).1 is Ok,
        store.has_queue(name) ==> forall|k: int|
            0 <= k < store.queue(name).messages.len() ==> (#[trigger] store.queue(
                name,
            ).messages[k]).mid != mid,
        take.action == GetMessageAction::Get,
        take.queue_name == name,
        take.mid == Some(mid),
        take.cid is None,
        take.cursor is None,
        req.expiry is Some ==> later.nanos < now.nanos + req.expiry->0 * NANOS_PER_SECOND,
    ensures
        ({
            let created = store.create(name, req, mid, now).1->Ok_0;
            let stored = store.create(name, req, mid, now).0;
            let taken = stored.select(take, later).0;
            &&& created.content == req.content
            &&& created.mid == mid
            &&& stored.select(take, later).1 == Ok::<MessageView, GetMessageErrorView>(created)
            &&& taken.has_queue(name)
            &&& forall|k: int|
                0 <= k < taken.queue(name).messages.len() ==> (#[trigger] taken.queue(
                    name,
                ).messages[k]).mid != mid
            &&& taken.select(take, again).1 == Err::<MessageView, GetMessageErrorView>(
                GetMessageErrorView::NoMessage(name),
            )
        }),
{
    let swept = store.swept(now);
    let stored = store.create(name, req, mid, now).0;
    lemma_store_swept(store, now);
    lemma_position(swept, name);
    // Where the queue stands, and what it holds just before the message is
    // put into it: nothing with the new identifier, since a sweep adds
    // nothing.
    let (q, before) = match swept.position(name) {
        Some(q) => (q, swept.queues[q]),
        None => (swept.queues.len() as int, QueueView::empty(name)),
    };
    assert forall|k: int| 0 <= k < before.messages.len() implies (
    #[trigger] before.messages[k]).mid != mid by {
        let unswept = store.queues[q].messages;
        lemma_filter_keeps_order(unswept, |m: MessageView| !m.is_expired(now));
        assert(unswept.contains(before.messages[k]));
        let o = choose|o: int| 0 <= o < unswept.len() && unswept[o] == before.messages[k];
        assert(store.queue(name).messages[o].mid != mid);
    }
    // The take finds the new message at the back and nothing before it.
    lemma_position_of(stored, q);
    lemma_first_index_is(
        stored.queues[q].messages,
        |m: MessageView| take.matches(m, later),
        before.messages.len() as int,
    );
    // What is left is what was there before, so a second take finds nothing.
    let taken = stored.select(take, later).0;
    lemma_position_of(taken, q);
    lemma_first_index_none(taken.queues[q].messages, |m: MessageView| take.matches(m, again));
}

/// One creation: which queue, what message, under which identifier, when.
pub struct Creation {
    pub name: Seq<char>,
    pub req: CreateMessageRequestView,
    pub mid: u128,
    pub now: Instant,
}

/// The store after a run of creations, and the answer to each of them.
pub open spec fn created_each(store: StoreView, steps: Seq<Creation>) -> (
    StoreView,
    Seq<Result<MessageView, CreateMessageErrorView>>,
)
    decreases steps.len(),
{
    if steps.len() == 0 {
        (store, Seq::empty())
    } else {
        let (before, answers) = created_each(store, steps.drop_last());
        let step = steps.last();
        let (after, answer) = before.create(step.name, step.req, step.mid, step.now);
        (after, answers.push(answer))
    }
}

/// How many of the creations go to the queue called `name`.
pub open spec fn count_for(steps: Seq<Creation>, name: Seq<char>) -> nat
    decreases steps.len(),
{
    if steps.len() == 0 {
        0
    } else {
        count_for(steps.drop_last(), name) + if steps.last().name == name {
            1nat
        } else {
            0nat
        }
    }
}

/// The last place that the queue called `name` has handed out: 0 where the
/// store has no such queue.
pub open spec fn last_place(store: StoreView, name: Seq<char>) -> nat {
    if store.has_queue(name) {
        store.queue(name).max_serial as nat
    } else {
        0
    }
}

/// One creation moves the counter of its own queue by one and takes that
/// place; the counters of the other queues stay.
pub proof fn lemma_create_place(store: StoreView, step: Creation, name: Seq<char>)
    requires
        store.valid(),
    ensures
        ({
            let (after, answer) = store.create(step.name, step.req, step.mid, step.now);
            &&& after.valid()
            &&& step.name != name ==> last_place(after, name) == last_place(store, name)
            &&& step.name == name && last_place(store, name) < usize::MAX ==> {
                &&& answer is Ok
                &&& answer->Ok_0.cursor == last_place(store, name) + 1
                &&& last_place(after, name) == last_place(store, name) + 1
            }
        }),
{
    let swept = store.swept(step.now);
    let (after, answer) = store.create(step.name, step.req, step.mid, step.now);
    lemma_store_swept(store, step.now);
    lemma_position(swept, step.name);
    lemma_position(swept, name);
    lemma_position(after, name);
    match swept.position(step.name) {
        None => {
            // The queue is made, behind the others.
            let made = swept.queues.len() as int;
            assert(after.queues[made].name == step.name);
            if step.name != name && swept.position(name) is Some {
                let p = swept.position(name)->0;
                assert(after.queues[p] == swept.queues[p]);
            }
        },
        Some(q) => {
            // The queue is there, and stays where it is.
            if swept.queues[q].max_serial < usize::MAX {
                lemma_position_same_names(after, swept, name);
            }
        },
    }
}

/// The answers to a run of creations, one by one: each is the answer to
/// the run that ends with it.
proof fn lemma_created_each_prefix(store: StoreView, steps: Seq<Creation>, k: int)
    requires
        0 <= k < steps.len(),
    ensures
        created_each(store, steps).1.len() == steps.len(),
        created_each(store, steps).1[k] == created_each(store, steps.subrange(0, k + 1)).1.last(),
        created_each(store, steps.subrange(0, k + 1)).1.len() == k + 1,
    decreases steps.len(),
{
    lemma_created_each_len(store, steps);
    if k == steps.len() - 1 {
        assert(steps.subrange(0, k + 1) =~= steps);
    } else {
        lemma_created_each_prefix(store, steps.drop_last(), k);
        assert(steps.drop_last().subrange(0, k + 1) =~= steps.subrange(0, k + 1));
    }
}

/// A run of creations is answered once for each of them.
proof fn lemma_created_each_len(store: StoreView, steps: Seq<Creation>)
    ensures
        created_each(store, steps).1.len() == steps.len(),
    decreases steps.len(),
{
    if steps.len() > 0 {
        lemma_created_each_len(store, steps.drop_last());
    }
}

/// A run of creations moves the counter of the queue called `name` by the
/// number of creations that go to that queue, and leaves the store in
/// order.
proof fn lemma_created_each_place(store: StoreView, steps: Seq<Creation>, name: Seq<char>)
    requires
        store.valid(),
        last_place(store, name) + count_for(steps, name) <= usize::MAX,
    ensures
        created_each(store, steps).0.valid(),
        last_place(created_each(store, steps).0, name) == last_place(store, name) + count_for(
            steps,
            name,
        ),
        steps.len() > 0 && steps.last().name == name ==> {
            &&& created_each(store, steps).1.last() is Ok
            &&& created_each(store, steps).1.last()->Ok_0.cursor == last_place(store, name)
                + count_for(steps, name)
        },
    decreases steps.len(),
{
    if steps.len() > 0 {
        let front = steps.drop_last();
        lemma_created_each_place(store, front, name);
        lemma_create_place(created_each(store, front).0, steps.last(), name);
    }
}

/// The count for a part of a run is at most the count for the whole run.
proof fn lemma_count_for_prefix(steps: Seq<Creation>, name: Seq<char>, k: int)
    requires
        0 <= k <= steps.len(),
    ensures
        count_for(steps.subrange(0, k), name) <= count_for(steps, name),
    decreases steps.len() - k,
{
    if k == steps.len() {
        assert(steps.subrange(0, k) =~= steps);
    } else {
        lemma_count_for_prefix(steps.drop_last(), name, k);
        assert(steps.drop_last().subrange(0, k) =~= steps.subrange(0, k));
    }
}

/// Places count up: in any run of creations, the ones that go to the queue
/// called `name` take the places that follow the last one handed out, one
/// after the other, whatever is created in other queues in between.  In a
/// queue that the store does not have yet they take the places 1, 2, 3 and
/// so on.
pub proof fn law_places_count_up(store: StoreView, steps: Seq<Creation>, name: Seq<char>)
    requires
        store.valid(),
        last_place(store, name) + count_for(steps, name) <= usize::MAX,
    ensures
        created_each(store, steps).0.valid(),
        created_each(store, steps).1.len() == steps.len(),
        last_place(created_each(store, steps).0, name) == last_place(store, name) + count_for(
            steps,
            name,
        ),
        forall|k: int|
            0 <= k < steps.len() && (#[trigger] steps[k]).name == name ==> {
                &&& created_each(store, steps).1[k] is Ok
                &&& created_each(store, steps).1[k]->Ok_0.cursor == last_place(store, name)
                    + count_for(steps.subrange(0, k + 1), name)
            },
{
    lemma_created_each_len(store, steps);
    lemma_created_each_place(store, steps, name);
    assert forall|k: int| 0 <= k < steps.len() && (#[trigger] steps[k]).name == name implies {
        &&& created_each(store, steps).1[k] is Ok
        &&& created_each(store, steps).1[k]->Ok_0.cursor == last_place(store, name) + count_for(
            steps.subrange(0, k + 1),
            name,
        )
    } by {
        let part = steps.subrange(0, k + 1);
        lemma_created_each_prefix(store, steps, k);
        lemma_count_for_prefix(steps, name, k + 1);
        assert(part.last() == steps[k]);
        lemma_created_each_place(store, part, name);
    }
}

} // verus!
