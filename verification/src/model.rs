//! The store as a mathematical value, and what each operation makes of it.

use crate::errors::{CreateMessageErrorView, GetMessageErrorView, QueueSummaryErrorView};
use crate::message::{CreateMessageRequestView, Expiry, MessageView, QueueSummaryView, Reservation};
use crate::options::{GetMessageAction, OptionsView};
use crate::time::Instant;
use vstd::prelude::*;

verus! {

/// The least index of `s` whose element satisfies `p`.
pub open spec fn first_index<T>(s: Seq<T>, p: spec_fn(T) -> bool) -> Option<int>
    decreases s.len(),
{
    if s.len() == 0 {
        None
    } else if p(s.first()) {
        Some(0)
    } else {
        match first_index(s.drop_first(), p) {
            Some(i) => Some(i + 1),
            None => None,
        }
    }
}

/// `first_index` finds an element that satisfies `p` with none before it
/// that does, or there is none at all.
pub proof fn lemma_first_index<T>(s: Seq<T>, p: spec_fn(T) -> bool)
    ensures
        match first_index(s, p) {
            Some(i) => 0 <= i < s.len() && p(s[i]) && forall|j: int| 0 <= j < i ==> !p(s[j]),
            None => forall|j: int| 0 <= j < s.len() ==> !p(s[j]),
        },
    decreases s.len(),
{
    if s.len() > 0 && !p(s.first()) {
        let rest = s.drop_first();
        lemma_first_index(rest, p);
        match first_index(rest, p) {
            Some(i) => {
                assert forall|j: int| 0 <= j < i + 1 implies !p(s[j]) by {
                    if j > 0 {
                        assert(s[j] == rest[j - 1]);
                    }
                }
            },
            None => {
                assert forall|j: int| 0 <= j < s.len() implies !p(s[j]) by {
                    if j > 0 {
                        assert(s[j] == rest[j - 1]);
                    }
                }
            },
        }
    }
}

/// An index whose element satisfies `p`, with none before it that does, is
/// the one `first_index` finds.
pub proof fn lemma_first_index_is<T>(s: Seq<T>, p: spec_fn(T) -> bool, i: int)
    requires
        0 <= i < s.len(),
        p(s[i]),
        forall|j: int| 0 <= j < i ==> !p(s[j]),
    ensures
        first_index(s, p) == Some(i),
{
    lemma_first_index(s, p);
}

/// Where no element satisfies `p`, `first_index` finds none.
pub proof fn lemma_first_index_none<T>(s: Seq<T>, p: spec_fn(T) -> bool)
    requires
        forall|j: int| 0 <= j < s.len() ==> !p(s[j]),
    ensures
        first_index(s, p) is None,
{
    lemma_first_index(s, p);
}

/// One queue as a mathematical value.
pub struct QueueView {
    pub name: Seq<char>,
    /// The stored messages, oldest first.
    pub messages: Seq<MessageView>,
    /// The last place handed out.
    pub max_serial: usize,
}

impl QueueView {
    /// The queue of that name before anything was put into it.
    pub open spec fn empty(name: Seq<char>) -> QueueView {
        QueueView { name, messages: Seq::empty(), max_serial: 0 }
    }

    /// Whether the queue is in order: every stored message stands at a
    /// place that was handed out, and the places go up from the front to
    /// the back.
    pub open spec fn valid(self) -> bool {
        &&& forall|i: int|
            0 <= i < self.messages.len() ==> 1 <= (#[trigger] self.messages[i]).cursor
                <= self.max_serial
        &&& forall|i: int, j: int|
            0 <= i < j < self.messages.len() ==> (#[trigger] self.messages[i]).cursor < (
            #[trigger] self.messages[j]).cursor
    }

    /// The index of the oldest message that the request selects at `now`.
    pub open spec fn first_match(self, opts: OptionsView, now: Instant) -> Option<int> {
        first_index(self.messages, |m: MessageView| opts.matches(m, now))
    }

    /// The queue without the messages that have expired at `now`.
    pub open spec fn swept(self, now: Instant) -> QueueView {
        QueueView { messages: self.messages.filter(|m: MessageView| !m.is_expired(now)), ..self }
    }

    /// The queue with `msg` put at its back, and `msg` as it is stored: at
    /// the place after the last one handed out.
    pub open spec fn added(self, msg: MessageView) -> (QueueView, MessageView) {
        let place = (self.max_serial + 1) as usize;
        let stored = MessageView { cursor: place, ..msg };
        (QueueView { messages: self.messages.push(stored), max_serial: place, ..self }, stored)
    }

    /// The queue after the request's action was carried out on the message
    /// at index `i`, and the message that is handed back.
    ///
    /// A peek changes nothing; a take and an ack remove the message; a lease
    /// holds it from `now` for the request's duration; a release ends the
    /// hold.  What is handed back is the message as it is after the action.
    pub open spec fn applied(self, opts: OptionsView, now: Instant, i: int) -> (
        QueueView,
        MessageView,
    ) {
        let msg = self.messages[i];
        match opts.action {
            GetMessageAction::Browse | GetMessageAction::Query => (self, msg),
            GetMessageAction::Get | GetMessageAction::Confirm => (
                QueueView { messages: self.messages.remove(i), ..self },
                msg,
            ),
            GetMessageAction::Reserve => {
                let held = MessageView {
                    reservation: match opts.reservation {
                        Some(seconds) => Reservation::Until(now.plus_seconds(seconds)),
                        None => msg.reservation,
                    },
                    ..msg
                };
                (QueueView { messages: self.messages.update(i, held), ..self }, held)
            },
            GetMessageAction::Return => {
                let free = MessageView { reservation: Reservation::Unreserved, ..msg };
                (QueueView { messages: self.messages.update(i, free), ..self }, free)
            },
        }
    }
}

/// The whole store as a mathematical value: its queues in the order in which
/// they were made.
pub struct StoreView {
    pub queues: Seq<QueueView>,
}

/// The text carried by the error for a queue that the store does not have.
pub open spec fn no_such_queue() -> Seq<char> {
    "no such queue"@
}

/// The text carried by the error for a queue that has handed out its last
/// place.
pub open spec fn no_place_left() -> Seq<char> {
    "no place left in the queue"@
}

impl StoreView {
    /// Whether the store is in order: each queue is, and no two queues have
    /// the same name.
    pub open spec fn valid(self) -> bool {
        &&& forall|i: int| 0 <= i < self.queues.len() ==> (#[trigger] self.queues[i]).valid()
        &&& forall|i: int, j: int|
            0 <= i < j < self.queues.len() ==> (#[trigger] self.queues[i]).name != (
            #[trigger] self.queues[j]).name
    }

    /// The index of the queue called `name`.
    pub open spec fn position(self, name: Seq<char>) -> Option<int> {
        first_index(self.queues, |q: QueueView| q.name == name)
    }

    /// Whether the store has a queue called `name`.
    pub open spec fn has_queue(self, name: Seq<char>) -> bool {
        self.position(name) is Some
    }

    /// The queue called `name`.
    pub open spec fn queue(self, name: Seq<char>) -> QueueView
        recommends
            self.has_queue(name),
    {
        self.queues[self.position(name)->0]
    }

    /// The names of the queues, in the order in which they were made.
    pub open spec fn names(self) -> Seq<Seq<char>> {
        self.queues.map_values(|q: QueueView| q.name)
    }

    /// The store with the queue at index `i` replaced.
    pub open spec fn with_queue(self, i: int, queue: QueueView) -> StoreView {
        StoreView { queues: self.queues.update(i, queue) }
    }

    /// What a request for a message does at `now`: the store afterwards and
    /// the answer.
    ///
    /// Among the messages of the queue that the request names, the oldest
    /// one that the request selects is acted on.  Without such a queue, or
    /// without such a message, the store stays as it is and the answer is
    /// that there is no message.
    pub open spec fn select(self, opts: OptionsView, now: Instant) -> (
        StoreView,
        Result<MessageView, GetMessageErrorView>,
    ) {
        match self.position(opts.queue_name) {
            None => (self, Err(GetMessageErrorView::NoMessage(no_such_queue()))),
            Some(q) => match self.queues[q].first_match(opts, now) {
                None => (self, Err(GetMessageErrorView::NoMessage(opts.queue_name))),
                Some(i) => {
                    let (queue, msg) = self.queues[q].applied(opts, now, i);
                    (self.with_queue(q, queue), Ok(msg))
                },
            },
        }
    }

    /// The store without the messages that have expired at `now`.
    pub open spec fn swept(self, now: Instant) -> StoreView {
        StoreView { queues: self.queues.map_values(|q: QueueView| q.swept(now)) }
    }

    /// The message that a request describes, before it has a place.
    pub open spec fn fresh(req: CreateMessageRequestView, mid: u128, now: Instant) -> MessageView {
        MessageView {
            mid,
            cid: req.cid,
            cursor: 0,
            content: req.content,
            reservation: Reservation::Unreserved,
            expiry: match req.expiry {
                Some(seconds) => Expiry::Expire(now.plus_seconds(seconds)),
                None => Expiry::Permanent,
            },
        }
    }

    /// What creating a message with identifier `mid` in the queue `name`
    /// does at `now`: the store afterwards and the answer.
    ///
    /// First every queue loses the messages that have expired.  Then the
    /// message goes to the back of its queue, which is made if the store
    /// does not have it, and takes the next place there.  Only a queue
    /// that has handed out its last place takes no message.
    pub open spec fn create(
        self,
        name: Seq<char>,
        req: CreateMessageRequestView,
        mid: u128,
        now: Instant,
    ) -> (StoreView, Result<MessageView, CreateMessageErrorView>) {
        let swept = self.swept(now);
        let fresh = StoreView::fresh(req, mid, now);
        match swept.position(name) {
            None => {
                let (queue, msg) = QueueView::empty(name).added(fresh);
                (StoreView { queues: swept.queues.push(queue) }, Ok(msg))
            },
            Some(q) => if swept.queues[q].max_serial == usize::MAX {
                (swept, Err(CreateMessageErrorView::Unknown(no_place_left())))
            } else {
                let (queue, msg) = swept.queues[q].added(fresh);
                (swept.with_queue(q, queue), Ok(msg))
            },
        }
    }

    /// The summary of every queue, in the order in which the queues were
    /// made.
    pub open spec fn summaries(self) -> Seq<QueueSummaryView> {
        self.queues.map_values(
            |q: QueueView| QueueSummaryView { queue_name: q.name, depth: q.messages.len() },
        )
    }

    /// The summaries asked for: of every queue, or of the one that is
    /// named, which the store must have.
    pub open spec fn queue_summary(self, name: Option<Seq<char>>) -> Result<
        Seq<QueueSummaryView>,
        QueueSummaryErrorView,
    > {
        match name {
            None => Ok(self.summaries()),
            Some(name) => match self.summary(name) {
                Ok(summary) => Ok(seq![summary]),
                Err(e) => Err(e),
            },
        }
    }

    /// The summary of the queue called `name`: its name and the number of
    /// messages stored in it, whether held, expired or neither.
    pub open spec fn summary(self, name: Seq<char>) -> Result<
        QueueSummaryView,
        QueueSummaryErrorView,
    > {
        match self.position(name) {
            None => Err(QueueSummaryErrorView::NoQueue(name)),
            Some(q) => Ok(
                QueueSummaryView { queue_name: name, depth: self.queues[q].messages.len() },
            ),
        }
    }
}

/// Among messages whose places go up, those that a filter keeps go up too,
/// and each of them is one of the messages of `s`.
pub proof fn lemma_filter_keeps_order(s: Seq<MessageView>, keep: spec_fn(MessageView) -> bool)
    requires
        forall|i: int, j: int|
            0 <= i < j < s.len() ==> (#[trigger] s[i]).cursor < (#[trigger] s[j]).cursor,
    ensures
        forall|i: int, j: int|
            0 <= i < j < s.filter(keep).len() ==> (#[trigger] s.filter(keep)[i]).cursor < (
            #[trigger] s.filter(keep)[j]).cursor,
        forall|i: int|
            0 <= i < s.filter(keep).len() ==> s.contains(#[trigger] s.filter(keep)[i]) && keep(
                s.filter(keep)[i],
            ),
    decreases s.len(),
{
    reveal(Seq::filter);
    if s.len() > 0 {
        let front = s.drop_last();
        lemma_filter_keeps_order(front, keep);
    }
}

/// Sweeping keeps a queue in order.
pub proof fn lemma_swept_valid(queue: QueueView, now: Instant)
    requires
        queue.valid(),
    ensures
        queue.swept(now).valid(),
{
    let keep = |m: MessageView| !m.is_expired(now);
    lemma_filter_keeps_order(queue.messages, keep);
}

/// Where `position` points, the queue has the name asked for and no queue
/// before it has; where it points nowhere, no queue has that name.
pub proof fn lemma_position(store: StoreView, name: Seq<char>)
    ensures
        match store.position(name) {
            Some(q) => 0 <= q < store.queues.len() && store.queues[q].name == name && forall|
                j: int,
            |
                0 <= j < q ==> (#[trigger] store.queues[j]).name != name,
            None => forall|j: int|
                0 <= j < store.queues.len() ==> (#[trigger] store.queues[j]).name != name,
        },
{
    lemma_first_index(store.queues, |q: QueueView| q.name == name);
}

/// In a store that is in order, each queue is found under its own name.
pub proof fn lemma_position_of(store: StoreView, q: int)
    requires
        store.valid(),
        0 <= q < store.queues.len(),
    ensures
        store.position(store.queues[q].name) == Some(q),
{
    lemma_position(store, store.queues[q].name);
}

/// Two stores whose queues carry the same names in the same order find
/// every name at the same index.
pub proof fn lemma_position_same_names(a: StoreView, b: StoreView, name: Seq<char>)
    requires
        a.queues.len() == b.queues.len(),
        forall|q: int| 0 <= q < a.queues.len() ==> (#[trigger] a.queues[q]).name == b.queues[q].name,
    ensures
        a.position(name) == b.position(name),
{
    lemma_position(a, name);
    lemma_position(b, name);
    if b.position(name) is Some {
        let p = b.position(name)->0;
        assert(a.queues[p].name == b.queues[p].name);
    }
}

/// Sweeping keeps a store in order and every queue where it was.
pub proof fn lemma_store_swept(store: StoreView, now: Instant)
    requires
        store.valid(),
    ensures
        store.swept(now).valid(),
        store.swept(now).queues.len() == store.queues.len(),
        forall|q: int|
            0 <= q < store.queues.len() ==> (#[trigger] store.swept(now).queues[q])
                == store.queues[q].swept(now),
        forall|name: Seq<char>| #[trigger]
            store.swept(now).position(name) == store.position(name),
{
    let swept = store.swept(now);
    assert forall|q: int| 0 <= q < swept.queues.len() implies (#[trigger] swept.queues[q]).valid() by {
        lemma_swept_valid(store.queues[q], now);
    }
    assert forall|name: Seq<char>| #[trigger] swept.position(name) == store.position(name) by {
        lemma_position(store, name);
        lemma_position(swept, name);
        match store.position(name) {
            Some(q) => {
                assert(swept.queues[q].name == name);
                if swept.position(name) is Some {
                    let p = swept.position(name)->0;
                    assert(store.queues[p].name == name);
                }
            },
            None => {
                if swept.position(name) is Some {
                    let p = swept.position(name)->0;
                    assert(store.queues[p].name == name);
                }
            },
        }
    }
}

} // verus!
