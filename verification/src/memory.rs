//! The store that keeps every queue in memory.

use crate::errors::{
    CreateMessageError, CreateMessageErrorView, GetMessageError, GetMessageErrorView,
    QueueListError, QueueSummaryError, QueueSummaryErrorView,
};
use crate::ident::random_uuid;
use crate::message::{
    CreateMessageRequest, Message, MessageView, QueueList, QueueName, QueueSummary,
    QueueSummaryView,
};
use crate::model::{
    lemma_first_index, lemma_first_index_is, lemma_first_index_none, lemma_swept_valid, QueueView,
    StoreView,
};
use crate::options::{GetMessageAction, GetMessageOptions};
use crate::ports::MessageRepository;
use crate::time::{Clock, Instant};
use std::collections::VecDeque;
use vstd::prelude::*;
use vstd::string::*;

verus! {

/// The mathematical values of a run of messages.
pub open spec fn views(messages: Seq<Message>) -> Seq<MessageView> {
    messages.map_values(|m: Message| m@)
}

/// The answer to a request for a message, as a mathematical value.
pub open spec fn selected_view(r: Result<Message, GetMessageError>) -> Result<
    MessageView,
    GetMessageErrorView,
> {
    match r {
        Ok(msg) => Ok(msg@),
        Err(e) => Err(e@),
    }
}

/// The answer to the creation of a message, as a mathematical value.
pub open spec fn created_view(r: Result<Message, CreateMessageError>) -> Result<
    MessageView,
    CreateMessageErrorView,
> {
    match r {
        Ok(msg) => Ok(msg@),
        Err(e) => Err(e@),
    }
}

/// The answer to a request for a summary, as a mathematical value.
pub open spec fn summary_view(r: Result<QueueSummary, QueueSummaryError>) -> Result<
    QueueSummaryView,
    QueueSummaryErrorView,
> {
    match r {
        Ok(summary) => Ok(summary@),
        Err(e) => Err(e@),
    }
}

/// The mathematical values of a run of summaries.
pub open spec fn summary_views(summaries: Seq<QueueSummary>) -> Seq<QueueSummaryView> {
    summaries.map_values(|s: QueueSummary| s@)
}

/// One queue: its messages, oldest first, and the last place handed out.
#[derive(Debug)]
pub struct Queue {
    name: QueueName,
    messages: VecDeque<Message>,
    max_serial: usize,
}

impl View for Queue {
    type V = QueueView;

    closed spec fn view(&self) -> QueueView {
        QueueView {
            name: self.name@,
            messages: views(self.messages@),
            max_serial: self.max_serial,
        }
    }
}

impl Queue {
    /// The queue of that name, with nothing in it.
    pub fn new(name: QueueName) -> (r: Queue)
        ensures
            r@ == QueueView::empty(name@),
            r@.valid(),
    {
        let r = Queue { name, messages: VecDeque::new(), max_serial: 0 };
        assert(r@.messages =~= Seq::<MessageView>::empty());
        r
    }

    pub fn name(&self) -> (r: &QueueName)
        ensures
            r@ == self@.name,
    {
        &self.name
    }

    /// The number of messages stored in the queue.
    pub fn depth(&self) -> (r: usize)
        ensures
            r == self@.messages.len(),
    {
        self.messages.len()
    }

    /// Whether the queue has handed out its last place.
    pub fn is_full(&self) -> (r: bool)
        ensures
            r == (self@.max_serial == usize::MAX),
    {
        self.max_serial == usize::MAX
    }

    /// Puts `message` at the back of the queue, at the next place, and hands
    /// back a copy of it as it is stored.
    pub fn add_message(&mut self, message: Message) -> (r: Message)
        requires
            old(self)@.valid(),
            old(self)@.max_serial < usize::MAX,
        ensures
            (final(self)@, r@) == old(self)@.added(message@),
            final(self)@.valid(),
    {
        let mut message = message;
        self.max_serial = self.max_serial + 1;
        message.set_cursor(self.max_serial);
        let stored = message.clone();
        self.messages.push_back(stored);
        assert(self@.messages =~= old(self)@.messages.push(message@));
        message
    }

    /// The index of the oldest message that the request selects at `now`.
    fn find_match(&self, gmo: &GetMessageOptions, now: Instant) -> (r: Option<usize>)
        requires
            gmo@.action != GetMessageAction::Query,
        ensures
            match r {
                Some(i) => self@.first_match(gmo@, now) == Some(i as int),
                None => self@.first_match(gmo@, now) is None,
            },
    {
        let ghost selects = |m: MessageView| gmo@.matches(m, now);
        let mut i: usize = 0;
        while i < self.messages.len()
            invariant
                gmo@.action != GetMessageAction::Query,
                selects == |m: MessageView| gmo@.matches(m, now),
                forall|j: int| 0 <= j < i ==> !selects(#[trigger] self@.messages[j]),
            decreases self.messages@.len() - i,
        {
            if gmo.matches(&self.messages[i], now) {
                proof {
                    lemma_first_index_is(self@.messages, selects, i as int);
                }
                return Some(i);
            }
            i = i + 1;
        }
        proof {
            lemma_first_index_none(self@.messages, selects);
        }
        None
    }

    /// Drops the messages that have expired at `now`.
    fn purge(&mut self, now: Instant)
        requires
            old(self)@.valid(),
        ensures
            final(self)@ == old(self)@.swept(now),
            final(self)@.valid(),
    {
        let ghost keep = |m: MessageView| !m.is_expired(now);
        let ghost all = views(self.messages@);
        let ghost mut seen: Seq<MessageView> = Seq::empty();
        let mut kept: VecDeque<Message> = VecDeque::new();
        loop
            invariant
                keep == |m: MessageView| !m.is_expired(now),
                seen + views(self.messages@) == all,
                views(kept@) == seen.filter(keep),
                self.name == old(self).name,
                self.max_serial == old(self).max_serial,
            ensures
                self.messages@.len() == 0,
                seen == all,
            decreases self.messages@.len(),
        {
            match self.messages.pop_front() {
                None => {
                    break ;
                },
                Some(message) => {
                    proof {
                        let longer = seen.push(message@);
                        assert(longer.drop_last() =~= seen);
                        reveal(Seq::filter);
                        seen = longer;
                    }
                    if !message.is_expired(now) {
                        kept.push_back(message);
                    }
                },
            }
        }
        self.messages = kept;
        proof {
            lemma_swept_valid(old(self)@, now);
        }
    }

}

/// The store: every queue, by name, and the clock that leases and life
/// spans are measured against.
#[derive(Debug)]
pub struct Memory {
    queues: Vec<Queue>,
    clock: Clock,
}

impl View for Memory {
    type V = StoreView;

    closed spec fn view(&self) -> StoreView {
        StoreView { queues: self.queues@.map_values(|q: Queue| q@) }
    }
}

impl Memory {
    /// A store without queues, with a clock that starts now.
    pub fn new() -> (r: Memory)
        ensures
            r@.queues.len() == 0,
            r@.valid(),
    {
        Memory { queues: Vec::new(), clock: Clock::new() }
    }

    /// The clock's reading.
    pub fn now(&self) -> (r: Instant)
        ensures
            r.is_reading(),
    {
        self.clock.now()
    }

    /// The index of the queue called `name`.
    fn find(&self, name: &QueueName) -> (r: Option<usize>)
        ensures
            match r {
                Some(q) => self@.position(name@) == Some(q as int) && q < self.queues@.len(),
                None => self@.position(name@) is None,
            },
    {
        let ghost called = |q: QueueView| q.name == name@;
        let mut i: usize = 0;
        while i < self.queues.len()
            invariant
                called == |q: QueueView| q.name == name@,
                forall|j: int| 0 <= j < i ==> !called(#[trigger] self@.queues[j]),
            decreases self.queues@.len() - i,
        {
            if *self.queues[i].name() == *name {
                proof {
                    lemma_first_index_is(self@.queues, called, i as int);
                }
                return Some(i);
            }
            i = i + 1;
        }
        proof {
            lemma_first_index_none(self@.queues, called);
        }
        None
    }

    /// Carries out the request's action on the message at `idx` of `queue`,
    /// and hands back a copy of the message as it is afterwards.
    fn get_message_impl(gmo: &GetMessageOptions, queue: &mut Queue, idx: usize, now: Instant) -> (r:
        Message)
        requires
            old(queue)@.valid(),
            idx < old(queue)@.messages.len(),
            now.is_reading(),
        ensures
            (final(queue)@, r@) == old(queue)@.applied(gmo@, now, idx as int),
            final(queue)@.valid(),
    {
        let ghost before = queue@.messages;
        match gmo.action() {
            GetMessageAction::Browse | GetMessageAction::Query => queue.messages[idx].clone(),
            GetMessageAction::Get | GetMessageAction::Confirm => {
                let message = queue.messages.remove(idx).unwrap();
                assert(queue@.messages =~= before.remove(idx as int));
                message
            },
            GetMessageAction::Reserve => {
                let mut message = queue.messages.remove(idx).unwrap();
                match *gmo.reservation() {
                    Some(seconds) => {
                        message.reserve_for_seconds(seconds, now);
                    },
                    None => {},
                }
                let stored = message.clone();
                queue.messages.insert(idx, stored);
                assert(queue@.messages =~= before.update(idx as int, message@));
                message
            },
            GetMessageAction::Return => {
                let mut message = queue.messages.remove(idx).unwrap();
                message.remove_reservation();
                let stored = message.clone();
                queue.messages.insert(idx, stored);
                assert(queue@.messages =~= before.update(idx as int, message@));
                message
            },
        }
    }

    /// Drops, from every queue, the messages that have expired at `now`.
    fn purge_expired_messages(&mut self, now: Instant)
        requires
            old(self)@.valid(),
        ensures
            final(self)@ == old(self)@.swept(now),
            final(self)@.valid(),
    {
        let mut i: usize = 0;
        while i < self.queues.len()
            invariant
                self.queues@.len() == old(self).queues@.len(),
                old(self)@.valid(),
                forall|j: int| 0 <= j < i ==> (#[trigger] self@.queues[j]) == old(self)@.queues[j].swept(now),
                forall|j: int|
                    i <= j < self.queues@.len() ==> (#[trigger] self@.queues[j]) == old(
                        self,
                    )@.queues[j],
            decreases self.queues@.len() - i,
        {
            let ghost before = self@.queues;
            assert(before[i as int].valid());
            self.queues[i].purge(now);
            assert forall|j: int| 0 <= j < self.queues@.len() && j != i implies (
            #[trigger] self@.queues[j]) == before[j] by {}
            i = i + 1;
        }
        assert(self@.queues =~= old(self)@.swept(now).queues);
        assert forall|j: int| 0 <= j < self@.queues.len() implies (
        #[trigger] self@.queues[j]).valid() by {
            lemma_swept_valid(old(self)@.queues[j], now);
        }
    }

    /// Answers a request for a message as of `now`.
    pub fn get_message_at(&mut self, gmo: GetMessageOptions, now: Instant) -> (r: Result<
        Message,
        GetMessageError,
    >)
        requires
            old(self)@.valid(),
            gmo@.action != GetMessageAction::Query,
            now.is_reading(),
        ensures
            (final(self)@, selected_view(r)) == old(self)@.select(gmo@, now),
            final(self)@.valid(),
    {
        let q = match self.find(gmo.queue_name()) {
            None => {
                return Err(GetMessageError::NoMessage("no such queue".to_owned()));
            },
            Some(q) => q,
        };
        let idx = match self.queues[q].find_match(&gmo, now) {
            None => {
                return Err(GetMessageError::NoMessage(gmo.queue_name().to_string()));
            },
            Some(idx) => idx,
        };
        proof {
            lemma_first_index(
                self@.queues[q as int].messages,
                |m: MessageView| gmo@.matches(m, now),
            );
        }
        let ghost before = self@.queues;
        let message = Memory::get_message_impl(&gmo, &mut self.queues[q], idx, now);
        assert(self@.queues =~= before.update(q as int, self@.queues[q as int]));
        Ok(message)
    }

    /// Answers a request for a message as of the clock's reading.
    pub fn get_message(&mut self, gmo: GetMessageOptions) -> (r: Result<Message, GetMessageError>)
        requires
            old(self)@.valid(),
            gmo@.action != GetMessageAction::Query,
        ensures
            exists|now: Instant|
                now.is_reading() && #[trigger] old(self)@.select(gmo@, now) == (
                    final(self)@,
                    selected_view(r),
                ),
            final(self)@.valid(),
    {
        let now = self.clock.now();
        self.get_message_at(gmo, now)
    }

    /// Creates a message with the identifier `mid` as of `now`.
    pub fn create_message_with(
        &mut self,
        queue_name: QueueName,
        req: &CreateMessageRequest,
        mid: u128,
        now: Instant,
    ) -> (r: Result<Message, CreateMessageError>)
        requires
            old(self)@.valid(),
            now.is_reading(),
        ensures
            (final(self)@, created_view(r)) == old(self)@.create(queue_name@, req@, mid, now),
            final(self)@.valid(),
    {
        self.purge_expired_messages(now);
        let content = req.content().clone();
        let expiry = match req.expiry() {
            Some(seconds) => Some(now.after_seconds(seconds)),
            None => None,
        };
        let message = Message::new(mid, req.cid(), content, expiry);
        let ghost swept = self@;
        match self.find(&queue_name) {
            None => {
                let mut queue = Queue::new(queue_name);
                let stored = queue.add_message(message);
                self.queues.push(queue);
                assert(self@.queues =~= swept.queues.push(queue@));
                proof {
                    lemma_first_index(
                        swept.queues,
                        |q: QueueView| q.name == queue_name@,
                    );
                }
                Ok(stored)
            },
            Some(q) => {
                if self.queues[q].is_full() {
                    Err(CreateMessageError::Unknown("no place left in the queue".to_owned()))
                } else {
                    assert(swept.queues[q as int].valid());
                    let stored = self.queues[q].add_message(message);
                    assert(self@.queues =~= swept.queues.update(q as int, self@.queues[q as int]));
                    Ok(stored)
                }
            },
        }
    }

    /// Creates a message with a fresh random identifier as of the clock's
    /// reading.
    pub fn create_message(&mut self, queue_name: QueueName, req: &CreateMessageRequest) -> (r:
        Result<Message, CreateMessageError>)
        requires
            old(self)@.valid(),
        ensures
            exists|mid: u128, now: Instant|
                now.is_reading() && #[trigger] old(self)@.create(queue_name@, req@, mid, now) == (
                    final(self)@,
                    created_view(r),
                ),
            final(self)@.valid(),
    {
        let now = self.clock.now();
        let mid = random_uuid();
        self.create_message_with(queue_name, req, mid, now)
    }

    /// The names of all queues, in the order in which they were made.
    pub fn queue_list(&self) -> (r: Result<QueueList, QueueListError>)
        ensures
            r is Ok,
            r->Ok_0.names() == self@.names(),
    {
        let mut names: Vec<String> = Vec::new();
        let mut i: usize = 0;
        while i < self.queues.len()
            invariant
                i <= self.queues@.len(),
                names@.len() == i,
                forall|j: int| 0 <= j < i ==> (#[trigger] names@[j])@ == self@.queues[j].name,
            decreases self.queues@.len() - i,
        {
            names.push(self.queues[i].name().to_string());
            i = i + 1;
        }
        Ok(QueueList(names))
    }

    /// The summary of the queue that the request names.
    pub fn get_info(&self, gmo: GetMessageOptions) -> (r: Result<QueueSummary, QueueSummaryError>)
        ensures
            summary_view(r) == self@.summary(gmo@.queue_name),
    {
        match self.find(gmo.queue_name()) {
            None => Err(QueueSummaryError::NoQueue(gmo.queue_name().to_string())),
            Some(q) => Ok(QueueSummary::new(gmo.queue_name(), self.queues[q].depth())),
        }
    }

    /// The summary of every queue, in the order in which the queues were
    /// made, or of the one queue that is named.
    pub fn queue_summary(&self, queue_name: Option<&QueueName>) -> (r: Result<
        Vec<QueueSummary>,
        QueueSummaryError,
    >)
        ensures
            match self@.queue_summary(
                match queue_name {
                    Some(name) => Some(name@),
                    None => None,
                },
            ) {
                Ok(summaries) => r is Ok && summary_views(r->Ok_0@) == summaries,
                Err(e) => r is Err && r->Err_0@ == e,
            },
    {
        let mut summaries: Vec<QueueSummary> = Vec::new();
        match queue_name {
            Some(name) => match self.find(name) {
                None => {
                    return Err(QueueSummaryError::NoQueue(name.to_string()));
                },
                Some(q) => {
                    summaries.push(QueueSummary::new(name, self.queues[q].depth()));
                },
            },
            None => {
                let mut i: usize = 0;
                while i < self.queues.len()
                    invariant
                        i <= self.queues@.len(),
                        summaries@.len() == i,
                        forall|j: int|
                            0 <= j < i ==> (#[trigger] summaries@[j])@ == self@.summaries()[j],
                    decreases self.queues@.len() - i,
                {
                    let queue = &self.queues[i];
                    summaries.push(QueueSummary::new(queue.name(), queue.depth()));
                    i = i + 1;
                }
            },
        }
        Ok(summaries)
    }
}

impl MessageRepository for Memory {
    open spec fn store(&self) -> StoreView {
        self@
    }

    fn create_message(&mut self, queue_name: QueueName, req: &CreateMessageRequest) -> (r: Result<
        Message,
        CreateMessageError,
    >) {
        Memory::create_message(self, queue_name, req)
    }

    fn get_message(&mut self, gmo: GetMessageOptions) -> (r: Result<Message, GetMessageError>) {
        Memory::get_message(self, gmo)
    }

    fn get_info(&self, gmo: GetMessageOptions) -> (r: Result<QueueSummary, QueueSummaryError>) {
        Memory::get_info(self, gmo)
    }

    fn queue_list(&self) -> (r: Result<QueueList, QueueListError>) {
        Memory::queue_list(self)
    }
}

} // verus!
