//! Queue names, messages and the values that travel with them.

use crate::text::{lemma_trimmed_twice, texts, trim, trimmed};
use crate::time::Instant;
use vstd::prelude::*;
use vstd::string::*;

verus! {

/// The name of a queue: text that is not empty, with no whitespace around it.
#[derive(Debug, Eq, PartialOrd, Ord, Hash)]
pub struct QueueName(String);

/// The error for a queue name that is empty once trimmed.
#[derive(Clone, Copy, Debug, PartialEq, Eq)]
pub struct QueueNameEmptyError;

impl View for QueueName {
    type V = Seq<char>;

    closed spec fn view(&self) -> Seq<char> {
        self.0@
    }
}

impl QueueName {
    /// Whether `text` can be a name: it is not empty, and trimming leaves
    /// it as it is.
    pub open spec fn is_name(text: Seq<char>) -> bool {
        text.len() > 0 && trimmed(text) == text
    }

    #[verifier::type_invariant]
    spec fn is_a_name(self) -> bool {
        QueueName::is_name(self.0@)
    }

    /// Trims `value` and accepts it as a name unless nothing is left.
    pub fn try_from(value: &str) -> (r: Result<QueueName, QueueNameEmptyError>)
        ensures
            match r {
                Ok(name) => name@ == trimmed(value@) && QueueName::is_name(name@),
                Err(_) => trimmed(value@).len() == 0,
            },
    {
        let kept = trim(value);
        if kept.is_empty() {
            Err(QueueNameEmptyError)
        } else {
            proof {
                lemma_trimmed_twice(value@);
            }
            Ok(QueueName(kept.to_owned()))
        }
    }

    /// The name as text.
    pub fn as_str(&self) -> (r: &str)
        ensures
            r@ == self@,
            QueueName::is_name(r@),
    {
        proof {
            use_type_invariant(self);
        }
        self.0.as_str()
    }

    /// The name as an owned string.
    pub fn to_string(&self) -> (r: String)
        ensures
            r@ == self@,
    {
        self.0.clone()
    }
}

impl Clone for QueueName {
    fn clone(&self) -> (r: QueueName)
        ensures
            r@ == self@,
    {
        proof {
            use_type_invariant(self);
        }
        QueueName(self.0.clone())
    }
}

impl PartialEq for QueueName {
    fn eq(&self, other: &QueueName) -> (r: bool) {
        self.0 == other.0
    }
}

impl vstd::std_specs::cmp::PartialEqSpecImpl for QueueName {
    open spec fn obeys_eq_spec() -> bool {
        true
    }

    open spec fn eq_spec(&self, other: &QueueName) -> bool {
        self@ == other@
    }
}

impl QueueNameEmptyError {
    /// The text of this error.
    pub fn to_string(&self) -> (r: String)
        ensures
            r@ == "queue name cannot be empty"@,
    {
        "queue name cannot be empty".to_owned()
    }
}

/// Whether, and until when, a consumer holds a message.
#[derive(Clone, Copy, Debug, PartialEq, Eq, PartialOrd, Ord, Hash, Structural)]
pub enum Reservation {
    Unreserved,
    Until(Instant),
}

/// Whether, and when, a message stops being available.
#[derive(Clone, Copy, Debug, PartialEq, Eq, PartialOrd, Ord, Hash, Structural)]
pub enum Expiry {
    Permanent,
    Expire(Instant),
}

impl Reservation {
    /// A hold until the given instant, or none.
    pub open spec fn of(until: Option<Instant>) -> Reservation {
        match until {
            None => Reservation::Unreserved,
            Some(i) => Reservation::Until(i),
        }
    }

    /// Whether the hold is in force at `now`.
    pub open spec fn holds_at(self, now: Instant) -> bool {
        match self {
            Reservation::Unreserved => false,
            Reservation::Until(until) => now.nanos < until.nanos,
        }
    }
}

impl Expiry {
    /// An end of life at the given instant, or none.
    pub open spec fn of(at: Option<Instant>) -> Expiry {
        match at {
            None => Expiry::Permanent,
            Some(i) => Expiry::Expire(i),
        }
    }

    /// Whether the end of life has come at `now`.
    pub open spec fn passed_at(self, now: Instant) -> bool {
        match self {
            Expiry::Permanent => false,
            Expiry::Expire(at) => now.nanos >= at.nanos,
        }
    }
}

impl From<Option<Instant>> for Reservation {
    fn from(i: Option<Instant>) -> (r: Reservation) {
        match i {
            None => Reservation::Unreserved,
            Some(i) => Reservation::Until(i),
        }
    }
}

impl vstd::std_specs::convert::FromSpecImpl<Option<Instant>> for Reservation {
    open spec fn obeys_from_spec() -> bool {
        true
    }

    open spec fn from_spec(i: Option<Instant>) -> Reservation {
        Reservation::of(i)
    }
}

impl From<Option<Instant>> for Expiry {
    fn from(i: Option<Instant>) -> (r: Expiry) {
        match i {
            None => Expiry::Permanent,
            Some(i) => Expiry::Expire(i),
        }
    }
}

impl vstd::std_specs::convert::FromSpecImpl<Option<Instant>> for Expiry {
    open spec fn obeys_from_spec() -> bool {
        true
    }

    open spec fn from_spec(i: Option<Instant>) -> Expiry {
        Expiry::of(i)
    }
}

/// What a message is, as a mathematical value.
pub struct MessageView {
    pub mid: u128,
    pub cid: Option<u128>,
    pub cursor: usize,
    pub content: Seq<char>,
    pub reservation: Reservation,
    pub expiry: Expiry,
}

impl MessageView {
    /// Whether a consumer holds the message at `now`.  A hold lapses by
    /// itself: nothing has to clear it.
    pub open spec fn is_reserved(self, now: Instant) -> bool {
        self.reservation.holds_at(now)
    }

    /// Whether the message has reached its end of life at `now`.
    pub open spec fn is_expired(self, now: Instant) -> bool {
        self.expiry.passed_at(now)
    }
}

/// A message: identity, payload, place in its queue, hold and end of life.
#[derive(Debug, PartialEq, Eq, PartialOrd, Ord, Hash)]
pub struct Message {
    mid: u128,
    cid: Option<u128>,
    cursor: usize,
    content: String,
    reservation: Reservation,
    expiry: Expiry,
}

impl View for Message {
    type V = MessageView;

    closed spec fn view(&self) -> MessageView {
        MessageView {
            mid: self.mid,
            cid: self.cid,
            cursor: self.cursor,
            content: self.content@,
            reservation: self.reservation,
            expiry: self.expiry,
        }
    }
}

impl Clone for Message {
    fn clone(&self) -> (r: Message)
        ensures
            r@ == self@,
    {
        Message {
            mid: self.mid,
            cid: self.cid,
            cursor: self.cursor,
            content: self.content.clone(),
            reservation: self.reservation,
            expiry: self.expiry,
        }
    }
}

impl Message {
    /// A message that is in no queue yet: place 0, held by nobody.
    pub fn new(mid: u128, cid: Option<u128>, content: String, expiry: Option<Instant>) -> (r:
        Message)
        ensures
            r@ == (MessageView {
                mid,
                cid,
                cursor: 0,
                content: content@,
                reservation: Reservation::Unreserved,
                expiry: Expiry::of(expiry),
            }),
    {
        Message {
            mid,
            cid,
            content,
            cursor: 0,
            reservation: Reservation::Unreserved,
            expiry: Expiry::from(expiry),
        }
    }

    pub fn mid(&self) -> (r: u128)
        ensures
            r == self@.mid,
    {
        self.mid
    }

    pub fn cid(&self) -> (r: Option<u128>)
        ensures
            r == self@.cid,
    {
        self.cid
    }

    pub fn content(&self) -> (r: &String)
        ensures
            r@ == self@.content,
    {
        &self.content
    }

    pub fn cursor(&self) -> (r: usize)
        ensures
            r == self@.cursor,
    {
        self.cursor
    }

    pub fn reservation(&self) -> (r: Reservation)
        ensures
            r == self@.reservation,
    {
        self.reservation
    }

    pub fn expiry(&self) -> (r: Expiry)
        ensures
            r == self@.expiry,
    {
        self.expiry
    }

    /// Gives the message its place in a queue.
    pub fn set_cursor(&mut self, cursor: usize)
        ensures
            final(self)@ == (MessageView { cursor, ..old(self)@ }),
    {
        self.cursor = cursor
    }

    /// Whether a consumer holds the message at `now`.
    pub fn is_reserved(&self, now: Instant) -> (r: bool)
        ensures
            r == self@.is_reserved(now),
    {
        match self.reservation {
            Reservation::Unreserved => false,
            Reservation::Until(inst) => now.nanos < inst.nanos,
        }
    }

    /// Holds the message for `seconds` from `now`.
    pub fn reserve_for_seconds(&mut self, seconds: u64, now: Instant)
        requires
            now.is_reading(),
        ensures
            final(self)@ == (MessageView {
                reservation: Reservation::Until(now.plus_seconds(seconds)),
                ..old(self)@
            }),
    {
        self.reservation = Reservation::Until(now.after_seconds(seconds))
    }

    /// Holds the message until `inst`; without an instant, changes nothing.
    pub fn set_reservation(&mut self, inst: &Option<Instant>)
        ensures
            final(self)@ == (MessageView {
                reservation: match *inst {
                    Some(i) => Reservation::Until(i),
                    None => old(self)@.reservation,
                },
                ..old(self)@
            }),
    {
        if let Some(i) = *inst {
            self.reservation = Reservation::Until(i)
        }
    }

    /// Ends the hold.
    pub fn remove_reservation(&mut self)
        ensures
            final(self)@ == (MessageView { reservation: Reservation::Unreserved, ..old(self)@ }),
    {
        self.reservation = Reservation::Unreserved
    }

    /// Whether the message has reached its end of life at `now`.
    pub fn is_expired(&self, now: Instant) -> (r: bool)
        ensures
            r == self@.is_expired(now),
    {
        match self.expiry {
            Expiry::Permanent => false,
            Expiry::Expire(inst) => now.nanos >= inst.nanos,
        }
    }

    /// Sets the end of life to `inst`; without an instant, changes nothing.
    pub fn set_expiry(&mut self, inst: &Option<Instant>)
        ensures
            final(self)@ == (MessageView {
                expiry: match *inst {
                    Some(i) => Expiry::Expire(i),
                    None => old(self)@.expiry,
                },
                ..old(self)@
            }),
    {
        if let Some(i) = *inst {
            self.expiry = Expiry::Expire(i)
        }
    }
}

/// A queue's name and the number of messages stored in it.
#[derive(Debug, PartialEq, Eq, PartialOrd, Ord, Hash)]
pub struct QueueSummary {
    queue_name: String,
    depth: usize,
}

/// What a summary is, as a mathematical value.
pub struct QueueSummaryView {
    pub queue_name: Seq<char>,
    pub depth: nat,
}

impl View for QueueSummary {
    type V = QueueSummaryView;

    closed spec fn view(&self) -> QueueSummaryView {
        QueueSummaryView { queue_name: self.queue_name@, depth: self.depth as nat }
    }
}

impl QueueSummary {
    /// The summary of the queue of that name, holding that many messages.
    pub fn new(queue_name: &QueueName, depth: usize) -> (r: QueueSummary)
        ensures
            r@ == (QueueSummaryView { queue_name: queue_name@, depth: depth as nat }),
    {
        QueueSummary { queue_name: queue_name.to_string(), depth }
    }

    pub fn queue_name(&self) -> (r: &String)
        ensures
            r@ == self@.queue_name,
    {
        &self.queue_name
    }

    pub fn depth(&self) -> (r: usize)
        ensures
            r == self@.depth,
    {
        self.depth
    }
}

impl Clone for QueueSummary {
    fn clone(&self) -> (r: QueueSummary)
        ensures
            r@ == self@,
    {
        QueueSummary { queue_name: self.queue_name.clone(), depth: self.depth }
    }
}

/// The names of the queues of a store.
#[derive(Clone, Debug, PartialEq, Eq, PartialOrd, Ord, Hash)]
pub struct QueueList(pub Vec<String>);

impl QueueList {
    /// The names as mathematical text, in the order of the list.
    pub open spec fn names(self) -> Seq<Seq<char>> {
        texts(self.0@)
    }
}

/// What a producer hands in to have a message made.
#[derive(Debug, PartialEq, Eq, PartialOrd, Ord, Hash)]
pub struct CreateMessageRequest {
    content: String,
    cid: Option<u128>,
    expiry: Option<u64>,
}

/// What a request for a new message is, as a mathematical value.
pub struct CreateMessageRequestView {
    pub content: Seq<char>,
    pub cid: Option<u128>,
    pub expiry: Option<u64>,
}

impl View for CreateMessageRequest {
    type V = CreateMessageRequestView;

    closed spec fn view(&self) -> CreateMessageRequestView {
        CreateMessageRequestView { content: self.content@, cid: self.cid, expiry: self.expiry }
    }
}

impl CreateMessageRequest {
    /// A request for a message with the given payload, an optional
    /// correlation identifier and an optional life span in seconds.
    pub fn new(content: String, cid: Option<u128>, expiry: Option<u64>) -> (r:
        CreateMessageRequest)
        ensures
            r@ == (CreateMessageRequestView { content: content@, cid, expiry }),
    {
        CreateMessageRequest { cid, content, expiry }
    }

    pub fn cid(&self) -> (r: Option<u128>)
        ensures
            r == self@.cid,
    {
        self.cid
    }

    pub fn content(&self) -> (r: &String)
        ensures
            r@ == self@.content,
    {
        &self.content
    }

    pub fn expiry(&self) -> (r: Option<u64>)
        ensures
            r == self@.expiry,
    {
        self.expiry
    }
}

impl Clone for CreateMessageRequest {
    fn clone(&self) -> (r: CreateMessageRequest)
        ensures
            r@ == self@,
    {
        CreateMessageRequest {
            content: self.content.clone(),
            cid: self.cid,
            expiry: self.expiry,
        }
    }
}

} // verus!
