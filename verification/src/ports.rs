//! What a store of messages offers, and what a service built on one offers.

use crate::errors::{CreateMessageError, GetMessageError, QueueListError, QueueSummaryError};
use crate::memory::{created_view, selected_view, summary_view};
use crate::message::{CreateMessageRequest, Message, QueueList, QueueName, QueueSummary};
use crate::model::StoreView;
use crate::options::{GetMessageAction, GetMessageOptions};
use crate::time::Instant;
use vstd::prelude::*;

verus! {

/// A store of messages.  Each operation is one step on the store's value:
/// nothing else happens to the store while the step is made.
pub trait MessageRepository {
    /// The store as a mathematical value.
    spec fn store(&self) -> StoreView;

    /// Creates a message under some identifier, as of some reading of the
    /// clock.
    fn create_message(&mut self, queue_name: QueueName, req: &CreateMessageRequest) -> (r: Result<
        Message,
        CreateMessageError,
    >)
        requires
            old(self).store().valid(),
        ensures
            exists|mid: u128, now: Instant|
                now.is_reading() && #[trigger] old(self).store().create(
                    queue_name@,
                    req@,
                    mid,
                    now,
                ) == (final(self).store(), created_view(r)),
            final(self).store().valid(),
    ;

    /// Answers a request for a message, as of some reading of the clock.
    fn get_message(&mut self, gmo: GetMessageOptions) -> (r: Result<Message, GetMessageError>)
        requires
            old(self).store().valid(),
            gmo@.action != GetMessageAction::Query,
        ensures
            exists|now: Instant|
                now.is_reading() && #[trigger] old(self).store().select(gmo@, now) == (
                    final(self).store(),
                    selected_view(r),
                ),
            final(self).store().valid(),
    ;

    /// The summary of the queue that the request names.
    fn get_info(&self, gmo: GetMessageOptions) -> (r: Result<QueueSummary, QueueSummaryError>)
        ensures
            summary_view(r) == self.store().summary(gmo@.queue_name),
    ;

    /// The names of all queues, in the order in which they were made.
    fn queue_list(&self) -> (r: Result<QueueList, QueueListError>)
        ensures
            r is Ok,
            r->Ok_0.names() == self.store().names(),
    ;
}

/// The service that a transport adapter talks to.
pub trait MessageService {
    /// The store behind the service, as a mathematical value.
    spec fn store(&self) -> StoreView;

    /// Creates a message under some identifier, as of some reading of the
    /// clock.
    fn create_message(&mut self, queue_name: QueueName, req: &CreateMessageRequest) -> (r: Result<
        Message,
        CreateMessageError,
    >)
        requires
            old(self).store().valid(),
        ensures
            exists|mid: u128, now: Instant|
                now.is_reading() && #[trigger] old(self).store().create(
                    queue_name@,
                    req@,
                    mid,
                    now,
                ) == (final(self).store(), created_view(r)),
            final(self).store().valid(),
    ;

    /// Answers a request for a message, as of some reading of the clock.
    fn get_message(&mut self, gmo: GetMessageOptions) -> (r: Result<Message, GetMessageError>)
        requires
            old(self).store().valid(),
            gmo@.action != GetMessageAction::Query,
        ensures
            exists|now: Instant|
                now.is_reading() && #[trigger] old(self).store().select(gmo@, now) == (
                    final(self).store(),
                    selected_view(r),
                ),
            final(self).store().valid(),
    ;

    /// The summary of the queue that the request names.
    fn get_info(&self, gmo: GetMessageOptions) -> (r: Result<QueueSummary, QueueSummaryError>)
        ensures
            summary_view(r) == self.store().summary(gmo@.queue_name),
    ;

    /// The names of all queues, in the order in which they were made.
    fn queue_list(&self) -> (r: Result<QueueList, QueueListError>)
        ensures
            r is Ok,
            r->Ok_0.names() == self.store().names(),
    ;
}

} // verus!
