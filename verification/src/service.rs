//! The service: one contract over whatever store stands behind it.

use crate::errors::{CreateMessageError, GetMessageError, QueueListError, QueueSummaryError};
use crate::message::{CreateMessageRequest, Message, QueueList, QueueName, QueueSummary};
use crate::model::StoreView;
use crate::options::GetMessageOptions;
use crate::ports::{MessageRepository, MessageService};
use vstd::prelude::*;

verus! {

/// A service that hands every request on to its store.
#[derive(Debug)]
pub struct Service<R: MessageRepository> {
    repo: R,
}

impl<R: MessageRepository> Service<R> {
    /// A service on top of `repo`.
    pub fn new(repo: R) -> (r: Service<R>)
        ensures
            r.store() == repo.store(),
    {
        Service { repo }
    }
}

impl<R: MessageRepository> MessageService for Service<R> {
    closed spec fn store(&self) -> StoreView {
        self.repo.store()
    }

    fn create_message(&mut self, queue_name: QueueName, req: &CreateMessageRequest) -> (r: Result<
        Message,
        CreateMessageError,
    >) {
        self.repo.create_message(queue_name, req)
    }

    fn get_message(&mut self, gmo: GetMessageOptions) -> (r: Result<Message, GetMessageError>) {
        self.repo.get_message(gmo)
    }

    fn get_info(&self, gmo: GetMessageOptions) -> (r: Result<QueueSummary, QueueSummaryError>) {
        self.repo.get_info(gmo)
    }

    fn queue_list(&self) -> (r: Result<QueueList, QueueListError>) {
        self.repo.queue_list()
    }
}

} // verus!
