//! One service for many callers.  Every request takes the lock, works on
//! the store from start to end, and gives the lock back: no request ever
//! sees the store in the middle of another one's work.

use crate::inbound::{
    answered, answered_creation, answered_listing, answered_one, create_message, get_message,
    get_message_mid, queue_list, ApiError, ApiSuccess, CreateMessageRequestBody,
    CreateMessageResponseData, GetMessageResponseData, GetMessageReturnType,
};
use crate::message::QueueList;
use crate::model::StoreView;
use crate::params::Parameters;
use crate::ports::MessageService;
use std::sync::Arc;
use vstd::prelude::*;
use vstd::rwlock::{RwLock, RwLockPredicate};

verus! {

/// What the lock keeps of the service whenever nobody holds it: that the
/// store is in order.
pub struct InOrder;

impl<MS: MessageService> RwLockPredicate<MS> for InOrder {
    open spec fn inv(self, service: MS) -> bool {
        service.store().valid()
    }
}

/// A service behind a lock.  The handle can be copied and handed to other
/// threads; all copies work on the same store.
pub struct Shared<MS: MessageService> {
    service: Arc<RwLock<MS, InOrder>>,
}

impl<MS: MessageService> Clone for Shared<MS> {
    fn clone(&self) -> (r: Shared<MS>) {
        Shared { service: self.service.clone() }
    }
}

impl<MS: MessageService> Shared<MS> {
    /// Puts `service` behind a lock.
    pub fn new(service: MS) -> (r: Shared<MS>)
        requires
            service.store().valid(),
    {
        Shared { service: Arc::new(RwLock::new(service, Ghost(InOrder))) }
    }

    /// Answers a request against the queue called `queue_name`, on the
    /// store as it is when the lock is taken.
    pub fn get_message(&self, queue_name: String, params: Parameters) -> (r: Result<
        ApiSuccess<GetMessageReturnType>,
        ApiError,
    >)
        ensures
            exists|before: StoreView, after: StoreView|
                before.valid() && after.valid() && #[trigger] answered(
                    before,
                    queue_name@,
                    params@,
                    after,
                    r,
                ),
    {
        let (mut service, handle) = self.service.acquire_write();
        let r = get_message(&mut service, queue_name, params);
        handle.release_write(service);
        r
    }

    /// Answers a request for the message with the identifier `mid` in the
    /// queue called `queue_name`, on the store as it is when the lock is
    /// taken.
    pub fn get_message_mid(&self, queue_name: String, mid: String, params: Parameters) -> (r:
        Result<ApiSuccess<GetMessageResponseData>, ApiError>)
        ensures
            exists|before: StoreView, after: StoreView|
                before.valid() && after.valid() && #[trigger] answered_one(
                    before,
                    queue_name@,
                    mid@,
                    params@,
                    after,
                    r,
                ),
    {
        let (mut service, handle) = self.service.acquire_write();
        let r = get_message_mid(&mut service, queue_name, mid, params);
        handle.release_write(service);
        r
    }

    /// Creates a message in the queue called `queue_name` from the body of
    /// a request, in the store as it is when the lock is taken.
    pub fn create_message(&self, queue_name: String, body: CreateMessageRequestBody) -> (r: Result<
        ApiSuccess<CreateMessageResponseData>,
        ApiError,
    >)
        ensures
            exists|before: StoreView, after: StoreView|
                before.valid() && after.valid() && #[trigger] answered_creation(
                    before,
                    queue_name@,
                    body,
                    after,
                    r,
                ),
    {
        let (mut service, handle) = self.service.acquire_write();
        let r = create_message(&mut service, queue_name, body);
        handle.release_write(service);
        r
    }

    /// The names of all queues, in ascending order, of the store as it is
    /// when the lock is taken.
    pub fn queue_list(&self) -> (r: Result<ApiSuccess<QueueList>, ApiError>)
        ensures
            exists|store: StoreView| store.valid() && #[trigger] answered_listing(store, r),
    {
        let handle = self.service.acquire_read();
        let r = queue_list(handle.borrow());
        handle.release_read();
        r
    }
}

} // verus!
