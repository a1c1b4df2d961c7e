//! Requests against a queue: the action, the filters, and how a request is
//! read from a parameter map and checked.

use crate::errors::{GetMessageError, GetMessageErrorView};
use crate::ident::{parse_uuid, uuid_of};
use crate::message::{Message, MessageView, QueueName};
use crate::params::Parameters;
use crate::text::{decimal_u64, decimal_usize, parse_u64, parse_usize, same_text, trimmed};
use crate::time::Instant;
use vstd::prelude::*;
use vstd::string::*;

verus! {

/// What a consumer asks of a queue.
#[derive(Copy, Clone, Debug, PartialEq, Eq, PartialOrd, Ord, Hash, Structural)]
pub enum GetMessageAction {
    /// `peek`: read a message and leave it where it is.
    Browse,
    /// `take`: read a message and remove it.
    Get,
    /// `lease`: read a message and hold it for a while.
    Reserve,
    /// `ack`: remove a message that is held.
    Confirm,
    /// `release`: give up the hold on a message.
    Return,
    /// `info`: ask for the queue's summary.
    Query,
}

impl GetMessageAction {
    /// The action that a token names.  Tokens are case-sensitive.
    pub open spec fn of_token(token: Seq<char>) -> Option<GetMessageAction> {
        if token == "peek"@ {
            Some(GetMessageAction::Browse)
        } else if token == "take"@ {
            Some(GetMessageAction::Get)
        } else if token == "lease"@ {
            Some(GetMessageAction::Reserve)
        } else if token == "ack"@ {
            Some(GetMessageAction::Confirm)
        } else if token == "release"@ {
            Some(GetMessageAction::Return)
        } else if token == "info"@ {
            Some(GetMessageAction::Query)
        } else {
            None
        }
    }

    /// Whether the action selects among the messages that nobody holds.
    pub open spec fn reads(self) -> bool {
        self == GetMessageAction::Browse || self == GetMessageAction::Get || self
            == GetMessageAction::Reserve
    }

    /// Whether the action settles a hold.
    pub open spec fn settles(self) -> bool {
        self == GetMessageAction::Confirm || self == GetMessageAction::Return
    }

    /// What stands against carrying out this action with the given fields:
    /// a lease needs its duration, settling a hold needs the identifier, and
    /// neither a peek nor a summary takes a duration.
    pub open spec fn violation(self, opts: OptionsView) -> Option<GetMessageErrorView> {
        match self {
            GetMessageAction::Reserve => if opts.reservation is None {
                Some(GetMessageErrorView::MissingParameter("lease_seconds"@))
            } else {
                None
            },
            GetMessageAction::Confirm | GetMessageAction::Return => if opts.mid is None {
                Some(GetMessageErrorView::MissingParameter("id"@))
            } else {
                None
            },
            GetMessageAction::Query | GetMessageAction::Browse => if opts.reservation is Some {
                Some(GetMessageErrorView::InvalidParameter("lease_seconds"@))
            } else {
                None
            },
            GetMessageAction::Get => None,
        }
    }

    /// Reads an action token.
    pub fn try_from(value: &str) -> (r: Result<GetMessageAction, GetMessageError>)
        ensures
            match GetMessageAction::of_token(value@) {
                Some(action) => r == Ok::<GetMessageAction, GetMessageError>(action),
                None => r is Err && r->Err_0@ == GetMessageErrorView::InvalidParameter(
                    "action"@,
                ),
            },
    {
        if same_text(value, "peek") {
            Ok(GetMessageAction::Browse)
        } else if same_text(value, "take") {
            Ok(GetMessageAction::Get)
        } else if same_text(value, "lease") {
            Ok(GetMessageAction::Reserve)
        } else if same_text(value, "ack") {
            Ok(GetMessageAction::Confirm)
        } else if same_text(value, "release") {
            Ok(GetMessageAction::Return)
        } else if same_text(value, "info") {
            Ok(GetMessageAction::Query)
        } else {
            Err(GetMessageError::InvalidParameter("action".to_owned()))
        }
    }

    /// Checks the fields of `gmo` against what this action needs and forbids.
    pub fn validate(&self, gmo: &GetMessageOptions) -> (r: Result<(), GetMessageError>)
        ensures
            match self.violation(gmo@) {
                Some(e) => r is Err && r->Err_0@ == e,
                None => r is Ok,
            },
    {
        match self {
            GetMessageAction::Reserve => gmo.needs_reservation(),
            GetMessageAction::Confirm => gmo.needs_mid(),
            GetMessageAction::Return => gmo.needs_mid(),
            GetMessageAction::Query => gmo.no_reservation(),
            GetMessageAction::Browse => gmo.no_reservation(),
            GetMessageAction::Get => Ok(()),
        }
    }
}

/// A request as a mathematical value.
pub struct OptionsView {
    pub queue_name: Seq<char>,
    pub action: GetMessageAction,
    /// The identifier a message must have.
    pub mid: Option<u128>,
    /// The correlation identifier a message must have.
    pub cid: Option<u128>,
    /// For how many seconds a lease holds the message.
    pub reservation: Option<u64>,
    /// A life span in seconds.
    pub expiry: Option<u64>,
    /// The place after which a message must stand.
    pub cursor: Option<usize>,
}

impl OptionsView {
    /// Whether the fields are what the action needs and allows.
    pub open spec fn valid(self) -> bool {
        self.action.violation(self) is None
    }

    /// Whether the filters on identifier, correlation identifier and place
    /// let `msg` through.
    pub open spec fn admits(self, msg: MessageView) -> bool {
        &&& self.mid is Some ==> msg.mid == self.mid->0
        &&& self.cid is Some ==> msg.cid == self.cid
        &&& self.cursor is Some ==> msg.cursor > self.cursor->0
    }

    /// Whether the request selects `msg` at `now`.  Reading needs a message
    /// that nobody holds, that has not expired and that the filters let
    /// through; settling a hold needs a held message with the identifier
    /// asked for.  A summary selects no message.
    pub open spec fn matches(self, msg: MessageView, now: Instant) -> bool {
        match self.action {
            GetMessageAction::Browse | GetMessageAction::Get | GetMessageAction::Reserve => {
                !msg.is_reserved(now) && !msg.is_expired(now) && self.admits(msg)
            },
            GetMessageAction::Confirm | GetMessageAction::Return => {
                msg.is_reserved(now) && self.mid == Some(msg.mid)
            },
            GetMessageAction::Query => false,
        }
    }

    /// What the identifier text under `key` was read as: nothing where the
    /// map has no such key, else what `uuid_of` makes of the text.
    pub open spec fn identifier(m: Map<Seq<char>, Seq<char>>, key: Seq<char>) -> Option<
        Option<u128>,
    > {
        if m.contains_key(key) {
            Some(uuid_of(m[key]))
        } else {
            None
        }
    }

    /// The request that a parameter map denotes, or the first thing wrong
    /// with it.
    pub open spec fn parse(m: Map<Seq<char>, Seq<char>>) -> Result<
        OptionsView,
        GetMessageErrorView,
    > {
        OptionsView::parse_with(
            m,
            OptionsView::identifier(m, "id"@),
            OptionsView::identifier(m, "correlation_id"@),
        )
    }

    /// `parse`, with the two identifiers already read: `None` for an absent
    /// field, `Some(None)` for text that is no identifier.
    ///
    /// The fields are looked at in a fixed order (queue name, action,
    /// identifier, correlation identifier, lease, life span, place) and the
    /// first fault found is the one reported; the action's own demands come
    /// last.
    pub open spec fn parse_with(
        m: Map<Seq<char>, Seq<char>>,
        mid: Option<Option<u128>>,
        cid: Option<Option<u128>>,
    ) -> Result<OptionsView, GetMessageErrorView> {
        if !m.contains_key("queue_name"@) {
            Err(GetMessageErrorView::MissingParameter("queue_name"@))
        } else if trimmed(m["queue_name"@]).len() == 0 {
            Err(GetMessageErrorView::InvalidParameter("queue_name"@))
        } else if !m.contains_key("action"@) {
            Err(GetMessageErrorView::MissingParameter("action"@))
        } else if GetMessageAction::of_token(m["action"@]) is None {
            Err(GetMessageErrorView::InvalidParameter("action"@))
        } else if mid == Some(None::<u128>) {
            Err(GetMessageErrorView::InvalidParameter("id"@))
        } else if cid == Some(None::<u128>) {
            Err(GetMessageErrorView::InvalidParameter("correlation_id"@))
        } else if m.contains_key("lease_seconds"@) && decimal_u64(m["lease_seconds"@]) is None {
            Err(GetMessageErrorView::InvalidParameter("lease_seconds"@))
        } else if m.contains_key("expiry_seconds"@) && decimal_u64(m["expiry_seconds"@]) is None {
            Err(GetMessageErrorView::InvalidParameter("expiry_seconds"@))
        } else if m.contains_key("after"@) && decimal_usize(m["after"@]) is None {
            Err(GetMessageErrorView::InvalidParameter("after"@))
        } else {
            let opts = OptionsView {
                queue_name: trimmed(m["queue_name"@]),
                action: GetMessageAction::of_token(m["action"@])->0,
                mid: match mid {
                    Some(id) => id,
                    None => None,
                },
                cid: match cid {
                    Some(id) => id,
                    None => None,
                },
                reservation: if m.contains_key("lease_seconds"@) {
                    decimal_u64(m["lease_seconds"@])
                } else {
                    None
                },
                expiry: if m.contains_key("expiry_seconds"@) {
                    decimal_u64(m["expiry_seconds"@])
                } else {
                    None
                },
                cursor: if m.contains_key("after"@) {
                    decimal_usize(m["after"@])
                } else {
                    None
                },
            };
            match opts.action.violation(opts) {
                Some(e) => Err(e),
                None => Ok(opts),
            }
        }
    }
}

/// A request against one queue.  Values are made by `try_from` and
/// `with_identifiers` only, so each one is what its action needs and allows.
#[derive(Debug, PartialEq, Eq, PartialOrd, Ord, Hash)]
pub struct GetMessageOptions {
    queue_name: QueueName,
    action: GetMessageAction,
    mid: Option<u128>,
    cid: Option<u128>,
    reservation: Option<u64>,
    expiry: Option<u64>,
    cursor: Option<usize>,
}

impl View for GetMessageOptions {
    type V = OptionsView;

    closed spec fn view(&self) -> OptionsView {
        OptionsView {
            queue_name: self.queue_name@,
            action: self.action,
            mid: self.mid,
            cid: self.cid,
            reservation: self.reservation,
            expiry: self.expiry,
            cursor: self.cursor,
        }
    }
}

impl Clone for GetMessageOptions {
    fn clone(&self) -> (r: GetMessageOptions)
        ensures
            r@ == self@,
    {
        GetMessageOptions {
            queue_name: self.queue_name.clone(),
            action: self.action,
            mid: self.mid,
            cid: self.cid,
            reservation: self.reservation,
            expiry: self.expiry,
            cursor: self.cursor,
        }
    }
}

/// What `try_from` and `with_identifiers` return, as a mathematical value.
pub open spec fn parsed_view(r: Result<GetMessageOptions, GetMessageError>) -> Result<
    OptionsView,
    GetMessageErrorView,
> {
    match r {
        Ok(gmo) => Ok(gmo@),
        Err(e) => Err(e@),
    }
}

impl GetMessageOptions {
    pub fn queue_name(&self) -> (r: &QueueName)
        ensures
            r@ == self@.queue_name,
    {
        &self.queue_name
    }

    pub fn action(&self) -> (r: GetMessageAction)
        ensures
            r == self@.action,
    {
        self.action
    }

    pub fn mid(&self) -> (r: Option<u128>)
        ensures
            r == self@.mid,
    {
        self.mid
    }

    pub fn cid(&self) -> (r: Option<u128>)
        ensures
            r == self@.cid,
    {
        self.cid
    }

    pub fn reservation(&self) -> (r: &Option<u64>)
        ensures
            *r == self@.reservation,
    {
        &self.reservation
    }

    pub fn expiry(&self) -> (r: &Option<u64>)
        ensures
            *r == self@.expiry,
    {
        &self.expiry
    }

    pub fn cursor(&self) -> (r: &Option<usize>)
        ensures
            *r == self@.cursor,
    {
        &self.cursor
    }

    /// Fails unless the request names a message.
    pub fn needs_mid(&self) -> (r: Result<(), GetMessageError>)
        ensures
            self@.mid is Some ==> r is Ok,
            self@.mid is None ==> r is Err && r->Err_0@ == GetMessageErrorView::MissingParameter(
                "id"@,
            ),
    {
        match self.mid {
            Some(_) => Ok(()),
            None => Err(GetMessageError::MissingParameter("id".to_owned())),
        }
    }

    /// Fails if the request carries a lease duration.
    pub fn no_reservation(&self) -> (r: Result<(), GetMessageError>)
        ensures
            self@.reservation is None ==> r is Ok,
            self@.reservation is Some ==> r is Err && r->Err_0@
                == GetMessageErrorView::InvalidParameter("lease_seconds"@),
    {
        if self.reservation.is_some() {
            Err(GetMessageError::InvalidParameter("lease_seconds".to_owned()))
        } else {
            Ok(())
        }
    }

    /// Fails unless the request carries a lease duration.
    pub fn needs_reservation(&self) -> (r: Result<(), GetMessageError>)
        ensures
            self@.reservation is Some ==> r is Ok,
            self@.reservation is None ==> r is Err && r->Err_0@
                == GetMessageErrorView::MissingParameter("lease_seconds"@),
    {
        match self.reservation {
            Some(_) => Ok(()),
            None => Err(GetMessageError::MissingParameter("lease_seconds".to_owned())),
        }
    }

    /// Whether the request selects `msg` at `now`.  A request for a summary
    /// selects no message and is not to be asked.
    pub fn matches(&self, msg: &Message, now: Instant) -> (r: bool)
        requires
            self@.action != GetMessageAction::Query,
        ensures
            r == self@.matches(msg@, now),
    {
        match self.action {
            GetMessageAction::Browse | GetMessageAction::Get | GetMessageAction::Reserve => {
                !msg.is_reserved(now) && !msg.is_expired(now) && (match self.mid {
                    None => true,
                    Some(id) => msg.mid() == id,
                }) && (match self.cid {
                    None => true,
                    Some(id) => match msg.cid() {
                        Some(other) => other == id,
                        None => false,
                    },
                }) && (match self.cursor {
                    None => true,
                    Some(after) => msg.cursor() > after,
                })
            },
            GetMessageAction::Confirm | GetMessageAction::Return => {
                msg.is_reserved(now) && (match self.mid {
                    None => false,
                    Some(id) => msg.mid() == id,
                })
            },
            GetMessageAction::Query => false,
        }
    }

    /// Reads a request from a parameter map.  The keys read are
    /// `queue_name`, `action`, `id`, `correlation_id`, `lease_seconds`,
    /// `expiry_seconds` and `after`; any other key is ignored.
    pub fn try_from(m: &Parameters) -> (r: Result<GetMessageOptions, GetMessageError>)
        ensures
            parsed_view(r) == OptionsView::parse(m@),
            r is Ok ==> r->Ok_0@.valid(),
    {
        let mid = match m.get("id") {
            None => None,
            Some(text) => Some(parse_uuid(text.as_str())),
        };
        let cid = match m.get("correlation_id") {
            None => None,
            Some(text) => Some(parse_uuid(text.as_str())),
        };
        GetMessageOptions::with_identifiers(m, mid, cid)
    }

    /// Reads a request from a parameter map, taking the two identifiers as
    /// they were read: `None` for an absent field, `Some(None)` for text that
    /// is no identifier.  What the map holds under `id` and `correlation_id`
    /// is not looked at.
    pub fn with_identifiers(
        m: &Parameters,
        mid: Option<Option<u128>>,
        cid: Option<Option<u128>>,
    ) -> (r: Result<GetMessageOptions, GetMessageError>)
        ensures
            parsed_view(r) == OptionsView::parse_with(m@, mid, cid),
            r is Ok ==> r->Ok_0@.valid(),
    {
        let queue_name = match m.get("queue_name") {
            None => {
                return Err(GetMessageError::MissingParameter("queue_name".to_owned()));
            },
            Some(text) => match QueueName::try_from(text.as_str()) {
                Ok(name) => name,
                Err(_) => {
                    return Err(GetMessageError::InvalidParameter("queue_name".to_owned()));
                },
            },
        };
        let action = match m.get("action") {
            None => {
                return Err(GetMessageError::MissingParameter("action".to_owned()));
            },
            Some(text) => match GetMessageAction::try_from(text.as_str()) {
                Ok(action) => action,
                Err(e) => {
                    return Err(e);
                },
            },
        };
        let mid = match mid {
            None => None,
            Some(Some(id)) => Some(id),
            Some(None) => {
                return Err(GetMessageError::InvalidParameter("id".to_owned()));
            },
        };
        let cid = match cid {
            None => None,
            Some(Some(id)) => Some(id),
            Some(None) => {
                return Err(GetMessageError::InvalidParameter("correlation_id".to_owned()));
            },
        };
        let reservation = match m.get("lease_seconds") {
            None => None,
            Some(text) => match parse_u64(text.as_str()) {
                Some(seconds) => Some(seconds),
                None => {
                    return Err(GetMessageError::InvalidParameter("lease_seconds".to_owned()));
                },
            },
        };
        let expiry = match m.get("expiry_seconds") {
            None => None,
            Some(text) => match parse_u64(text.as_str()) {
                Some(seconds) => Some(seconds),
                None => {
                    return Err(GetMessageError::InvalidParameter("expiry_seconds".to_owned()));
                },
            },
        };
        let cursor = match m.get("after") {
            None => None,
            Some(text) => match parse_usize(text.as_str()) {
                Some(place) => Some(place),
                None => {
                    return Err(GetMessageError::InvalidParameter("after".to_owned()));
                },
            },
        };
        GetMessageOptions::new(queue_name, action, mid, cid, reservation, expiry, cursor)
    }

    /// A request with the given fields, unless they are not what the action
    /// needs and allows.
    pub fn new(
        queue_name: QueueName,
        action: GetMessageAction,
        mid: Option<u128>,
        cid: Option<u128>,
        reservation: Option<u64>,
        expiry: Option<u64>,
        cursor: Option<usize>,
    ) -> (r: Result<GetMessageOptions, GetMessageError>)
        ensures
            ({
                let opts = OptionsView {
                    queue_name: queue_name@,
                    action,
                    mid,
                    cid,
                    reservation,
                    expiry,
                    cursor,
                };
                match action.violation(opts) {
                    Some(e) => r is Err && r->Err_0@ == e,
                    None => r is Ok && r->Ok_0@ == opts && opts.valid(),
                }
            }),
    {
        let gmo = GetMessageOptions { queue_name, action, mid, cid, reservation, expiry, cursor };
        match action.validate(&gmo) {
            Ok(()) => Ok(gmo),
            Err(e) => Err(e),
        }
    }
}

} // verus!
