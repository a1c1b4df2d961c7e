//! The engine's end of a transport adapter: how a decoded request becomes
//! a call of the service, and how the outcome is classed for the answer.

use crate::errors::{
    CreateMessageError, CreateMessageErrorView, GetMessageError, GetMessageErrorView,
    QueueListError, QueueListErrorView, QueueSummaryError, QueueSummaryErrorView,
};
use crate::ident::{format_uuid, parse_uuid, uuid_of, uuid_text};
use crate::message::{
    CreateMessageRequest, CreateMessageRequestView, Message, MessageView, QueueList, QueueName,
    QueueNameEmptyError, QueueSummary, QueueSummaryView,
};
use crate::model::StoreView;
use crate::options::{GetMessageAction, GetMessageOptions, OptionsView};
use crate::params::Parameters;
use crate::ports::MessageService;
use crate::text::{sort_strings, text_le, trimmed};
use crate::time::Instant;
use vstd::prelude::*;
use vstd::string::*;

verus! {

/// The status of an answer that carries what was asked for.
pub const STATUS_OK: u16 = 200;

/// The status of an answer to a creation.
pub const STATUS_CREATED: u16 = 201;

/// The status of an answer that found nothing.
pub const STATUS_NOT_FOUND: u16 = 404;

/// The status of an answer to a request that cannot be carried out.
pub const STATUS_UNPROCESSABLE_ENTITY: u16 = 422;

/// The status of an answer after an internal failure.
pub const STATUS_INTERNAL_SERVER_ERROR: u16 = 500;

/// The classes of failure that an answer tells apart.
#[derive(Debug, Clone, PartialEq, Eq)]
pub enum ApiError {
    NotFound(String),
    InternalServerError(String),
    UnprocessableEntity(String),
}

/// An `ApiError` as a mathematical value.
pub enum ApiErrorView {
    NotFound(Seq<char>),
    InternalServerError(Seq<char>),
    UnprocessableEntity(Seq<char>),
}

impl View for ApiError {
    type V = ApiErrorView;

    open spec fn view(&self) -> ApiErrorView {
        match self {
            ApiError::NotFound(t) => ApiErrorView::NotFound(t@),
            ApiError::InternalServerError(t) => ApiErrorView::InternalServerError(t@),
            ApiError::UnprocessableEntity(t) => ApiErrorView::UnprocessableEntity(t@),
        }
    }
}

impl ApiErrorView {
    /// The status that the failure is answered with.
    pub open spec fn status_code(self) -> u16 {
        match self {
            ApiErrorView::NotFound(_) => STATUS_NOT_FOUND,
            ApiErrorView::InternalServerError(_) => STATUS_INTERNAL_SERVER_ERROR,
            ApiErrorView::UnprocessableEntity(_) => STATUS_UNPROCESSABLE_ENTITY,
        }
    }

    /// The message that the failure is answered with.  The cause of an
    /// internal failure is not passed on.
    pub open spec fn message(self) -> Seq<char> {
        match self {
            ApiErrorView::NotFound(what) => "Resource "@ + what + " not found"@,
            ApiErrorView::InternalServerError(_) => "Internal server error"@,
            ApiErrorView::UnprocessableEntity(message) => message,
        }
    }

    /// The class of a failed request for a message.
    pub open spec fn of_get(e: GetMessageErrorView) -> ApiErrorView {
        match e {
            GetMessageErrorView::NoMessage(t) => ApiErrorView::NotFound(t),
            GetMessageErrorView::BadUuid(t) => ApiErrorView::UnprocessableEntity("Bad uuid "@ + t),
            GetMessageErrorView::MissingParameter(t) => ApiErrorView::UnprocessableEntity(
                "Missing parameter "@ + t,
            ),
            GetMessageErrorView::InvalidParameter(t) => ApiErrorView::UnprocessableEntity(
                "Bad parameter "@ + t,
            ),
            GetMessageErrorView::Unknown(t) => ApiErrorView::InternalServerError(t),
        }
    }

    /// The class of a failed request for a summary.
    pub open spec fn of_summary(e: QueueSummaryErrorView) -> ApiErrorView {
        match e {
            QueueSummaryErrorView::Unknown(t) => ApiErrorView::InternalServerError(t),
            QueueSummaryErrorView::NoQueue(t) => ApiErrorView::NotFound(t),
        }
    }

    /// The class of a failed creation.
    pub open spec fn of_create(e: CreateMessageErrorView) -> ApiErrorView {
        match e {
            CreateMessageErrorView::Unknown(_) => ApiErrorView::InternalServerError(
                "Internal server error"@,
            ),
            CreateMessageErrorView::BadQueue(t) => ApiErrorView::UnprocessableEntity(t),
        }
    }

    /// The class of a failed listing.
    pub open spec fn of_list(e: QueueListErrorView) -> ApiErrorView {
        match e {
            QueueListErrorView::Unknown(t) => ApiErrorView::InternalServerError(t),
        }
    }
}

impl From<GetMessageError> for ApiError {
    fn from(e: GetMessageError) -> (r: ApiError)
        ensures
            r@ == ApiErrorView::of_get(e@),
    {
        match e {
            GetMessageError::NoMessage(e) => ApiError::NotFound(e),
            GetMessageError::BadUuid(e) => ApiError::UnprocessableEntity(
                "Bad uuid ".to_owned().concat(e.as_str()),
            ),
            GetMessageError::MissingParameter(e) => ApiError::UnprocessableEntity(
                "Missing parameter ".to_owned().concat(e.as_str()),
            ),
            GetMessageError::InvalidParameter(e) => ApiError::UnprocessableEntity(
                "Bad parameter ".to_owned().concat(e.as_str()),
            ),
            GetMessageError::Unknown(e) => ApiError::InternalServerError(e),
        }
    }
}

impl vstd::std_specs::convert::FromSpecImpl<GetMessageError> for ApiError {
    open spec fn obeys_from_spec() -> bool {
        false
    }

    open spec fn from_spec(e: GetMessageError) -> ApiError {
        arbitrary()
    }
}

impl From<QueueSummaryError> for ApiError {
    fn from(e: QueueSummaryError) -> (r: ApiError)
        ensures
            r@ == ApiErrorView::of_summary(e@),
    {
        match e {
            QueueSummaryError::Unknown(e) => ApiError::InternalServerError(e),
            QueueSummaryError::NoQueue(e) => ApiError::NotFound(e),
        }
    }
}

impl vstd::std_specs::convert::FromSpecImpl<QueueSummaryError> for ApiError {
    open spec fn obeys_from_spec() -> bool {
        false
    }

    open spec fn from_spec(e: QueueSummaryError) -> ApiError {
        arbitrary()
    }
}

impl From<CreateMessageError> for ApiError {
    fn from(e: CreateMessageError) -> (r: ApiError)
        ensures
            r@ == ApiErrorView::of_create(e@),
    {
        match e {
            CreateMessageError::Unknown(_) => ApiError::InternalServerError(
                "Internal server error".to_owned(),
            ),
            CreateMessageError::BadQueue(s) => ApiError::UnprocessableEntity(s),
        }
    }
}

impl vstd::std_specs::convert::FromSpecImpl<CreateMessageError> for ApiError {
    open spec fn obeys_from_spec() -> bool {
        false
    }

    open spec fn from_spec(e: CreateMessageError) -> ApiError {
        arbitrary()
    }
}

impl From<QueueListError> for ApiError {
    fn from(e: QueueListError) -> (r: ApiError)
        ensures
            r@ == ApiErrorView::of_list(e@),
    {
        match e {
            QueueListError::Unknown(e) => ApiError::InternalServerError(e),
        }
    }
}

impl vstd::std_specs::convert::FromSpecImpl<QueueListError> for ApiError {
    open spec fn obeys_from_spec() -> bool {
        false
    }

    open spec fn from_spec(e: QueueListError) -> ApiError {
        arbitrary()
    }
}

/// The message of an answer that reports a failure.
#[derive(Debug, Clone, PartialEq, Eq)]
pub struct ApiErrorData {
    pub message: String,
}

/// The body of an answer: the status once more, and the data.
#[derive(Debug, Clone, PartialEq, Eq)]
pub struct ApiResponseBody<T> {
    pub status_code: u16,
    pub data: T,
}

impl<T> ApiResponseBody<T> {
    /// The body with that status and those data.
    pub fn new(status_code: u16, data: T) -> (r: ApiResponseBody<T>)
        ensures
            r.status_code == status_code,
            r.data == data,
    {
        ApiResponseBody { status_code, data }
    }
}

impl ApiResponseBody<ApiErrorData> {
    /// The body with that status and that message.
    pub fn new_error(status_code: u16, message: String) -> (r: ApiResponseBody<ApiErrorData>)
        ensures
            r.status_code == status_code,
            r.data.message == message,
    {
        ApiResponseBody { status_code, data: ApiErrorData { message } }
    }
}

/// An answer that carries what was asked for: the status, and the body
/// with the same status in it.
#[derive(Debug, Clone, PartialEq, Eq)]
pub struct ApiSuccess<T>(pub u16, pub ApiResponseBody<T>);

impl<T> ApiSuccess<T> {
    /// The answer with that status, in both places, and those data.
    pub fn new(status: u16, data: T) -> (r: ApiSuccess<T>)
        ensures
            r.0 == status,
            r.1.status_code == status,
            r.1.data == data,
    {
        ApiSuccess(status, ApiResponseBody::new(status, data))
    }
}

impl ApiError {
    /// The status that this failure is answered with.
    pub fn status_code(&self) -> (r: u16)
        ensures
            r == self@.status_code(),
    {
        match self {
            ApiError::NotFound(_) => STATUS_NOT_FOUND,
            ApiError::InternalServerError(_) => STATUS_INTERNAL_SERVER_ERROR,
            ApiError::UnprocessableEntity(_) => STATUS_UNPROCESSABLE_ENTITY,
        }
    }

    /// The answer to a failed request: the status, and a body with the
    /// same status and the message.
    pub fn into_response(self) -> (r: (u16, ApiResponseBody<ApiErrorData>))
        ensures
            r.0 == self@.status_code(),
            r.1.status_code == self@.status_code(),
            r.1.data.message@ == self@.message(),
    {
        match self {
            ApiError::NotFound(e) => {
                let message = "Resource ".to_owned().concat(e.as_str()).concat(" not found");
                (STATUS_NOT_FOUND, ApiResponseBody::new_error(STATUS_NOT_FOUND, message))
            },
            ApiError::InternalServerError(_) => (
                STATUS_INTERNAL_SERVER_ERROR,
                ApiResponseBody::new_error(
                    STATUS_INTERNAL_SERVER_ERROR,
                    "Internal server error".to_owned(),
                ),
            ),
            ApiError::UnprocessableEntity(message) => (
                STATUS_UNPROCESSABLE_ENTITY,
                ApiResponseBody::new_error(STATUS_UNPROCESSABLE_ENTITY, message),
            ),
        }
    }
}

/// A message as it is handed out: the identifiers written as UUIDs.
#[derive(Debug, Clone, PartialEq, Eq)]
pub struct GetMessageResponseData {
    pub mid: String,
    pub cid: Option<String>,
    pub cursor: usize,
    pub content: String,
}

/// A `GetMessageResponseData` as a mathematical value.
pub struct GetMessageResponseDataView {
    pub mid: Seq<char>,
    pub cid: Option<Seq<char>>,
    pub cursor: usize,
    pub content: Seq<char>,
}

impl View for GetMessageResponseData {
    type V = GetMessageResponseDataView;

    open spec fn view(&self) -> GetMessageResponseDataView {
        GetMessageResponseDataView {
            mid: self.mid@,
            cid: match self.cid {
                Some(cid) => Some(cid@),
                None => None,
            },
            cursor: self.cursor,
            content: self.content@,
        }
    }
}

impl GetMessageResponseDataView {
    /// A message as it is handed out.
    pub open spec fn of(message: MessageView) -> GetMessageResponseDataView {
        GetMessageResponseDataView {
            mid: uuid_text(message.mid),
            cid: match message.cid {
                Some(cid) => Some(uuid_text(cid)),
                None => None,
            },
            cursor: message.cursor,
            content: message.content,
        }
    }
}

impl GetMessageResponseData {
    /// The message as it is handed out.  Its identifier is written in a
    /// form that is read back as the same identifier.
    pub fn from(message: &Message) -> (r: GetMessageResponseData)
        ensures
            r@ == GetMessageResponseDataView::of(message@),
            uuid_of(r.mid@) == Some(message@.mid),
    {
        GetMessageResponseData {
            mid: format_uuid(message.mid()),
            cid: match message.cid() {
                Some(cid) => Some(format_uuid(cid)),
                None => None,
            },
            cursor: message.cursor(),
            content: message.content().clone(),
        }
    }
}

/// A summary as it is handed out.
#[derive(Debug, Clone, PartialEq, Eq)]
pub struct QueueSummaryResponseData {
    pub queue_name: String,
    pub depth: usize,
}

impl View for QueueSummaryResponseData {
    type V = QueueSummaryView;

    open spec fn view(&self) -> QueueSummaryView {
        QueueSummaryView { queue_name: self.queue_name@, depth: self.depth as nat }
    }
}

impl QueueSummaryResponseData {
    /// The summary as it is handed out.
    pub fn from(summary: &QueueSummary) -> (r: QueueSummaryResponseData)
        ensures
            r@ == summary@,
    {
        QueueSummaryResponseData {
            queue_name: summary.queue_name().clone(),
            depth: summary.depth(),
        }
    }
}

/// What a creation is answered with: the identifier of the new message.
#[derive(Debug, Clone, PartialEq, Eq)]
pub struct CreateMessageResponseData {
    pub id: String,
}

impl CreateMessageResponseData {
    /// The identifier of the message, written in a form that is read
    /// back as the same identifier.
    pub fn from(message: &Message) -> (r: CreateMessageResponseData)
        ensures
            r.id@ == uuid_text(message@.mid),
            uuid_of(r.id@) == Some(message@.mid),
    {
        CreateMessageResponseData { id: format_uuid(message.mid()) }
    }
}

/// What a request against a queue is answered with.
#[derive(Debug, Clone, PartialEq, Eq)]
pub enum GetMessageReturnType {
    Message(GetMessageResponseData),
    Info(QueueSummaryResponseData),
}

/// A `GetMessageReturnType` as a mathematical value.
pub enum GetMessageReturnTypeView {
    Message(GetMessageResponseDataView),
    Info(QueueSummaryView),
}

impl View for GetMessageReturnType {
    type V = GetMessageReturnTypeView;

    open spec fn view(&self) -> GetMessageReturnTypeView {
        match self {
            GetMessageReturnType::Message(m) => GetMessageReturnTypeView::Message(m@),
            GetMessageReturnType::Info(i) => GetMessageReturnTypeView::Info(i@),
        }
    }
}

/// The body of a request to create a message.
#[derive(Debug, Clone, PartialEq, Eq)]
pub struct CreateMessageRequestBody {
    pub cid: Option<String>,
    pub content: String,
}

/// Why the body of a request to create a message was not accepted.
#[derive(Debug, Clone, PartialEq, Eq)]
pub enum ParseCreateMessageHttpRequestError {
    /// The queue name is empty.
    QueueName(QueueNameEmptyError),
    /// The correlation identifier, given here, is no UUID.
    BadUuid(String),
}

impl ParseCreateMessageHttpRequestError {
    /// The text that describes the error.
    pub fn to_string(&self) -> (r: String)
        ensures
            r@ == "Create message parse error"@,
    {
        "Create message parse error".to_owned()
    }

    /// The class of this failure, with its message.
    pub fn into_api_error(self) -> (r: ApiError)
        ensures
            r@ == match self {
                ParseCreateMessageHttpRequestError::QueueName(_) => ApiErrorView::UnprocessableEntity(
                    "queue name cannot be empty"@,
                ),
                ParseCreateMessageHttpRequestError::BadUuid(s) => ApiErrorView::UnprocessableEntity(
                    s@ + " cannot be parsed to a Uuid"@,
                ),
            },
    {
        let message = match self {
            ParseCreateMessageHttpRequestError::QueueName(e) => e.to_string(),
            ParseCreateMessageHttpRequestError::BadUuid(s) => s.concat(" cannot be parsed to a Uuid"),
        };
        ApiError::UnprocessableEntity(message)
    }
}

impl CreateMessageRequestBody {
    /// What the correlation identifier of a body was read as: nothing where
    /// the body has none, else what `uuid_of` makes of the text.
    pub open spec fn identifier(cid: Option<String>) -> Option<Option<u128>> {
        match cid {
            Some(text) => Some(uuid_of(text@)),
            None => None,
        }
    }

    /// The request that a body with the given payload asks for, the
    /// correlation identifier being what it was read as: a message without
    /// a life span.
    pub open spec fn requested(content: Seq<char>, cid: Option<Option<u128>>) -> CreateMessageRequestView {
        CreateMessageRequestView {
            content,
            cid: match cid {
                Some(id) => id,
                None => None,
            },
            expiry: None,
        }
    }

    /// The request that the body asks for, unless its correlation
    /// identifier is no UUID.
    pub fn try_into_domain(self) -> (r: Result<
        CreateMessageRequest,
        ParseCreateMessageHttpRequestError,
    >)
        ensures
            match CreateMessageRequestBody::identifier(self.cid) {
                Some(None) => r == Err::<
                    CreateMessageRequest,
                    ParseCreateMessageHttpRequestError,
                >(ParseCreateMessageHttpRequestError::BadUuid(self.cid->0)),
                cid => r is Ok && r->Ok_0@ == CreateMessageRequestBody::requested(
                    self.content@,
                    cid,
                ),
            },
    {
        let cid = match self.cid {
            None => None,
            Some(s) => match parse_uuid(s.as_str()) {
                Some(cid) => Some(cid),
                None => {
                    return Err(ParseCreateMessageHttpRequestError::BadUuid(s));
                },
            },
        };
        Ok(CreateMessageRequest::new(self.content, cid, None))
    }
}

/// Whether a request for a message that was decoded as `opts` was answered
/// with `r` as of `now`, and took the store from `before` to `after`.
pub open spec fn selected(
    before: StoreView,
    opts: OptionsView,
    now: Instant,
    after: StoreView,
    r: Result<ApiSuccess<GetMessageReturnType>, ApiError>,
) -> bool {
    let (store, answer) = before.select(opts, now);
    &&& after == store
    &&& match answer {
        Ok(msg) => {
            &&& r is Ok
            &&& r->Ok_0.0 == STATUS_OK
            &&& r->Ok_0.1.status_code == STATUS_OK
            &&& r->Ok_0.1.data@ == GetMessageReturnTypeView::Message(
                GetMessageResponseDataView::of(msg),
            )
        },
        Err(e) => r is Err && r->Err_0@ == ApiErrorView::of_get(e),
    }
}

/// Whether a request for the message with a given identifier that was
/// decoded as `opts` was answered with `r` as of `now`, and took the store
/// from `before` to `after`.
pub open spec fn selected_one(
    before: StoreView,
    opts: OptionsView,
    now: Instant,
    after: StoreView,
    r: Result<ApiSuccess<GetMessageResponseData>, ApiError>,
) -> bool {
    let (store, answer) = before.select(opts, now);
    &&& after == store
    &&& match answer {
        Ok(msg) => {
            &&& r is Ok
            &&& r->Ok_0.0 == STATUS_OK
            &&& r->Ok_0.1.status_code == STATUS_OK
            &&& r->Ok_0.1.data@ == GetMessageResponseDataView::of(msg)
        },
        Err(e) => r is Err && r->Err_0@ == ApiErrorView::of_get(e),
    }
}

/// Whether a request to create a message was answered with `r`, the
/// message having got the identifier `mid` as of `now`, and took the store
/// from `before` to `after`.
pub open spec fn created(
    before: StoreView,
    name: Seq<char>,
    req: CreateMessageRequestView,
    mid: u128,
    now: Instant,
    after: StoreView,
    r: Result<ApiSuccess<CreateMessageResponseData>, ApiError>,
) -> bool {
    let (store, answer) = before.create(name, req, mid, now);
    &&& after == store
    &&& match answer {
        Ok(msg) => {
            &&& r is Ok
            &&& r->Ok_0.0 == STATUS_CREATED
            &&& r->Ok_0.1.status_code == STATUS_CREATED
            &&& r->Ok_0.1.data.id@ == uuid_text(msg.mid)
        },
        Err(e) => r is Err && r->Err_0@ == ApiErrorView::of_create(e),
    }
}

/// Whether `r` is the answer owed to a request against the queue called
/// `queue_name`, the store going from `before` to `after`: a fault in the
/// parameters is reported and nothing changes; a request for a summary is
/// answered with the summary and nothing changes; any other request is
/// answered as a selection at some reading of the clock.
pub open spec fn answered(
    before: StoreView,
    queue_name: Seq<char>,
    params: Map<Seq<char>, Seq<char>>,
    after: StoreView,
    r: Result<ApiSuccess<GetMessageReturnType>, ApiError>,
) -> bool {
    match OptionsView::parse(params.insert("queue_name"@, queue_name)) {
        Err(e) => {
            &&& after == before
            &&& r is Err
            &&& r->Err_0@ == ApiErrorView::of_get(e)
        },
        Ok(opts) => if opts.action == GetMessageAction::Query {
            &&& after == before
            &&& match before.summary(opts.queue_name) {
                Ok(summary) => {
                    &&& r is Ok
                    &&& r->Ok_0.0 == STATUS_OK
                    &&& r->Ok_0.1.status_code == STATUS_OK
                    &&& r->Ok_0.1.data@ == GetMessageReturnTypeView::Info(summary)
                },
                Err(e) => r is Err && r->Err_0@ == ApiErrorView::of_summary(e),
            }
        } else {
            exists|now: Instant|
                now.is_reading() && #[trigger] selected(
                    before,
                    opts,
                    now,
                    after,
                    r,
                )
        },
    }
}

/// Answers a request against the queue called `queue_name`: a request for
/// a summary with the summary, any other with a message.  The queue's name
/// goes into the parameters under `queue_name`, in place of what was there.
pub fn get_message<MS: MessageService>(
    service: &mut MS,
    queue_name: String,
    params: Parameters,
) -> (r: Result<ApiSuccess<GetMessageReturnType>, ApiError>)
    requires
        old(service).store().valid(),
    ensures
        final(service).store().valid(),
        answered(old(service).store(), queue_name@, params@, final(service).store(), r),
{
    let mut params = params;
    params.insert("queue_name".to_owned(), queue_name);
    let gmo = match GetMessageOptions::try_from(&params) {
        Ok(gmo) => gmo,
        Err(e) => {
            return Err(ApiError::from(e));
        },
    };
    let ghost opts = gmo@;
    let ghost before = service.store();
    match gmo.action() {
        GetMessageAction::Query => match service.get_info(gmo) {
            Ok(info) => Ok(
                ApiSuccess::new(
                    STATUS_OK,
                    GetMessageReturnType::Info(QueueSummaryResponseData::from(&info)),
                ),
            ),
            Err(e) => Err(ApiError::from(e)),
        },
        _ => {
            let answer = service.get_message(gmo);
            let r = match answer {
                Ok(message) => Ok(
                    ApiSuccess::new(
                        STATUS_OK,
                        GetMessageReturnType::Message(GetMessageResponseData::from(&message)),
                    ),
                ),
                Err(e) => Err(ApiError::from(e)),
            };
            proof {
                let now = choose|now: Instant|
                    now.is_reading() && #[trigger] before.select(opts, now) == (
                        service.store(),
                        crate::memory::selected_view(answer),
                    );
                assert(selected(before, opts, now, service.store(), r));
            }
            r
        },
    }
}

/// Whether `r` is the answer owed to a request for the message with the
/// identifier written as `mid` in the queue called `queue_name`, the store
/// going from `before` to `after`.  Parameters that name a message
/// themselves, a fault in the parameters and a request for a summary are
/// reported, and nothing changes; any other request is answered as a
/// selection at some reading of the clock.
pub open spec fn answered_one(
    before: StoreView,
    queue_name: Seq<char>,
    mid: Seq<char>,
    params: Map<Seq<char>, Seq<char>>,
    after: StoreView,
    r: Result<ApiSuccess<GetMessageResponseData>, ApiError>,
) -> bool {
    if params.contains_key("id"@) {
        &&& after == before
        &&& r is Err
        &&& r->Err_0@ == ApiErrorView::of_get(
            GetMessageErrorView::InvalidParameter("id specified twice"@),
        )
    } else {
        match OptionsView::parse(
            params.insert("queue_name"@, queue_name).insert("id"@, mid),
        ) {
            Err(e) => {
                &&& after == before
                &&& r is Err
                &&& r->Err_0@ == ApiErrorView::of_get(e)
            },
            Ok(opts) => if opts.action == GetMessageAction::Query {
                &&& after == before
                &&& r is Err
                &&& r->Err_0@ == ApiErrorView::of_get(
                    GetMessageErrorView::InvalidParameter("info not valid for a message"@),
                )
            } else {
                exists|now: Instant|
                    now.is_reading() && #[trigger] selected_one(
                        before,
                        opts,
                        now,
                        after,
                        r,
                    )
            },
        }
    }
}

/// Answers a request for the message with the identifier `mid` in the
/// queue called `queue_name`.  The parameters may not name a message
/// themselves, and the request may not be one for a summary.
pub fn get_message_mid<MS: MessageService>(
    service: &mut MS,
    queue_name: String,
    mid: String,
    params: Parameters,
) -> (r: Result<ApiSuccess<GetMessageResponseData>, ApiError>)
    requires
        old(service).store().valid(),
    ensures
        final(service).store().valid(),
        answered_one(old(service).store(), queue_name@, mid@, params@, final(service).store(), r),
{
    let mut params = params;
    if params.get("id").is_some() {
        return Err(
            ApiError::from(GetMessageError::InvalidParameter("id specified twice".to_owned())),
        );
    }
    params.insert("queue_name".to_owned(), queue_name);
    params.insert("id".to_owned(), mid);
    let gmo = match GetMessageOptions::try_from(&params) {
        Ok(gmo) => gmo,
        Err(e) => {
            return Err(ApiError::from(e));
        },
    };
    let ghost opts = gmo@;
    let ghost before = service.store();
    match gmo.action() {
        GetMessageAction::Query => Err(
            ApiError::from(
                GetMessageError::InvalidParameter("info not valid for a message".to_owned()),
            ),
        ),
        _ => {
            let answer = service.get_message(gmo);
            let r = match answer {
                Ok(message) => Ok(
                    ApiSuccess::new(STATUS_OK, GetMessageResponseData::from(&message)),
                ),
                Err(e) => Err(ApiError::from(e)),
            };
            proof {
                let now = choose|now: Instant|
                    now.is_reading() && #[trigger] before.select(opts, now) == (
                        service.store(),
                        crate::memory::selected_view(answer),
                    );
                assert(selected_one(before, opts, now, service.store(), r));
            }
            r
        },
    }
}

/// Whether `r` is the answer owed to the creation of a message in the
/// queue called `queue_name` from `body`, the store going from `before` to
/// `after`.  A correlation identifier that is no UUID is reported, then an
/// empty queue name, and nothing changes; else the message is created,
/// under some identifier, at some reading of the clock.
pub open spec fn answered_creation(
    before: StoreView,
    queue_name: Seq<char>,
    body: CreateMessageRequestBody,
    after: StoreView,
    r: Result<ApiSuccess<CreateMessageResponseData>, ApiError>,
) -> bool {
    match CreateMessageRequestBody::identifier(body.cid) {
        Some(None) => {
            &&& after == before
            &&& r is Err
            &&& r->Err_0@ == ApiErrorView::UnprocessableEntity(
                body.cid->0@ + " cannot be parsed to a Uuid"@,
            )
        },
        cid => if trimmed(queue_name).len() == 0 {
            &&& after == before
            &&& r is Err
            &&& r->Err_0@ == ApiErrorView::UnprocessableEntity(queue_name)
        } else {
            exists|mid: u128, now: Instant|
                now.is_reading() && #[trigger] created(
                    before,
                    trimmed(queue_name),
                    CreateMessageRequestBody::requested(body.content@, cid),
                    mid,
                    now,
                    after,
                    r,
                )
        },
    }
}

/// Creates a message in the queue called `queue_name` from the body of a
/// request.  The body is looked at first, then the name.
pub fn create_message<MS: MessageService>(
    service: &mut MS,
    queue_name: String,
    body: CreateMessageRequestBody,
) -> (r: Result<ApiSuccess<CreateMessageResponseData>, ApiError>)
    requires
        old(service).store().valid(),
    ensures
        final(service).store().valid(),
        answered_creation(old(service).store(), queue_name@, body, final(service).store(), r),
{
    let domain_req = match body.try_into_domain() {
        Ok(req) => req,
        Err(e) => {
            return Err(e.into_api_error());
        },
    };
    let name = match QueueName::try_from(queue_name.as_str()) {
        Ok(name) => name,
        Err(_) => {
            return Err(ApiError::from(CreateMessageError::BadQueue(queue_name)));
        },
    };
    let ghost before = service.store();
    let ghost named = name@;
    let answer = service.create_message(name, &domain_req);
    let r = match answer {
        Ok(message) => Ok(
            ApiSuccess::new(STATUS_CREATED, CreateMessageResponseData::from(&message)),
        ),
        Err(e) => Err(ApiError::from(e)),
    };
    proof {
        let (mid, now) = choose|mid: u128, now: Instant|
            now.is_reading() && #[trigger] before.create(named, domain_req@, mid, now) == (
                service.store(),
                crate::memory::created_view(answer),
            );
        assert(created(before, named, domain_req@, mid, now, service.store(), r));
    }
    r
}

/// Whether `r` is the answer owed to a request for the names of the queues
/// of `store`: the names, each once, in ascending order.
pub open spec fn answered_listing(store: StoreView, r: Result<ApiSuccess<QueueList>, ApiError>) -> bool {
    &&& r is Ok
    &&& r->Ok_0.0 == STATUS_OK
    &&& r->Ok_0.1.status_code == STATUS_OK
    &&& r->Ok_0.1.data.names().to_multiset() == store.names().to_multiset()
    &&& forall|i: int, j: int|
        0 <= i < j < r->Ok_0.1.data.names().len() ==> text_le(
            #[trigger] r->Ok_0.1.data.names()[i],
            #[trigger] r->Ok_0.1.data.names()[j],
        )
}

/// The names of all queues, in ascending order.
pub fn queue_list<MS: MessageService>(service: &MS) -> (r: Result<ApiSuccess<QueueList>, ApiError>)
    ensures
        answered_listing(service.store(), r),
{
    match service.queue_list() {
        Ok(list) => {
            let mut names = list.0;
            sort_strings(&mut names);
            let sorted = QueueList(names);
            Ok(ApiSuccess::new(STATUS_OK, sorted))
        },
        Err(e) => Err(ApiError::from(e)),
    }
}

} // verus!

