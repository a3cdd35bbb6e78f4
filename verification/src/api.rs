//! The decisions of the request handlers: whether a request reaches the store,
//! with which query, and what is answered.

use vstd::prelude::*;
use neo4rs::Query;
use crate::auth::{check_api_key, is_authorized, text_of};
use crate::bolt::{no_params, query_params, query_text};
use crate::error::{message_of, StoreError};
use crate::message::{views, Message, MessageView};
use crate::statement::{CREATE_MESSAGE, GET_MESSAGES, UPDATE_TEXT};

verus! {

/// The body of an answer that reports a failure.
#[derive(Debug, Clone, PartialEq, Eq)]
pub struct ErrorResponse {
    error: String,
}

impl View for ErrorResponse {
    type V = Seq<char>;

    closed spec fn view(&self) -> Seq<char> {
        self.error@
    }
}

impl ErrorResponse {
    /// The body that carries the given text.
    pub fn new(error: String) -> (body: ErrorResponse)
        ensures
            body@ == error@,
    {
        ErrorResponse { error }
    }

    /// The text.
    pub fn error(&self) -> (text: &str)
        ensures
            text@ == self@,
    {
        self.error.as_str()
    }
}

/// The body of an answer that carries a notice and nothing else.
#[derive(Debug, Clone, PartialEq, Eq)]
pub struct ApiResponse {
    message: String,
}

impl View for ApiResponse {
    type V = Seq<char>;

    closed spec fn view(&self) -> Seq<char> {
        self.message@
    }
}

impl ApiResponse {
    /// The body that carries the given notice.
    pub fn new(message: String) -> (body: ApiResponse)
        ensures
            body@ == message@,
    {
        ApiResponse { message }
    }

    /// The notice.
    pub fn message(&self) -> (text: &str)
        ensures
            text@ == self@,
    {
        self.message.as_str()
    }
}

/// The answer to a request.
pub enum Response {
    /// Success, with the records that the operation gave.
    Messages(Vec<Message>),
    /// Success, with the record that was created.
    Created(Message),
    /// The request lacks a field that it must have.
    BadRequest(ErrorResponse),
    /// The request does not carry the key.
    Unauthorized(ErrorResponse),
    /// The store failed.
    NotFound(ErrorResponse),
}

/// What a [`Response`] is, as mathematical values.
pub enum ResponseView {
    /// 200 with a list of records.
    Messages(Seq<MessageView>),
    /// 200 with one record.
    Created(MessageView),
    /// 400 with a text.
    BadRequest(Seq<char>),
    /// 401 with a text.
    Unauthorized(Seq<char>),
    /// 404 with a text.
    NotFound(Seq<char>),
}

impl View for Response {
    type V = ResponseView;

    open spec fn view(&self) -> ResponseView {
        match self {
            Response::Messages(messages) => ResponseView::Messages(views(messages@)),
            Response::Created(message) => ResponseView::Created(message@),
            Response::BadRequest(body) => ResponseView::BadRequest(body@),
            Response::Unauthorized(body) => ResponseView::Unauthorized(body@),
            Response::NotFound(body) => ResponseView::NotFound(body@),
        }
    }
}

/// The status code of each kind of answer.
pub open spec fn status_of(response: ResponseView) -> int {
    match response {
        ResponseView::Messages(_) => 200,
        ResponseView::Created(_) => 200,
        ResponseView::BadRequest(_) => 400,
        ResponseView::Unauthorized(_) => 401,
        ResponseView::NotFound(_) => 404,
    }
}

impl Response {
    /// The HTTP status code to send.
    pub fn status(&self) -> (code: u16)
        ensures
            code == status_of(self@),
    {
        match self {
            Response::Messages(_) => 200,
            Response::Created(_) => 200,
            Response::BadRequest(_) => 400,
            Response::Unauthorized(_) => 401,
            Response::NotFound(_) => 404,
        }
    }
}

/// What a handler does with a request before anything touches the store.
pub enum Admission {
    /// Run this query on the store.
    Run(Query),
    /// Answer at once; the store is not touched.
    Refuse(Response),
}

/// What an [`Admission`] is, as mathematical values.
pub enum AdmissionView {
    /// Run the statement `text` with the string parameters `params`.
    Run { text: Seq<char>, params: Map<Seq<char>, Seq<char>> },
    /// Answer at once.
    Refuse(ResponseView),
}

impl View for Admission {
    type V = AdmissionView;

    open spec fn view(&self) -> AdmissionView {
        match self {
            Admission::Run(query) => AdmissionView::Run {
                text: query_text(*query),
                params: query_params(*query),
            },
            Admission::Refuse(response) => AdmissionView::Refuse(response@),
        }
    }
}

/// The text of the answer to a request without the key.
pub const UNAUTHORIZED: &'static str = "Invalid or missing API key";

/// The text of the answer to an update without a text.
pub const TEXT_EXPECTED: &'static str = "Expected a 'text' field";

/// The admission of a request for the list of all records: refused without the
/// key, else the listing without parameters.
pub open spec fn admit_get_messages(
    authorization: Option<Seq<char>>,
    api_key: Option<Seq<char>>,
) -> AdmissionView {
    if !is_authorized(authorization, api_key) {
        AdmissionView::Refuse(ResponseView::Unauthorized(UNAUTHORIZED@))
    } else {
        AdmissionView::Run { text: GET_MESSAGES@, params: no_params() }
    }
}

/// The admission of a request to create a record: refused without the key,
/// else the creation with the text as `text`.
pub open spec fn admit_create_message(
    authorization: Option<Seq<char>>,
    api_key: Option<Seq<char>>,
    text: Seq<char>,
) -> AdmissionView {
    if !is_authorized(authorization, api_key) {
        AdmissionView::Refuse(ResponseView::Unauthorized(UNAUTHORIZED@))
    } else {
        AdmissionView::Run { text: CREATE_MESSAGE@, params: no_params().insert("text"@, text) }
    }
}

/// The admission of a request to change a record's text. The key is asked for
/// first: without it the request is refused as unauthorized, whatever else it
/// holds. With the key and without a text it is refused as a bad request. Else
/// the update runs, with the identifier as `id` and the text as `text`.
pub open spec fn admit_patch_field(
    authorization: Option<Seq<char>>,
    api_key: Option<Seq<char>>,
    id: Seq<char>,
    text: Option<Seq<char>>,
) -> AdmissionView {
    if !is_authorized(authorization, api_key) {
        AdmissionView::Refuse(ResponseView::Unauthorized(UNAUTHORIZED@))
    } else {
        match text {
            Some(text) => AdmissionView::Run {
                text: UPDATE_TEXT@,
                params: no_params().insert("id"@, id).insert("text"@, text),
            },
            None => AdmissionView::Refuse(ResponseView::BadRequest(TEXT_EXPECTED@)),
        }
    }
}

/// The answer to a request without the key.
fn unauthorized() -> (response: Response)
    ensures
        response@ == ResponseView::Unauthorized(UNAUTHORIZED@),
{
    Response::Unauthorized(ErrorResponse::new(UNAUTHORIZED.to_owned()))
}

/// Admits a request for the list of all records.
pub fn get_messages(authorization: Option<&str>, api_key: Option<&str>) -> (admission: Admission)
    ensures
        admission@ == admit_get_messages(text_of(authorization), text_of(api_key)),
{
    if !check_api_key(authorization, api_key) {
        return Admission::Refuse(unauthorized());
    }
    Admission::Run(crate::statement::get_messages())
}

/// Admits a request to create a record with the given text.
pub fn create_message(
    authorization: Option<&str>,
    api_key: Option<&str>,
    text: &str,
) -> (admission: Admission)
    ensures
        admission@ == admit_create_message(text_of(authorization), text_of(api_key), text@),
{
    if !check_api_key(authorization, api_key) {
        return Admission::Refuse(unauthorized());
    }
    Admission::Run(crate::statement::create_message(text))
}

/// Admits a request to give the record `id` a new text, if the request holds
/// one.
pub fn patch_field(
    authorization: Option<&str>,
    api_key: Option<&str>,
    id: &str,
    text: Option<&str>,
) -> (admission: Admission)
    ensures
        admission@ == admit_patch_field(text_of(authorization), text_of(api_key), id@, text_of(text)),
{
    if !check_api_key(authorization, api_key) {
        return Admission::Refuse(unauthorized());
    }
    match text {
        Some(text) => Admission::Run(crate::statement::update_text(id, text)),
        None => Admission::Refuse(
            Response::BadRequest(ErrorResponse::new(TEXT_EXPECTED.to_owned())),
        ),
    }
}

/// The answer that a listing or an update ends in.
pub open spec fn messages_answer(result: Result<Vec<Message>, StoreError>) -> ResponseView {
    match result {
        Ok(messages) => ResponseView::Messages(views(messages@)),
        Err(error) => ResponseView::NotFound(message_of(error@)),
    }
}

/// The answer that a creation ends in.
pub open spec fn created_answer(result: Result<Message, StoreError>) -> ResponseView {
    match result {
        Ok(message) => ResponseView::Created(message@),
        Err(error) => ResponseView::NotFound(message_of(error@)),
    }
}

/// Answers a listing or an update: the records where the store gave them, an
/// empty list too; else the message of the failure.
pub fn messages_response(result: Result<Vec<Message>, StoreError>) -> (response: Response)
    ensures
        response@ == messages_answer(result),
{
    match result {
        Ok(messages) => Response::Messages(messages),
        Err(error) => Response::NotFound(ErrorResponse::new(error.message())),
    }
}

/// Answers a creation: the new record, or the message of the failure.
pub fn created_response(result: Result<Message, StoreError>) -> (response: Response)
    ensures
        response@ == created_answer(result),
{
    match result {
        Ok(message) => Response::Created(message),
        Err(error) => Response::NotFound(ErrorResponse::new(error.message())),
    }
}

} // verus!
