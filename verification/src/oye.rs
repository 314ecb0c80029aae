//! The client of the reminder service: the requests of its three
//! operations, and what each makes of the service's answer.
//!
//! Sending a request is not done here. A caller performs the `Request` and
//! hands back what happened as an `Exchange`.

use vstd::prelude::*;
use vstd::string::*;
use crate::config::Config;
use crate::json::{
    as_array, json_parsed, json_quoted, json_tree, member, parse, quote, string_member,
    text_member, JsonTree,
};
use crate::text::{debug_quoted, debug_text};
use crate::url::{join_url, url_joined};

verus! {

/// The absolute URL under which the service answers, as text.
pub type OyeApiBaseUrl = String;

/// The token by which the service knows a reminder.
pub type ReminderId = String;

/// What a reminder says.
pub type ReminderDescription = String;

/// What the user typed to have a reminder made of it.
pub type Utterance = String;

/// An offset from UTC as ISO 8601 writes it, such as `+02:00`.
pub type IsoTimezone = String;

/// A reminder as the service reports it.
#[derive(Debug, PartialEq, Eq)]
pub struct Reminder {
    pub id: ReminderId,
    pub description: ReminderDescription,
}

/// What a `Reminder` holds.
pub struct ReminderView {
    pub id: Seq<char>,
    pub description: Seq<char>,
}

impl View for Reminder {
    type V = ReminderView;

    open spec fn view(&self) -> ReminderView {
        ReminderView { id: self.id@, description: self.description@ }
    }
}

impl DeepView for Reminder {
    type V = ReminderView;

    open spec fn deep_view(&self) -> ReminderView {
        self@
    }
}

impl Clone for Reminder {
    fn clone(&self) -> (r: Self)
        ensures
            r@ == self@,
    {
        Reminder { id: self.id.clone(), description: self.description.clone() }
    }
}

/// Why an operation failed.
#[derive(Debug, PartialEq, Eq)]
pub enum ClientError {
    /// No usable answer came from the network.
    TransportError(String),
    /// The service answered with an error of its own and said why.
    ServiceError(String),
    /// The answer was not of the shape that the operation expects.
    ProtocolError(String),
}

/// What a `ClientError` holds.
pub enum ClientErrorView {
    TransportError(Seq<char>),
    ServiceError(Seq<char>),
    ProtocolError(Seq<char>),
}

impl View for ClientError {
    type V = ClientErrorView;

    open spec fn view(&self) -> ClientErrorView {
        match self {
            ClientError::TransportError(detail) => ClientErrorView::TransportError(detail@),
            ClientError::ServiceError(message) => ClientErrorView::ServiceError(message@),
            ClientError::ProtocolError(detail) => ClientErrorView::ProtocolError(detail@),
        }
    }
}

impl ClientErrorView {
    /// The text that describes the error: the name of its kind, and its
    /// string in `Debug` form between brackets.
    pub open spec fn described(self) -> Seq<char> {
        match self {
            ClientErrorView::TransportError(detail) => "TransportError("@ + debug_quoted(detail)
                + ")"@,
            ClientErrorView::ServiceError(message) => "ServiceError("@ + debug_quoted(message)
                + ")"@,
            ClientErrorView::ProtocolError(detail) => "ProtocolError("@ + debug_quoted(detail)
                + ")"@,
        }
    }
}

impl ClientError {
    /// Describes the error in one line.
    pub fn describe(&self) -> (r: String)
        ensures
            r@ == self@.described(),
    {
        let (name, text) = match self {
            ClientError::TransportError(detail) => ("TransportError(", detail),
            ClientError::ServiceError(message) => ("ServiceError(", message),
            ClientError::ProtocolError(detail) => ("ProtocolError(", detail),
        };
        let mut r = String::from_str(name);
        let quoted = debug_text(text.as_str());
        r.append(quoted.as_str());
        r.append(")");
        r
    }
}

/// The failure of one operation of the client: which operation it was, and
/// why it failed.
#[derive(Debug, PartialEq, Eq)]
pub enum OyeClientError {
    FailedToGetReminders(ClientError),
    FailedToCreateReminder(ClientError),
    FailedToDeleteReminder(ClientError),
}

/// What an `OyeClientError` holds.
pub enum OyeClientErrorView {
    FailedToGetReminders(ClientErrorView),
    FailedToCreateReminder(ClientErrorView),
    FailedToDeleteReminder(ClientErrorView),
}

impl View for OyeClientError {
    type V = OyeClientErrorView;

    open spec fn view(&self) -> OyeClientErrorView {
        match self {
            OyeClientError::FailedToGetReminders(cause) => OyeClientErrorView::FailedToGetReminders(
                cause@,
            ),
            OyeClientError::FailedToCreateReminder(cause) =>
                OyeClientErrorView::FailedToCreateReminder(cause@),
            OyeClientError::FailedToDeleteReminder(cause) =>
                OyeClientErrorView::FailedToDeleteReminder(cause@),
        }
    }
}

impl OyeClientErrorView {
    /// Why the operation failed.
    pub open spec fn cause(self) -> ClientErrorView {
        match self {
            OyeClientErrorView::FailedToGetReminders(cause) => cause,
            OyeClientErrorView::FailedToCreateReminder(cause) => cause,
            OyeClientErrorView::FailedToDeleteReminder(cause) => cause,
        }
    }

    /// The text that describes the failure: the name of the operation's
    /// error, and the description of the cause between brackets.
    pub open spec fn described(self) -> Seq<char> {
        match self {
            OyeClientErrorView::FailedToGetReminders(cause) => "FailedToGetReminders("@
                + cause.described() + ")"@,
            OyeClientErrorView::FailedToCreateReminder(cause) => "FailedToCreateReminder("@
                + cause.described() + ")"@,
            OyeClientErrorView::FailedToDeleteReminder(cause) => "FailedToDeleteReminder("@
                + cause.described() + ")"@,
        }
    }
}

impl OyeClientError {
    /// Why the operation failed.
    pub fn cause(&self) -> (r: &ClientError)
        ensures
            r@ == self@.cause(),
    {
        match self {
            OyeClientError::FailedToGetReminders(cause) => cause,
            OyeClientError::FailedToCreateReminder(cause) => cause,
            OyeClientError::FailedToDeleteReminder(cause) => cause,
        }
    }

    /// Describes the failure in one line.
    pub fn describe(&self) -> (r: String)
        ensures
            r@ == self@.described(),
    {
        let name = match self {
            OyeClientError::FailedToGetReminders(_) => "FailedToGetReminders(",
            OyeClientError::FailedToCreateReminder(_) => "FailedToCreateReminder(",
            OyeClientError::FailedToDeleteReminder(_) => "FailedToDeleteReminder(",
        };
        let mut r = String::from_str(name);
        let cause = self.cause().describe();
        r.append(cause.as_str());
        r.append(")");
        r
    }
}

impl ReminderView {
    /// The text that describes the reminder: its two fields by name, each
    /// in `Debug` form.
    pub open spec fn described(self) -> Seq<char> {
        "Reminder { id: "@ + debug_quoted(self.id) + ", description: "@ + debug_quoted(
            self.description,
        ) + " }"@
    }
}

impl Reminder {
    /// Describes the reminder in one line.
    pub fn describe(&self) -> (r: String)
        ensures
            r@ == self@.described(),
    {
        let mut r = String::from_str("Reminder { id: ");
        let id = debug_text(self.id.as_str());
        r.append(id.as_str());
        r.append(", description: ");
        let description = debug_text(self.description.as_str());
        r.append(description.as_str());
        r.append(" }");
        r
    }
}

/// The reminder that a JSON value stands for: an object whose members `id`
/// and `description` are strings. Other members are not looked at.
pub open spec fn reminder_of(tree: JsonTree) -> Option<ReminderView> {
    match (text_member(tree, "id"@), text_member(tree, "description"@)) {
        (Some(id), Some(description)) => Some(ReminderView { id, description }),
        _ => None,
    }
}

/// The reminders that the JSON values stand for, in their order, where each
/// of them stands for one.
pub open spec fn reminders_of(items: Seq<JsonTree>) -> Option<Seq<ReminderView>> {
    if forall|i: int| 0 <= i < items.len() ==> (#[trigger] reminder_of(items[i])) is Some {
        Some(Seq::new(items.len(), |i: int| reminder_of(items[i])->0))
    } else {
        None
    }
}

/// The reminder that stands under the member `key` of a JSON object.
pub open spec fn reminder_member(tree: JsonTree, key: Seq<char>) -> Option<ReminderView> {
    match tree {
        JsonTree::Object(members) => if members.contains_key(key) {
            reminder_of(members[key])
        } else {
            None
        },
        _ => None,
    }
}

/// The reminders that stand, as an array, under the member `reminders` of a
/// JSON object.
pub open spec fn listed_reminders(tree: JsonTree) -> Option<Seq<ReminderView>> {
    match tree {
        JsonTree::Object(members) => if members.contains_key("reminders"@) {
            match members["reminders"@] {
                JsonTree::Array(items) => reminders_of(items),
                _ => None,
            }
        } else {
            None
        },
        _ => None,
    }
}

/// Reads a reminder from a JSON value.
pub fn reminder_from_json(value: &serde_jsonrc::Value) -> (r: Option<Reminder>)
    ensures
        match r {
            Some(reminder) => reminder_of(json_tree(*value)) == Some(reminder@),
            None => reminder_of(json_tree(*value)) is None,
        },
{
    match string_member(value, "id") {
        Some(id) => match string_member(value, "description") {
            Some(description) => Some(Reminder { id, description }),
            None => None,
        },
        None => None,
    }
}

/// Reads the reminder under the member `key` of a JSON value.
pub fn reminder_member_from_json(value: &serde_jsonrc::Value, key: &str) -> (r: Option<Reminder>)
    ensures
        match r {
            Some(reminder) => reminder_member(json_tree(*value), key@) == Some(reminder@),
            None => reminder_member(json_tree(*value), key@) is None,
        },
{
    match member(value, key) {
        Some(found) => reminder_from_json(found),
        None => None,
    }
}

/// Reads the reminders under the member `reminders` of a JSON value.
pub fn reminders_from_json(value: &serde_jsonrc::Value) -> (r: Option<Vec<Reminder>>)
    ensures
        match r {
            Some(reminders) => listed_reminders(json_tree(*value)) == Some(reminders.deep_view()),
            None => listed_reminders(json_tree(*value)) is None,
        },
{
    let items = match member(value, "reminders") {
        Some(found) => match as_array(found) {
            Some(items) => items,
            None => {
                return None;
            },
        },
        None => {
            return None;
        },
    };
    let ghost trees = json_tree(*value)->Object_0["reminders"@]->Array_0;
    let mut reminders: Vec<Reminder> = Vec::new();
    let mut i: usize = 0;
    while i < items.len()
        invariant
            i <= items.len(),
            trees.len() == items@.len(),
            forall|k: int| 0 <= k < items@.len() ==> json_tree(#[trigger] items@[k]) == trees[k],
            listed_reminders(json_tree(*value)) == reminders_of(trees),
            reminders@.len() == i,
            forall|k: int|
                0 <= k < i ==> (#[trigger] reminder_of(trees[k])) == Some(reminders@[k]@),
        decreases items.len() - i,
    {
        match reminder_from_json(&items[i]) {
            Some(reminder) => {
                reminders.push(reminder);
            },
            None => {
                assert(reminder_of(trees[i as int]) is None);
                return None;
            },
        }
        i += 1;
    }
    assert(reminders_of(trees) is Some);
    assert(reminders.deep_view() =~= reminders_of(trees)->0);
    Some(reminders)
}

/// How a request asks.
#[derive(Clone, Copy, Debug, PartialEq, Eq, Structural)]
pub enum Method {
    Get,
    Post,
    Delete,
}

/// One request to the service, ready to be sent.
#[derive(Debug, PartialEq, Eq)]
pub struct Request {
    pub method: Method,
    /// The absolute URL to ask.
    pub url: String,
    /// The body to send, if the request has one.
    pub body: Option<String>,
    /// The sender's offset from UTC, where the service wants it sent along
    /// with the body.
    pub timezone: Option<IsoTimezone>,
}

/// What a `Request` holds.
pub struct RequestView {
    pub method: Method,
    pub url: Seq<char>,
    pub body: Option<Seq<char>>,
    pub timezone: Option<Seq<char>>,
}

/// What an optional string holds.
pub open spec fn text_of(text: Option<String>) -> Option<Seq<char>> {
    match text {
        Some(text) => Some(text@),
        None => None,
    }
}

impl View for Request {
    type V = RequestView;

    open spec fn view(&self) -> RequestView {
        RequestView {
            method: self.method,
            url: self.url@,
            body: text_of(self.body),
            timezone: text_of(self.timezone),
        }
    }
}

/// What came of sending one request.
#[derive(Debug, PartialEq, Eq)]
pub enum Exchange {
    /// No response came. The string says why.
    Failed(String),
    /// A response came, but its body could not be read. `status_line` is
    /// the status of the response as the transport prints it, such as
    /// `404 Not Found`.
    Unreadable { status_line: String },
    /// A response came, with this status code and this body.
    Response { status: u16, body: String },
}

/// What an `Exchange` holds.
pub enum ExchangeView {
    Failed(Seq<char>),
    Unreadable { status_line: Seq<char> },
    Response { status: u16, body: Seq<char> },
}

impl View for Exchange {
    type V = ExchangeView;

    open spec fn view(&self) -> ExchangeView {
        match self {
            Exchange::Failed(detail) => ExchangeView::Failed(detail@),
            Exchange::Unreadable { status_line } => ExchangeView::Unreadable {
                status_line: status_line@,
            },
            Exchange::Response { status, body } => ExchangeView::Response {
                status: *status,
                body: body@,
            },
        }
    }
}

/// Whether a status code reports an error of the client or of the server.
pub open spec fn is_error_status(status: u16) -> bool {
    400 <= status <= 599
}

/// Tells whether a status code reports an error.
pub fn status_is_error(status: u16) -> (r: bool)
    ensures
        r == is_error_status(status),
{
    400 <= status && status <= 599
}

/// The request with this method, body and offset for the URL that `path`
/// joined to `base` gives, where the two join.
pub open spec fn request_to(
    base: Seq<char>,
    method: Method,
    path: Seq<char>,
    body: Option<Seq<char>>,
    timezone: Option<Seq<char>>,
) -> Option<RequestView> {
    match url_joined(base, path) {
        Some(url) => Some(RequestView { method, url, body, timezone }),
        None => None,
    }
}

/// The request that lists the reminders.
pub open spec fn list_request_of(base: Seq<char>) -> Option<RequestView> {
    request_to(base, Method::Get, "reminder"@, None, None)
}

/// The body that asks for a reminder made from `utterance`: a JSON object
/// with the one member `utterance`.
pub open spec fn create_body(utterance: Seq<char>) -> Option<Seq<char>> {
    match json_quoted(utterance) {
        Some(literal) => Some("{\"utterance\":"@ + literal + "}"@),
        None => None,
    }
}

/// The request that creates a reminder from `utterance`, sent from a place
/// with the offset `timezone`.
pub open spec fn create_request_of(
    base: Seq<char>,
    utterance: Seq<char>,
    timezone: Seq<char>,
) -> Option<RequestView> {
    match create_body(utterance) {
        Some(body) => request_to(base, Method::Post, "reminder"@, Some(body), Some(timezone)),
        None => None,
    }
}

/// The request that deletes the reminder `id`.
pub open spec fn delete_request_of(base: Seq<char>, id: Seq<char>) -> Option<RequestView> {
    request_to(base, Method::Delete, "reminder/"@ + id, None, None)
}

/// A client of the reminder service under one base URL.
#[derive(Debug, PartialEq, Eq)]
pub struct OyeClient {
    pub base_url: OyeApiBaseUrl,
}

impl OyeClient {
    /// A client of the service that `config` names.
    pub fn new(config: &Config) -> (r: OyeClient)
        ensures
            r.base_url@ == config.oye_api_url@,
    {
        OyeClient { base_url: config.oye_api_url.clone() }
    }

    /// The request that reads `path` under the base URL.
    pub fn get(&self, path: &str) -> (r: Option<Request>)
        ensures
            match r {
                Some(request) => request_to(self.base_url@, Method::Get, path@, None, None)
                    == Some(request@),
                None => request_to(self.base_url@, Method::Get, path@, None, None) is None,
            },
    {
        match join_url(self.base_url.as_str(), path) {
            Some(url) => Some(Request { method: Method::Get, url, body: None, timezone: None }),
            None => None,
        }
    }

    /// The request that sends `body` to `path` under the base URL.
    pub fn post(&self, path: &str, body: String) -> (r: Option<Request>)
        ensures
            match r {
                Some(request) => request_to(
                    self.base_url@,
                    Method::Post,
                    path@,
                    Some(body@),
                    None,
                ) == Some(request@),
                None => request_to(self.base_url@, Method::Post, path@, Some(body@), None)
                    is None,
            },
    {
        match join_url(self.base_url.as_str(), path) {
            Some(url) => Some(
                Request { method: Method::Post, url, body: Some(body), timezone: None },
            ),
            None => None,
        }
    }

    /// The request that deletes `path` under the base URL.
    pub fn delete(&self, path: &str) -> (r: Option<Request>)
        ensures
            match r {
                Some(request) => request_to(self.base_url@, Method::Delete, path@, None, None)
                    == Some(request@),
                None => request_to(self.base_url@, Method::Delete, path@, None, None) is None,
            },
    {
        match join_url(self.base_url.as_str(), path) {
            Some(url) => Some(
                Request { method: Method::Delete, url, body: None, timezone: None },
            ),
            None => None,
        }
    }

    /// The request that lists the reminders. There is none where the base
    /// URL admits no path under it.
    pub fn list_request(&self) -> (r: Option<Request>)
        ensures
            match r {
                Some(request) => list_request_of(self.base_url@) == Some(request@),
                None => list_request_of(self.base_url@) is None,
            },
    {
        self.get("reminder")
    }

    /// The request that creates a reminder from `utterance`, with the
    /// sender's offset from UTC beside it. There is none where the base URL
    /// admits no path under it, or the utterance cannot be written as JSON.
    pub fn create_request(&self, utterance: &str, timezone: &str) -> (r: Option<Request>)
        ensures
            match r {
                Some(request) => create_request_of(self.base_url@, utterance@, timezone@) == Some(
                    request@,
                ),
                None => create_request_of(self.base_url@, utterance@, timezone@) is None,
            },
    {
        let literal = match quote(utterance) {
            Some(literal) => literal,
            None => {
                return None;
            },
        };
        let mut body = String::from_str("{\"utterance\":");
        body.append(literal.as_str());
        body.append("}");
        match self.post("reminder", body) {
            Some(request) => Some(
                Request {
                    method: request.method,
                    url: request.url,
                    body: request.body,
                    timezone: Some(String::from_str(timezone)),
                },
            ),
            None => None,
        }
    }

    /// The request that deletes the reminder `reminder_id`. There is none
    /// where the base URL admits no such path under it.
    pub fn delete_request(&self, reminder_id: &str) -> (r: Option<Request>)
        ensures
            match r {
                Some(request) => delete_request_of(self.base_url@, reminder_id@) == Some(
                    request@,
                ),
                None => delete_request_of(self.base_url@, reminder_id@) is None,
            },
    {
        let mut path = String::from_str("reminder/");
        path.append(reminder_id);
        self.delete(path.as_str())
    }
}

/// What a parsed body holds: the tree of the document, or the message of
/// the parse error.
pub open spec fn parsed_tree(parsed: Result<serde_jsonrc::Value, String>) -> Result<
    JsonTree,
    Seq<char>,
> {
    match parsed {
        Ok(value) => Ok(json_tree(value)),
        Err(reason) => Err(reason@),
    }
}

/// The detail of the error for a response whose body could not be read.
pub open spec fn unreadable_body_detail(status_line: Seq<char>) -> Seq<char> {
    "failed to get body from API response - response status code: "@ + status_line
}

/// The detail of the error for a body that does not show what was deleted:
/// why it does not, and the body itself.
pub open spec fn unparsed_payload_detail(reason: Seq<char>, body: Seq<char>) -> Seq<char> {
    "could not parse response payload. Reason: "@ + reason + ". Response: "@ + body
}

/// The detail of the error for a document without the member `field`, or
/// with one of another shape than expected.
pub open spec fn malformed_field_detail(field: Seq<char>) -> Seq<char> {
    "missing or malformed field `"@ + field + "`"@
}

/// What a response with an error status says: the message of the service
/// where the body is an object with the string member `message`; a protocol
/// error where it is not.
pub open spec fn service_failure(parsed: Result<JsonTree, Seq<char>>) -> ClientErrorView {
    match parsed {
        Ok(tree) => match text_member(tree, "message"@) {
            Some(message) => ClientErrorView::ServiceError(message),
            None => ClientErrorView::ProtocolError(malformed_field_detail("message"@)),
        },
        Err(reason) => ClientErrorView::ProtocolError(reason),
    }
}

/// What the response to a list request says, by its status and its parsed
/// body.
pub open spec fn decoded_listing(status: u16, parsed: Result<JsonTree, Seq<char>>) -> Result<
    Seq<ReminderView>,
    ClientErrorView,
> {
    if is_error_status(status) {
        Err(service_failure(parsed))
    } else {
        match parsed {
            Ok(tree) => match listed_reminders(tree) {
                Some(reminders) => Ok(reminders),
                None => Err(ClientErrorView::ProtocolError(malformed_field_detail("reminders"@))),
            },
            Err(reason) => Err(ClientErrorView::ProtocolError(reason)),
        }
    }
}

/// What the response to a create request says, by its status and its
/// parsed body.
pub open spec fn decoded_creation(status: u16, parsed: Result<JsonTree, Seq<char>>) -> Result<
    ReminderView,
    ClientErrorView,
> {
    if is_error_status(status) {
        Err(service_failure(parsed))
    } else {
        match parsed {
            Ok(tree) => match reminder_member(tree, "added_reminder"@) {
                Some(reminder) => Ok(reminder),
                None => Err(
                    ClientErrorView::ProtocolError(malformed_field_detail("added_reminder"@)),
                ),
            },
            Err(reason) => Err(ClientErrorView::ProtocolError(reason)),
        }
    }
}

/// What the response to a delete request says, by its body alone: the
/// status is not looked at.
pub open spec fn decoded_deletion(body: Seq<char>, parsed: Result<JsonTree, Seq<char>>) -> Result<
    ReminderView,
    ClientErrorView,
> {
    match parsed {
        Ok(tree) => match reminder_member(tree, "deleted_reminder"@) {
            Some(reminder) => Ok(reminder),
            None => Err(
                ClientErrorView::ProtocolError(
                    unparsed_payload_detail(malformed_field_detail("deleted_reminder"@), body),
                ),
            ),
        },
        Err(reason) => Err(ClientErrorView::ProtocolError(unparsed_payload_detail(reason, body))),
    }
}

/// The transport error of an exchange that brought no readable response.
pub open spec fn transport_failure(exchange: ExchangeView) -> Option<ClientErrorView> {
    match exchange {
        ExchangeView::Failed(detail) => Some(ClientErrorView::TransportError(detail)),
        ExchangeView::Unreadable { status_line } => Some(
            ClientErrorView::TransportError(unreadable_body_detail(status_line)),
        ),
        ExchangeView::Response { .. } => None,
    }
}

/// What listing the reminders comes to, given what came of the request.
pub open spec fn list_outcome(exchange: ExchangeView) -> Result<
    Seq<ReminderView>,
    OyeClientErrorView,
> {
    match exchange {
        ExchangeView::Response { status, body } => match decoded_listing(
            status,
            json_parsed(body),
        ) {
            Ok(reminders) => Ok(reminders),
            Err(cause) => Err(OyeClientErrorView::FailedToGetReminders(cause)),
        },
        _ => Err(OyeClientErrorView::FailedToGetReminders(transport_failure(exchange)->0)),
    }
}

/// What creating a reminder comes to, given what came of the request.
pub open spec fn create_outcome(exchange: ExchangeView) -> Result<
    ReminderView,
    OyeClientErrorView,
> {
    match exchange {
        ExchangeView::Response { status, body } => match decoded_creation(
            status,
            json_parsed(body),
        ) {
            Ok(reminder) => Ok(reminder),
            Err(cause) => Err(OyeClientErrorView::FailedToCreateReminder(cause)),
        },
        _ => Err(OyeClientErrorView::FailedToCreateReminder(transport_failure(exchange)->0)),
    }
}

/// What deleting a reminder comes to, given what came of the request.
pub open spec fn delete_outcome(exchange: ExchangeView) -> Result<
    ReminderView,
    OyeClientErrorView,
> {
    match exchange {
        ExchangeView::Response { status, body } => match decoded_deletion(
            body,
            json_parsed(body),
        ) {
            Ok(reminder) => Ok(reminder),
            Err(cause) => Err(OyeClientErrorView::FailedToDeleteReminder(cause)),
        },
        _ => Err(OyeClientErrorView::FailedToDeleteReminder(transport_failure(exchange)->0)),
    }
}

fn malformed_field(field: &str) -> (r: String)
    ensures
        r@ == malformed_field_detail(field@),
{
    let mut r = String::from_str("missing or malformed field `");
    r.append(field);
    r.append("`");
    r
}

fn unparsed_payload(reason: &str, body: &str) -> (r: String)
    ensures
        r@ == unparsed_payload_detail(reason@, body@),
{
    let mut r = String::from_str("could not parse response payload. Reason: ");
    r.append(reason);
    r.append(". Response: ");
    r.append(body);
    r
}

/// Reads the error that a response with an error status reports.
pub fn decode_service_failure(parsed: Result<serde_jsonrc::Value, String>) -> (r: ClientError)
    ensures
        r@ == service_failure(parsed_tree(parsed)),
{
    match parsed {
        Ok(value) => match string_member(&value, "message") {
            Some(message) => ClientError::ServiceError(message),
            None => ClientError::ProtocolError(malformed_field("message")),
        },
        Err(reason) => ClientError::ProtocolError(reason),
    }
}

/// Reads the response to a list request from its status and its parsed
/// body.
pub fn decode_listing(status: u16, parsed: Result<serde_jsonrc::Value, String>) -> (r: Result<
    Vec<Reminder>,
    ClientError,
>)
    ensures
        match r {
            Ok(reminders) => decoded_listing(status, parsed_tree(parsed)) == Ok::<
                Seq<ReminderView>,
                ClientErrorView,
            >(reminders.deep_view()),
            Err(cause) => decoded_listing(status, parsed_tree(parsed)) == Err::<
                Seq<ReminderView>,
                ClientErrorView,
            >(cause@),
        },
{
    if status_is_error(status) {
        return Err(decode_service_failure(parsed));
    }
    match parsed {
        Ok(value) => match reminders_from_json(&value) {
            Some(reminders) => Ok(reminders),
            None => Err(ClientError::ProtocolError(malformed_field("reminders"))),
        },
        Err(reason) => Err(ClientError::ProtocolError(reason)),
    }
}

/// Reads the response to a create request from its status and its parsed
/// body.
pub fn decode_creation(status: u16, parsed: Result<serde_jsonrc::Value, String>) -> (r: Result<
    Reminder,
    ClientError,
>)
    ensures
        match r {
            Ok(reminder) => decoded_creation(status, parsed_tree(parsed)) == Ok::<
                ReminderView,
                ClientErrorView,
            >(reminder@),
            Err(cause) => decoded_creation(status, parsed_tree(parsed)) == Err::<
                ReminderView,
                ClientErrorView,
            >(cause@),
        },
{
    if status_is_error(status) {
        return Err(decode_service_failure(parsed));
    }
    match parsed {
        Ok(value) => match reminder_member_from_json(&value, "added_reminder") {
            Some(reminder) => Ok(reminder),
            None => Err(ClientError::ProtocolError(malformed_field("added_reminder"))),
        },
        Err(reason) => Err(ClientError::ProtocolError(reason)),
    }
}

/// Reads the response to a delete request from its body, raw and parsed.
pub fn decode_deletion(body: &str, parsed: Result<serde_jsonrc::Value, String>) -> (r: Result<
    Reminder,
    ClientError,
>)
    ensures
        match r {
            Ok(reminder) => decoded_deletion(body@, parsed_tree(parsed)) == Ok::<
                ReminderView,
                ClientErrorView,
            >(reminder@),
            Err(cause) => decoded_deletion(body@, parsed_tree(parsed)) == Err::<
                ReminderView,
                ClientErrorView,
            >(cause@),
        },
{
    match parsed {
        Ok(value) => match reminder_member_from_json(&value, "deleted_reminder") {
            Some(reminder) => Ok(reminder),
            None => {
                let reason = malformed_field("deleted_reminder");
                Err(ClientError::ProtocolError(unparsed_payload(reason.as_str(), body)))
            },
        },
        Err(reason) => Err(ClientError::ProtocolError(unparsed_payload(reason.as_str(), body))),
    }
}

fn unreadable_body(status_line: &str) -> (r: String)
    ensures
        r@ == unreadable_body_detail(status_line@),
{
    let mut r = String::from_str("failed to get body from API response - response status code: ");
    r.append(status_line);
    r
}

impl OyeClient {
    /// What listing the reminders comes to, given what came of sending
    /// `list_request`: the reminders in the order of the response, or why
    /// there are none to show.
    pub fn get_reminders(exchange: Exchange) -> (r: Result<Vec<Reminder>, OyeClientError>)
        ensures
            match r {
                Ok(reminders) => list_outcome(exchange@) == Ok::<
                    Seq<ReminderView>,
                    OyeClientErrorView,
                >(reminders.deep_view()),
                Err(error) => list_outcome(exchange@) == Err::<
                    Seq<ReminderView>,
                    OyeClientErrorView,
                >(error@),
            },
    {
        let cause = match exchange {
            Exchange::Failed(detail) => ClientError::TransportError(detail),
            Exchange::Unreadable { status_line } => ClientError::TransportError(
                unreadable_body(status_line.as_str()),
            ),
            Exchange::Response { status, body } => {
                match decode_listing(status, parse(body.as_str())) {
                    Ok(reminders) => {
                        return Ok(reminders);
                    },
                    Err(cause) => cause,
                }
            },
        };
        Err(OyeClientError::FailedToGetReminders(cause))
    }

    /// What creating a reminder comes to, given what came of sending
    /// `create_request`: the reminder as the service reports it, or why
    /// there is none.
    pub fn create_reminder(exchange: Exchange) -> (r: Result<Reminder, OyeClientError>)
        ensures
            match r {
                Ok(reminder) => create_outcome(exchange@) == Ok::<
                    ReminderView,
                    OyeClientErrorView,
                >(reminder@),
                Err(error) => create_outcome(exchange@) == Err::<
                    ReminderView,
                    OyeClientErrorView,
                >(error@),
            },
    {
        let cause = match exchange {
            Exchange::Failed(detail) => ClientError::TransportError(detail),
            Exchange::Unreadable { status_line } => ClientError::TransportError(
                unreadable_body(status_line.as_str()),
            ),
            Exchange::Response { status, body } => {
                match decode_creation(status, parse(body.as_str())) {
                    Ok(reminder) => {
                        return Ok(reminder);
                    },
                    Err(cause) => cause,
                }
            },
        };
        Err(OyeClientError::FailedToCreateReminder(cause))
    }

    /// What deleting a reminder comes to, given what came of sending
    /// `delete_request`: the reminder that the service reports as deleted,
    /// or why there is none. The status of the response plays no part.
    pub fn delete_reminder(exchange: Exchange) -> (r: Result<Reminder, OyeClientError>)
        ensures
            match r {
                Ok(reminder) => delete_outcome(exchange@) == Ok::<
                    ReminderView,
                    OyeClientErrorView,
                >(reminder@),
                Err(error) => delete_outcome(exchange@) == Err::<
                    ReminderView,
                    OyeClientErrorView,
                >(error@),
            },
    {
        let cause = match exchange {
            Exchange::Failed(detail) => ClientError::TransportError(detail),
            Exchange::Unreadable { status_line } => ClientError::TransportError(
                unreadable_body(status_line.as_str()),
            ),
            Exchange::Response { status, body } => {
                match decode_deletion(body.as_str(), parse(body.as_str())) {
                    Ok(reminder) => {
                        return Ok(reminder);
                    },
                    Err(cause) => cause,
                }
            },
        };
        Err(OyeClientError::FailedToDeleteReminder(cause))
    }
}

/// A response to a list request that is no error, and whose body is an
/// object with the array `reminders` of objects that each have the strings
/// `id` and `description`, lists those reminders: as many, in that order,
/// with those two strings unchanged.
pub proof fn lemma_list_success(
    status: u16,
    body: Seq<char>,
    members: Map<Seq<char>, JsonTree>,
    items: Seq<JsonTree>,
    reminders: Seq<ReminderView>,
)
    requires
        !is_error_status(status),
        json_parsed(body) == Ok::<JsonTree, Seq<char>>(JsonTree::Object(members)),
        members.contains_key("reminders"@),
        members["reminders"@] == JsonTree::Array(items),
        items.len() == reminders.len(),
        forall|i: int|
            0 <= i < items.len() ==> text_member(#[trigger] items[i], "id"@) == Some(
                reminders[i].id,
            ) && text_member(items[i], "description"@) == Some(reminders[i].description),
    ensures
        list_outcome(ExchangeView::Response { status, body }) == Ok::<
            Seq<ReminderView>,
            OyeClientErrorView,
        >(reminders),
{
    assert forall|i: int| 0 <= i < items.len() implies (#[trigger] reminder_of(items[i]))
        == Some(reminders[i]) by {
        assert(text_member(items[i], "id"@) == Some(reminders[i].id));
    }
    assert(reminders_of(items)->0 =~= reminders);
}

/// A response to a create request that is no error, and whose body is an
/// object with the member `added_reminder` that has the strings `id` and
/// `description`, gives the reminder with those two strings unchanged.
pub proof fn lemma_create_success(
    status: u16,
    body: Seq<char>,
    members: Map<Seq<char>, JsonTree>,
    reminder: ReminderView,
)
    requires
        !is_error_status(status),
        json_parsed(body) == Ok::<JsonTree, Seq<char>>(JsonTree::Object(members)),
        members.contains_key("added_reminder"@),
        text_member(members["added_reminder"@], "id"@) == Some(reminder.id),
        text_member(members["added_reminder"@], "description"@) == Some(reminder.description),
    ensures
        create_outcome(ExchangeView::Response { status, body }) == Ok::<
            ReminderView,
            OyeClientErrorView,
        >(reminder),
{
}

/// A response to a delete request whose body is an object with the member
/// `deleted_reminder` that has the strings `id` and `description` gives
/// the reminder with those two strings unchanged, whatever the status.
pub proof fn lemma_delete_success(
    status: u16,
    body: Seq<char>,
    members: Map<Seq<char>, JsonTree>,
    reminder: ReminderView,
)
    requires
        json_parsed(body) == Ok::<JsonTree, Seq<char>>(JsonTree::Object(members)),
        members.contains_key("deleted_reminder"@),
        text_member(members["deleted_reminder"@], "id"@) == Some(reminder.id),
        text_member(members["deleted_reminder"@], "description"@) == Some(reminder.description),
    ensures
        delete_outcome(ExchangeView::Response { status, body }) == Ok::<
            ReminderView,
            OyeClientErrorView,
        >(reminder),
{
}

/// A response to a list or a create request with an error status, whose
/// body is an object with the string `message`, fails with that message as
/// a service error.
pub proof fn lemma_error_status_with_message(
    status: u16,
    body: Seq<char>,
    members: Map<Seq<char>, JsonTree>,
    message: Seq<char>,
)
    requires
        is_error_status(status),
        json_parsed(body) == Ok::<JsonTree, Seq<char>>(JsonTree::Object(members)),
        members.contains_key("message"@),
        members["message"@] == JsonTree::Text(message),
    ensures
        list_outcome(ExchangeView::Response { status, body }) == Err::<
            Seq<ReminderView>,
            OyeClientErrorView,
        >(OyeClientErrorView::FailedToGetReminders(ClientErrorView::ServiceError(message))),
        create_outcome(ExchangeView::Response { status, body }) == Err::<
            ReminderView,
            OyeClientErrorView,
        >(OyeClientErrorView::FailedToCreateReminder(ClientErrorView::ServiceError(message))),
{
}

/// A response to a list or a create request with an error status, whose
/// body is no object with a string `message`, fails with a protocol error.
pub proof fn lemma_error_status_without_message(status: u16, body: Seq<char>)
    requires
        is_error_status(status),
        json_parsed(body) matches Ok(tree) ==> text_member(tree, "message"@) is None,
    ensures
        list_outcome(ExchangeView::Response { status, body }) matches Err(
            OyeClientErrorView::FailedToGetReminders(ClientErrorView::ProtocolError(_)),
        ),
        create_outcome(ExchangeView::Response { status, body }) matches Err(
            OyeClientErrorView::FailedToCreateReminder(ClientErrorView::ProtocolError(_)),
        ),
{
}

/// What deleting comes to does not depend on the status of the response.
pub proof fn lemma_delete_ignores_status(status: u16, other: u16, body: Seq<char>)
    ensures
        delete_outcome(ExchangeView::Response { status, body }) == delete_outcome(
            ExchangeView::Response { status: other, body },
        ),
{
}

/// A response to a delete request whose body does not show the deleted
/// reminder fails with a protocol error, whatever the status, and the
/// detail of the error ends with the body as it came.
pub proof fn lemma_delete_failure_holds_body(status: u16, body: Seq<char>)
    requires
        json_parsed(body) matches Ok(tree) ==> reminder_member(tree, "deleted_reminder"@)
            is None,
    ensures
        delete_outcome(ExchangeView::Response { status, body }) matches Err(
            OyeClientErrorView::FailedToDeleteReminder(ClientErrorView::ProtocolError(detail)),
        ) && detail.len() >= body.len() && detail.skip(detail.len() - body.len()) == body,
{
    let reason = match json_parsed(body) {
        Ok(_) => malformed_field_detail("deleted_reminder"@),
        Err(reason) => reason,
    };
    let detail = unparsed_payload_detail(reason, body);
    assert(detail.skip(detail.len() - body.len()) =~= body);
}

} // verus!
