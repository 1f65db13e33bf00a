//! JSON-RPC 2.0 messages as MCP uses them: requests, responses and
//! notifications, their JSON form, and how a received text is read as one of
//! them.

use crate::error::McpError;
use crate::fields::{
    doc_with_optional, field_holds, has_key, json_has_key, json_strings, lemma_doc_insert_fresh, opt_clone,
    opt_doc, opt_json, optional_field, push_field, push_optional, read_optional, read_string,
    strings_json, with_optional,
};
use crate::json::{
    doc_fields_of, json_compact_text, json_doc, JsonDoc, json_as_array, json_as_i64, json_as_str, json_as_u64, json_error, json_get, json_i64,
    json_is_null, json_model, json_null, json_object, json_parse, json_string, json_text_stable,
    json_to_string, json_u64, parsed_json, JsonModel,
};
use crate::types::{
    initialize_params_json, initialize_result_json, ClientCapabilities, ClientInfo,
    InitializeRequestParams, InitializeResult,
};
use vstd::prelude::*;

verus! {

/// The JSON-RPC version marker that every message carries.
#[derive(Debug, Clone, PartialEq)]
pub struct JsonRpcBase {
    pub jsonrpc: String,
}

/// The identifier that ties a response to its request.
#[derive(Debug, PartialEq, Eq, Hash)]
pub enum RequestId {
    String(String),
    Number(u64),
}

#[derive(Debug, Clone, PartialEq)]
pub struct Request {
    pub protocol: JsonRpcBase,
    pub method: String,
    pub id: RequestId,
    pub params: Option<serde_json::Value>,
}

#[derive(Debug, Clone, PartialEq)]
pub struct Response {
    pub protocol: JsonRpcBase,
    pub id: Option<RequestId>,
    pub result: Option<serde_json::Value>,
    pub error: Option<ResponseError>,
}

#[derive(Debug, Clone, PartialEq)]
pub struct Notification {
    pub base: JsonRpcBase,
    pub method: String,
    pub params: Option<serde_json::Value>,
}

#[derive(Debug, Clone, PartialEq)]
pub struct ResponseError {
    pub code: i32,
    pub message: String,
    pub data: Option<serde_json::Value>,
}

/// Any message of the protocol.
#[derive(Debug, Clone, PartialEq)]
pub enum McpMessage {
    /// Has a `method` and an `id`, and maybe `params`.
    Request(Request),
    /// Has an `id` and either a `result` or an `error`.
    Response(Response),
    /// Has a `method` and no `id`.
    Notification(Notification),
}

// ---- Views: the messages with their JSON values taken as documents

pub enum RequestIdView {
    Text(Seq<char>),
    Number(u64),
}

pub struct RequestView {
    pub jsonrpc: Seq<char>,
    pub method: Seq<char>,
    pub id: RequestIdView,
    pub params: Option<JsonModel>,
}

pub struct ResponseErrorView {
    pub code: i32,
    pub message: Seq<char>,
    pub data: Option<JsonModel>,
}

pub struct ResponseView {
    pub jsonrpc: Seq<char>,
    pub id: Option<RequestIdView>,
    pub result: Option<JsonModel>,
    pub error: Option<ResponseErrorView>,
}

pub struct NotificationView {
    pub jsonrpc: Seq<char>,
    pub method: Seq<char>,
    pub params: Option<JsonModel>,
}

pub enum McpMessageView {
    Request(RequestView),
    Response(ResponseView),
    Notification(NotificationView),
}

impl View for RequestId {
    type V = RequestIdView;

    open spec fn view(&self) -> RequestIdView {
        match self {
            RequestId::String(s) => RequestIdView::Text(s@),
            RequestId::Number(n) => RequestIdView::Number(*n),
        }
    }
}

pub open spec fn opt_id_view(id: Option<RequestId>) -> Option<RequestIdView> {
    match id {
        Some(i) => Some(i@),
        None => None,
    }
}

impl View for ResponseError {
    type V = ResponseErrorView;

    open spec fn view(&self) -> ResponseErrorView {
        ResponseErrorView { code: self.code, message: self.message@, data: opt_json(self.data) }
    }
}

impl View for Request {
    type V = RequestView;

    open spec fn view(&self) -> RequestView {
        RequestView {
            jsonrpc: self.protocol.jsonrpc@,
            method: self.method@,
            id: self.id@,
            params: opt_json(self.params),
        }
    }
}

impl View for Response {
    type V = ResponseView;

    open spec fn view(&self) -> ResponseView {
        ResponseView {
            jsonrpc: self.protocol.jsonrpc@,
            id: opt_id_view(self.id),
            result: opt_json(self.result),
            error: match self.error {
                Some(e) => Some(e@),
                None => None,
            },
        }
    }
}

impl View for Notification {
    type V = NotificationView;

    open spec fn view(&self) -> NotificationView {
        NotificationView {
            jsonrpc: self.base.jsonrpc@,
            method: self.method@,
            params: opt_json(self.params),
        }
    }
}

impl View for McpMessage {
    type V = McpMessageView;

    open spec fn view(&self) -> McpMessageView {
        match self {
            McpMessage::Request(r) => McpMessageView::Request(r@),
            McpMessage::Response(r) => McpMessageView::Response(r@),
            McpMessage::Notification(n) => McpMessageView::Notification(n@),
        }
    }
}

// ---- The JSON form of each message

pub open spec fn request_id_json(id: RequestIdView) -> JsonModel {
    match id {
        RequestIdView::Text(s) => JsonModel::Str(s),
        RequestIdView::Number(n) => JsonModel::Int(n as int),
    }
}

pub open spec fn request_json(r: RequestView) -> JsonModel {
    JsonModel::Object(
        with_optional(
            Map::empty().insert("jsonrpc"@, JsonModel::Str(r.jsonrpc)).insert(
                "method"@,
                JsonModel::Str(r.method),
            ).insert("id"@, request_id_json(r.id)),
            "params"@,
            r.params,
        ),
    )
}

pub open spec fn response_error_json(e: ResponseErrorView) -> JsonModel {
    JsonModel::Object(
        with_optional(
            Map::empty().insert("code"@, JsonModel::Int(e.code as int)).insert(
                "message"@,
                JsonModel::Str(e.message),
            ),
            "data"@,
            e.data,
        ),
    )
}

pub open spec fn response_json(r: ResponseView) -> JsonModel {
    JsonModel::Object(
        with_optional(
            with_optional(
                Map::empty().insert("jsonrpc"@, JsonModel::Str(r.jsonrpc)).insert(
                    "id"@,
                    match r.id {
                        Some(i) => request_id_json(i),
                        None => JsonModel::Null,
                    },
                ),
                "result"@,
                r.result,
            ),
            "error"@,
            match r.error {
                Some(e) => Some(response_error_json(e)),
                None => None,
            },
        ),
    )
}

pub open spec fn notification_json(n: NotificationView) -> JsonModel {
    JsonModel::Object(
        with_optional(
            Map::empty().insert("jsonrpc"@, JsonModel::Str(n.jsonrpc)).insert(
                "method"@,
                JsonModel::Str(n.method),
            ),
            "params"@,
            n.params,
        ),
    )
}

pub open spec fn message_json(m: McpMessageView) -> JsonModel {
    match m {
        McpMessageView::Request(r) => request_json(r),
        McpMessageView::Response(r) => response_json(r),
        McpMessageView::Notification(n) => notification_json(n),
    }
}

// ---- The ordered document of each message, as it is written out (fields in
// ---- the order of the struct, fields that are `None` left out)

pub open spec fn request_id_doc(id: RequestIdView) -> JsonDoc {
    match id {
        RequestIdView::Text(s) => JsonDoc::Str(s),
        RequestIdView::Number(n) => JsonDoc::Int(n as int),
    }
}

pub open spec fn response_error_doc(e: ResponseError) -> JsonDoc {
    JsonDoc::Object(
        doc_with_optional(
            seq![("code"@, JsonDoc::Int(e.code as int)), ("message"@, JsonDoc::Str(e.message@))],
            "data"@,
            opt_doc(e.data),
        ),
    )
}

pub open spec fn request_doc(r: Request) -> JsonDoc {
    JsonDoc::Object(
        doc_with_optional(
            seq![
                ("jsonrpc"@, JsonDoc::Str(r.protocol.jsonrpc@)),
                ("method"@, JsonDoc::Str(r.method@)),
                ("id"@, request_id_doc(r.id@)),
            ],
            "params"@,
            opt_doc(r.params),
        ),
    )
}

pub open spec fn response_doc(r: Response) -> JsonDoc {
    JsonDoc::Object(
        doc_with_optional(
            doc_with_optional(
                seq![
                    ("jsonrpc"@, JsonDoc::Str(r.protocol.jsonrpc@)),
                    ("id"@, opt_id_doc(r.id)),
                ],
                "result"@,
                opt_doc(r.result),
            ),
            "error"@,
            opt_error_doc(r.error),
        ),
    )
}

/// A response's `id`: `null` when it has none.
pub open spec fn opt_id_doc(id: Option<RequestId>) -> JsonDoc {
    match id {
        Some(i) => request_id_doc(i@),
        None => JsonDoc::Null,
    }
}

pub open spec fn opt_error_doc(e: Option<ResponseError>) -> Option<JsonDoc> {
    match e {
        Some(x) => Some(response_error_doc(x)),
        None => None,
    }
}

pub open spec fn notification_doc(n: Notification) -> JsonDoc {
    JsonDoc::Object(
        doc_with_optional(
            seq![("jsonrpc"@, JsonDoc::Str(n.base.jsonrpc@)), ("method"@, JsonDoc::Str(n.method@))],
            "params"@,
            opt_doc(n.params),
        ),
    )
}

pub open spec fn message_doc(m: McpMessage) -> JsonDoc {
    match m {
        McpMessage::Request(r) => request_doc(r),
        McpMessage::Response(r) => response_doc(r),
        McpMessage::Notification(n) => notification_doc(n),
    }
}

// ---- How a JSON document reads back as each message (`None`: it does not)

pub open spec fn request_id_from_json(m: JsonModel) -> Option<RequestIdView> {
    match m {
        JsonModel::Str(s) => Some(RequestIdView::Text(s)),
        JsonModel::Int(n) => if 0 <= n <= u64::MAX {
            Some(RequestIdView::Number(n as u64))
        } else {
            None
        },
        _ => None,
    }
}

pub open spec fn str_field(fields: Map<Seq<char>, JsonModel>, key: Seq<char>) -> bool {
    fields.dom().contains(key) && fields[key] is Str
}

pub open spec fn request_from_json(m: JsonModel) -> Option<RequestView> {
    match m {
        JsonModel::Object(f) => if str_field(f, "jsonrpc"@) && str_field(f, "method"@)
            && f.dom().contains("id"@) && request_id_from_json(f["id"@]) is Some {
            Some(
                RequestView {
                    jsonrpc: f["jsonrpc"@]->Str_0,
                    method: f["method"@]->Str_0,
                    id: request_id_from_json(f["id"@])->0,
                    params: optional_field(f, "params"@),
                },
            )
        } else {
            None
        },
        _ => None,
    }
}

pub open spec fn i32_from_json(m: JsonModel) -> Option<i32> {
    match m {
        JsonModel::Int(n) => if i32::MIN <= n <= i32::MAX {
            Some(n as i32)
        } else {
            None
        },
        _ => None,
    }
}

/// An error object reads back from an object, or (as every plain struct does
/// with serde) from an array of its fields in order, the last one optional.
pub open spec fn response_error_from_json(m: JsonModel) -> Option<ResponseErrorView> {
    match m {
        JsonModel::Object(f) => if f.dom().contains("code"@) && i32_from_json(f["code"@]) is Some
            && str_field(f, "message"@) {
            Some(
                ResponseErrorView {
                    code: i32_from_json(f["code"@])->0,
                    message: f["message"@]->Str_0,
                    data: optional_field(f, "data"@),
                },
            )
        } else {
            None
        },
        JsonModel::Array(items) => if (items.len() == 2 || items.len() == 3) && i32_from_json(
            items[0],
        ) is Some && items[1] is Str {
            Some(
                ResponseErrorView {
                    code: i32_from_json(items[0])->0,
                    message: items[1]->Str_0,
                    data: if items.len() == 3 && items[2] != JsonModel::Null {
                        Some(items[2])
                    } else {
                        None
                    },
                },
            )
        } else {
            None
        },
        _ => None,
    }
}

/// A missing or `null` field reads as "no value"; any other value must read
/// as what the field holds.
pub open spec fn opt_id_from_json(f: Map<Seq<char>, JsonModel>) -> Option<Option<RequestIdView>> {
    if optional_field(f, "id"@) is None {
        Some(None)
    } else {
        match request_id_from_json(f["id"@]) {
            Some(i) => Some(Some(i)),
            None => None,
        }
    }
}

pub open spec fn opt_error_from_json(f: Map<Seq<char>, JsonModel>) -> Option<
    Option<ResponseErrorView>,
> {
    if optional_field(f, "error"@) is None {
        Some(None)
    } else {
        match response_error_from_json(f["error"@]) {
            Some(e) => Some(Some(e)),
            None => None,
        }
    }
}

pub open spec fn response_from_json(m: JsonModel) -> Option<ResponseView> {
    match m {
        JsonModel::Object(f) => if str_field(f, "jsonrpc"@) && opt_id_from_json(f) is Some
            && opt_error_from_json(f) is Some {
            Some(
                ResponseView {
                    jsonrpc: f["jsonrpc"@]->Str_0,
                    id: opt_id_from_json(f)->0,
                    result: optional_field(f, "result"@),
                    error: opt_error_from_json(f)->0,
                },
            )
        } else {
            None
        },
        _ => None,
    }
}

pub open spec fn notification_from_json(m: JsonModel) -> Option<NotificationView> {
    match m {
        JsonModel::Object(f) => if str_field(f, "jsonrpc"@) && str_field(f, "method"@) {
            Some(
                NotificationView {
                    jsonrpc: f["jsonrpc"@]->Str_0,
                    method: f["method"@]->Str_0,
                    params: optional_field(f, "params"@),
                },
            )
        } else {
            None
        },
        _ => None,
    }
}

/// What reading a JSON document as "some message" comes to.
pub enum MessageReading {
    Read(McpMessageView),
    /// It looks like a request (`id` and `method`) but is not one.
    BadRequest,
    /// It looks like a response (`id`, and `result` or `error`) but is not one.
    BadResponse,
    /// It looks like a notification (`method`, no `id`) but is not one.
    BadNotification,
    /// A response with both a result and an error.
    ResultAndError,
    /// A response with neither a result nor an error.
    NoResultNoError,
    /// An `id`, but neither a `method` nor a `result` or `error`.
    IdOnly,
    /// Neither an `id` nor a `method`.
    NoIdNoMethod,
}

/// The message kind is decided by which keys are present (whatever their
/// values), and then the document must read as that kind.
pub open spec fn read_message(m: JsonModel) -> MessageReading {
    if has_key(m, "id"@) {
        if has_key(m, "method"@) {
            match request_from_json(m) {
                Some(r) => MessageReading::Read(McpMessageView::Request(r)),
                None => MessageReading::BadRequest,
            }
        } else if has_key(m, "result"@) || has_key(m, "error"@) {
            match response_from_json(m) {
                Some(r) => if r.result is Some && r.error is Some {
                    MessageReading::ResultAndError
                } else if r.result is None && r.error is None {
                    MessageReading::NoResultNoError
                } else {
                    MessageReading::Read(McpMessageView::Response(r))
                },
                None => MessageReading::BadResponse,
            }
        } else {
            MessageReading::IdOnly
        }
    } else if has_key(m, "method"@) {
        match notification_from_json(m) {
            Some(n) => MessageReading::Read(McpMessageView::Notification(n)),
            None => MessageReading::BadNotification,
        }
    } else {
        MessageReading::NoIdNoMethod
    }
}

// ---- Leading and trailing white space (as `str::trim` removes it)

/// Unicode's White_Space property.
pub open spec fn is_white_space(c: char) -> bool {
    ('\u{9}' <= c <= '\u{d}') || c == ' ' || c == '\u{85}' || c == '\u{a0}' || c == '\u{1680}'
        || ('\u{2000}' <= c <= '\u{200a}') || c == '\u{2028}' || c == '\u{2029}' || c
        == '\u{202f}' || c == '\u{205f}' || c == '\u{3000}'
}

pub open spec fn trim_start_spec(s: Seq<char>) -> Seq<char>
    decreases s.len(),
{
    if s.len() > 0 && is_white_space(s[0]) {
        trim_start_spec(s.drop_first())
    } else {
        s
    }
}

pub open spec fn trim_end_spec(s: Seq<char>) -> Seq<char>
    decreases s.len(),
{
    if s.len() > 0 && is_white_space(s.last()) {
        trim_end_spec(s.drop_last())
    } else {
        s
    }
}

pub open spec fn trim_spec(s: Seq<char>) -> Seq<char> {
    trim_end_spec(trim_start_spec(s))
}

/// Calls `str::trim`, which removes leading and trailing Unicode white space.
#[verifier::external_body]
pub(crate) fn str_trim(s: &str) -> (r: &str)
    ensures
        r@ == trim_spec(s@),
{
    s.trim()
}

/// What `McpMessage::from_json` answers for a document, given the trimmed text
/// it was read from.
pub open spec fn message_outcome_matches(
    m: JsonModel,
    trimmed: Seq<char>,
    r: Result<McpMessage, McpError>,
) -> bool {
    match read_message(m) {
        MessageReading::Read(v) => r matches Ok(msg) && msg@ == v,
        MessageReading::BadRequest => r matches Err(McpError::ParseJson(t))
            && "Failed to deserialize as Request: "@.is_prefix_of(t@),
        MessageReading::BadResponse => r matches Err(McpError::ParseJson(t))
            && "Failed to deserialize as Response: "@.is_prefix_of(t@),
        MessageReading::BadNotification => r matches Err(McpError::ParseJson(t))
            && "Failed to deserialize as Notification: "@.is_prefix_of(t@),
        MessageReading::ResultAndError => r matches Err(McpError::InvalidMessage(t)) && t@
            == "Response: 'result' and 'error' cannot both be set"@,
        MessageReading::NoResultNoError => r matches Err(McpError::InvalidMessage(t)) && t@
            == "Response: Either 'result' or 'error' must be set"@,
        MessageReading::IdOnly => r matches Err(McpError::InvalidMessage(t)) && t@
            == "Message has 'id' but is neither a Request nor a Response (missing 'method' or 'result'/'error'): "@
            + trimmed,
        MessageReading::NoIdNoMethod => r matches Err(McpError::InvalidMessage(t)) && t@
            == "Message is neither a Request, Response, nor Notification (missing 'id' and 'method'): "@
            + trimmed,
    }
}

// ---- Executable code

impl Clone for RequestId {
    fn clone(&self) -> (r: Self)
        ensures
            r == *self,
    {
        match self {
            RequestId::String(s) => RequestId::String(s.clone()),
            RequestId::Number(n) => RequestId::Number(*n),
        }
    }
}

impl RequestId {
    /// Takes the next number from a counter of outgoing requests as an
    /// identifier. (The counter must not be at its end: adding one to it
    /// would overflow.)
    pub fn next_from(counter: &mut u64) -> (r: RequestId)
        requires
            *old(counter) < u64::MAX,
        ensures
            r == RequestId::Number(*old(counter)),
            *final(counter) == *old(counter) + 1,
    {
        let id = *counter;
        *counter = *counter + 1;
        RequestId::Number(id)
    }

    /// Whether two identifiers are the same.
    pub fn same_as(&self, other: &RequestId) -> (r: bool)
        ensures
            r == (self@ == other@),
    {
        match (self, other) {
            (RequestId::String(a), RequestId::String(b)) => a.eq(b),
            (RequestId::Number(a), RequestId::Number(b)) => *a == *b,
            _ => false,
        }
    }

    pub fn to_value(&self) -> (r: serde_json::Value)
        ensures
            json_model(r) == request_id_json(self@),
            json_doc(r) == request_id_doc(self@),
    {
        match self {
            RequestId::String(s) => json_string(s.clone()),
            RequestId::Number(n) => json_u64(*n),
        }
    }

    /// Reads an identifier: a JSON string, or an integer that fits in `u64`.
    pub fn from_value(v: &serde_json::Value) -> (r: Option<RequestId>)
        ensures
            opt_id_view(r) == request_id_from_json(json_model(*v)),
    {
        match json_as_str(v) {
            Some(s) => Some(RequestId::String(s.to_string())),
            None => match json_as_u64(v) {
                Some(n) => Some(RequestId::Number(n)),
                None => None,
            },
        }
    }
}

impl From<String> for RequestId {
    fn from(s: String) -> (r: RequestId) {
        RequestId::String(s)
    }
}

impl vstd::std_specs::convert::FromSpecImpl<String> for RequestId {
    open spec fn obeys_from_spec() -> bool {
        true
    }

    open spec fn from_spec(s: String) -> RequestId {
        RequestId::String(s)
    }
}

impl From<u64> for RequestId {
    fn from(n: u64) -> (r: RequestId) {
        RequestId::Number(n)
    }
}

impl vstd::std_specs::convert::FromSpecImpl<u64> for RequestId {
    open spec fn obeys_from_spec() -> bool {
        true
    }

    open spec fn from_spec(n: u64) -> RequestId {
        RequestId::Number(n)
    }
}

impl<'a> From<&'a str> for RequestId {
    fn from(s: &'a str) -> (r: RequestId)
        ensures
            r@ == RequestIdView::Text(s@),
    {
        RequestId::String(s.to_string())
    }
}

impl<'a> vstd::std_specs::convert::FromSpecImpl<&'a str> for RequestId {
    /// A `String` made from a `&str` is a new value: only its view is known,
    /// so `from` is only held to giving an identifier with the same text.
    open spec fn obeys_from_spec() -> bool {
        false
    }

    open spec fn from_spec(s: &'a str) -> RequestId {
        choose|r: RequestId| r@ == RequestIdView::Text(s@)
    }
}

fn version_marker() -> (r: JsonRpcBase)
    ensures
        r.jsonrpc@ == "2.0"@,
{
    JsonRpcBase { jsonrpc: "2.0".to_string() }
}

impl ResponseError {
    pub fn to_value(&self) -> (r: serde_json::Value)
        ensures
            json_model(r) == response_error_json(self@),
            json_doc(r) == response_error_doc(*self),
    {
        proof {
            lemma_keys_distinct();
        }
        let mut entries: Vec<(String, serde_json::Value)> = Vec::new();
        proof {
            lemma_doc_insert_fresh(Seq::empty(), "code"@, JsonDoc::Int(self.code as int));
        }
        push_field(&mut entries, "code", json_i64(self.code as i64));
        let ghost f1 = doc_fields_of(entries@);
        proof {
            lemma_doc_insert_fresh(f1, "message"@, JsonDoc::Str(self.message@));
        }
        push_field(&mut entries, "message", json_string(self.message.clone()));
        let ghost f2 = doc_fields_of(entries@);
        let data = opt_clone(&self.data);
        proof {
            if data is Some {
                lemma_doc_insert_fresh(f2, "data"@, json_doc(data->0));
            }
        }
        push_optional(&mut entries, "data", data);
        proof {
            assert(f2 =~= seq![("code"@, JsonDoc::Int(self.code as int)), ("message"@, JsonDoc::Str(self.message@))]);
        }
        json_object(entries)
    }

    pub fn from_value(v: &serde_json::Value) -> (r: Option<ResponseError>)
        ensures
            match r {
                Some(e) => response_error_from_json(json_model(*v)) == Some(e@),
                None => response_error_from_json(json_model(*v)) is None,
            },
    {
        match json_as_array(v) {
            Some(items) => {
                if items.len() != 2 && items.len() != 3 {
                    return None;
                }
                let code = match json_as_i64(&items[0]) {
                    Some(c) => c,
                    None => return None,
                };
                if code < i32::MIN as i64 || code > i32::MAX as i64 {
                    return None;
                }
                let message = match json_as_str(&items[1]) {
                    Some(s) => s.to_string(),
                    None => return None,
                };
                let data = if items.len() == 3 && !json_is_null(&items[2]) {
                    Some(items[2].clone())
                } else {
                    None
                };
                Some(ResponseError { code: code as i32, message, data })
            },
            None => {
                let code = match json_get(v, "code") {
                    Some(c) => match json_as_i64(c) {
                        Some(n) => n,
                        None => return None,
                    },
                    None => return None,
                };
                if code < i32::MIN as i64 || code > i32::MAX as i64 {
                    return None;
                }
                let message = match read_string(v, "message") {
                    Some(s) => s,
                    None => return None,
                };
                let data = read_optional(v, "data");
                Some(ResponseError { code: code as i32, message, data })
            },
        }
    }
}

impl Request {
    /// A request with the given identifier, method and parameters.
    pub fn new(id: RequestId, method: &str, params: Option<serde_json::Value>) -> (r: Request)
        ensures
            r.protocol.jsonrpc@ == "2.0"@,
            r.method@ == method@,
            r.id == id,
            r.params == params,
    {
        Request { protocol: version_marker(), method: method.to_string(), id, params }
    }

    /// The `initialize` request that opens a session.
    pub fn new_initialize(
        id: RequestId,
        protocol_version: String,
        capabilities: ClientCapabilities,
        client_info: Option<ClientInfo>,
    ) -> (r: Request)
        ensures
            r.protocol.jsonrpc@ == "2.0"@,
            r.method@ == "initialize"@,
            r.id == id,
            r@.params == Some(
                initialize_params_json(
                    InitializeRequestParams { protocol_version, capabilities, client_info },
                ),
            ),
    {
        let params = InitializeRequestParams { protocol_version, capabilities, client_info };
        let value: Option<serde_json::Value> = Option::from(params);
        Request::new(id, "initialize", value)
    }

    pub fn to_value(&self) -> (r: serde_json::Value)
        ensures
            json_model(r) == request_json(self@),
            json_doc(r) == request_doc(*self),
    {
        proof {
            lemma_keys_distinct();
        }
        let mut entries: Vec<(String, serde_json::Value)> = Vec::new();
        proof {
            lemma_doc_insert_fresh(Seq::empty(), "jsonrpc"@, JsonDoc::Str(self.protocol.jsonrpc@));
        }
        push_field(&mut entries, "jsonrpc", json_string(self.protocol.jsonrpc.clone()));
        let ghost f1 = doc_fields_of(entries@);
        proof {
            lemma_doc_insert_fresh(f1, "method"@, JsonDoc::Str(self.method@));
        }
        push_field(&mut entries, "method", json_string(self.method.clone()));
        let ghost f2 = doc_fields_of(entries@);
        proof {
            lemma_doc_insert_fresh(f2, "id"@, request_id_doc(self.id@));
        }
        push_field(&mut entries, "id", self.id.to_value());
        let ghost f3 = doc_fields_of(entries@);
        let params = opt_clone(&self.params);
        proof {
            if params is Some {
                lemma_doc_insert_fresh(f3, "params"@, json_doc(params->0));
            }
        }
        push_optional(&mut entries, "params", params);
        proof {
            assert(f3 =~= seq![
                ("jsonrpc"@, JsonDoc::Str(self.protocol.jsonrpc@)),
                ("method"@, JsonDoc::Str(self.method@)),
                ("id"@, request_id_doc(self.id@)),
            ]);
        }
        json_object(entries)
    }

    pub fn from_value(v: &serde_json::Value) -> (r: Option<Request>)
        ensures
            match r {
                Some(x) => request_from_json(json_model(*v)) == Some(x@),
                None => request_from_json(json_model(*v)) is None,
            },
    {
        let jsonrpc = match read_string(v, "jsonrpc") {
            Some(s) => s,
            None => return None,
        };
        let method = match read_string(v, "method") {
            Some(s) => s,
            None => return None,
        };
        let id = match json_get(v, "id") {
            Some(x) => match RequestId::from_value(x) {
                Some(i) => i,
                None => return None,
            },
            None => return None,
        };
        let params = read_optional(v, "params");
        Some(Request { protocol: JsonRpcBase { jsonrpc }, method, id, params })
    }

    /// The request as JSON text: serde_json's compact text of its document,
    /// with `jsonrpc`, `method`, `id` and `params` in that order. Writing never
    /// fails; the text reads back as the same document when the parameters
    /// nest less than 127 levels deep and hold no floating-point numbers.
    pub fn to_json(&self) -> (r: Result<String, McpError>)
        ensures
            r is Ok,
            r matches Ok(s) ==> s@ == json_compact_text(request_doc(*self)),
            r matches Ok(s) ==> (json_text_stable(request_json(self@)) ==> parsed_json(s@) == Some(
                request_json(self@),
            )),
    {
        let value = self.to_value();
        match json_to_string(&value) {
            Ok(s) => Ok(s),
            Err(e) => Err(McpError::Serialization(e)),
        }
    }

    /// Reads a request from JSON text.
    pub fn from_json(json: &str) -> (r: Result<Request, McpError>)
        ensures
            match parsed_json(json@) {
                Some(m) => match request_from_json(m) {
                    Some(v) => r matches Ok(x) && x@ == v,
                    None => r matches Err(McpError::Serialization(_)),
                },
                None => r matches Err(McpError::Serialization(_)),
            },
    {
        let value = match json_parse(json) {
            Ok(v) => v,
            Err(e) => return Err(McpError::Serialization(e)),
        };
        match Request::from_value(&value) {
            Some(r) => Ok(r),
            None => Err(McpError::Serialization(json_error("invalid JSON-RPC request"))),
        }
    }
}

impl From<InitializeRequestParams> for Option<serde_json::Value> {
    fn from(params: InitializeRequestParams) -> (r: Option<serde_json::Value>)
        ensures
            opt_json(r) == Some(initialize_params_json(params)),
    {
        Some(params.to_value())
    }
}

impl vstd::std_specs::convert::FromSpecImpl<InitializeRequestParams> for Option<serde_json::Value> {
    /// The JSON value is a new value: only the document it holds is known,
    /// so `from` is only held to giving a value that holds that document.
    open spec fn obeys_from_spec() -> bool {
        false
    }

    open spec fn from_spec(params: InitializeRequestParams) -> Option<serde_json::Value> {
        choose|r: Option<serde_json::Value>| opt_json(r) == Some(initialize_params_json(params))
    }
}

impl From<InitializeResult> for Option<serde_json::Value> {
    fn from(result: InitializeResult) -> (r: Option<serde_json::Value>)
        ensures
            opt_json(r) == Some(initialize_result_json(result)),
    {
        Some(result.to_value())
    }
}

impl vstd::std_specs::convert::FromSpecImpl<InitializeResult> for Option<serde_json::Value> {
    /// The JSON value is a new value: only the document it holds is known,
    /// so `from` is only held to giving a value that holds that document.
    open spec fn obeys_from_spec() -> bool {
        false
    }

    open spec fn from_spec(result: InitializeResult) -> Option<serde_json::Value> {
        choose|r: Option<serde_json::Value>| opt_json(r) == Some(initialize_result_json(result))
    }
}

impl Response {
    /// A successful response to the request with the given identifier.
    pub fn new_success(id: RequestId, result: Option<serde_json::Value>) -> (r: Response)
        ensures
            r.protocol.jsonrpc@ == "2.0"@,
            r.id == Some(id),
            r.result == result,
            r.error is None,
    {
        Response { protocol: version_marker(), id: Some(id), result, error: None }
    }

    /// An error response.
    pub fn new_error(id: Option<RequestId>, code: i32, message: &str, data: Option<serde_json::Value>) -> (r: Response)
        ensures
            r.protocol.jsonrpc@ == "2.0"@,
            r.id == id,
            r.result is None,
            r.error matches Some(e) && e.code == code && e.message@ == message@ && e.data == data,
    {
        Response {
            protocol: version_marker(),
            id,
            result: None,
            error: Some(ResponseError { code, message: message.to_string(), data }),
        }
    }

    /// The successful answer to `initialize`.
    pub fn new_initialize_success(id: RequestId, result: InitializeResult) -> (r: Response)
        ensures
            r.protocol.jsonrpc@ == "2.0"@,
            r.id == Some(id),
            r@.result == Some(initialize_result_json(result)),
            r.error is None,
    {
        let value: Option<serde_json::Value> = Option::from(result);
        Response::new_success(id, value)
    }

    /// The error that answers an `initialize` with a protocol version that the
    /// server does not support: code -32602, and the supported and requested
    /// versions as data.
    pub fn new_unsupported_protocol_error(
        id: Option<RequestId>,
        requested_version: String,
        supported_versions: Vec<String>,
    ) -> (r: Response)
        ensures
            r.protocol.jsonrpc@ == "2.0"@,
            r.id == id,
            r.result is None,
            r.error matches Some(e) && e.code == -32602 && e.message@
                == "Unsupported protocol version"@ && opt_json(e.data) == Some(
                JsonModel::Object(
                    Map::empty().insert("supported"@, strings_json(supported_versions@)).insert(
                        "requested"@,
                        JsonModel::Str(requested_version@),
                    ),
                ),
            ),
    {
        let supported = json_strings(&supported_versions);
        let mut entries: Vec<(String, serde_json::Value)> = Vec::new();
        push_field(&mut entries, "supported", supported);
        push_field(&mut entries, "requested", json_string(requested_version));
        let data = json_object(entries);
        Response::new_error(id, -32602, "Unsupported protocol version", Some(data))
    }

    pub fn to_value(&self) -> (r: serde_json::Value)
        ensures
            json_model(r) == response_json(self@),
            json_doc(r) == response_doc(*self),
    {
        proof {
            lemma_keys_distinct();
        }
        let ghost id_doc = opt_id_doc(self.id);
        let mut entries: Vec<(String, serde_json::Value)> = Vec::new();
        proof {
            lemma_doc_insert_fresh(Seq::empty(), "jsonrpc"@, JsonDoc::Str(self.protocol.jsonrpc@));
        }
        push_field(&mut entries, "jsonrpc", json_string(self.protocol.jsonrpc.clone()));
        let id = match &self.id {
            Some(i) => i.to_value(),
            None => json_null(),
        };
        let ghost f1 = doc_fields_of(entries@);
        proof {
            lemma_doc_insert_fresh(f1, "id"@, id_doc);
        }
        push_field(&mut entries, "id", id);
        let ghost f2 = doc_fields_of(entries@);
        assert(f2 =~= seq![("jsonrpc"@, JsonDoc::Str(self.protocol.jsonrpc@)), ("id"@, id_doc)]);
        let result = opt_clone(&self.result);
        proof {
            if result is Some {
                lemma_doc_insert_fresh(f2, "result"@, json_doc(result->0));
            }
        }
        push_optional(&mut entries, "result", result);
        let ghost f3 = doc_fields_of(entries@);
        assert(f3 == doc_with_optional(f2, "result"@, opt_doc(self.result)));
        let error = match &self.error {
            Some(e) => Some(e.to_value()),
            None => None,
        };
        proof {
            if error is Some {
                assert(forall|i: int| 0 <= i < f3.len() ==> (#[trigger] f3[i]).0 != "error"@);
                lemma_doc_insert_fresh(f3, "error"@, json_doc(error->0));
            }
        }
        let ghost error_doc = opt_error_doc(self.error);
        assert(opt_doc(error) == error_doc);
        push_optional(&mut entries, "error", error);
        assert(doc_fields_of(entries@) == doc_with_optional(f3, "error"@, error_doc));
        json_object(entries)
    }

    pub fn from_value(v: &serde_json::Value) -> (r: Option<Response>)
        ensures
            match r {
                Some(x) => response_from_json(json_model(*v)) == Some(x@),
                None => response_from_json(json_model(*v)) is None,
            },
    {
        let jsonrpc = match read_string(v, "jsonrpc") {
            Some(s) => s,
            None => return None,
        };
        let id = match read_optional(v, "id") {
            Some(x) => match RequestId::from_value(&x) {
                Some(i) => Some(i),
                None => return None,
            },
            None => None,
        };
        let result = read_optional(v, "result");
        let error = match read_optional(v, "error") {
            Some(x) => match ResponseError::from_value(&x) {
                Some(e) => Some(e),
                None => return None,
            },
            None => None,
        };
        Some(Response { protocol: JsonRpcBase { jsonrpc }, id, result, error })
    }

    /// The response as JSON text; see `Request::to_json`.
    pub fn to_json(&self) -> (r: Result<String, McpError>)
        ensures
            r is Ok,
            r matches Ok(s) ==> s@ == json_compact_text(response_doc(*self)),
            r matches Ok(s) ==> (json_text_stable(response_json(self@)) ==> parsed_json(s@)
                == Some(response_json(self@))),
    {
        let value = self.to_value();
        match json_to_string(&value) {
            Ok(s) => Ok(s),
            Err(e) => Err(McpError::Serialization(e)),
        }
    }

    /// Reads a response from JSON text.
    pub fn from_json(json_str: &str) -> (r: Result<Response, McpError>)
        ensures
            match parsed_json(json_str@) {
                Some(m) => match response_from_json(m) {
                    Some(v) => r matches Ok(x) && x@ == v,
                    None => r matches Err(McpError::Serialization(_)),
                },
                None => r matches Err(McpError::Serialization(_)),
            },
    {
        let value = match json_parse(json_str) {
            Ok(v) => v,
            Err(e) => return Err(McpError::Serialization(e)),
        };
        match Response::from_value(&value) {
            Some(r) => Ok(r),
            None => Err(McpError::Serialization(json_error("invalid JSON-RPC response"))),
        }
    }
}

impl Notification {
    pub fn new(method: &str, params: Option<serde_json::Value>) -> (r: Notification)
        ensures
            r.base.jsonrpc@ == "2.0"@,
            r.method@ == method@,
            r.params == params,
    {
        Notification { base: version_marker(), method: method.to_string(), params }
    }

    /// The `notifications/initialized` notification that ends the handshake.
    pub fn new_initialized() -> (r: Notification)
        ensures
            r.base.jsonrpc@ == "2.0"@,
            r.method@ == "notifications/initialized"@,
            r.params is None,
    {
        Notification::new("notifications/initialized", None)
    }

    pub fn to_value(&self) -> (r: serde_json::Value)
        ensures
            json_model(r) == notification_json(self@),
            json_doc(r) == notification_doc(*self),
    {
        proof {
            lemma_keys_distinct();
        }
        let mut entries: Vec<(String, serde_json::Value)> = Vec::new();
        proof {
            lemma_doc_insert_fresh(Seq::empty(), "jsonrpc"@, JsonDoc::Str(self.base.jsonrpc@));
        }
        push_field(&mut entries, "jsonrpc", json_string(self.base.jsonrpc.clone()));
        let ghost f1 = doc_fields_of(entries@);
        proof {
            lemma_doc_insert_fresh(f1, "method"@, JsonDoc::Str(self.method@));
        }
        push_field(&mut entries, "method", json_string(self.method.clone()));
        let ghost f2 = doc_fields_of(entries@);
        let params = opt_clone(&self.params);
        proof {
            if params is Some {
                lemma_doc_insert_fresh(f2, "params"@, json_doc(params->0));
            }
        }
        push_optional(&mut entries, "params", params);
        proof {
            assert(f2 =~= seq![("jsonrpc"@, JsonDoc::Str(self.base.jsonrpc@)), ("method"@, JsonDoc::Str(self.method@))]);
        }
        json_object(entries)
    }

    pub fn from_value(v: &serde_json::Value) -> (r: Option<Notification>)
        ensures
            match r {
                Some(x) => notification_from_json(json_model(*v)) == Some(x@),
                None => notification_from_json(json_model(*v)) is None,
            },
    {
        let jsonrpc = match read_string(v, "jsonrpc") {
            Some(s) => s,
            None => return None,
        };
        let method = match read_string(v, "method") {
            Some(s) => s,
            None => return None,
        };
        let params = read_optional(v, "params");
        Some(Notification { base: JsonRpcBase { jsonrpc }, method, params })
    }

    /// The notification as JSON text; see `Request::to_json`.
    pub fn to_json(&self) -> (r: Result<String, McpError>)
        ensures
            r is Ok,
            r matches Ok(s) ==> s@ == json_compact_text(notification_doc(*self)),
            r matches Ok(s) ==> (json_text_stable(notification_json(self@)) ==> parsed_json(s@)
                == Some(notification_json(self@))),
    {
        let value = self.to_value();
        match json_to_string(&value) {
            Ok(s) => Ok(s),
            Err(e) => Err(McpError::Serialization(e)),
        }
    }

    /// Reads a notification from JSON text.
    pub fn from_json(json_str: &str) -> (r: Result<Notification, McpError>)
        ensures
            match parsed_json(json_str@) {
                Some(m) => match notification_from_json(m) {
                    Some(v) => r matches Ok(x) && x@ == v,
                    None => r matches Err(McpError::Serialization(_)),
                },
                None => r matches Err(McpError::Serialization(_)),
            },
    {
        let value = match json_parse(json_str) {
            Ok(v) => v,
            Err(e) => return Err(McpError::Serialization(e)),
        };
        match Notification::from_value(&value) {
            Some(n) => Ok(n),
            None => Err(McpError::Serialization(json_error("invalid JSON-RPC notification"))),
        }
    }
}

fn failure_text(prefix: &str, detail: &str) -> (r: String)
    ensures
        r@ == prefix@ + detail@,
{
    let mut text = prefix.to_string();
    text.append(detail);
    text
}

impl McpMessage {
    pub fn to_value(&self) -> (r: serde_json::Value)
        ensures
            json_model(r) == message_json(self@),
            json_doc(r) == message_doc(*self),
    {
        match self {
            McpMessage::Request(r) => r.to_value(),
            McpMessage::Response(r) => r.to_value(),
            McpMessage::Notification(n) => n.to_value(),
        }
    }

    /// The message as JSON text; see `Request::to_json`.
    pub fn to_json(&self) -> (r: Result<String, McpError>)
        ensures
            r is Ok,
            r matches Ok(s) ==> s@ == json_compact_text(message_doc(*self)),
            r matches Ok(s) ==> (json_text_stable(message_json(self@)) ==> parsed_json(s@) == Some(
                message_json(self@),
            )),
    {
        let value = self.to_value();
        match json_to_string(&value) {
            Ok(s) => Ok(s),
            Err(e) => Err(McpError::Serialization(e)),
        }
    }

    /// Reads a received text as a message: text that is not JSON is a
    /// serialization error; otherwise the keys present decide the kind of
    /// message (see `read_message`), and a response must carry exactly one of
    /// `result` and `error`.
    pub fn from_json(json_str: &str) -> (r: Result<McpMessage, McpError>)
        ensures
            match parsed_json(json_str@) {
                Some(m) => message_outcome_matches(m, trim_spec(json_str@), r),
                None => r matches Err(McpError::Serialization(_)),
            },
    {
        let raw_value = match json_parse(json_str) {
            Ok(v) => v,
            Err(e) => return Err(McpError::Serialization(e)),
        };
        let id_field_present = json_has_key(&raw_value, "id");
        let method_field_present = json_has_key(&raw_value, "method");
        let result_field_present = json_has_key(&raw_value, "result");
        let error_field_present = json_has_key(&raw_value, "error");
        if id_field_present {
            if method_field_present {
                match Request::from_value(&raw_value) {
                    Some(request) => Ok(McpMessage::Request(request)),
                    None => Err(
                        McpError::ParseJson(
                            failure_text(
                                "Failed to deserialize as Request: ",
                                "a field is missing or has the wrong type",
                            ),
                        ),
                    ),
                }
            } else if result_field_present || error_field_present {
                let response = match Response::from_value(&raw_value) {
                    Some(r) => r,
                    None => {
                        return Err(
                            McpError::ParseJson(
                                failure_text(
                                    "Failed to deserialize as Response: ",
                                    "a field is missing or has the wrong type",
                                ),
                            ),
                        );
                    },
                };
                if response.result.is_some() && response.error.is_some() {
                    return Err(
                        McpError::InvalidMessage(
                            "Response: 'result' and 'error' cannot both be set".to_string(),
                        ),
                    );
                }
                if response.result.is_none() && response.error.is_none() {
                    return Err(
                        McpError::InvalidMessage(
                            "Response: Either 'result' or 'error' must be set".to_string(),
                        ),
                    );
                }
                Ok(McpMessage::Response(response))
            } else {
                Err(
                    McpError::InvalidMessage(
                        failure_text(
                            "Message has 'id' but is neither a Request nor a Response (missing 'method' or 'result'/'error'): ",
                            str_trim(json_str),
                        ),
                    ),
                )
            }
        } else {
            if method_field_present {
                match Notification::from_value(&raw_value) {
                    Some(n) => Ok(McpMessage::Notification(n)),
                    None => Err(
                        McpError::ParseJson(
                            failure_text(
                                "Failed to deserialize as Notification: ",
                                "a field is missing or has the wrong type",
                            ),
                        ),
                    ),
                }
            } else {
                Err(
                    McpError::InvalidMessage(
                        failure_text(
                            "Message is neither a Request, Response, nor Notification (missing 'id' and 'method'): ",
                            str_trim(json_str),
                        ),
                    ),
                )
            }
        }
    }
}

// ---- Laws

proof fn lemma_keys_distinct()
    ensures
        "jsonrpc"@ != "method"@,
        "jsonrpc"@ != "id"@,
        "jsonrpc"@ != "params"@,
        "jsonrpc"@ != "result"@,
        "jsonrpc"@ != "error"@,
        "method"@ != "id"@,
        "method"@ != "params"@,
        "method"@ != "result"@,
        "method"@ != "error"@,
        "id"@ != "params"@,
        "id"@ != "result"@,
        "id"@ != "error"@,
        "params"@ != "result"@,
        "params"@ != "error"@,
        "result"@ != "error"@,
        "code"@ != "message"@,
        "code"@ != "data"@,
        "message"@ != "data"@,
{
    reveal_strlit("jsonrpc");
    reveal_strlit("method");
    reveal_strlit("id");
    reveal_strlit("params");
    reveal_strlit("result");
    reveal_strlit("error");
    reveal_strlit("code");
    reveal_strlit("message");
    reveal_strlit("data");
    assert("method"@[0] != "params"@[0]);
    assert("method"@[0] != "result"@[0]);
    assert("params"@[0] != "result"@[0]);
    assert("jsonrpc"@[0] != "message"@[0]);
    assert("code"@[0] != "data"@[0]);
    assert("id"@.len() != "error"@.len());
    assert("id"@.len() != "params"@.len());
    assert("id"@.len() != "result"@.len());
    assert("id"@.len() != "method"@.len());
    assert("id"@.len() != "jsonrpc"@.len());
}

/// A message whose JSON form reads back as itself: no optional field holds
/// `null` (which reads back as "no value"), and a response carries exactly one
/// of a result and an error.
pub open spec fn message_reads_back(m: McpMessageView) -> bool {
    match m {
        McpMessageView::Request(r) => r.params != Some(JsonModel::Null),
        McpMessageView::Notification(n) => n.params != Some(JsonModel::Null),
        McpMessageView::Response(r) => {
            &&& r.result != Some(JsonModel::Null)
            &&& (r.error matches Some(e) ==> e.data != Some(JsonModel::Null))
            &&& (r.result is Some) != (r.error is Some)
        },
    }
}

/// Reading the JSON form of a request gives the request back, unless its
/// parameters are `null`.
pub proof fn law_request_json_roundtrip(r: RequestView)
    requires
        r.params != Some(JsonModel::Null),
    ensures
        request_from_json(request_json(r)) == Some(r),
{
    lemma_keys_distinct();
    let f = request_json(r)->Object_0;
    assert(optional_field(f, "params"@) == r.params);
}

/// Reading the JSON form of an error object gives it back, unless its data is
/// `null`.
pub proof fn law_response_error_json_roundtrip(e: ResponseErrorView)
    requires
        e.data != Some(JsonModel::Null),
    ensures
        response_error_from_json(response_error_json(e)) == Some(e),
{
    lemma_keys_distinct();
    let f = response_error_json(e)->Object_0;
    assert(optional_field(f, "data"@) == e.data);
}

/// Reading the JSON form of a response gives it back, unless its result or
/// its error's data is `null`.
pub proof fn law_response_json_roundtrip(r: ResponseView)
    requires
        r.result != Some(JsonModel::Null),
        r.error matches Some(e) ==> e.data != Some(JsonModel::Null),
    ensures
        response_from_json(response_json(r)) == Some(r),
{
    lemma_keys_distinct();
    let f = response_json(r)->Object_0;
    assert(optional_field(f, "result"@) == r.result);
    match r.error {
        Some(e) => {
            law_response_error_json_roundtrip(e);
            assert(opt_error_from_json(f) == Some(r.error));
        },
        None => {
            assert(opt_error_from_json(f) == Some(r.error));
        },
    }
    match r.id {
        Some(i) => {
            assert(opt_id_from_json(f) == Some(r.id));
        },
        None => {
            assert(opt_id_from_json(f) == Some(r.id));
        },
    }
}

/// Reading the JSON form of a notification gives it back, unless its
/// parameters are `null`.
pub proof fn law_notification_json_roundtrip(n: NotificationView)
    requires
        n.params != Some(JsonModel::Null),
    ensures
        notification_from_json(notification_json(n)) == Some(n),
{
    lemma_keys_distinct();
    let f = notification_json(n)->Object_0;
    assert(optional_field(f, "params"@) == n.params);
}

/// What `McpMessage::from_json` reads from the JSON form of a message is that
/// message (for messages that read back at all, see `message_reads_back`).
pub proof fn law_message_json_roundtrip(m: McpMessageView)
    requires
        message_reads_back(m),
    ensures
        read_message(message_json(m)) == MessageReading::Read(m),
{
    lemma_keys_distinct();
    match m {
        McpMessageView::Request(r) => {
            law_request_json_roundtrip(r);
        },
        McpMessageView::Response(r) => {
            law_response_json_roundtrip(r);
            let f = response_json(r)->Object_0;
            assert(!f.dom().contains("method"@));
            assert(f.dom().contains("id"@));
        },
        McpMessageView::Notification(n) => {
            law_notification_json_roundtrip(n);
            let f = notification_json(n)->Object_0;
            assert(!f.dom().contains("id"@));
        },
    }
}

/// The text that `to_json` writes for a message reads back, through
/// `McpMessage::from_json`, as the same message.
pub proof fn law_message_text_roundtrip(m: McpMessageView, text: Seq<char>)
    requires
        message_reads_back(m),
        parsed_json(text) == Some(message_json(m)),
    ensures
        read_message(parsed_json(text)->0) == MessageReading::Read(m),
{
    law_message_json_roundtrip(m);
}

// ---- Laws: the keys of each message, as written and as read

/// An identifier as JSON: a string or an integer.
pub open spec fn id_value(id: RequestIdView) -> JsonModel {
    match id {
        RequestIdView::Text(s) => JsonModel::Str(s),
        RequestIdView::Number(n) => JsonModel::Int(n as int),
    }
}

/// A request as JSON: `jsonrpc`, `method` and `id` always, `params` exactly
/// when it has parameters, and no other key.
pub proof fn law_request_fields(r: RequestView)
    ensures
        request_json(r) is Object,
        field_holds(request_json(r)->Object_0, "jsonrpc"@, Some(JsonModel::Str(r.jsonrpc))),
        field_holds(request_json(r)->Object_0, "method"@, Some(JsonModel::Str(r.method))),
        field_holds(request_json(r)->Object_0, "id"@, Some(id_value(r.id))),
        field_holds(request_json(r)->Object_0, "params"@, r.params),
        forall|k: Seq<char>| #[trigger] request_json(r)->Object_0.dom().contains(k) ==> k
            == "jsonrpc"@ || k == "method"@ || k == "id"@ || k == "params"@,
{
    lemma_keys_distinct();
}

/// A response as JSON: `jsonrpc` always, `id` always (`null` when it has
/// none), `result` and `error` each exactly when present, and no other key.
pub proof fn law_response_fields(r: ResponseView)
    ensures
        response_json(r) is Object,
        field_holds(response_json(r)->Object_0, "jsonrpc"@, Some(JsonModel::Str(r.jsonrpc))),
        field_holds(
            response_json(r)->Object_0,
            "id"@,
            Some(
                match r.id {
                    Some(i) => id_value(i),
                    None => JsonModel::Null,
                },
            ),
        ),
        field_holds(response_json(r)->Object_0, "result"@, r.result),
        field_holds(
            response_json(r)->Object_0,
            "error"@,
            match r.error {
                Some(e) => Some(response_error_json(e)),
                None => None,
            },
        ),
        forall|k: Seq<char>| #[trigger] response_json(r)->Object_0.dom().contains(k) ==> k
            == "jsonrpc"@ || k == "id"@ || k == "result"@ || k == "error"@,
{
    lemma_keys_distinct();
}

/// An error object as JSON: `code` and `message` always, `data` exactly when
/// present, and no other key.
pub proof fn law_response_error_fields(e: ResponseErrorView)
    ensures
        response_error_json(e) is Object,
        field_holds(response_error_json(e)->Object_0, "code"@, Some(JsonModel::Int(e.code as int))),
        field_holds(response_error_json(e)->Object_0, "message"@, Some(JsonModel::Str(e.message))),
        field_holds(response_error_json(e)->Object_0, "data"@, e.data),
        forall|k: Seq<char>| #[trigger] response_error_json(e)->Object_0.dom().contains(k) ==> k
            == "code"@ || k == "message"@ || k == "data"@,
{
    lemma_keys_distinct();
}

/// A notification as JSON: `jsonrpc` and `method` always, `params` exactly
/// when it has parameters, and no other key (in particular no `id`).
pub proof fn law_notification_fields(n: NotificationView)
    ensures
        notification_json(n) is Object,
        field_holds(notification_json(n)->Object_0, "jsonrpc"@, Some(JsonModel::Str(n.jsonrpc))),
        field_holds(notification_json(n)->Object_0, "method"@, Some(JsonModel::Str(n.method))),
        field_holds(notification_json(n)->Object_0, "params"@, n.params),
        forall|k: Seq<char>| #[trigger] notification_json(n)->Object_0.dom().contains(k) ==> k
            == "jsonrpc"@ || k == "method"@ || k == "params"@,
{
    lemma_keys_distinct();
}

/// A request is written with its fields in order: `jsonrpc`, `method`, `id`,
/// then `params` when it has parameters.
pub proof fn law_request_text_order(r: Request)
    ensures
        request_doc(r) is Object,
        ({
            let f = request_doc(r)->Object_0;
            &&& f.len() == if r.params is Some {
                4int
            } else {
                3int
            }
            &&& f[0] == ("jsonrpc"@, JsonDoc::Str(r.protocol.jsonrpc@))
            &&& f[1] == ("method"@, JsonDoc::Str(r.method@))
            &&& f[2] == ("id"@, request_id_doc(r.id@))
            &&& (r.params matches Some(p) ==> f[3] == ("params"@, json_doc(p)))
        }),
        request_id_doc(r.id@) == match r.id {
            RequestId::String(s) => JsonDoc::Str(s@),
            RequestId::Number(n) => JsonDoc::Int(n as int),
        },
{
}

/// A response is written with its fields in order: `jsonrpc`, `id` (`null`
/// when it has none), then `result` and `error` when present.
pub proof fn law_response_text_order(r: Response)
    ensures
        response_doc(r) is Object,
        ({
            let f = response_doc(r)->Object_0;
            let n: int = 2 + (if r.result is Some {
                1int
            } else {
                0int
            });
            &&& f.len() == n + (if r.error is Some {
                1int
            } else {
                0int
            })
            &&& f[0] == ("jsonrpc"@, JsonDoc::Str(r.protocol.jsonrpc@))
            &&& f[1] == (
                "id"@,
                match r.id {
                    Some(i) => request_id_doc(i@),
                    None => JsonDoc::Null,
                },
            )
            &&& (r.result matches Some(v) ==> f[2] == ("result"@, json_doc(v)))
            &&& (r.error matches Some(e) ==> f[n] == ("error"@, response_error_doc(e)))
        }),
{
}

/// An error object is written with `code`, `message`, then `data` when
/// present.
pub proof fn law_response_error_text_order(e: ResponseError)
    ensures
        response_error_doc(e) is Object,
        ({
            let f = response_error_doc(e)->Object_0;
            &&& f.len() == if e.data is Some {
                3int
            } else {
                2int
            }
            &&& f[0] == ("code"@, JsonDoc::Int(e.code as int))
            &&& f[1] == ("message"@, JsonDoc::Str(e.message@))
            &&& (e.data matches Some(d) ==> f[2] == ("data"@, json_doc(d)))
        }),
{
}

/// A notification is written with `jsonrpc`, `method`, then `params` when it
/// has parameters.
pub proof fn law_notification_text_order(n: Notification)
    ensures
        notification_doc(n) is Object,
        ({
            let f = notification_doc(n)->Object_0;
            &&& f.len() == if n.params is Some {
                3int
            } else {
                2int
            }
            &&& f[0] == ("jsonrpc"@, JsonDoc::Str(n.base.jsonrpc@))
            &&& f[1] == ("method"@, JsonDoc::Str(n.method@))
            &&& (n.params matches Some(p) ==> f[2] == ("params"@, json_doc(p)))
        }),
{
}

/// What an optional field of a received object holds: nothing when the key
/// is missing or holds `null`.
pub open spec fn received_field(f: Map<Seq<char>, JsonModel>, key: Seq<char>) -> Option<JsonModel> {
    if f.dom().contains(key) && f[key] != JsonModel::Null {
        Some(f[key])
    } else {
        None
    }
}

/// A received notification is read from its `jsonrpc` and `method` strings
/// and its `params` (other keys are ignored); without both strings it is
/// not a notification.
pub proof fn law_notification_reading(f: Map<Seq<char>, JsonModel>, jsonrpc: Seq<char>, method: Seq<char>)
    ensures
        f.dom().contains("jsonrpc"@) && f["jsonrpc"@] == JsonModel::Str(jsonrpc) && f.dom().contains(
            "method"@,
        ) && f["method"@] == JsonModel::Str(method) ==> notification_from_json(JsonModel::Object(f))
            == Some(NotificationView { jsonrpc, method, params: received_field(f, "params"@) }),
        !(f.dom().contains("method"@) && f["method"@] is Str) ==> notification_from_json(
            JsonModel::Object(f),
        ) is None,
{
}

/// A received request is read from its `jsonrpc` and `method` strings, its
/// `id` (a string or an integer that fits in `u64`) and its `params`.
pub proof fn law_request_reading(f: Map<Seq<char>, JsonModel>, jsonrpc: Seq<char>, method: Seq<char>, id: RequestIdView)
    ensures
        f.dom().contains("jsonrpc"@) && f["jsonrpc"@] == JsonModel::Str(jsonrpc) && f.dom().contains(
            "method"@,
        ) && f["method"@] == JsonModel::Str(method) && f.dom().contains("id"@) && f["id"@]
            == id_value(id) ==> request_from_json(JsonModel::Object(f)) == Some(
            RequestView { jsonrpc, method, id, params: received_field(f, "params"@) },
        ),
        !f.dom().contains("id"@) ==> request_from_json(JsonModel::Object(f)) is None,
{
    if f.dom().contains("id"@) && f["id"@] == id_value(id) {
        match id {
            RequestIdView::Text(s) => {},
            RequestIdView::Number(n) => {},
        }
    }
}

/// A received response is read from its `jsonrpc` string, its `id` (absent
/// or `null`: none), its `result` and its `error` object.
pub proof fn law_response_reading(f: Map<Seq<char>, JsonModel>, jsonrpc: Seq<char>)
    ensures
        f.dom().contains("jsonrpc"@) && f["jsonrpc"@] == JsonModel::Str(jsonrpc) && received_field(
            f,
            "id"@,
        ) is None && received_field(f, "error"@) is None ==> response_from_json(
            JsonModel::Object(f),
        ) == Some(
            ResponseView { jsonrpc, id: None, result: received_field(f, "result"@), error: None },
        ),
        (response_from_json(JsonModel::Object(f)) matches Some(r) ==> r.result == received_field(
            f,
            "result"@,
        ) && (r.error is Some <==> received_field(f, "error"@) is Some) && (r.id is Some
            <==> received_field(f, "id"@) is Some)),
{
}

/// Which kind a received object is taken for depends only on which keys it
/// has: `id` with `method` is a request, `id` with `result` or `error` a
/// response, `method` without `id` a notification, and anything else is
/// refused. A response with both or neither of a result and an error is
/// refused too.
pub proof fn law_message_kinds(f: Map<Seq<char>, JsonModel>)
    ensures
        ({
            let m = JsonModel::Object(f);
            let id = f.dom().contains("id"@);
            let method = f.dom().contains("method"@);
            let answer = f.dom().contains("result"@) || f.dom().contains("error"@);
            &&& id && method ==> (read_message(m) matches MessageReading::Read(
                McpMessageView::Request(_),
            ) || read_message(m) is BadRequest)
            &&& id && !method && answer ==> (read_message(m) matches MessageReading::Read(
                McpMessageView::Response(r),
            ) && (r.result is Some) != (r.error is Some) || read_message(m) is BadResponse
                || read_message(m) is ResultAndError || read_message(m) is NoResultNoError)
            &&& id && !method && !answer ==> read_message(m) is IdOnly
            &&& !id && method ==> (read_message(m) matches MessageReading::Read(
                McpMessageView::Notification(_),
            ) || read_message(m) is BadNotification)
            &&& !id && !method ==> read_message(m) is NoIdNoMethod
        }),
        !(read_message(JsonModel::Null) is Read),
{
}

/// The white space that trimming removes is Unicode's White_Space set: tab
/// through carriage return, space, NEL, no-break space, ogham space mark,
/// the spaces from en quad to hair space, the line and paragraph
/// separators, narrow no-break space, medium mathematical space and
/// ideographic space.
pub proof fn law_white_space(c: char)
    ensures
        is_white_space(c) <==> (c == '\u{9}' || c == '\u{a}' || c == '\u{b}' || c == '\u{c}' || c
            == '\u{d}' || c == ' ' || c == '\u{85}' || c == '\u{a0}' || c == '\u{1680}' || ('\u{2000}'
            <= c <= '\u{200a}') || c == '\u{2028}' || c == '\u{2029}' || c == '\u{202f}' || c
            == '\u{205f}' || c == '\u{3000}'),
        trim_spec(Seq::<char>::empty()) == Seq::<char>::empty(),
{
}

proof fn lemma_trim_start(s: Seq<char>) -> (i: int)
    ensures
        0 <= i <= s.len(),
        trim_start_spec(s) == s.subrange(i, s.len() as int),
        forall|k: int| 0 <= k < i ==> is_white_space(#[trigger] s[k]),
        i < s.len() ==> !is_white_space(s[i]),
    decreases s.len(),
{
    if s.len() > 0 && is_white_space(s[0]) {
        let j = lemma_trim_start(s.drop_first());
        assert(s.drop_first().subrange(j, s.drop_first().len() as int) =~= s.subrange(j + 1, s.len() as int));
        assert forall|k: int| 0 <= k < j + 1 implies is_white_space(#[trigger] s[k]) by {
            if k > 0 {
                assert(s[k] == s.drop_first()[k - 1]);
            }
        }
        if j + 1 < s.len() {
            assert(s[j + 1] == s.drop_first()[j]);
        }
        j + 1
    } else {
        assert(s.subrange(0, s.len() as int) =~= s);
        0
    }
}

proof fn lemma_trim_end(s: Seq<char>) -> (j: int)
    ensures
        0 <= j <= s.len(),
        trim_end_spec(s) == s.subrange(0, j),
        forall|k: int| j <= k < s.len() ==> is_white_space(#[trigger] s[k]),
        j > 0 ==> !is_white_space(s[j - 1]),
    decreases s.len(),
{
    if s.len() > 0 && is_white_space(s.last()) {
        let j = lemma_trim_end(s.drop_last());
        assert(s.drop_last().subrange(0, j) =~= s.subrange(0, j));
        assert forall|k: int| j <= k < s.len() implies is_white_space(#[trigger] s[k]) by {
            if k < s.len() - 1 {
                assert(s[k] == s.drop_last()[k]);
            }
        }
        if j > 0 {
            assert(s[j - 1] == s.drop_last()[j - 1]);
        }
        j
    } else {
        assert(s.subrange(0, s.len() as int) =~= s);
        s.len() as int
    }
}

/// Trimming keeps the middle of a text: it drops only white space, from
/// both ends, and what it keeps neither starts nor ends with white space.
pub proof fn law_trim(s: Seq<char>)
    ensures
        exists|i: int, j: int|
            0 <= i <= j <= s.len() && trim_spec(s) == s.subrange(i, j) && (forall|k: int|
                0 <= k < i ==> is_white_space(#[trigger] s[k])) && (forall|k: int|
                j <= k < s.len() ==> is_white_space(#[trigger] s[k])),
        trim_spec(s).len() > 0 ==> !is_white_space(trim_spec(s)[0]) && !is_white_space(
            trim_spec(s).last(),
        ),
{
    let i = lemma_trim_start(s);
    let t = trim_start_spec(s);
    let j = lemma_trim_end(t);
    assert(trim_spec(s) == t.subrange(0, j));
    assert(t.subrange(0, j) =~= s.subrange(i, i + j));
    assert forall|k: int| i + j <= k < s.len() implies is_white_space(#[trigger] s[k]) by {
        assert(s[k] == t[k - i]);
    }
    if j > 0 {
        assert(trim_spec(s)[0] == t[0]);
        assert(t[0] == s[i]);
        assert(trim_spec(s).last() == t[j - 1]);
    }
    assert(0 <= i <= i + j <= s.len() && trim_spec(s) == s.subrange(i, i + j));
}

/// What reading a received message answers: the message itself when it
/// reads as one, otherwise an error that says what was wrong, quoting the
/// trimmed text when neither kind of message could be made out.
pub proof fn law_reading_outcomes(m: JsonModel, trimmed: Seq<char>, r: Result<McpMessage, McpError>)
    ensures
        read_message(m) matches MessageReading::Read(v) ==> (message_outcome_matches(m, trimmed, r)
            <==> (r matches Ok(msg) && msg@ == v)),
        read_message(m) is ResultAndError ==> (message_outcome_matches(m, trimmed, r) <==> (r matches Err(
            McpError::InvalidMessage(t),
        ) && t@ == "Response: 'result' and 'error' cannot both be set"@)),
        read_message(m) is NoResultNoError ==> (message_outcome_matches(m, trimmed, r) <==> (r matches Err(
            McpError::InvalidMessage(t),
        ) && t@ == "Response: Either 'result' or 'error' must be set"@)),
        read_message(m) is IdOnly ==> (message_outcome_matches(m, trimmed, r) <==> (r matches Err(
            McpError::InvalidMessage(t),
        ) && t@
            == "Message has 'id' but is neither a Request nor a Response (missing 'method' or 'result'/'error'): "@
            + trimmed)),
        read_message(m) is NoIdNoMethod ==> (message_outcome_matches(m, trimmed, r) <==> (r matches Err(
            McpError::InvalidMessage(t),
        ) && t@
            == "Message is neither a Request, Response, nor Notification (missing 'id' and 'method'): "@
            + trimmed)),
        read_message(m) is BadRequest ==> (message_outcome_matches(m, trimmed, r) <==> (r matches Err(
            McpError::ParseJson(t),
        ) && "Failed to deserialize as Request: "@.is_prefix_of(t@))),
        read_message(m) is BadResponse ==> (message_outcome_matches(m, trimmed, r) <==> (r matches Err(
            McpError::ParseJson(t),
        ) && "Failed to deserialize as Response: "@.is_prefix_of(t@))),
        read_message(m) is BadNotification ==> (message_outcome_matches(m, trimmed, r) <==> (r matches Err(
            McpError::ParseJson(t),
        ) && "Failed to deserialize as Notification: "@.is_prefix_of(t@))),
{
}

/// A received error object is read from its `code` (an integer that fits in
/// `i32`), its `message` string and its `data`; without a fitting code or a
/// message string it is no error object.
pub proof fn law_error_object_reading(f: Map<Seq<char>, JsonModel>, code: i32, message: Seq<char>)
    ensures
        f.dom().contains("code"@) && f["code"@] == JsonModel::Int(code as int) && f.dom().contains(
            "message"@,
        ) && f["message"@] == JsonModel::Str(message) ==> response_error_from_json(
            JsonModel::Object(f),
        ) == Some(ResponseErrorView { code, message, data: received_field(f, "data"@) }),
        !f.dom().contains("code"@) ==> response_error_from_json(JsonModel::Object(f)) is None,
        !(f.dom().contains("message"@) && f["message"@] is Str) ==> response_error_from_json(
            JsonModel::Object(f),
        ) is None,
{
}

} // verus!
