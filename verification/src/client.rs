//! What an MCP client decides: how it reads the answer to `initialize`,
//! when it may send requests, and what it does with messages it receives.

use crate::decimal::{decimal_text, i64_decimal};
use crate::error::McpError;
use crate::fields::opt_json;
use crate::json::{json_as_array, json_as_str, json_get, json_model, JsonModel};
use crate::protocol::{McpMessage, RequestId, Response};
use vstd::prelude::*;

verus! {

/// The strings of a JSON array of strings; anything else gives none.
pub open spec fn strings_or_empty(m: Option<JsonModel>) -> Seq<Seq<char>> {
    match m {
        Some(JsonModel::Array(items)) => if forall|i: int| 0 <= i < items.len() ==> #[trigger] items[i] is Str {
            items.map_values(|x: JsonModel| x->Str_0)
        } else {
            Seq::empty()
        },
        _ => Seq::empty(),
    }
}

/// The text of a JSON string; anything else gives the empty text.
pub open spec fn string_or_empty(m: Option<JsonModel>) -> Seq<char> {
    match m {
        Some(JsonModel::Str(s)) => s,
        _ => Seq::empty(),
    }
}

/// A field of an optional object, if there is one.
pub open spec fn field_of(data: Option<JsonModel>, key: Seq<char>) -> Option<JsonModel> {
    match data {
        Some(JsonModel::Object(f)) => if f.dom().contains(key) {
            Some(f[key])
        } else {
            None
        },
        _ => None,
    }
}

fn field<'a>(data: &'a Option<serde_json::Value>, key: &str) -> (r: Option<&'a serde_json::Value>)
    ensures
        match r {
            Some(v) => field_of(opt_json(*data), key@) == Some(json_model(*v)),
            None => field_of(opt_json(*data), key@) is None,
        },
{
    match data {
        Some(d) => json_get(d, key),
        None => None,
    }
}

fn strings_of(v: Option<&serde_json::Value>) -> (r: Vec<String>)
    ensures
        r@.map_values(|s: String| s@) == strings_or_empty(
            match v {
                Some(x) => Some(json_model(*x)),
                None => None,
            },
        ),
{
    let items = match v {
        Some(x) => match json_as_array(x) {
            Some(a) => a,
            None => {
                let empty: Vec<String> = Vec::new();
                assert(empty@.map_values(|s: String| s@) =~= Seq::<Seq<char>>::empty());
                return empty;
            },
        },
        None => {
            let empty: Vec<String> = Vec::new();
            assert(empty@.map_values(|s: String| s@) =~= Seq::<Seq<char>>::empty());
            return empty;
        },
    };
    let ghost model = json_model(*v.unwrap());
    let mut out: Vec<String> = Vec::new();
    let mut i: usize = 0;
    while i < items.len()
        invariant
            v is Some && model == json_model(*v.unwrap()),
            model is Array,
            items@.len() == model->Array_0.len(),
            forall|j: int| 0 <= j < items@.len() ==> #[trigger] json_model(items@[j]) == model->Array_0[j],
            i <= items@.len(),
            out@.len() == i,
            forall|j: int| 0 <= j < i ==> model->Array_0[j] == JsonModel::Str(#[trigger] out@[j]@),
        decreases items@.len() - i,
    {
        match json_as_str(&items[i]) {
            Some(s) => out.push(s.to_string()),
            None => {
                let empty: Vec<String> = Vec::new();
                proof {
                    let elems = model->Array_0;
                    assert(!(elems[i as int] is Str));
                    assert(!(forall|j: int| 0 <= j < elems.len() ==> #[trigger] elems[j] is Str));
                    assert(empty@.map_values(|s: String| s@) =~= Seq::<Seq<char>>::empty());
                }
                return empty;
            },
        }
        i = i + 1;
    }
    proof {
        let elems = model->Array_0;
        assert forall|j: int| 0 <= j < elems.len() implies #[trigger] elems[j] is Str by {
            assert(elems[j] == JsonModel::Str(out@[j]@));
        }
        assert(out@.map_values(|s: String| s@) =~= elems.map_values(|x: JsonModel| x->Str_0));
    }
    out
}

fn string_of(v: Option<&serde_json::Value>) -> (r: String)
    ensures
        r@ == string_or_empty(
            match v {
                Some(x) => Some(json_model(*x)),
                None => None,
            },
        ),
{
    match v {
        Some(x) => match json_as_str(x) {
            Some(s) => s.to_string(),
            None => String::new(),
        },
        None => String::new(),
    }
}

/// What the answer to `initialize` comes to: its result (still to be read as
/// an `InitializeResult`), or an error. The server's "unsupported protocol
/// version" error (-32602 with that message) gives the requested and
/// supported versions from its data (empty where the data does not hold
/// them); any other error is a protocol error that quotes the code and
/// message; an answer with neither is a protocol error too.
pub fn initialize_outcome(response: Response) -> (r: Result<serde_json::Value, McpError>)
    ensures
        match response.result {
            Some(v) => r == Ok::<serde_json::Value, McpError>(v),
            None => match response.error {
                Some(e) => if e.code == -32602 && e.message@ == "Unsupported protocol version"@ {
                    r matches Err(McpError::UnsupportedProtocolVersion { requested, supported })
                        && requested@ == string_or_empty(field_of(opt_json(e.data), "requested"@))
                        && supported@.map_values(|s: String| s@) == strings_or_empty(
                        field_of(opt_json(e.data), "supported"@),
                    )
                } else {
                    r matches Err(McpError::ProtocolError(m)) && m@
                        == "Initialize request failed with server error: Code="@ + decimal_text(
                        e.code as int,
                    ) + ", Message="@ + e.message@
                },
                None => r matches Err(McpError::ProtocolError(m)) && m@
                    == "Initialize response had neither result nor error"@,
            },
        },
{
    if let Some(result_value) = response.result {
        return Ok(result_value);
    }
    match response.error {
        Some(error_obj) => {
            if error_obj.code == -32602 && error_obj.message.eq(
                &"Unsupported protocol version".to_string(),
            ) {
                let supported = strings_of(field(&error_obj.data, "supported"));
                let requested = string_of(field(&error_obj.data, "requested"));
                Err(McpError::UnsupportedProtocolVersion { requested, supported })
            } else {
                let mut text = "Initialize request failed with server error: Code=".to_string();
                let number = i64_decimal(error_obj.code as i64);
                text.append(number.as_str());
                text.append(", Message=");
                text.append(error_obj.message.as_str());
                assert(text@ == "Initialize request failed with server error: Code="@ + number@
                    + ", Message="@ + error_obj.message@);
                Err(McpError::ProtocolError(text))
            }
        },
        None => Err(
            McpError::ProtocolError("Initialize response had neither result nor error".to_string()),
        ),
    }
}

/// A client may send requests only after the handshake has settled a
/// protocol version.
pub fn requests_allowed(negotiated_protocol_version: &Option<String>) -> (r: Result<(), McpError>)
    ensures
        negotiated_protocol_version is Some ==> r is Ok,
        negotiated_protocol_version is None ==> (r matches Err(McpError::ProtocolError(m)) && m@
            == "Cannot send requests before initialization handshake is complete."@),
{
    if negotiated_protocol_version.is_none() {
        return Err(
            McpError::ProtocolError(
                "Cannot send requests before initialization handshake is complete.".to_string(),
            ),
        );
    }
    Ok(())
}

/// What a client does with a message it receives.
pub enum ClientAction {
    /// Hand the response to the request with this identifier, if one waits.
    Deliver(RequestId),
    /// A response without an identifier, which the client cannot place.
    MissingId,
    /// Send this response back.
    Answer(Response),
    /// Nothing to do.
    Ignore,
}

/// A client serves no methods: a request with a numeric identifier is
/// answered "not supported" (-32601); one with a text identifier gets no
/// answer; notifications are only noted; responses go to the requests that
/// wait for them.
pub fn client_action(message: &McpMessage) -> (r: ClientAction)
    ensures
        match *message {
            McpMessage::Response(res) => match res.id {
                Some(id) => r == ClientAction::Deliver(id),
                None => r is MissingId,
            },
            McpMessage::Request(req) => match req.id {
                RequestId::Number(n) => r matches ClientAction::Answer(a) && a.protocol.jsonrpc@
                    == "2.0"@ && a.id == Some(
                    RequestId::Number(n),
                ) && a.result is None && (a.error matches Some(e) && e.code == -32601 && e.message@
                    == "Method '"@ + req.method@ + "' not supported by client"@ && e.data is None),
                RequestId::String(_) => r is Ignore,
            },
            McpMessage::Notification(_) => r is Ignore,
        },
{
    match message {
        McpMessage::Response(response) => match &response.id {
            Some(id) => ClientAction::Deliver(id.clone()),
            None => ClientAction::MissingId,
        },
        McpMessage::Request(request) => match &request.id {
            RequestId::Number(n) => {
                let mut text = "Method '".to_string();
                text.append(request.method.as_str());
                text.append("' not supported by client");
                ClientAction::Answer(
                    Response::new_error(Some(RequestId::Number(*n)), -32601, text.as_str(), None),
                )
            },
            RequestId::String(_) => ClientAction::Ignore,
        },
        McpMessage::Notification(_) => ClientAction::Ignore,
    }
}

/// How the answer to `initialize` is read: a field of the error data is
/// that object's entry under the key; a JSON string gives its text and a
/// list of JSON strings gives their texts in order; anything else gives
/// nothing.
pub proof fn law_error_data_reading(
    f: Map<Seq<char>, JsonModel>,
    key: Seq<char>,
    other: JsonModel,
    text: Seq<char>,
    items: Seq<Seq<char>>,
)
    ensures
        field_of(Some(JsonModel::Object(f)), key) == if f.dom().contains(key) {
            Some(f[key])
        } else {
            None
        },
        !(other is Object) ==> field_of(Some(other), key) is None,
        field_of(None, key) is None,
        string_or_empty(Some(JsonModel::Str(text))) == text,
        !(other is Str) ==> string_or_empty(Some(other)) == Seq::<char>::empty(),
        string_or_empty(None) == Seq::<char>::empty(),
        strings_or_empty(Some(JsonModel::Array(items.map_values(|t: Seq<char>| JsonModel::Str(t)))))
            == items,
        !(other is Array) ==> strings_or_empty(Some(other)) == Seq::<Seq<char>>::empty(),
        strings_or_empty(None) == Seq::<Seq<char>>::empty(),
{
    let arr = items.map_values(|t: Seq<char>| JsonModel::Str(t));
    assert(forall|i: int| 0 <= i < arr.len() ==> #[trigger] arr[i] is Str);
    assert(arr.map_values(|x: JsonModel| x->Str_0) =~= items);
}

} // verus!
