use vstd::prelude::*;
use crate::clock;
use crate::json;
use crate::json::{json_parse, json_pretty, json_text, null_text};
use crate::states::main_page::generics::{Header, HeaderModel};
use crate::states::main_page::response::response_data::{
    response_data_of,
    ResponseData,
    ResponseDataModel,
};
use crate::status::{canonical_reason, is_error_status, status_is_error, status_reason};

pub mod response_data;

verus! {

/// Which side of a response is on screen.
#[derive(Clone, Copy, Debug, PartialEq, Eq, Structural)]
pub enum ResponseView {
    JSON,
    RAW,
    HEADERS,
}

/// How a JSON body is laid out on screen.
#[derive(Clone, Copy, Debug, PartialEq, Eq, Structural)]
pub enum JsonViewType {
    Simple,
    Comlex,
}

/// A body read as JSON: the value, and the value printed with indentation.
#[derive(Debug)]
pub struct JsonView {
    pub simple: String,
    pub complex: serde_json::Value,
    pub view_type: JsonViewType,
}

/// A JSON reading as a value; `complex` is the compact text of the value.
pub struct JsonViewModel {
    pub simple: Seq<char>,
    pub complex: Seq<char>,
    pub view_type: JsonViewType,
}

impl View for JsonView {
    type V = JsonViewModel;

    open spec fn view(&self) -> JsonViewModel {
        JsonViewModel {
            simple: self.simple@,
            complex: json_text(self.complex),
            view_type: self.view_type,
        }
    }
}

/// The text of an optional string.
pub open spec fn text_of(text: Option<String>) -> Option<Seq<char>> {
    match text {
        Some(text) => Some(text@),
        None => None,
    }
}

/// The compact text of an optional JSON value.
pub open spec fn compact_of(value: Option<serde_json::Value>) -> Option<Seq<char>> {
    match value {
        Some(value) => Some(json_text(value)),
        None => None,
    }
}

/// The JSON reading made of a text, of the value it parsed to, if it
/// parsed, and of the indented print of that value, if it could be printed.
/// A value without a print is shown as the text itself. Without a value
/// the reading is `null` with an empty print.
pub open spec fn json_view_from(
    text: Seq<char>,
    compact: Option<Seq<char>>,
    pretty: Option<Seq<char>>,
) -> JsonViewModel {
    match compact {
        Some(compact) => JsonViewModel {
            simple: match pretty {
                Some(pretty) => pretty,
                None => text,
            },
            complex: compact,
            view_type: JsonViewType::Simple,
        },
        None => JsonViewModel {
            simple: Seq::empty(),
            complex: null_text(),
            view_type: JsonViewType::Simple,
        },
    }
}

/// The indented print of the value a text parses to; `None` where the text
/// does not parse or the value cannot be printed.
pub open spec fn pretty_of(text: Seq<char>) -> Option<Seq<char>> {
    match json_parse(text) {
        Some(compact) => json_pretty(compact),
        None => None,
    }
}

/// The JSON reading of a text. A text that parses gives its value and the
/// value's indented print (the text itself, should printing fail). A text
/// that does not parse gives `null` and an empty print.
pub open spec fn json_view_of(text: Seq<char>) -> JsonViewModel {
    json_view_from(text, json_parse(text), pretty_of(text))
}

impl Clone for JsonView {
    fn clone(&self) -> (r: Self)
        ensures
            r == *self,
    {
        JsonView {
            simple: self.simple.clone(),
            complex: self.complex.clone(),
            view_type: self.view_type,
        }
    }
}

impl JsonView {
    /// Makes the reading of a text out of what the parser and the printer
    /// gave for it.
    pub fn from_reading(text: &String, value: Option<serde_json::Value>, pretty: Option<String>) -> (r:
        Self)
        ensures
            r@ == json_view_from(text@, compact_of(value), text_of(pretty)),
    {
        match value {
            Some(val) => {
                let simple = match pretty {
                    Some(beauty) => beauty,
                    None => text.clone(),
                };
                JsonView { simple, complex: val, view_type: JsonViewType::Simple }
            },
            None => JsonView {
                simple: String::new(),
                complex: json::null(),
                view_type: JsonViewType::Simple,
            },
        }
    }

    /// Reads a text as JSON. This never fails: a text that is no JSON gives
    /// the reading of nothing.
    pub fn new(text: &String) -> (r: Self)
        ensures
            r@ == json_view_of(text@),
    {
        let value = match json::from_str(text.as_str()) {
            Ok(val) => Some(val),
            Err(_) => None,
        };
        let pretty = pretty_value(&value);
        JsonView::from_reading(text, value, pretty)
    }
}

/// Prints a value with indentation, if there is one and it can be printed.
pub fn pretty_value(value: &Option<serde_json::Value>) -> (r: Option<String>)
    ensures
        text_of(r) == match *value {
            Some(value) => json_pretty(json_text(value)),
            None => None,
        },
{
    match value {
        Some(val) => match json::to_string_pretty(val) {
            Ok(beauty) => Some(beauty),
            Err(_) => None,
        },
        None => None,
    }
}

/// One answer: an HTTP response, a WebSocket frame, or the notice that a
/// connection was closed. `time` is in milliseconds since the Unix epoch;
/// `code` is 0 where HTTP has no say.
#[derive(Debug)]
pub struct Response {
    pub time: i64,
    pub data: ResponseData,
    pub selected_view: ResponseView,
    pub code: usize,
    pub is_folded: bool,
}

/// A response as a value.
pub struct ResponseModel {
    pub time: i64,
    pub data: ResponseDataModel,
    pub selected_view: ResponseView,
    pub code: usize,
    pub is_folded: bool,
}

impl View for Response {
    type V = ResponseModel;

    open spec fn view(&self) -> ResponseModel {
        ResponseModel {
            time: self.time,
            data: self.data@,
            selected_view: self.selected_view,
            code: self.code,
            is_folded: self.is_folded,
        }
    }
}

impl DeepView for Response {
    type V = ResponseModel;

    open spec fn deep_view(&self) -> ResponseModel {
        self@
    }
}

/// What an HTTP exchange came back with, once the transport has resolved it.
#[derive(Debug)]
pub struct HttpReply {
    /// The status code of the response.
    pub status: u16,
    /// The headers of the response, in the order they came.
    pub headers: Vec<Header>,
    /// The URL the exchange ended at.
    pub url: String,
    /// The body as text, or why it could not be read.
    pub body: Result<String, String>,
}

/// A reply as a value.
pub struct HttpReplyModel {
    pub status: u16,
    pub headers: Seq<HeaderModel>,
    pub url: Seq<char>,
    pub body: Result<Seq<char>, Seq<char>>,
}

impl View for HttpReply {
    type V = HttpReplyModel;

    open spec fn view(&self) -> HttpReplyModel {
        HttpReplyModel {
            status: self.status,
            headers: self.headers.deep_view(),
            url: self.url@,
            body: match self.body {
                Ok(text) => Ok(text@),
                Err(why) => Err(why@),
            },
        }
    }
}

/// The record of a body received at a time with a code: shown raw, folded.
pub open spec fn record_of(
    time: i64,
    raw: Seq<char>,
    headers: Seq<HeaderModel>,
    url: Seq<char>,
    code: usize,
) -> ResponseModel {
    ResponseModel {
        time,
        data: response_data_of(raw, headers, url),
        selected_view: ResponseView::RAW,
        code,
        is_folded: true,
    }
}

/// The record of a text frame of a WebSocket.
pub open spec fn text_frame_record(time: i64, text: Seq<char>) -> ResponseModel {
    record_of(time, text, Seq::empty(), Seq::empty(), 0)
}

/// The record that stands for a closed connection.
pub open spec fn closed_record(time: i64) -> ResponseModel {
    record_of(time, "Connection closed"@, Seq::empty(), Seq::empty(), 0)
}

/// The record of a message without headers or URL.
pub open spec fn notice_record(time: i64, text: Seq<char>, code: usize) -> ResponseModel {
    record_of(time, text, Seq::empty(), Seq::empty(), code)
}

/// What is made of an HTTP reply, given the reason phrase of its status,
/// if it has one. A status of the error classes gives a record of its
/// reason phrase; any other status gives a record of the body with the
/// headers and the final URL. Where the phrase or the body cannot be had,
/// the record says so and comes with a message for the event log.
pub open spec fn reply_outcome(reply: HttpReplyModel, reason: Option<Seq<char>>, time: i64) -> Result<
    ResponseModel,
    (ResponseModel, Seq<char>),
> {
    let code = reply.status as usize;
    if is_error_status(reply.status) {
        match reason {
            Some(reason) => Ok(notice_record(time, reason, code)),
            None => Err(
                (
                    notice_record(time, "Error during text receiving for error reason"@, code),
                    "Error during text receiving for error reason"@,
                ),
            ),
        }
    } else {
        match reply.body {
            Ok(text) => Ok(record_of(time, text, reply.headers, reply.url, code)),
            Err(why) => Err(
                (
                    notice_record(time, "Error during text receiving"@, code),
                    "Error during text receiving. Error: "@ + why,
                ),
            ),
        }
    }
}

/// What is made of an HTTP reply: the status is looked up for its reason
/// phrase, and the record is made with it.
pub open spec fn http_response_outcome(reply: HttpReplyModel, time: i64) -> Result<
    ResponseModel,
    (ResponseModel, Seq<char>),
> {
    reply_outcome(reply, status_reason(reply.status), time)
}

/// What is made of a failed HTTP exchange, of which at most a status code is
/// known, given the reason phrase of that code, if it has one. The code is
/// 0 where none is known.
pub open spec fn failure_outcome(status: Option<u16>, reason: Option<Seq<char>>, time: i64) -> Result<
    ResponseModel,
    (ResponseModel, Seq<char>),
> {
    match status {
        Some(code) => match reason {
            Some(reason) => Ok(notice_record(time, reason, code as usize)),
            None => Err(
                (
                    notice_record(
                        time,
                        "During Request Error occured. Could not read error status code."@,
                        code as usize,
                    ),
                    "During Request Error occured. Could not read error status code."@,
                ),
            ),
        },
        None => Err(
            (
                notice_record(
                    time,
                    "During Request Error occured. Could not read error reason."@,
                    0,
                ),
                "During Request Error occured. Could not read error reason."@,
            ),
        ),
    }
}

/// What is made of a failed HTTP exchange: the status, if one is known, is
/// looked up for its reason phrase, and the record is made with it.
pub open spec fn http_error_outcome(status: Option<u16>, time: i64) -> Result<
    ResponseModel,
    (ResponseModel, Seq<char>),
> {
    failure_outcome(
        status,
        match status {
            Some(code) => status_reason(code),
            None => None,
        },
        time,
    )
}

/// The view of an outcome.
pub open spec fn outcome_view(outcome: Result<Response, (Response, String)>) -> Result<
    ResponseModel,
    (ResponseModel, Seq<char>),
> {
    match outcome {
        Ok(response) => Ok(response@),
        Err((response, message)) => Err((response@, message@)),
    }
}

impl Clone for Response {
    fn clone(&self) -> (r: Self)
        ensures
            r@ == self@,
    {
        Response {
            time: self.time,
            data: self.data.clone(),
            selected_view: self.selected_view,
            code: self.code,
            is_folded: self.is_folded,
        }
    }
}

impl Response {
    /// The record of a body received at a time with a code.
    pub fn record(time: i64, raw: String, headers: Vec<Header>, url: String, code: usize) -> (r:
        Self)
        ensures
            r@ == record_of(time, raw@, headers.deep_view(), url@, code),
    {
        Response {
            time,
            data: ResponseData::new(raw, headers, url),
            selected_view: ResponseView::RAW,
            code,
            is_folded: true,
        }
    }

    /// The record of a message without headers or URL.
    pub fn notice(time: i64, text: &str, code: usize) -> (r: Self)
        ensures
            r@ == notice_record(time, text@, code),
    {
        let headers: Vec<Header> = Vec::new();
        assert(headers.deep_view() =~= Seq::<HeaderModel>::empty());
        Response::record(time, text.to_string(), headers, String::new(), code)
    }

    /// The record of a text frame received at the given time.
    pub fn from_utf8_bytes_at(data: String, time: i64) -> (r: Self)
        ensures
            r@ == text_frame_record(time, data@),
    {
        let headers: Vec<Header> = Vec::new();
        assert(headers.deep_view() =~= Seq::<HeaderModel>::empty());
        Response::record(time, data, headers, String::new(), 0)
    }

    /// The record of a text frame of a WebSocket, received now.
    pub fn from_utf8_bytes(data: String) -> (r: Self)
        ensures
            r@ == text_frame_record(r.time, data@),
    {
        Response::from_utf8_bytes_at(data, clock::now_millis())
    }

    /// The record that stands for a connection closed at the given time.
    pub fn closed_connection_at(time: i64) -> (r: Self)
        ensures
            r@ == closed_record(time),
    {
        Response::notice(time, "Connection closed", 0)
    }

    /// The record that stands for a connection closed now.
    pub fn closed_connection() -> (r: Self)
        ensures
            r@ == closed_record(r.time),
    {
        Response::closed_connection_at(clock::now_millis())
    }

    /// Makes a record of an HTTP reply received at the given time, with the
    /// reason phrase of its status, if it has one. There is a record on
    /// every path; `Err` carries, beside it, a message for the event log.
    pub fn from_reply(reply: HttpReply, reason: Option<String>, time: i64) -> (r: Result<
        Self,
        (Self, String),
    >)
        ensures
            outcome_view(r) == reply_outcome(reply@, text_of(reason), time),
    {
        let code = reply.status as usize;
        if status_is_error(reply.status) {
            match reason {
                Some(err_reason) => Ok(Response::notice(time, err_reason.as_str(), code)),
                None => Err(
                    (
                        Response::notice(
                            time,
                            "Error during text receiving for error reason",
                            code,
                        ),
                        "Error during text receiving for error reason".to_string(),
                    ),
                ),
            }
        } else {
            match reply.body {
                Ok(text) => Ok(Response::record(time, text, reply.headers, reply.url, code)),
                Err(err) => {
                    let message = "Error during text receiving. Error: ".to_string().concat(
                        err.as_str(),
                    );
                    Err((Response::notice(time, "Error during text receiving", code), message))
                },
            }
        }
    }

    /// Makes a record of an HTTP reply received at the given time.
    pub fn from_http_response_at(reply: HttpReply, time: i64) -> (r: Result<Self, (Self, String)>)
        ensures
            outcome_view(r) == http_response_outcome(reply@, time),
    {
        let reason = canonical_reason(reply.status);
        Response::from_reply(reply, reason, time)
    }

    /// Makes a record of an HTTP reply received now.
    pub fn from_http_response(reply: HttpReply) -> (r: Result<Self, (Self, String)>)
        ensures
            exists|time: i64| outcome_view(r) == http_response_outcome(reply@, time),
    {
        Response::from_http_response_at(reply, clock::now_millis())
    }

    /// Makes a record of an HTTP exchange that failed at the given time,
    /// with the reason phrase of its status, if it has one.
    pub fn from_failure(status: Option<u16>, reason: Option<String>, time: i64) -> (r: Result<
        Self,
        (Self, String),
    >)
        ensures
            outcome_view(r) == failure_outcome(status, text_of(reason), time),
    {
        match status {
            Some(status_code) => match reason {
                Some(reason) => Ok(Response::notice(time, reason.as_str(), status_code as usize)),
                None => Err(
                    (
                        Response::notice(
                            time,
                            "During Request Error occured. Could not read error status code.",
                            status_code as usize,
                        ),
                        "During Request Error occured. Could not read error status code.".to_string(),
                    ),
                ),
            },
            None => Err(
                (
                    Response::notice(
                        time,
                        "During Request Error occured. Could not read error reason.",
                        0,
                    ),
                    "During Request Error occured. Could not read error reason.".to_string(),
                ),
            ),
        }
    }

    /// Makes a record of an HTTP exchange that failed at the given time.
    pub fn from_http_error_at(status: Option<u16>, time: i64) -> (r: Result<Self, (Self, String)>)
        ensures
            outcome_view(r) == http_error_outcome(status, time),
    {
        let reason = match status {
            Some(status_code) => canonical_reason(status_code),
            None => None,
        };
        Response::from_failure(status, reason, time)
    }

    /// Makes a record of an HTTP exchange that failed now.
    pub fn from_http_error(status: Option<u16>) -> (r: Result<Self, (Self, String)>)
        ensures
            exists|time: i64| outcome_view(r) == http_error_outcome(status, time),
    {
        Response::from_http_error_at(status, clock::now_millis())
    }
}

} // verus!
