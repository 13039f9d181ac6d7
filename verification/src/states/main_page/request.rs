use vstd::prelude::*;
use crate::executor::session::Activation;
use crate::executor::{
    execute_log,
    spec_execute,
    spec_terminate,
    Executor,
    ExecutorModel,
    State,
};
use crate::ids;
use crate::ids::ID_LENGTH;
use crate::json;
use crate::settings::method_settings::method_name;
use crate::settings::protocol_settings::protocol_name;
use crate::settings::request_settings::{RequestSettings, StoredRequestModel};
use crate::states::main_page::generics::{CountedText, CountedTextModel, Header, HeaderModel};
use crate::states::main_page::request::request_data::{
    default_request_data,
    edited_request_data,
    query_params_of,
    scheme_of,
    uri_without_scheme,
    BodyFromData,
    BodyFromDataModel,
    FormFieldType,
    RequestBodyModel,
    RequestData,
    RequestDataModel,
};
use crate::states::main_page::response::{pretty_of, pretty_value, text_of, ResponseModel};
use crate::states::Events;
use crate::text::{
    chars_of,
    contains_lowercase,
    lowercase,
    passes_filter,
    rows_of,
    to_lowercase,
};

pub mod request_data;

verus! {

/// A request of the tree: what the user has written of it, what was last
/// saved of it, and the executor that fires it.
#[derive(Debug)]
pub struct Request {
    /// The identifier of the request.
    pub id: String,
    /// True where the draft was edited since it was last saved.
    pub is_changed: bool,
    /// The request as it was last saved.
    pub original: RequestData,
    /// The request as the user edits it.
    pub draft: RequestData,
    /// The header the user is about to add.
    pub new_header: Header,
    /// The form field the user is about to add.
    pub new_body_form_field: BodyFromData,
    /// The engine that fires the request and keeps its responses.
    pub executor: Executor,
    pub visible_details: RequestDetails,
    pub visible_headers: RequestHeaders,
    pub visible_body: RequestBodyDetails,
}

/// A request as a value.
pub struct RequestModel {
    pub id: Seq<char>,
    pub is_changed: bool,
    pub original: RequestDataModel,
    pub draft: RequestDataModel,
    pub new_header: HeaderModel,
    pub new_body_form_field: BodyFromDataModel,
    pub executor: ExecutorModel,
    pub visible_details: RequestDetails,
    pub visible_headers: RequestHeaders,
    pub visible_body: RequestBodyDetails,
}

impl View for Request {
    type V = RequestModel;

    open spec fn view(&self) -> RequestModel {
        RequestModel {
            id: self.id@,
            is_changed: self.is_changed,
            original: self.original@,
            draft: self.draft@,
            new_header: self.new_header@,
            new_body_form_field: self.new_body_form_field@,
            executor: self.executor@,
            visible_details: self.visible_details,
            visible_headers: self.visible_headers,
            visible_body: self.visible_body,
        }
    }
}

impl DeepView for Request {
    type V = RequestModel;

    open spec fn deep_view(&self) -> RequestModel {
        self@
    }
}

/// A request that was just made, with the given identifier: unchanged,
/// with a free executor that has no response yet.
pub open spec fn new_request(id: Seq<char>) -> RequestModel {
    RequestModel {
        id,
        is_changed: false,
        original: default_request_data(),
        draft: default_request_data(),
        new_header: HeaderModel { key: Seq::empty(), value: Seq::empty() },
        new_body_form_field: BodyFromDataModel {
            key: Seq::empty(),
            value: Seq::empty(),
            field_type: FormFieldType::Text,
        },
        executor: idle_executor(),
        visible_details: RequestDetails::Header,
        visible_headers: RequestHeaders::Custom,
        visible_body: RequestBodyDetails::Raw,
    }
}

/// An executor that has not run yet.
pub open spec fn idle_executor() -> ExecutorModel {
    ExecutorModel {
        state: State::FREE,
        responses: Seq::empty(),
        channel: None,
        session: crate::executor::session::SessionModel::CLOSED,
    }
}

/// The details that are on screen when a request is loaded: the query
/// parameters of an HTTP request, the message of a WebSocket.
pub open spec fn first_details(data: RequestDataModel) -> RequestDetails {
    if data.protocol.spec_is_http() {
        RequestDetails::QueryParams
    } else {
        RequestDetails::Message
    }
}

/// A stored request as it stands in the tree after loading: unchanged,
/// with a free executor that has no response yet.
pub open spec fn loaded_request(stored: StoredRequestModel) -> RequestModel {
    RequestModel {
        id: stored.id,
        is_changed: false,
        original: edited_request_data(stored),
        draft: edited_request_data(stored),
        new_header: HeaderModel { key: Seq::empty(), value: Seq::empty() },
        new_body_form_field: BodyFromDataModel {
            key: Seq::empty(),
            value: Seq::empty(),
            field_type: FormFieldType::Text,
        },
        executor: idle_executor(),
        visible_details: first_details(edited_request_data(stored)),
        visible_headers: RequestHeaders::Custom,
        visible_body: RequestBodyDetails::Raw,
    }
}

/// What of a draft is fired: of the three forms of the body, only the one
/// on screen; the other two go out empty.
pub open spec fn fired_data(draft: RequestDataModel, visible_body: RequestBodyDetails) -> RequestDataModel {
    let blank = CountedTextModel { message: Seq::empty(), rows: 0 };
    let body = match visible_body {
        RequestBodyDetails::Raw => RequestBodyModel {
            binary_path: Seq::empty(),
            form_data: Seq::empty(),
            ..draft.body
        },
        RequestBodyDetails::FormData => RequestBodyModel {
            binary_path: Seq::empty(),
            raw: blank,
            ..draft.body
        },
        RequestBodyDetails::Binary => RequestBodyModel {
            form_data: Seq::empty(),
            raw: blank,
            ..draft.body
        },
    };
    RequestDataModel { body, ..draft }
}

/// True where a request passes a filter: where the filter, in small
/// letters, stands in the name, the raw body, the protocol, the method or
/// the URI of the draft, in small letters.
pub open spec fn request_passes(draft: RequestDataModel, filter: Seq<char>) -> bool {
    ||| passes_filter(draft.name, filter)
    ||| passes_filter(draft.body.raw.message, filter)
    ||| passes_filter(protocol_name(draft.protocol), filter)
    ||| passes_filter(method_name(draft.method), filter)
    ||| passes_filter(draft.uri, filter)
}

/// A draft with its message replaced by a tidier one, if there is one.
pub open spec fn with_tidy_message(draft: RequestDataModel, pretty: Option<Seq<char>>) -> RequestDataModel {
    RequestDataModel {
        message: match pretty {
            Some(pretty) => CountedTextModel { message: pretty, rows: rows_of(pretty) as usize },
            None => draft.message,
        },
        ..draft
    }
}

/// What saving makes of a request: a changed draft becomes the original.
pub open spec fn saved_request(request: RequestModel) -> RequestModel {
    if request.is_changed {
        RequestModel {
            is_changed: false,
            original: RequestDataModel {
                query_params: request.original.query_params,
                setup: request.original.setup,
                ..request.draft
            },
            ..request
        }
    } else {
        request
    }
}

/// What giving up the changes makes of a request: the original becomes the
/// draft again.
pub open spec fn reverted_request(request: RequestModel) -> RequestModel {
    RequestModel {
        is_changed: false,
        draft: RequestDataModel {
            query_params: request.draft.query_params,
            setup: request.draft.setup,
            ..request.original
        },
        ..request
    }
}

impl Request {
    /// A request that was just made, under a fresh identifier.
    pub fn default() -> (r: Self)
        ensures
            r@ == new_request(r@.id),
            r@.id.len() == ID_LENGTH,
    {
        let responses = Vec::new();
        assert(responses.deep_view() =~= Seq::<ResponseModel>::empty());
        Request {
            id: ids::fresh_id(),
            is_changed: false,
            original: RequestData::default(),
            draft: RequestData::default(),
            new_header: Header::default(),
            executor: Executor::new(responses),
            visible_details: RequestDetails::Header,
            visible_headers: RequestHeaders::Custom,
            visible_body: RequestBodyDetails::Raw,
            new_body_form_field: BodyFromData {
                key: String::new(),
                value: String::new(),
                field_type: FormFieldType::Text,
            },
        }
    }

    /// Makes the request of the tree of a stored one.
    pub fn from(value: &RequestSettings) -> (r: Self)
        ensures
            r@ == loaded_request(value@),
    {
        let original = RequestData::from(value);
        let draft = RequestData::from(value);
        let visible_details = if draft.protocot_is_http() {
            RequestDetails::QueryParams
        } else if draft.protocot_is_ws() {
            RequestDetails::Message
        } else {
            RequestDetails::Header
        };
        let responses = Vec::new();
        assert(responses.deep_view() =~= Seq::<ResponseModel>::empty());
        Request {
            id: value.id.clone(),
            is_changed: false,
            original,
            draft,
            executor: Executor::new(responses),
            new_header: Header::default(),
            visible_details,
            visible_headers: RequestHeaders::Custom,
            visible_body: RequestBodyDetails::Raw,
            new_body_form_field: BodyFromData {
                key: String::new(),
                value: String::new(),
                field_type: FormFieldType::Text,
            },
        }
    }

    /// Fires the request as the draft has it, with the form of the body
    /// that is on screen. With `delay_send_message` a WebSocket opens
    /// without a first message. Answers what the executor asks to be
    /// started.
    pub fn go(&mut self, events: &mut Events, delay_send_message: bool) -> (r: Activation)
        ensures
            (final(self)@.executor, r@) == spec_execute(
                old(self)@.executor,
                fired_data(old(self)@.draft, old(self)@.visible_body),
                delay_send_message,
            ),
            final(self)@ == (RequestModel { executor: final(self)@.executor, ..old(self)@ }),
            exists|now: i64|
                final(events)@ == execute_log(
                    old(self)@.executor.state,
                    old(self)@.draft.protocol,
                    old(events)@,
                    now,
                ),
    {
        let mut request_data = self.draft.clone();
        match self.visible_body {
            RequestBodyDetails::Raw => {
                request_data.body.binary_path = String::new();
                request_data.body.form_data = Vec::new();
            },
            RequestBodyDetails::FormData => {
                request_data.body.binary_path = String::new();
                request_data.body.raw = CountedText::default();
            },
            RequestBodyDetails::Binary => {
                request_data.body.form_data = Vec::new();
                request_data.body.raw = CountedText::default();
            },
        }
        assert(request_data.body.form_data.deep_view() =~= fired_data(
            old(self)@.draft,
            old(self)@.visible_body,
        ).body.form_data);
        self.executor.execute(&request_data, delay_send_message, events)
    }

    /// Asks the running session of the request to stop.
    pub fn termiate(&mut self)
        ensures
            final(self)@ == (RequestModel {
                executor: spec_terminate(old(self)@.executor),
                ..old(self)@
            }),
    {
        self.executor.terminate();
    }

    /// True where no session of the request runs.
    pub fn executor_is_free(&self) -> (r: bool)
        ensures
            r == (self@.executor.state == State::FREE),
    {
        match self.executor.current_state() {
            State::FREE => true,
            _ => false,
        }
    }

    /// Saves the request: a changed draft becomes the original.
    pub fn on_save(&mut self)
        ensures
            final(self)@ == saved_request(old(self)@),
    {
        if self.is_changed {
            self.is_changed = false;
            self.original.copy_from_other(&self.draft);
        }
    }

    /// True where the request passes the filter.
    pub fn is_filtered(&self, filter: &String) -> (r: bool)
        ensures
            r == request_passes(self@.draft, filter@),
    {
        let lowered = to_lowercase(filter.as_str());
        let needle = chars_of(lowered.as_str());
        contains_lowercase(self.draft.name.as_str(), &needle) || contains_lowercase(
            self.draft.body.raw.message.as_str(),
            &needle,
        ) || contains_lowercase(self.draft.protocol.to_string().as_str(), &needle)
            || contains_lowercase(self.draft.method.to_string().as_str(), &needle)
            || contains_lowercase(self.draft.uri.as_str(), &needle)
    }

    /// Gives up what was changed: the original becomes the draft again.
    pub fn cancel_changes(&mut self)
        ensures
            final(self)@ == reverted_request(old(self)@),
    {
        self.draft.copy_from_other(&self.original);
        self.is_changed = false
    }

    /// Puts the headers on screen.
    pub fn details_to_header(&mut self)
        ensures
            final(self)@ == (RequestModel {
                visible_details: RequestDetails::Header,
                ..old(self)@
            }),
    {
        self.visible_details = RequestDetails::Header
    }

    /// Puts the body on screen.
    pub fn details_to_body(&mut self)
        ensures
            final(self)@ == (RequestModel { visible_details: RequestDetails::Body, ..old(self)@ }),
    {
        self.visible_details = RequestDetails::Body
    }

    /// Reads the URI of the draft as the user typed it.
    pub fn parse_url(&mut self)
        ensures
            final(self)@ == (RequestModel {
                draft: RequestDataModel {
                    protocol: scheme_of(lowercase(old(self)@.draft.uri)).0,
                    uri: uri_without_scheme(old(self)@.draft.uri),
                    query_params: match query_params_of(uri_without_scheme(old(self)@.draft.uri)) {
                        Some(params) => params,
                        None => old(self)@.draft.query_params,
                    },
                    ..old(self)@.draft
                },
                ..old(self)@
            }),
    {
        self.draft.parse_url();
    }

    /// Replaces the message of the draft by a tidier one, if there is one,
    /// and counts its rows.
    pub fn set_tidy_message(&mut self, pretty: Option<String>)
        ensures
            final(self)@ == (RequestModel {
                draft: with_tidy_message(old(self)@.draft, text_of(pretty)),
                ..old(self)@
            }),
    {
        if let Some(pretty_string) = pretty {
            self.draft.message.set(pretty_string);
        }
    }

    /// Writes the message of the draft out with indentation, where it is
    /// JSON; any other message stays as it is.
    pub fn prettier_ws_message(&mut self)
        ensures
            final(self)@ == (RequestModel {
                draft: with_tidy_message(
                    old(self)@.draft,
                    pretty_of(old(self)@.draft.message.message),
                ),
                ..old(self)@
            }),
    {
        let value = match json::from_str(self.draft.message.message.as_str()) {
            Ok(value) => Some(value),
            Err(_) => None,
        };
        let pretty = pretty_value(&value);
        self.set_tidy_message(pretty);
    }
}

/// The part of a request that is on screen.
#[derive(Clone, Copy, Debug, PartialEq, Eq, Structural)]
pub enum RequestDetails {
    Header,
    Body,
    QueryParams,
    Message,
    Setup,
}

/// The form of the body that is on screen, and that is sent.
#[derive(Clone, Copy, Debug, PartialEq, Eq, Structural)]
pub enum RequestBodyDetails {
    Raw,
    FormData,
    Binary,
}

/// The group of headers that is on screen.
#[derive(Clone, Copy, Debug, PartialEq, Eq, Structural)]
pub enum RequestHeaders {
    Default,
    Custom,
}

/// The headers every WebSocket handshake carries; they cannot be edited.
pub open spec fn default_ws_headers_model() -> Seq<(Seq<char>, Seq<char>)> {
    seq![
        ("Host"@, "<calculated...>"@),
        ("Connection"@, "Upgrade"@),
        ("Upgrade"@, "websocket"@),
        ("Sec-WebSocket-Version"@, "13"@),
        ("Sec-WebSocket-Key"@, "<calculated...>"@),
    ]
}

/// The headers every WebSocket handshake carries.
pub fn default_ws_headers() -> (r: Vec<Header>)
    ensures
        r@.len() == default_ws_headers_model().len(),
        forall|i: int|
            0 <= i < r@.len() ==> (#[trigger] r@[i]).key@ == default_ws_headers_model()[i].0
                && r@[i].value@ == default_ws_headers_model()[i].1,
{
    let mut headers: Vec<Header> = Vec::new();
    headers.push(Header { key: "Host".to_string(), value: "<calculated...>".to_string() });
    headers.push(Header { key: "Connection".to_string(), value: "Upgrade".to_string() });
    headers.push(Header { key: "Upgrade".to_string(), value: "websocket".to_string() });
    headers.push(Header { key: "Sec-WebSocket-Version".to_string(), value: "13".to_string() });
    headers.push(
        Header { key: "Sec-WebSocket-Key".to_string(), value: "<calculated...>".to_string() },
    );
    headers
}

/// The HTTP version a request asks for.
#[derive(Clone, Copy, Debug, PartialEq, Eq, Structural)]
pub enum HttpVersion {
    AUTO,
    HTTPv1,
    HTTPv2,
}

/// The name of an HTTP version.
pub open spec fn http_version_name(version: HttpVersion) -> Seq<char> {
    match version {
        HttpVersion::AUTO => "AUTO"@,
        HttpVersion::HTTPv1 => "HTTPv1"@,
        HttpVersion::HTTPv2 => "HTTPv2"@,
    }
}

impl HttpVersion {
    /// The name of the version.
    pub fn to_string(&self) -> (r: String)
        ensures
            r@ == http_version_name(*self),
    {
        match self {
            HttpVersion::AUTO => "AUTO".to_string(),
            HttpVersion::HTTPv1 => "HTTPv1".to_string(),
            HttpVersion::HTTPv2 => "HTTPv2".to_string(),
        }
    }
}

/// How a WebSocket session is kept up; the numbers are held as the texts
/// the user edits.
#[derive(Debug)]
pub struct RequestWsSetup {
    pub reconnection_timeout: String,
    pub reconnection_attempts: String,
}

/// A WebSocket setup as a value.
pub struct RequestWsSetupModel {
    pub reconnection_timeout: Seq<char>,
    pub reconnection_attempts: Seq<char>,
}

impl View for RequestWsSetup {
    type V = RequestWsSetupModel;

    open spec fn view(&self) -> RequestWsSetupModel {
        RequestWsSetupModel {
            reconnection_timeout: self.reconnection_timeout@,
            reconnection_attempts: self.reconnection_attempts@,
        }
    }
}

/// The WebSocket setup of a new request: five seconds between three
/// attempts.
pub open spec fn default_ws_setup() -> RequestWsSetupModel {
    RequestWsSetupModel { reconnection_timeout: "5000"@, reconnection_attempts: "3"@ }
}

impl Clone for RequestWsSetup {
    fn clone(&self) -> (r: Self)
        ensures
            r == *self,
    {
        RequestWsSetup {
            reconnection_timeout: self.reconnection_timeout.clone(),
            reconnection_attempts: self.reconnection_attempts.clone(),
        }
    }
}

impl Default for RequestWsSetup {
    fn default() -> (r: Self)
        ensures
            r@ == default_ws_setup(),
    {
        RequestWsSetup {
            reconnection_timeout: "5000".to_string(),
            reconnection_attempts: "3".to_string(),
        }
    }
}

/// How an HTTP request is made; the number is held as the text the user
/// edits.
#[derive(Debug)]
pub struct RequestHttpSetup {
    pub http_version: HttpVersion,
    pub use_cookies: bool,
    pub use_redirects: bool,
    pub redirects_amount: String,
}

/// An HTTP setup as a value.
pub struct RequestHttpSetupModel {
    pub http_version: HttpVersion,
    pub use_cookies: bool,
    pub use_redirects: bool,
    pub redirects_amount: Seq<char>,
}

impl View for RequestHttpSetup {
    type V = RequestHttpSetupModel;

    open spec fn view(&self) -> RequestHttpSetupModel {
        RequestHttpSetupModel {
            http_version: self.http_version,
            use_cookies: self.use_cookies,
            use_redirects: self.use_redirects,
            redirects_amount: self.redirects_amount@,
        }
    }
}

/// The HTTP setup of a new request: any version, with cookies, following
/// up to nine redirects.
pub open spec fn default_http_setup() -> RequestHttpSetupModel {
    RequestHttpSetupModel {
        http_version: HttpVersion::AUTO,
        use_cookies: true,
        use_redirects: true,
        redirects_amount: "9"@,
    }
}

impl Clone for RequestHttpSetup {
    fn clone(&self) -> (r: Self)
        ensures
            r == *self,
    {
        RequestHttpSetup {
            http_version: self.http_version,
            use_cookies: self.use_cookies,
            use_redirects: self.use_redirects,
            redirects_amount: self.redirects_amount.clone(),
        }
    }
}

impl Default for RequestHttpSetup {
    fn default() -> (r: Self)
        ensures
            r@ == default_http_setup(),
    {
        RequestHttpSetup {
            http_version: HttpVersion::AUTO,
            use_cookies: true,
            use_redirects: true,
            redirects_amount: "9".to_string(),
        }
    }
}

/// How a request is made: one setup per protocol family.
#[derive(Debug)]
pub enum RequestSetup {
    HTTP(RequestHttpSetup),
    WS(RequestWsSetup),
}

/// A setup as a value.
pub enum RequestSetupModel {
    HTTP(RequestHttpSetupModel),
    WS(RequestWsSetupModel),
}

impl View for RequestSetup {
    type V = RequestSetupModel;

    open spec fn view(&self) -> RequestSetupModel {
        match *self {
            RequestSetup::HTTP(setup) => RequestSetupModel::HTTP(setup@),
            RequestSetup::WS(setup) => RequestSetupModel::WS(setup@),
        }
    }
}

impl Clone for RequestSetup {
    fn clone(&self) -> (r: Self)
        ensures
            r == *self,
    {
        match self {
            RequestSetup::HTTP(setup) => RequestSetup::HTTP(setup.clone()),
            RequestSetup::WS(setup) => RequestSetup::WS(setup.clone()),
        }
    }
}

impl Default for RequestSetup {
    fn default() -> (r: Self)
        ensures
            r@ == RequestSetupModel::HTTP(default_http_setup()),
    {
        RequestSetup::HTTP(RequestHttpSetup::default())
    }
}

impl RequestSetup {
    /// The HTTP setup, where this is one.
    pub fn http(&self) -> (r: Option<&RequestHttpSetup>)
        ensures
            match *self {
                RequestSetup::HTTP(setup) => r == Some(&setup),
                RequestSetup::WS(_) => r is None,
            },
    {
        match self {
            RequestSetup::HTTP(request_http_setup) => Some(request_http_setup),
            RequestSetup::WS(_) => None,
        }
    }

    /// The WebSocket setup, where this is one.
    pub fn ws(&self) -> (r: Option<&RequestWsSetup>)
        ensures
            match *self {
                RequestSetup::HTTP(_) => r is None,
                RequestSetup::WS(setup) => r == Some(&setup),
            },
    {
        match self {
            RequestSetup::HTTP(_) => None,
            RequestSetup::WS(request_ws_setup) => Some(request_ws_setup),
        }
    }

    /// The HTTP setup for editing, where this is one. What is written
    /// through the reference is what the setup holds afterwards.
    pub fn http_mut(&mut self) -> (r: Option<&mut RequestHttpSetup>)
        ensures
            match *old(self) {
                RequestSetup::HTTP(setup) => r matches Some(inner) && *inner == setup
                    && *final(self) == RequestSetup::HTTP(*final(inner)),
                RequestSetup::WS(_) => r is None && *final(self) == *old(self),
            },
    {
        match self {
            RequestSetup::HTTP(request_http_setup) => Some(request_http_setup),
            RequestSetup::WS(_) => None,
        }
    }

    /// The WebSocket setup for editing, where this is one. What is written
    /// through the reference is what the setup holds afterwards.
    pub fn ws_mut(&mut self) -> (r: Option<&mut RequestWsSetup>)
        ensures
            match *old(self) {
                RequestSetup::HTTP(_) => r is None && *final(self) == *old(self),
                RequestSetup::WS(setup) => r matches Some(inner) && *inner == setup
                    && *final(self) == RequestSetup::WS(*final(inner)),
            },
    {
        match self {
            RequestSetup::HTTP(_) => None,
            RequestSetup::WS(request_ws_setup) => Some(request_ws_setup),
        }
    }

    /// The setup of a WebSocket session with every field at its default.
    pub fn default_ws() -> (r: Self)
        ensures
            r@ == RequestSetupModel::WS(default_ws_setup()),
    {
        RequestSetup::WS(RequestWsSetup::default())
    }
}

} // verus!
