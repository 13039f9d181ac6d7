use vstd::prelude::*;
use crate::settings::method_settings::Method;
use crate::settings::request_settings::{
    edit_headers,
    edited_field,
    edited_header,
    RequestBodySettigns,
    RequestSettings,
    StoredBodyModel,
    StoredFieldModel,
    StoredHeaderModel,
    StoredRequestModel,
};
use crate::settings::request_setup_settings::setup_of_settings;
use crate::settings::protocol_settings::Protocol;
use crate::states::main_page::generics::{
    clone_headers,
    CountedText,
    CountedTextModel,
    Header,
    HeaderModel,
};
use crate::states::main_page::request::{default_http_setup, RequestSetup, RequestSetupModel};
use crate::text::{
    rows_of,
    chars_of,
    find_char,
    first_index_in,
    has_prefix,
    lowercase,
    matches_at,
    to_lowercase,
};

verus! {

/// Kind of a form field of a request body.
#[derive(Clone, Copy, Debug, PartialEq, Eq, Structural)]
pub enum FormFieldType {
    Text,
    File,
}

/// A field of a form body.
#[derive(Debug)]
pub struct BodyFromData {
    pub key: String,
    pub value: String,
    pub field_type: FormFieldType,
}

/// A form field as a value.
pub struct BodyFromDataModel {
    pub key: Seq<char>,
    pub value: Seq<char>,
    pub field_type: FormFieldType,
}

impl View for BodyFromData {
    type V = BodyFromDataModel;

    open spec fn view(&self) -> BodyFromDataModel {
        BodyFromDataModel { key: self.key@, value: self.value@, field_type: self.field_type }
    }
}

impl DeepView for BodyFromData {
    type V = BodyFromDataModel;

    open spec fn deep_view(&self) -> BodyFromDataModel {
        self@
    }
}

impl Clone for BodyFromData {
    fn clone(&self) -> (r: Self)
        ensures
            r == *self,
    {
        BodyFromData {
            key: self.key.clone(),
            value: self.value.clone(),
            field_type: self.field_type,
        }
    }
}

/// Copies the fields of a form, one by one.
pub fn clone_form_data(fields: &Vec<BodyFromData>) -> (r: Vec<BodyFromData>)
    ensures
        r@ == fields@,
        r.deep_view() == fields.deep_view(),
{
    let mut out: Vec<BodyFromData> = Vec::new();
    let mut i: usize = 0;
    while i < fields.len()
        invariant
            i <= fields.len(),
            out@ == fields@.subrange(0, i as int),
        decreases fields.len() - i,
    {
        out.push(fields[i].clone());
        i += 1;
    }
    assert(out@ == fields@);
    assert(out.deep_view() =~= fields.deep_view());
    out
}

/// The body of a request in its three forms; the one on screen is sent.
#[derive(Debug)]
pub struct RequestBody {
    pub raw: CountedText,
    pub form_data: Vec<BodyFromData>,
    pub binary_path: String,
}

/// A body as a value.
pub struct RequestBodyModel {
    pub raw: CountedTextModel,
    pub form_data: Seq<BodyFromDataModel>,
    pub binary_path: Seq<char>,
}

impl View for RequestBody {
    type V = RequestBodyModel;

    open spec fn view(&self) -> RequestBodyModel {
        RequestBodyModel {
            raw: self.raw@,
            form_data: self.form_data.deep_view(),
            binary_path: self.binary_path@,
        }
    }
}

impl Clone for RequestBody {
    fn clone(&self) -> (r: Self)
        ensures
            r@ == self@,
    {
        RequestBody {
            raw: self.raw.clone(),
            form_data: clone_form_data(&self.form_data),
            binary_path: self.binary_path.clone(),
        }
    }
}

impl Default for RequestBody {
    fn default() -> (r: Self)
        ensures
            r@ == empty_body(),
    {
        let r = RequestBody {
            raw: CountedText::default(),
            form_data: Vec::new(),
            binary_path: String::new(),
        };
        assert(r.form_data.deep_view() =~= Seq::<BodyFromDataModel>::empty());
        r
    }
}

/// What the user has written of a request.
#[derive(Debug)]
pub struct RequestData {
    pub name: String,
    pub protocol: Protocol,
    pub method: Method,
    pub uri: String,
    pub headers: Vec<Header>,
    pub body: RequestBody,
    pub message: CountedText,
    /// The query parameters, read off the URI; they are not stored.
    pub query_params: Vec<Header>,
    pub setup: RequestSetup,
}

/// The data of a request as a value.
pub struct RequestDataModel {
    pub name: Seq<char>,
    pub protocol: Protocol,
    pub method: Method,
    pub uri: Seq<char>,
    pub headers: Seq<HeaderModel>,
    pub body: RequestBodyModel,
    pub message: CountedTextModel,
    pub query_params: Seq<HeaderModel>,
    pub setup: RequestSetupModel,
}

/// An empty body.
pub open spec fn empty_body() -> RequestBodyModel {
    RequestBodyModel {
        raw: CountedTextModel { message: Seq::empty(), rows: 0 },
        form_data: Seq::empty(),
        binary_path: Seq::empty(),
    }
}

/// The data of a request that was just made: an HTTP GET to nowhere, named
/// "New Request".
pub open spec fn default_request_data() -> RequestDataModel {
    RequestDataModel {
        name: "New Request"@,
        protocol: Protocol::HTTP,
        method: Method::GET,
        uri: Seq::empty(),
        headers: Seq::empty(),
        body: empty_body(),
        message: CountedTextModel { message: Seq::empty(), rows: 0 },
        query_params: Seq::empty(),
        setup: RequestSetupModel::HTTP(default_http_setup()),
    }
}

impl View for RequestData {
    type V = RequestDataModel;

    open spec fn view(&self) -> RequestDataModel {
        RequestDataModel {
            name: self.name@,
            protocol: self.protocol,
            method: self.method,
            uri: self.uri@,
            headers: self.headers.deep_view(),
            body: self.body@,
            message: self.message@,
            query_params: self.query_params.deep_view(),
            setup: self.setup@,
        }
    }
}

/// True of the two characters that may follow the scheme of a URL.
pub open spec fn is_slash(c: char) -> bool {
    c == '/' || c == '\\'
}

/// The position of the first character of `text`, from `from` on, that is
/// no slash; the length of `text` where only slashes follow.
pub open spec fn skip_slashes(text: Seq<char>, from: int) -> int
    decreases text.len() - from,
{
    if from >= text.len() {
        text.len() as int
    } else if is_slash(text[from]) {
        skip_slashes(text, from + 1)
    } else {
        from
    }
}

/// The protocol that a URL in small letters names at its start, with the
/// length of the name and its colon. A URL that names none is taken as
/// HTTPS.
pub open spec fn scheme_of(lower: Seq<char>) -> (Protocol, int) {
    if has_prefix(lower, "http:"@) {
        (Protocol::HTTP, "http:"@.len() as int)
    } else if has_prefix(lower, "https:"@) {
        (Protocol::HTTPS, "https:"@.len() as int)
    } else if has_prefix(lower, "ws:"@) {
        (Protocol::WS, "ws:"@.len() as int)
    } else if has_prefix(lower, "wss:"@) {
        (Protocol::WSS, "wss:"@.len() as int)
    } else {
        (Protocol::HTTPS, 0)
    }
}

/// A URL as the bar of the request shows it after parsing: in small
/// letters, without the protocol it named and the slashes that followed.
pub open spec fn uri_without_scheme(uri: Seq<char>) -> Seq<char> {
    let lower = lowercase(uri);
    lower.subrange(skip_slashes(lower, scheme_of(lower).1), lower.len() as int)
}

/// One query parameter, written between `from` and `end` of a query: the
/// key before the first `=` and the value after it; a parameter without
/// `=` is all key.
pub open spec fn param_at(query: Seq<char>, from: int, end: int) -> HeaderModel {
    let eq = first_index_in(query, '=', from, end);
    if eq < end {
        HeaderModel { key: query.subrange(from, eq), value: query.subrange(eq + 1, end) }
    } else {
        HeaderModel { key: query.subrange(from, end), value: Seq::empty() }
    }
}

/// The parameters of a query from `from` on: one for each piece between
/// `&`s, empty pieces too.
pub open spec fn params_from(query: Seq<char>, from: int) -> Seq<HeaderModel>
    decreases query.len() - from,
{
    if from < 0 || from > query.len() {
        Seq::empty()
    } else {
        let end = first_index_in(query, '&', from, query.len() as int);
        if end >= query.len() || end < from {
            seq![param_at(query, from, query.len() as int)]
        } else {
            seq![param_at(query, from, end)] + params_from(query, end + 1)
        }
    }
}

/// The position of the first `?` of a URI, or its length where it has none.
pub open spec fn query_mark(uri: Seq<char>) -> int {
    first_index_in(uri, '?', 0, uri.len() as int)
}

/// The query parameters that a URI names after its first `?`; `None`
/// where it has no `?`.
pub open spec fn query_params_of(uri: Seq<char>) -> Option<Seq<HeaderModel>> {
    if query_mark(uri) < uri.len() {
        Some(params_from(uri.subrange(query_mark(uri) + 1, uri.len() as int), 0))
    } else {
        None
    }
}

/// Query parameters written out: `key=value`, joined by `&`.
pub open spec fn params_text(params: Seq<HeaderModel>) -> Seq<char>
    decreases params.len(),
{
    if params.len() == 0 {
        Seq::empty()
    } else if params.len() == 1 {
        params[0].key + "="@ + params[0].value
    } else {
        params_text(params.drop_last()) + "&"@ + params.last().key + "="@ + params.last().value
    }
}

/// A URI with its query written anew from the parameters: what stands
/// before the first `?`, then `?` and the parameters, if there are any.
pub open spec fn uri_with_params(uri: Seq<char>, params: Seq<HeaderModel>) -> Seq<char> {
    let base = uri.subrange(0, query_mark(uri));
    if params.len() == 0 {
        base
    } else {
        base + "?"@ + params_text(params)
    }
}

/// A text with its rows counted.
pub open spec fn counted(text: Seq<char>) -> CountedTextModel {
    CountedTextModel { message: text, rows: rows_of(text) as usize }
}

/// A stored body as the user edits it.
pub open spec fn edited_body(body: StoredBodyModel) -> RequestBodyModel {
    RequestBodyModel {
        raw: counted(body.raw),
        form_data: body.form_data.map_values(|field: StoredFieldModel| edited_field(field)),
        binary_path: body.binary_path,
    }
}

/// A stored request as the user edits it. The rows of the body and of the
/// message are counted, and the query parameters are read off the URI.
pub open spec fn edited_request_data(stored: StoredRequestModel) -> RequestDataModel {
    RequestDataModel {
        name: stored.name,
        protocol: stored.protocol,
        method: stored.method,
        uri: stored.uri,
        headers: stored.headers.map_values(|header: StoredHeaderModel| edited_header(header)),
        body: edited_body(stored.body),
        message: counted(stored.message),
        query_params: match query_params_of(stored.uri) {
            Some(params) => params,
            None => Seq::empty(),
        },
        setup: setup_of_settings(stored.setup),
    }
}

impl RequestBody {
    /// Makes the body that the user edits of a stored one.
    pub fn from(value: &RequestBodySettigns) -> (r: Self)
        ensures
            r@ == edited_body(value@),
    {
        let mut form_data: Vec<BodyFromData> = Vec::new();
        let mut i: usize = 0;
        while i < value.form_data.len()
            invariant
                i <= value.form_data.len(),
                form_data@.len() == i,
                forall|k: int| 0 <= k < i ==> form_data@[k]@ == edited_field(value.form_data@[k]@),
            decreases value.form_data.len() - i,
        {
            form_data.push(value.form_data[i].to_state());
            i += 1;
        }
        assert(form_data.deep_view() =~= value@.form_data.map_values(
            |field: StoredFieldModel| edited_field(field),
        ));
        let mut raw = CountedText::default();
        raw.set(value.raw.clone());
        RequestBody { raw, form_data, binary_path: value.binary_path.clone() }
    }
}

/// Splits a URL in small letters in the protocol it names at its start and
/// what follows the name and the slashes behind it. A URL that names no
/// protocol is taken as HTTPS, whole.
pub fn split_scheme(lower: &str) -> (r: (Protocol, String))
    ensures
        r.0 == scheme_of(lower@).0,
        r.1@ == lower@.subrange(skip_slashes(lower@, scheme_of(lower@).1), lower@.len() as int),
{
    let chars = chars_of(lower);
    let http = chars_of("http:");
    let https = chars_of("https:");
    let ws = chars_of("ws:");
    let wss = chars_of("wss:");
    let (protocol, named) = if matches_at(&chars, &http, 0) {
        (Protocol::HTTP, http.len())
    } else if matches_at(&chars, &https, 0) {
        (Protocol::HTTPS, https.len())
    } else if matches_at(&chars, &ws, 0) {
        (Protocol::WS, ws.len())
    } else if matches_at(&chars, &wss, 0) {
        (Protocol::WSS, wss.len())
    } else {
        (Protocol::HTTPS, 0)
    };
    let mut start: usize = named;
    assert(start == scheme_of(chars@).1);
    assert(start <= chars.len());
    while start < chars.len() && (chars[start] == '\\' || chars[start] == '/')
        invariant
            start <= chars.len(),
            skip_slashes(chars@, start as int) == skip_slashes(chars@, scheme_of(chars@).1),
        decreases chars.len() - start,
    {
        start += 1;
    }
    assert(start == skip_slashes(chars@, start as int));
    (protocol, lower.substring_char(start, chars.len()).to_string())
}

impl Clone for RequestData {
    fn clone(&self) -> (r: Self)
        ensures
            r@ == self@,
    {
        RequestData {
            name: self.name.clone(),
            protocol: self.protocol,
            method: self.method,
            uri: self.uri.clone(),
            headers: clone_headers(&self.headers),
            body: self.body.clone(),
            message: self.message.clone(),
            query_params: clone_headers(&self.query_params),
            setup: self.setup.clone(),
        }
    }
}

impl RequestData {
    /// The data of a request that was just made: an HTTP GET to nowhere,
    /// named "New Request".
    pub fn default() -> (r: Self)
        ensures
            r@ == default_request_data(),
    {
        let r = RequestData {
            name: "New Request".to_string(),
            protocol: Protocol::HTTP,
            method: Method::GET,
            uri: String::new(),
            headers: Vec::new(),
            body: RequestBody::default(),
            query_params: Vec::new(),
            message: CountedText::default(),
            setup: RequestSetup::default(),
        };
        assert(r.headers.deep_view() =~= Seq::<HeaderModel>::empty());
        assert(r.query_params.deep_view() =~= Seq::<HeaderModel>::empty());
        r
    }

    /// Makes the data that the user edits of a stored request.
    pub fn from(value: &RequestSettings) -> (r: Self)
        ensures
            r@ == edited_request_data(value@),
    {
        let mut message = CountedText::default();
        message.set(value.message.clone());
        let mut data = RequestData {
            name: value.name.clone(),
            protocol: value.protocol,
            method: value.method,
            uri: value.uri.clone(),
            headers: edit_headers(&value.headers),
            body: RequestBody::from(&value.body),
            query_params: Vec::new(),
            message,
            setup: value.setup.to_state(),
        };
        assert(data.query_params.deep_view() =~= Seq::<HeaderModel>::empty());
        data.parse_query_params();
        data
    }

    /// Takes over what another request data holds, but for the query
    /// parameters and the setup, which stay.
    pub fn copy_from_other(&mut self, other_request: &Self)
        ensures
            final(self)@ == (RequestDataModel {
                query_params: old(self)@.query_params,
                setup: old(self)@.setup,
                ..other_request@
            }),
    {
        self.name = other_request.name.clone();
        self.protocol = other_request.protocol;
        self.method = other_request.method;
        self.uri = other_request.uri.clone();
        self.body = other_request.body.clone();
        self.message = other_request.message.clone();
        self.headers = clone_headers(&other_request.headers);
    }

    /// Reads the URI as the user typed it: the protocol it names is taken
    /// over, the URI is left without it, and the query parameters are read
    /// off what is left.
    pub fn parse_url(&mut self)
        ensures
            final(self)@ == (RequestDataModel {
                protocol: scheme_of(lowercase(old(self)@.uri)).0,
                uri: uri_without_scheme(old(self)@.uri),
                query_params: match query_params_of(uri_without_scheme(old(self)@.uri)) {
                    Some(params) => params,
                    None => old(self)@.query_params,
                },
                ..old(self)@
            }),
    {
        self.parse_url_protocol();
        self.parse_query_params();
    }

    /// Takes the protocol off the start of the URI.
    fn parse_url_protocol(&mut self)
        ensures
            final(self)@ == (RequestDataModel {
                protocol: scheme_of(lowercase(old(self)@.uri)).0,
                uri: uri_without_scheme(old(self)@.uri),
                ..old(self)@
            }),
    {
        let url = to_lowercase(self.uri.as_str());
        let (protocol, rest) = split_scheme(url.as_str());
        self.protocol = protocol;
        self.uri = rest;
    }

    /// Reads the query parameters off the URI. A URI without `?` leaves
    /// them as they are.
    fn parse_query_params(&mut self)
        ensures
            final(self)@ == (RequestDataModel {
                query_params: match query_params_of(old(self)@.uri) {
                    Some(params) => params,
                    None => old(self)@.query_params,
                },
                ..old(self)@
            }),
    {
        let uri_chars = chars_of(self.uri.as_str());
        let mark = find_char(&uri_chars, '?', 0, uri_chars.len());
        if mark >= uri_chars.len() {
            return ;
        }
        let query = self.uri.as_str().substring_char(mark + 1, uri_chars.len());
        let chars = chars_of(query);
        let mut params: Vec<Header> = Vec::new();
        let mut from: usize = 0;
        assert(params.deep_view() + params_from(chars@, 0) =~= params_from(chars@, 0));
        loop
            invariant_except_break
                params.deep_view() + params_from(chars@, from as int) == params_from(chars@, 0),
            invariant
                from <= chars.len(),
                chars@ == query@,
            ensures
                params.deep_view() == params_from(chars@, 0),
            decreases chars.len() - from,
        {
            let end = find_char(&chars, '&', from, chars.len());
            let eq = find_char(&chars, '=', from, end);
            let param = if eq < end {
                Header {
                    key: query.substring_char(from, eq).to_string(),
                    value: query.substring_char(eq + 1, end).to_string(),
                }
            } else {
                Header { key: query.substring_char(from, end).to_string(), value: String::new() }
            };
            assert(param@ == param_at(chars@, from as int, end as int));
            let ghost before = params.deep_view();
            params.push(param);
            assert(params.deep_view() =~= before.push(param@));
            if end >= chars.len() {
                assert(before + params_from(chars@, from as int) =~= before.push(param@));
                break ;
            }
            assert(params.deep_view() + params_from(chars@, end + 1) =~= before + params_from(
                chars@,
                from as int,
            ));
            from = end + 1;
        }
        self.query_params = params;
    }

    /// Writes the query of the URI anew from the query parameters.
    pub fn contruct_url(&mut self)
        ensures
            final(self)@ == (RequestDataModel {
                uri: uri_with_params(old(self)@.uri, old(self)@.query_params),
                ..old(self)@
            }),
    {
        let uri_chars = chars_of(self.uri.as_str());
        let mark = find_char(&uri_chars, '?', 0, uri_chars.len());
        let mut url = self.uri.as_str().substring_char(0, mark).to_string();
        if self.query_params.len() == 0 {
            self.uri = url;
            return ;
        }
        url.append("?");
        let ghost base = old(self)@.uri.subrange(0, mark as int);
        let mut i: usize = 0;
        assert(self.query_params.deep_view().subrange(0, 0) =~= Seq::<HeaderModel>::empty());
        while i < self.query_params.len()
            invariant
                i <= self.query_params.len(),
                self.query_params == old(self).query_params,
                url@ == base + "?"@ + params_text(self.query_params.deep_view().subrange(0, i as int)),
            decreases self.query_params.len() - i,
        {
            let ghost done = self.query_params.deep_view().subrange(0, i as int);
            let ghost next = self.query_params.deep_view().subrange(0, i + 1);
            proof {
                assert(next.drop_last() =~= done);
                assert(next.last() == self.query_params@[i as int]@);
            }
            if i > 0 {
                url.append("&");
            }
            url.append(self.query_params[i].key.as_str());
            url.append("=");
            url.append(self.query_params[i].value.as_str());
            proof {
                if i == 0 {
                    assert(next[0] == next.last());
                    assert(params_text(done) =~= Seq::<char>::empty());
                    assert(url@ =~= base + "?"@ + params_text(next));
                } else {
                    assert(url@ =~= base + "?"@ + params_text(next));
                }
            }
            i += 1;
        }
        assert(self.query_params.deep_view().subrange(0, i as int) =~= self.query_params.deep_view());
        self.uri = url;
    }

    /// True where the request opens a WebSocket.
    pub fn protocot_is_ws(&self) -> (r: bool)
        ensures
            r == self.protocol.spec_is_ws(),
    {
        self.protocol.is_ws()
    }

    /// True where the request is a one-shot HTTP exchange.
    pub fn protocot_is_http(&self) -> (r: bool)
        ensures
            r == self.protocol.spec_is_http(),
    {
        self.protocol.is_http()
    }
}

} // verus!
