use vstd::prelude::*;
use crate::json;
use crate::json::{json_parse, json_quoted, json_string, json_text};
use crate::settings::method_settings::Method;
use crate::settings::protocol_settings::Protocol;
use crate::settings::request_setup_settings::{setup_settings_of, setup_storable, RequestSetupSettings};
use crate::settings::FormFieldTypeSettings;
use crate::states::main_page::generics::{Header as StateHeader, HeaderModel};
use crate::states::main_page::request::request_data::{
    BodyFromData,
    BodyFromDataModel,
    FormFieldType,
    RequestBody,
    RequestBodyModel,
    RequestData,
    RequestDataModel,
};
use crate::states::main_page::request::Request as StateRequest;
use crate::states::main_page::response::compact_of;

verus! {

/// A header as it is stored: its value is kept as JSON, so that numbers and
/// booleans are written without quotes.
#[derive(Debug)]
pub struct Header {
    pub key: String,
    pub value: serde_json::Value,
}

/// A stored header as a value; `value` is the compact text of the JSON.
pub struct StoredHeaderModel {
    pub key: Seq<char>,
    pub value: Seq<char>,
}

impl View for Header {
    type V = StoredHeaderModel;

    open spec fn view(&self) -> StoredHeaderModel {
        StoredHeaderModel { key: self.key@, value: json_text(self.value) }
    }
}

impl DeepView for Header {
    type V = StoredHeaderModel;

    open spec fn deep_view(&self) -> StoredHeaderModel {
        self@
    }
}

/// A text as it is stored, given the JSON value it parsed to, if it parsed:
/// that value, else the JSON string that holds the text.
pub open spec fn stored_text_from(text: Seq<char>, compact: Option<Seq<char>>) -> Seq<char> {
    match compact {
        Some(compact) => compact,
        None => json_quoted(text),
    }
}

/// A text as it is stored: as the JSON it is, where it is JSON, else as
/// the JSON string that holds it.
pub open spec fn stored_text(text: Seq<char>) -> Seq<char> {
    stored_text_from(text, json_parse(text))
}

/// A stored JSON value as the text the user edits: the text of a string,
/// without its quotes, and the compact text of any other value.
pub open spec fn edited_text(compact: Seq<char>) -> Seq<char> {
    match json_string(compact) {
        Some(text) => text,
        None => compact,
    }
}

/// A header as it is stored.
pub open spec fn stored_header(header: HeaderModel) -> StoredHeaderModel {
    StoredHeaderModel { key: header.key, value: stored_text(header.value) }
}

/// A stored header as the user edits it.
pub open spec fn edited_header(header: StoredHeaderModel) -> HeaderModel {
    HeaderModel { key: header.key, value: edited_text(header.value) }
}

/// Reads a stored JSON value as the text the user edits.
pub fn value_to_text(value: &serde_json::Value) -> (r: String)
    ensures
        r@ == edited_text(json_text(*value)),
{
    match value.as_str() {
        Some(val) => val.to_string(),
        None => json::to_text(value),
    }
}

impl Header {
    /// Makes the stored form of a header, given the JSON value that its
    /// value parsed to, if it parsed.
    pub fn from_reading(value: &StateHeader, parsed: Option<serde_json::Value>) -> (r: Self)
        ensures
            r@ == (StoredHeaderModel {
                key: value@.key,
                value: stored_text_from(value@.value, compact_of(parsed)),
            }),
    {
        match parsed {
            Some(val) => Header { key: value.key.clone(), value: val },
            None => Header { key: value.key.clone(), value: json::from_string(value.value.clone()) },
        }
    }

    /// Makes the stored form of a header.
    pub fn from(value: &StateHeader) -> (r: Self)
        ensures
            r@ == stored_header(value@),
    {
        let parsed = match json::from_str(value.value.as_str()) {
            Ok(val) => Some(val),
            Err(_) => None,
        };
        Header::from_reading(value, parsed)
    }

    /// Makes the header that the user edits.
    pub fn to_state(&self) -> (r: StateHeader)
        ensures
            r@ == edited_header(self@),
    {
        StateHeader { key: self.key.clone(), value: value_to_text(&self.value) }
    }
}

/// Makes the stored form of a list of headers.
pub fn store_headers(headers: &Vec<StateHeader>) -> (r: Vec<Header>)
    ensures
        r.deep_view() == headers.deep_view().map_values(|header: HeaderModel| stored_header(header)),
{
    let mut out: Vec<Header> = Vec::new();
    let mut i: usize = 0;
    while i < headers.len()
        invariant
            i <= headers.len(),
            out@.len() == i,
            forall|k: int| 0 <= k < i ==> out@[k]@ == stored_header(headers@[k]@),
        decreases headers.len() - i,
    {
        out.push(Header::from(&headers[i]));
        i += 1;
    }
    assert(out.deep_view() =~= headers.deep_view().map_values(
        |header: HeaderModel| stored_header(header),
    ));
    out
}

/// Makes the headers that the user edits of a stored list.
pub fn edit_headers(headers: &Vec<Header>) -> (r: Vec<StateHeader>)
    ensures
        r.deep_view() == headers.deep_view().map_values(
            |header: StoredHeaderModel| edited_header(header),
        ),
{
    let mut out: Vec<StateHeader> = Vec::new();
    let mut i: usize = 0;
    while i < headers.len()
        invariant
            i <= headers.len(),
            out@.len() == i,
            forall|k: int| 0 <= k < i ==> out@[k]@ == edited_header(headers@[k]@),
        decreases headers.len() - i,
    {
        out.push(headers[i].to_state());
        i += 1;
    }
    assert(out.deep_view() =~= headers.deep_view().map_values(
        |header: StoredHeaderModel| edited_header(header),
    ));
    out
}

/// A field of a form body as it is stored: its value is kept as a JSON
/// string.
#[derive(Debug)]
pub struct BodyFromDataSettings {
    pub key: String,
    pub value: serde_json::Value,
    pub field_type: FormFieldTypeSettings,
}

/// A stored form field as a value; `value` is the compact text of the
/// JSON.
pub struct StoredFieldModel {
    pub key: Seq<char>,
    pub value: Seq<char>,
    pub field_type: FormFieldTypeSettings,
}

impl View for BodyFromDataSettings {
    type V = StoredFieldModel;

    open spec fn view(&self) -> StoredFieldModel {
        StoredFieldModel {
            key: self.key@,
            value: json_text(self.value),
            field_type: self.field_type,
        }
    }
}

impl DeepView for BodyFromDataSettings {
    type V = StoredFieldModel;

    open spec fn deep_view(&self) -> StoredFieldModel {
        self@
    }
}

/// The kind of a form field as it is stored.
pub open spec fn stored_field_type(field_type: FormFieldType) -> FormFieldTypeSettings {
    match field_type {
        FormFieldType::Text => FormFieldTypeSettings::Text,
        FormFieldType::File => FormFieldTypeSettings::File,
    }
}

/// The kind of a stored form field as the user edits it.
pub open spec fn edited_field_type(field_type: FormFieldTypeSettings) -> FormFieldType {
    match field_type {
        FormFieldTypeSettings::Text => FormFieldType::Text,
        FormFieldTypeSettings::File => FormFieldType::File,
    }
}

/// A form field as it is stored: its value becomes a JSON string.
pub open spec fn stored_field(field: BodyFromDataModel) -> StoredFieldModel {
    StoredFieldModel {
        key: field.key,
        value: json_quoted(field.value),
        field_type: stored_field_type(field.field_type),
    }
}

/// A stored form field as the user edits it.
pub open spec fn edited_field(field: StoredFieldModel) -> BodyFromDataModel {
    BodyFromDataModel {
        key: field.key,
        value: edited_text(field.value),
        field_type: edited_field_type(field.field_type),
    }
}

impl BodyFromDataSettings {
    /// Makes the stored form of a form field.
    pub fn from(value: &BodyFromData) -> (r: Self)
        ensures
            r@ == stored_field(value@),
    {
        BodyFromDataSettings {
            key: value.key.clone(),
            value: json::from_string(value.value.clone()),
            field_type: match value.field_type {
                FormFieldType::Text => FormFieldTypeSettings::Text,
                FormFieldType::File => FormFieldTypeSettings::File,
            },
        }
    }

    /// Makes the form field that the user edits.
    pub fn to_state(&self) -> (r: BodyFromData)
        ensures
            r@ == edited_field(self@),
    {
        BodyFromData {
            key: self.key.clone(),
            value: value_to_text(&self.value),
            field_type: match self.field_type {
                FormFieldTypeSettings::Text => FormFieldType::Text,
                FormFieldTypeSettings::File => FormFieldType::File,
            },
        }
    }
}

/// The body of a request as it is stored.
#[derive(Debug)]
pub struct RequestBodySettigns {
    pub raw: String,
    pub form_data: Vec<BodyFromDataSettings>,
    pub binary_path: String,
}

/// A stored body as a value.
pub struct StoredBodyModel {
    pub raw: Seq<char>,
    pub form_data: Seq<StoredFieldModel>,
    pub binary_path: Seq<char>,
}

impl View for RequestBodySettigns {
    type V = StoredBodyModel;

    open spec fn view(&self) -> StoredBodyModel {
        StoredBodyModel {
            raw: self.raw@,
            form_data: self.form_data.deep_view(),
            binary_path: self.binary_path@,
        }
    }
}

/// A body as it is stored.
pub open spec fn stored_body(body: RequestBodyModel) -> StoredBodyModel {
    StoredBodyModel {
        raw: body.raw.message,
        form_data: body.form_data.map_values(|field: BodyFromDataModel| stored_field(field)),
        binary_path: body.binary_path,
    }
}

impl Default for RequestBodySettigns {
    fn default() -> (r: Self)
        ensures
            r@ == (StoredBodyModel {
                raw: Seq::empty(),
                form_data: Seq::empty(),
                binary_path: Seq::empty(),
            }),
    {
        let r = RequestBodySettigns {
            raw: String::new(),
            form_data: Vec::new(),
            binary_path: String::new(),
        };
        assert(r.form_data.deep_view() =~= Seq::<StoredFieldModel>::empty());
        r
    }
}

impl RequestBodySettigns {
    /// Makes the stored form of a body.
    pub fn from(value: &RequestBody) -> (r: Self)
        ensures
            r@ == stored_body(value@),
    {
        let mut form_data: Vec<BodyFromDataSettings> = Vec::new();
        let mut i: usize = 0;
        while i < value.form_data.len()
            invariant
                i <= value.form_data.len(),
                form_data@.len() == i,
                forall|k: int| 0 <= k < i ==> form_data@[k]@ == stored_field(value.form_data@[k]@),
            decreases value.form_data.len() - i,
        {
            form_data.push(BodyFromDataSettings::from(&value.form_data[i]));
            i += 1;
        }
        assert(form_data.deep_view() =~= value@.form_data.map_values(
            |field: BodyFromDataModel| stored_field(field),
        ));
        RequestBodySettigns {
            raw: value.raw.message.clone(),
            form_data,
            binary_path: value.binary_path.clone(),
        }
    }
}

/// A request as it is stored.
#[derive(Debug)]
pub struct RequestSettings {
    pub id: String,
    pub name: String,
    pub protocol: Protocol,
    pub method: Method,
    pub uri: String,
    pub headers: Vec<Header>,
    pub body: RequestBodySettigns,
    pub message: String,
    pub setup: RequestSetupSettings,
}

/// A stored request as a value.
pub struct StoredRequestModel {
    pub id: Seq<char>,
    pub name: Seq<char>,
    pub protocol: Protocol,
    pub method: Method,
    pub uri: Seq<char>,
    pub headers: Seq<StoredHeaderModel>,
    pub body: StoredBodyModel,
    pub message: Seq<char>,
    pub setup: RequestSetupSettings,
}

impl View for RequestSettings {
    type V = StoredRequestModel;

    open spec fn view(&self) -> StoredRequestModel {
        StoredRequestModel {
            id: self.id@,
            name: self.name@,
            protocol: self.protocol,
            method: self.method,
            uri: self.uri@,
            headers: self.headers.deep_view(),
            body: self.body@,
            message: self.message@,
            setup: self.setup,
        }
    }
}

impl DeepView for RequestSettings {
    type V = StoredRequestModel;

    open spec fn deep_view(&self) -> StoredRequestModel {
        self@
    }
}

/// What is stored of a request with the given identifier and data.
pub open spec fn stored_request(id: Seq<char>, data: RequestDataModel) -> StoredRequestModel {
    StoredRequestModel {
        id,
        name: data.name,
        protocol: data.protocol,
        method: data.method,
        uri: data.uri,
        headers: data.headers.map_values(|header: HeaderModel| stored_header(header)),
        body: stored_body(data.body),
        message: data.message.message,
        setup: setup_settings_of(data.setup),
    }
}

/// Makes the stored form of a request with the given identifier and data.
fn store_request(id: &String, data: &RequestData) -> (r: RequestSettings)
    requires
        setup_storable(data@.setup),
    ensures
        r@ == stored_request(id@, data@),
{
    RequestSettings {
        id: id.clone(),
        name: data.name.clone(),
        protocol: data.protocol,
        method: data.method,
        uri: data.uri.clone(),
        headers: store_headers(&data.headers),
        body: RequestBodySettigns::from(&data.body),
        message: data.message.message.clone(),
        setup: RequestSetupSettings::from(&data.setup),
    }
}

impl RequestSettings {
    /// What is stored of a request as the user has edited it. The numbers
    /// of its setup have to be numbers.
    pub fn from(value: &StateRequest) -> (r: Self)
        requires
            setup_storable(value@.draft.setup),
        ensures
            r@ == stored_request(value@.id, value@.draft),
    {
        store_request(&value.id, &value.draft)
    }

    /// What is stored of a request as it was last saved. The numbers of its
    /// setup have to be numbers.
    pub fn from_original(value: &StateRequest) -> (r: Self)
        requires
            setup_storable(value@.original.setup),
        ensures
            r@ == stored_request(value@.id, value@.original),
    {
        store_request(&value.id, &value.original)
    }
}

} // verus!
