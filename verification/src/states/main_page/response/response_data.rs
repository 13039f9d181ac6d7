use vstd::prelude::*;
use crate::json::{json_parse, null_text};
use crate::states::main_page::generics::{clone_headers, Header, HeaderModel};
use crate::states::main_page::response::{json_view_of, JsonView, JsonViewModel, JsonViewType};

verus! {

/// A hop of a redirection: where it led and the headers it came with.
#[derive(Debug)]
pub struct Redicrections {
    pub headers: Vec<Header>,
    pub redictection_url: String,
}

/// A hop of a redirection as a value.
pub struct RedicrectionsModel {
    pub headers: Seq<HeaderModel>,
    pub redictection_url: Seq<char>,
}

impl View for Redicrections {
    type V = RedicrectionsModel;

    open spec fn view(&self) -> RedicrectionsModel {
        RedicrectionsModel {
            headers: self.headers.deep_view(),
            redictection_url: self.redictection_url@,
        }
    }
}

impl DeepView for Redicrections {
    type V = RedicrectionsModel;

    open spec fn deep_view(&self) -> RedicrectionsModel {
        self@
    }
}

impl Clone for Redicrections {
    fn clone(&self) -> (r: Self)
        ensures
            r@ == self@,
    {
        Redicrections {
            headers: clone_headers(&self.headers),
            redictection_url: self.redictection_url.clone(),
        }
    }
}

/// What a response carried: the body as it came, the body read as JSON, the
/// headers, and where the exchange ended up.
#[derive(Debug)]
pub struct ResponseData {
    pub raw: String,
    pub json: JsonView,
    pub headers: Vec<Header>,
    pub redictection_url: String,
    pub redirection: Vec<Redicrections>,
}

/// The data of a response as a value.
pub struct ResponseDataModel {
    pub raw: Seq<char>,
    pub json: JsonViewModel,
    pub headers: Seq<HeaderModel>,
    pub redictection_url: Seq<char>,
    pub redirection: Seq<RedicrectionsModel>,
}

impl View for ResponseData {
    type V = ResponseDataModel;

    open spec fn view(&self) -> ResponseDataModel {
        ResponseDataModel {
            raw: self.raw@,
            json: self.json@,
            headers: self.headers.deep_view(),
            redictection_url: self.redictection_url@,
            redirection: self.redirection.deep_view(),
        }
    }
}

/// The data made of a body, headers and a final URL: the body is kept as it
/// is, its JSON reading stands beside it, and no redirection is recorded.
pub open spec fn response_data_of(
    raw: Seq<char>,
    headers: Seq<HeaderModel>,
    redictection_url: Seq<char>,
) -> ResponseDataModel {
    ResponseDataModel {
        raw,
        json: json_view_of(raw),
        headers,
        redictection_url,
        redirection: Seq::empty(),
    }
}

/// A body is kept as it is, whatever it holds. One that is no JSON has an
/// empty print and `null` for its value, so that no JSON is shown for it.
pub proof fn law_body_is_kept(raw: Seq<char>, headers: Seq<HeaderModel>, url: Seq<char>)
    ensures
        response_data_of(raw, headers, url).raw == raw,
        json_parse(raw) is None ==> response_data_of(raw, headers, url).json == (JsonViewModel {
            simple: Seq::empty(),
            complex: null_text(),
            view_type: JsonViewType::Simple,
        }),
{
}

/// Copies a redirection chain, hop by hop.
pub fn clone_redirections(chain: &Vec<Redicrections>) -> (r: Vec<Redicrections>)
    ensures
        r.deep_view() == chain.deep_view(),
{
    let mut out: Vec<Redicrections> = Vec::new();
    let mut i: usize = 0;
    while i < chain.len()
        invariant
            i <= chain.len(),
            out@.len() == i,
            forall|j: int| 0 <= j < i ==> out@[j]@ == chain@[j]@,
        decreases chain.len() - i,
    {
        out.push(chain[i].clone());
        i += 1;
    }
    assert(out.deep_view() =~= chain.deep_view());
    out
}

impl Clone for ResponseData {
    fn clone(&self) -> (r: Self)
        ensures
            r@ == self@,
    {
        ResponseData {
            raw: self.raw.clone(),
            json: self.json.clone(),
            headers: clone_headers(&self.headers),
            redictection_url: self.redictection_url.clone(),
            redirection: clone_redirections(&self.redirection),
        }
    }
}

impl ResponseData {
    /// Keeps a body with its headers and final URL, and reads the body as
    /// JSON on the side. A body that is no JSON is kept all the same.
    pub fn new(raw: String, headers: Vec<Header>, redictection_url: String) -> (r: Self)
        ensures
            r@ == response_data_of(raw@, headers.deep_view(), redictection_url@),
            r.raw == raw,
            r.headers == headers,
    {
        let json = JsonView::new(&raw);
        let r = ResponseData { json, raw, headers, redictection_url, redirection: Vec::new() };
        assert(r.redirection.deep_view() =~= Seq::<RedicrectionsModel>::empty());
        r
    }

    /// True where the body was read as a JSON value other than `null`.
    pub fn json_is_exist(&self) -> (r: bool)
        ensures
            r == (self@.json.complex != null_text()),
    {
        !self.json.complex.is_null()
    }
}

} // verus!
