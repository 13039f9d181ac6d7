use vstd::prelude::*;
use crate::text::{count_rows, rows_of};

verus! {

/// A header of a request or a response; also used for query parameters.
#[derive(Debug)]
pub struct Header {
    pub key: String,
    pub value: String,
}

/// A header as a pair of texts.
pub struct HeaderModel {
    pub key: Seq<char>,
    pub value: Seq<char>,
}

impl View for Header {
    type V = HeaderModel;

    open spec fn view(&self) -> HeaderModel {
        HeaderModel { key: self.key@, value: self.value@ }
    }
}

impl DeepView for Header {
    type V = HeaderModel;

    open spec fn deep_view(&self) -> HeaderModel {
        self@
    }
}

impl Clone for Header {
    fn clone(&self) -> (r: Self)
        ensures
            r == *self,
    {
        Header { key: self.key.clone(), value: self.value.clone() }
    }
}

impl Header {
    /// A header with an empty key and an empty value.
    pub fn default() -> (r: Self)
        ensures
            r@ == (HeaderModel { key: Seq::empty(), value: Seq::empty() }),
    {
        Header { key: String::new(), value: String::new() }
    }
}

/// Copies a list of headers, one by one.
pub fn clone_headers(headers: &Vec<Header>) -> (r: Vec<Header>)
    ensures
        r@ == headers@,
        r.deep_view() == headers.deep_view(),
{
    let mut out: Vec<Header> = Vec::new();
    let mut i: usize = 0;
    while i < headers.len()
        invariant
            i <= headers.len(),
            out@ == headers@.subrange(0, i as int),
        decreases headers.len() - i,
    {
        out.push(headers[i].clone());
        i += 1;
    }
    assert(out@ == headers@);
    assert(out.deep_view() =~= headers.deep_view());
    out
}

/// A text together with the number of rows it takes on screen.
#[derive(Debug)]
pub struct CountedText {
    pub message: String,
    pub rows: usize,
}

/// A counted text as a value.
pub struct CountedTextModel {
    pub message: Seq<char>,
    pub rows: usize,
}

impl View for CountedText {
    type V = CountedTextModel;

    open spec fn view(&self) -> CountedTextModel {
        CountedTextModel { message: self.message@, rows: self.rows }
    }
}

impl Clone for CountedText {
    fn clone(&self) -> (r: Self)
        ensures
            r == *self,
    {
        CountedText { message: self.message.clone(), rows: self.rows }
    }
}

impl CountedText {
    /// Replaces the text and counts its rows anew.
    pub fn set(&mut self, message: String)
        ensures
            final(self).message == message,
            final(self).rows == rows_of(message@),
    {
        self.message = message;
        self.update_rows();
    }

    /// Counts the rows of the text as it stands.
    pub fn update_rows(&mut self)
        ensures
            final(self).message == old(self).message,
            final(self).rows == rows_of(old(self).message@),
    {
        self.rows = count_rows(self.message.as_str());
    }

    /// An empty text, with no row counted yet.
    pub fn default() -> (r: Self)
        ensures
            r@ == (CountedTextModel { message: Seq::empty(), rows: 0 }),
    {
        CountedText { message: String::new(), rows: 0 }
    }
}

} // verus!
