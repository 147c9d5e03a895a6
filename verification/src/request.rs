//! The description of one HTTP request, as plain values.
use vstd::prelude::*;
use crate::syntax::{is_header_name, is_header_value_bytes, is_method, lowercase};

verus! {

/// One header of a request: a name in lower case and the bytes of its value.
#[derive(Debug, Clone, PartialEq, Eq)]
pub struct Header {
    pub name: String,
    pub value: Vec<u8>,
}

/// What a [`Header`] stands for.
pub struct HeaderView {
    pub name: Seq<char>,
    pub value: Seq<u8>,
}

impl HeaderView {
    /// The name is a header name in lower case, and the value holds no
    /// control byte but the tab.
    pub open spec fn wf(self) -> bool {
        &&& is_header_name(self.name)
        &&& lowercase(self.name) == self.name
        &&& is_header_value_bytes(self.value)
    }
}

impl View for Header {
    type V = HeaderView;

    open spec fn view(&self) -> HeaderView {
        HeaderView { name: self.name@, value: self.value@ }
    }
}

/// What a request carries after its headers.
#[derive(Debug, Clone, PartialEq, Eq)]
pub enum Body {
    /// Nothing.
    Empty,
    /// These bytes, as they are.
    Bytes(Vec<u8>),
    /// These fields, to be sent form-encoded, in this order.
    Form(Vec<(String, String)>),
}

/// What a [`Body`] stands for.
pub enum BodyView {
    Empty,
    Bytes(Seq<u8>),
    Form(Seq<(Seq<char>, Seq<char>)>),
}

/// The fields of a form, each as a pair of texts.
pub open spec fn form_view(fields: Seq<(String, String)>) -> Seq<(Seq<char>, Seq<char>)> {
    Seq::new(fields.len(), |i: int| (fields[i].0@, fields[i].1@))
}

impl View for Body {
    type V = BodyView;

    open spec fn view(&self) -> BodyView {
        match self {
            Body::Empty => BodyView::Empty,
            Body::Bytes(bytes) => BodyView::Bytes(bytes@),
            Body::Form(fields) => BodyView::Form(form_view(fields@)),
        }
    }
}

/// One HTTP request: the verb, the absolute URL it goes to, the credentials
/// that it carries for HTTP Basic authentication, the headers that the
/// operation adds, and the body.
#[derive(Debug, Clone, PartialEq, Eq)]
pub struct Request {
    pub method: String,
    pub url: String,
    pub username: String,
    pub password: String,
    pub headers: Vec<Header>,
    pub body: Body,
}

/// What a [`Request`] stands for.
pub struct RequestView {
    pub method: Seq<char>,
    pub url: Seq<char>,
    pub username: Seq<char>,
    pub password: Seq<char>,
    pub headers: Seq<HeaderView>,
    pub body: BodyView,
}

impl RequestView {
    /// The verb is a method and every header is well-formed.
    pub open spec fn wf(self) -> bool {
        &&& is_method(self.method)
        &&& forall|i: int| 0 <= i < self.headers.len() ==> (#[trigger] self.headers[i]).wf()
    }
}

/// The headers of a request, each as its view.
pub open spec fn headers_view(headers: Seq<Header>) -> Seq<HeaderView> {
    Seq::new(headers.len(), |i: int| headers[i]@)
}

impl View for Request {
    type V = RequestView;

    open spec fn view(&self) -> RequestView {
        RequestView {
            method: self.method@,
            url: self.url@,
            username: self.username@,
            password: self.password@,
            headers: headers_view(self.headers@),
            body: self.body@,
        }
    }
}

} // verus!
