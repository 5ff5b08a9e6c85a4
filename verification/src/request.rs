//! Requests as plain data.

use vstd::prelude::*;
use vstd::string::*;

verus! {

/// How a request is made.
#[derive(Debug, Clone, Copy, PartialEq, Eq, Structural)]
pub enum Method {
    Get,
    Post,
}

/// A header of a request.
#[derive(Debug, PartialEq, Eq)]
pub struct Header {
    pub name: String,
    pub value: String,
}

/// A field of a form.
#[derive(Debug, PartialEq, Eq)]
pub struct FormField {
    pub name: String,
    pub value: String,
}

/// What a request carries.
#[derive(Debug, PartialEq, Eq)]
pub enum RequestBody {
    Empty,
    Text(String),
    /// Fields to be sent form-encoded.
    Form(Vec<FormField>),
}

/// A request that has not been sent. It is plain data: to send it takes nothing away
/// from it, so the same request can be sent again under another token.
#[derive(Debug, PartialEq, Eq)]
pub struct RequestDescriptor {
    pub method: Method,
    pub url: String,
    pub headers: Vec<Header>,
    pub body: RequestBody,
}

/// What a `RequestBody` holds, as mathematical values.
pub enum BodyView {
    Empty,
    Text(Seq<char>),
    Form(Seq<(Seq<char>, Seq<char>)>),
}

/// What a `RequestDescriptor` holds, as mathematical values.
pub struct RequestView {
    pub method: Method,
    pub url: Seq<char>,
    pub headers: Seq<(Seq<char>, Seq<char>)>,
    pub body: BodyView,
}

impl DeepView for Header {
    type V = (Seq<char>, Seq<char>);

    open spec fn deep_view(&self) -> (Seq<char>, Seq<char>) {
        (self.name@, self.value@)
    }
}

impl DeepView for FormField {
    type V = (Seq<char>, Seq<char>);

    open spec fn deep_view(&self) -> (Seq<char>, Seq<char>) {
        (self.name@, self.value@)
    }
}

impl View for RequestBody {
    type V = BodyView;

    open spec fn view(&self) -> BodyView {
        match self {
            RequestBody::Empty => BodyView::Empty,
            RequestBody::Text(text) => BodyView::Text(text@),
            RequestBody::Form(fields) => BodyView::Form(fields.deep_view()),
        }
    }
}

impl View for RequestDescriptor {
    type V = RequestView;

    open spec fn view(&self) -> RequestView {
        RequestView {
            method: self.method,
            url: self.url@,
            headers: self.headers.deep_view(),
            body: self.body@,
        }
    }
}

/// The request with the bearer token attached.
pub open spec fn authorized(request: RequestView, access_token: Seq<char>) -> RequestView {
    RequestView {
        headers: request.headers.push(("Authorization"@, "Bearer "@ + access_token)),
        ..request
    }
}

fn copy_headers(headers: &Vec<Header>) -> (copy: Vec<Header>)
    ensures
        copy.deep_view() == headers.deep_view(),
{
    let mut copy: Vec<Header> = Vec::new();
    let mut index: usize = 0;
    while index < headers.len()
        invariant
            index <= headers.len(),
            copy.len() == index,
            forall|i: int|
                0 <= i < index ==> (#[trigger] copy[i]).deep_view() == headers[i].deep_view(),
        decreases headers.len() - index,
    {
        copy.push(
            Header { name: headers[index].name.clone(), value: headers[index].value.clone() },
        );
        index += 1;
    }
    copy
}

fn copy_fields(fields: &Vec<FormField>) -> (copy: Vec<FormField>)
    ensures
        copy.deep_view() == fields.deep_view(),
{
    let mut copy: Vec<FormField> = Vec::new();
    let mut index: usize = 0;
    while index < fields.len()
        invariant
            index <= fields.len(),
            copy.len() == index,
            forall|i: int|
                0 <= i < index ==> (#[trigger] copy[i]).deep_view() == fields[i].deep_view(),
        decreases fields.len() - index,
    {
        copy.push(
            FormField { name: fields[index].name.clone(), value: fields[index].value.clone() },
        );
        index += 1;
    }
    copy
}

impl Clone for RequestBody {
    fn clone(&self) -> (copy: Self)
        ensures
            copy@ == self@,
    {
        match self {
            RequestBody::Empty => RequestBody::Empty,
            RequestBody::Text(text) => RequestBody::Text(text.clone()),
            RequestBody::Form(fields) => RequestBody::Form(copy_fields(fields)),
        }
    }
}

impl Clone for RequestDescriptor {
    fn clone(&self) -> (copy: Self)
        ensures
            copy@ == self@,
    {
        RequestDescriptor {
            method: self.method,
            url: self.url.clone(),
            headers: copy_headers(&self.headers),
            body: self.body.clone(),
        }
    }
}

impl RequestDescriptor {
    /// This request with `access_token` attached as its bearer token. The request itself
    /// is left as it is.
    pub fn authorize(&self, access_token: &str) -> (request: RequestDescriptor)
        ensures
            request@ == authorized(self@, access_token@),
    {
        let mut request = self.clone();
        let mut value = "Bearer ".to_owned();
        value.append(access_token);
        let ghost before = request.headers.deep_view();
        let header = Header { name: "Authorization".to_owned(), value };
        request.headers.push(header);
        assert(request.headers.deep_view() =~= before.push(header.deep_view()));
        request
    }
}

} // verus!
