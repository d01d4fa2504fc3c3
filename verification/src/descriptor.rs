//! Request and response descriptors: the metadata of one message, without
//! its body. A body is a stream that the embedding environment owns; a relay
//! moves it chunk by chunk.

use crate::headers::{Entries, HeaderCollection};
use vstd::prelude::*;

verus! {

/// A request method: one of the common tokens, or any other token.
#[derive(Debug, PartialEq, Eq)]
pub enum Method {
    Get,
    Head,
    Post,
    Put,
    Delete,
    Connect,
    Options,
    Trace,
    Patch,
    Other(String),
}

/// What a [`Method`] stands for.
pub enum MethodView {
    Get,
    Head,
    Post,
    Put,
    Delete,
    Connect,
    Options,
    Trace,
    Patch,
    Other(Seq<char>),
}

impl View for Method {
    type V = MethodView;

    open spec fn view(&self) -> MethodView {
        match self {
            Method::Get => MethodView::Get,
            Method::Head => MethodView::Head,
            Method::Post => MethodView::Post,
            Method::Put => MethodView::Put,
            Method::Delete => MethodView::Delete,
            Method::Connect => MethodView::Connect,
            Method::Options => MethodView::Options,
            Method::Trace => MethodView::Trace,
            Method::Patch => MethodView::Patch,
            Method::Other(token) => MethodView::Other(token@),
        }
    }
}

impl Clone for Method {
    /// A fresh method with the same token.
    fn clone(&self) -> (copy: Method)
        ensures
            copy@ == self@,
    {
        match self {
            Method::Get => Method::Get,
            Method::Head => Method::Head,
            Method::Post => Method::Post,
            Method::Put => Method::Put,
            Method::Delete => Method::Delete,
            Method::Connect => Method::Connect,
            Method::Options => Method::Options,
            Method::Trace => Method::Trace,
            Method::Patch => Method::Patch,
            Method::Other(token) => Method::Other(token.clone()),
        }
    }
}

/// A URI scheme.
#[derive(Debug, PartialEq, Eq)]
pub enum Scheme {
    Http,
    Https,
    Other(String),
}

/// What a [`Scheme`] stands for.
pub enum SchemeView {
    Http,
    Https,
    Other(Seq<char>),
}

impl View for Scheme {
    type V = SchemeView;

    open spec fn view(&self) -> SchemeView {
        match self {
            Scheme::Http => SchemeView::Http,
            Scheme::Https => SchemeView::Https,
            Scheme::Other(name) => SchemeView::Other(name@),
        }
    }
}

impl Clone for Scheme {
    /// A fresh scheme of the same name.
    fn clone(&self) -> (copy: Scheme)
        ensures
            copy@ == self@,
    {
        match self {
            Scheme::Http => Scheme::Http,
            Scheme::Https => Scheme::Https,
            Scheme::Other(name) => Scheme::Other(name.clone()),
        }
    }
}

/// The characters of an optional string.
pub open spec fn text_of(text: Option<String>) -> Option<Seq<char>> {
    match text {
        Some(s) => Some(s@),
        None => None,
    }
}

/// What an optional scheme stands for.
pub open spec fn scheme_of(scheme: Option<Scheme>) -> Option<SchemeView> {
    match scheme {
        Some(s) => Some(s@),
        None => None,
    }
}

/// A fresh copy of an optional string.
pub fn copy_text(text: &Option<String>) -> (copy: Option<String>)
    ensures
        text_of(copy) == text_of(*text),
{
    match text {
        Some(s) => Some(s.clone()),
        None => None,
    }
}

/// A fresh copy of an optional scheme.
pub fn copy_scheme(scheme: &Option<Scheme>) -> (copy: Option<Scheme>)
    ensures
        scheme_of(copy) == scheme_of(*scheme),
{
    match scheme {
        Some(s) => Some(s.clone()),
        None => None,
    }
}

/// What a [`RequestDescriptor`] stands for.
pub struct RequestView {
    pub method: MethodView,
    pub path_with_query: Option<Seq<char>>,
    pub scheme: Option<SchemeView>,
    pub authority: Option<Seq<char>>,
    pub headers: Entries,
}

/// The metadata of one request. It cannot be changed once it is built.
#[derive(Debug, PartialEq, Eq)]
pub struct RequestDescriptor {
    method: Method,
    path_with_query: Option<String>,
    scheme: Option<Scheme>,
    authority: Option<String>,
    headers: HeaderCollection,
}

impl View for RequestDescriptor {
    type V = RequestView;

    closed spec fn view(&self) -> RequestView {
        RequestView {
            method: self.method@,
            path_with_query: text_of(self.path_with_query),
            scheme: scheme_of(self.scheme),
            authority: text_of(self.authority),
            headers: self.headers@,
        }
    }
}

impl RequestDescriptor {
    /// The descriptor with these five fields.
    pub fn new(
        method: Method,
        path_with_query: Option<String>,
        scheme: Option<Scheme>,
        authority: Option<String>,
        headers: HeaderCollection,
    ) -> (request: RequestDescriptor)
        ensures
            request@ == (RequestView {
                method: method@,
                path_with_query: text_of(path_with_query),
                scheme: scheme_of(scheme),
                authority: text_of(authority),
                headers: headers@,
            }),
    {
        RequestDescriptor { method, path_with_query, scheme, authority, headers }
    }

    pub fn method(&self) -> (method: &Method)
        ensures
            method@ == self@.method,
    {
        &self.method
    }

    pub fn path_with_query(&self) -> (path: &Option<String>)
        ensures
            text_of(*path) == self@.path_with_query,
    {
        &self.path_with_query
    }

    pub fn scheme(&self) -> (scheme: &Option<Scheme>)
        ensures
            scheme_of(*scheme) == self@.scheme,
    {
        &self.scheme
    }

    pub fn authority(&self) -> (authority: &Option<String>)
        ensures
            text_of(*authority) == self@.authority,
    {
        &self.authority
    }

    pub fn headers(&self) -> (headers: &HeaderCollection)
        ensures
            headers@ == self@.headers,
    {
        &self.headers
    }
}

impl Clone for RequestDescriptor {
    /// A fresh descriptor that shares nothing with this one and stands for the
    /// same request.
    fn clone(&self) -> (copy: RequestDescriptor)
        ensures
            copy@ == self@,
    {
        RequestDescriptor {
            method: self.method.clone(),
            path_with_query: copy_text(&self.path_with_query),
            scheme: copy_scheme(&self.scheme),
            authority: copy_text(&self.authority),
            headers: self.headers.clone(),
        }
    }
}

/// What an optional request stands for.
pub open spec fn request_of(request: Option<RequestDescriptor>) -> Option<RequestView> {
    match request {
        Some(r) => Some(r@),
        None => None,
    }
}

/// What an optional reference to a request stands for.
pub open spec fn request_at(request: Option<&RequestDescriptor>) -> Option<RequestView> {
    match request {
        Some(r) => Some(r@),
        None => None,
    }
}

/// What a [`ResponseDescriptor`] stands for.
pub struct ResponseView {
    pub status: u16,
    pub headers: Entries,
}

/// The metadata of one response. It cannot be changed once it is built.
#[derive(Debug, PartialEq, Eq)]
pub struct ResponseDescriptor {
    status: u16,
    headers: HeaderCollection,
}

impl View for ResponseDescriptor {
    type V = ResponseView;

    closed spec fn view(&self) -> ResponseView {
        ResponseView { status: self.status, headers: self.headers@ }
    }
}

impl ResponseDescriptor {
    /// The descriptor with this status and these headers.
    pub fn new(status: u16, headers: HeaderCollection) -> (response: ResponseDescriptor)
        ensures
            response@ == (ResponseView { status, headers: headers@ }),
    {
        ResponseDescriptor { status, headers }
    }

    pub fn status(&self) -> (status: u16)
        ensures
            status == self@.status,
    {
        self.status
    }

    pub fn headers(&self) -> (headers: &HeaderCollection)
        ensures
            headers@ == self@.headers,
    {
        &self.headers
    }
}

impl Clone for ResponseDescriptor {
    /// A fresh descriptor that shares nothing with this one and stands for the
    /// same response.
    fn clone(&self) -> (copy: ResponseDescriptor)
        ensures
            copy@ == self@,
    {
        ResponseDescriptor { status: self.status, headers: self.headers.clone() }
    }
}

/// What an optional response stands for.
pub open spec fn response_of(response: Option<ResponseDescriptor>) -> Option<ResponseView> {
    match response {
        Some(r) => Some(r@),
        None => None,
    }
}

/// What an optional reference to a response stands for.
pub open spec fn response_at(response: Option<&ResponseDescriptor>) -> Option<ResponseView> {
    match response {
        Some(r) => Some(r@),
        None => None,
    }
}

} // verus!
