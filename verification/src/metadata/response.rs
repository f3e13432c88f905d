use vstd::prelude::*;

use crate::aci::{AciJson, AciJsonView};
use crate::pod::Pod;
use crate::util::{NameValue, NameValueView};

verus! {

/// The request methods the metadata service tells apart.
#[derive(Clone, Copy)]
pub enum Method {
    Get,
    Post,
    Other,
}

/// The statuses the metadata service answers with.
#[derive(Clone, Copy)]
pub enum StatusCode {
    Success,
    BadRequest,
    NotFound,
    MethodNotAllowed,
}

/// The content types of the answers: `application/json` and
/// `text/plain; charset=us-ascii`.
#[derive(Clone, Copy)]
pub enum ContentType {
    Json,
    TextPlain,
}

/// What an answer carries. Documents are handed out as they are stored, and
/// written as JSON when the answer is sent.
pub enum Body<'a> {
    Empty,
    Text(String),
    Annotations(&'a Vec<NameValue>),
    AppManifest(&'a Option<AciJson>),
    PodManifest(&'a Pod),
}

pub enum BodyView {
    Empty,
    Text(Seq<char>),
    Annotations(Seq<NameValueView>),
    AppManifest(Option<AciJsonView>),
    PodManifest(Pod),
}

impl<'a> DeepView for Body<'a> {
    type V = BodyView;

    open spec fn deep_view(&self) -> BodyView {
        match self {
            Body::Empty => BodyView::Empty,
            Body::Text(s) => BodyView::Text(s@),
            Body::Annotations(a) => BodyView::Annotations(a.deep_view()),
            Body::AppManifest(m) => BodyView::AppManifest(m.deep_view()),
            Body::PodManifest(p) => BodyView::PodManifest(**p),
        }
    }
}

/// An answer of the metadata service. Without a content type it has no
/// `Content-Type` header.
pub struct Response<'a> {
    pub status: StatusCode,
    pub content_type: Option<ContentType>,
    pub body: Body<'a>,
}

pub struct ResponseView {
    pub status: StatusCode,
    pub content_type: Option<ContentType>,
    pub body: BodyView,
}

impl<'a> DeepView for Response<'a> {
    type V = ResponseView;

    open spec fn deep_view(&self) -> ResponseView {
        ResponseView {
            status: self.status,
            content_type: self.content_type,
            body: self.body.deep_view(),
        }
    }
}

/// An answer with a status only: no header, no body.
pub open spec fn status_only(status: StatusCode) -> ResponseView {
    ResponseView { status, content_type: None, body: BodyView::Empty }
}

/// A successful answer.
pub open spec fn ok_with(content_type: ContentType, body: BodyView) -> ResponseView {
    ResponseView { status: StatusCode::Success, content_type: Some(content_type), body }
}

impl<'a> Response<'a> {
    /// An answer with a status only.
    pub fn status_only(status: StatusCode) -> (r: Response<'a>)
        ensures
            r.deep_view() == status_only(status),
    {
        Response { status, content_type: None, body: Body::Empty }
    }

    /// A successful answer of the given type and body.
    pub fn ok_with(content_type: ContentType, body: Body<'a>) -> (r: Response<'a>)
        ensures
            r.deep_view() == ok_with(content_type, body.deep_view()),
    {
        Response { status: StatusCode::Success, content_type: Some(content_type), body }
    }
}

} // verus!
