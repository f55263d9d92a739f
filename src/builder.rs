use crate::model::{BodySlot, BuilderModel, Step};
use crate::request::{pairs_view, Method, Request};
use vstd::prelude::*;

verus! {

/// URL state: no URL yet.
#[derive(Default, Clone)]
pub struct MissingUrl;

/// URL state: the URL given.
#[derive(Default, Clone)]
pub struct Url(String);

/// Method state: no method chosen yet. (A chosen method is a `Method`.)
#[derive(Default, Clone)]
pub struct MissingMethod;

/// Body state: no body yet, and one may still be attached.
#[derive(Default, Clone)]
pub struct MissingBody;

/// Body state: the request is a GET, which never carries a body.
#[derive(Default, Clone)]
pub struct NoBody;

/// Body state: the body attached.
#[derive(Default, Clone)]
pub struct Body(Option<String>);

/// A type that stands for the state of the URL slot.
pub trait UrlState {
    spec fn url_slot(&self) -> Option<Seq<char>>;
}

/// A type that stands for the state of the method slot.
pub trait MethodState {
    spec fn method_slot(&self) -> Option<Method>;
}

/// A type that stands for the state of the body slot.
pub trait BodyState {
    spec fn body_slot(&self) -> BodySlot;
}

impl UrlState for MissingUrl {
    open spec fn url_slot(&self) -> Option<Seq<char>> {
        None
    }
}

impl UrlState for Url {
    closed spec fn url_slot(&self) -> Option<Seq<char>> {
        Some(self.0@)
    }
}

impl MethodState for MissingMethod {
    open spec fn method_slot(&self) -> Option<Method> {
        None
    }
}

impl MethodState for Method {
    open spec fn method_slot(&self) -> Option<Method> {
        Some(*self)
    }
}

impl BodyState for MissingBody {
    open spec fn body_slot(&self) -> BodySlot {
        BodySlot::Missing
    }
}

impl BodyState for NoBody {
    open spec fn body_slot(&self) -> BodySlot {
        BodySlot::Locked
    }
}

impl BodyState for Body {
    closed spec fn body_slot(&self) -> BodySlot {
        match self.0 {
            Some(b) => BodySlot::Given(b@),
            None => BodySlot::Missing,
        }
    }
}

/// A request under construction. The three type parameters record the state
/// of the URL, method and body slots, so that each operation is offered only
/// in the states where it is legal.
pub struct RequestBuilder<U, M, B> {
    url: U,
    method: M,
    headers: Vec<(String, String)>,
    body: B,
}

impl<U: UrlState, M: MethodState, B: BodyState> View for RequestBuilder<U, M, B> {
    type V = BuilderModel;

    closed spec fn view(&self) -> BuilderModel {
        BuilderModel {
            url: self.url.url_slot(),
            method: self.method.method_slot(),
            body: self.body.body_slot(),
            headers: pairs_view(self.headers@),
        }
    }
}

impl RequestBuilder<MissingUrl, MissingMethod, MissingBody> {
    /// A builder with no URL, no method, no body and no headers.
    pub fn new() -> (r: Self)
        ensures
            r@ == BuilderModel::empty(),
    {
        let r = RequestBuilder {
            url: MissingUrl,
            method: MissingMethod,
            headers: Vec::new(),
            body: MissingBody,
        };
        assert(pairs_view(r.headers@) =~= Seq::empty());
        r
    }
}

impl<U: UrlState, M: MethodState, B: BodyState> RequestBuilder<U, M, B> {
    /// Sets the URL, replacing any URL set before.
    pub fn url(self, url: &str) -> (r: RequestBuilder<Url, M, B>)
        ensures
            r@ == self@.apply(Step::SetUrl(url@)),
    {
        RequestBuilder { url: Url(url.to_owned()), method: self.method, headers: self.headers, body: self.body }
    }

    /// Appends a header after those already added.
    pub fn header(self, key: &str, value: &str) -> (r: Self)
        ensures
            r@ == self@.apply(Step::AddHeader(key@, value@)),
    {
        let mut s = self;
        let ghost h0 = s.headers@;
        s.headers.push((key.to_owned(), value.to_owned()));
        assert(pairs_view(s.headers@) =~= pairs_view(h0).push((key@, value@)));
        s
    }
}

impl<U: UrlState, B: BodyState> RequestBuilder<U, MissingMethod, B> {
    /// Chooses GET. A GET request never carries a body, so the body slot is
    /// locked and `body` is no longer offered.
    pub fn get(self) -> (r: RequestBuilder<U, Method, NoBody>)
        ensures
            self@.allows(Step::Get),
            r@ == self@.apply(Step::Get),
    {
        RequestBuilder { url: self.url, method: Method::GET, headers: self.headers, body: NoBody }
    }

    /// Chooses POST. The body slot is left as it was.
    pub fn post(self) -> (r: RequestBuilder<U, Method, B>)
        ensures
            self@.allows(Step::Post),
            r@ == self@.apply(Step::Post),
    {
        RequestBuilder { url: self.url, method: Method::POST, headers: self.headers, body: self.body }
    }
}

impl<U: UrlState, M: MethodState> RequestBuilder<U, M, MissingBody> {
    /// Attaches the body.
    pub fn body(self, body: &str) -> (r: RequestBuilder<U, M, Body>)
        ensures
            self@.allows(Step::SetBody(body@)),
            r@ == self@.apply(Step::SetBody(body@)),
    {
        RequestBuilder {
            url: self.url,
            method: self.method,
            headers: self.headers,
            body: Body(Some(body.to_owned())),
        }
    }
}

impl RequestBuilder<Url, Method, Body> {
    /// Builds the request with the attached body.
    pub fn build(self) -> (r: Request)
        ensures
            self@.complete(),
            r@ == self@.built(),
    {
        Request::from_parts(self.url.0, self.method, self.headers, self.body.0)
    }
}

impl RequestBuilder<Url, Method, NoBody> {
    /// Builds a GET request, which has no body.
    pub fn build(self) -> (r: Request)
        ensures
            self@.complete(),
            r@ == self@.built(),
            r@.body is None,
    {
        Request::from_parts(self.url.0, self.method, self.headers, None)
    }
}

impl RequestBuilder<Url, Method, MissingBody> {
    /// Builds a request to which no body was attached.
    pub fn build(self) -> (r: Request)
        ensures
            self@.complete(),
            r@ == self@.built(),
            r@.body is None,
    {
        Request::from_parts(self.url.0, self.method, self.headers, None)
    }
}

} // verus!
