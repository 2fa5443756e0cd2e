//! The call to the backend and the shapes of its answer.

use vstd::prelude::*;
use vstd::string::*;
use crate::method::Method;
use crate::response::{headers_view, push_header, Header, HeaderView, APPLICATION_JSON, CONTENT_TYPE};
use crate::route::Shape;

verus! {

/// The name under which the carrier knows the backend.
pub const BACKEND_NAME: &'static str = "fauna_gql";

/// The name of the header that carries the credential.
pub const AUTHORIZATION: &'static str = "Authorization";

/// What precedes the API key in the `Authorization` header.
pub const BEARER: &'static str = "Bearer ";

/// One call to the backend, as plain values. The carrier sends it as it
/// stands, once, and hands back what came.
#[derive(Debug, PartialEq, Eq)]
pub struct BackendRequest {
    /// The backend to send to.
    pub backend: String,
    /// The method of the call.
    pub method: Method,
    /// The address of the GraphQL endpoint.
    pub url: String,
    /// The headers of the call, in order.
    pub headers: Vec<Header>,
    /// The GraphQL request.
    pub body: String,
    /// Whether the call passes every cache on its way. It always does: no
    /// earlier answer is ever used again.
    pub pass: bool,
}

/// What a `BackendRequest` holds.
pub struct BackendRequestView {
    pub backend: Seq<char>,
    pub method: Method,
    pub url: Seq<char>,
    pub headers: Seq<HeaderView>,
    pub body: Seq<char>,
    pub pass: bool,
}

impl View for BackendRequest {
    type V = BackendRequestView;

    open spec fn view(&self) -> BackendRequestView {
        BackendRequestView {
            backend: self.backend@,
            method: self.method,
            url: self.url@,
            headers: headers_view(self.headers@),
            body: self.body@,
            pass: self.pass,
        }
    }
}

/// The value of the `Authorization` header for an API key.
pub open spec fn bearer_of(api_key: Seq<char>) -> Seq<char> {
    BEARER@ + api_key
}

/// The call that carries `query` to the endpoint at `url`: a POST to the
/// backend `fauna_gql` with the headers `Authorization: Bearer <api key>` and
/// `Content-Type: application/json`, past every cache.
pub open spec fn call_for(url: Seq<char>, api_key: Seq<char>, query: Seq<char>)
    -> BackendRequestView {
    BackendRequestView {
        backend: BACKEND_NAME@,
        method: Method::Post,
        url,
        headers: seq![
            HeaderView { name: AUTHORIZATION@, value: bearer_of(api_key) },
            HeaderView { name: CONTENT_TYPE@, value: APPLICATION_JSON@ },
        ],
        body: query,
        pass: true,
    }
}

/// Describes the call that carries `query` to the endpoint at `url`.
pub fn backend_request(url: &str, api_key: &str, query: String) -> (request: BackendRequest)
    ensures
        request@ == call_for(url@, api_key@, query@),
{
    let mut credential = BEARER.to_owned();
    credential.append(api_key);
    let mut headers: Vec<Header> = Vec::new();
    assert(headers_view(headers@) =~= Seq::empty());
    push_header(&mut headers, AUTHORIZATION, credential.as_str());
    push_header(&mut headers, CONTENT_TYPE, APPLICATION_JSON);
    assert(headers_view(headers@) =~= call_for(url@, api_key@, query@).headers);
    BackendRequest {
        backend: BACKEND_NAME.to_owned(),
        method: Method::Post,
        url: url.to_owned(),
        headers,
        body: query,
        pass: true,
    }
}

/// What the backend answered, once its JSON has been read. Only the two
/// shapes below occur: `{"data":{"product": ...}}` with a product or `null`,
/// and `{"data":{"allProducts":{"data":[...]}}}`.
#[derive(Debug, PartialEq, Eq)]
pub enum Envelope<P> {
    /// The answer to a query for one product: the product, or none.
    Product(Option<P>),
    /// The answer to the listing.
    ProductList(Vec<P>),
}

/// What an `Envelope` holds.
pub enum EnvelopeView<P> {
    Product(Option<P>),
    ProductList(Seq<P>),
}

impl<P> View for Envelope<P> {
    type V = EnvelopeView<P>;

    open spec fn view(&self) -> EnvelopeView<P> {
        match self {
            Envelope::Product(product) => EnvelopeView::Product(*product),
            Envelope::ProductList(products) => EnvelopeView::ProductList(products@),
        }
    }
}

impl<P> EnvelopeView<P> {
    /// The shape of the answer.
    pub open spec fn shape(self) -> Shape {
        match self {
            EnvelopeView::Product(_) => Shape::SingleProduct,
            EnvelopeView::ProductList(_) => Shape::ProductList,
        }
    }
}

impl<P> Envelope<P> {
    /// The shape of the answer.
    pub fn shape(&self) -> (shape: Shape)
        ensures
            shape == self@.shape(),
    {
        match self {
            Envelope::Product(_) => Shape::SingleProduct,
            Envelope::ProductList(_) => Shape::ProductList,
        }
    }
}

} // verus!
