//! The responses that the service gives.
//!
//! A response is a status, a list of headers and a body. The body stays
//! abstract where the carrier has to supply or encode it: the welcome page
//! is named, not held, and a product is handed on as the value `P` that came
//! from the backend, to be written as JSON by whoever sends the response.

use vstd::prelude::*;
use crate::method::ALLOWED_METHODS;

verus! {

/// The name of the header that lists the methods let through.
pub const ALLOW: &'static str = "Allow";

/// The name of the header that names the body's media type.
pub const CONTENT_TYPE: &'static str = "Content-Type";

/// The media type of a plain-text body.
pub const TEXT_PLAIN: &'static str = "text/plain; charset=utf-8";

/// The media type of the welcome page.
pub const TEXT_HTML: &'static str = "text/html; charset=utf-8";

/// The media type of a JSON body.
pub const APPLICATION_JSON: &'static str = "application/json";

/// The body of the response to a method that is not let through.
pub const METHOD_NOT_ALLOWED_TEXT: &'static str = "This method is not allowed";

/// The body of the response to a request that matches no route.
pub const PAGE_NOT_FOUND_TEXT: &'static str = "The page you requested could not be found";

/// The body of the response where the backend knows no such product.
pub const PRODUCT_NOT_FOUND_TEXT: &'static str = "Product Not Found";

/// A header line: a name and a value.
#[derive(Debug, PartialEq, Eq)]
pub struct Header {
    pub name: String,
    pub value: String,
}

/// What a `Header` holds, as plain text.
pub struct HeaderView {
    pub name: Seq<char>,
    pub value: Seq<char>,
}

impl View for Header {
    type V = HeaderView;

    open spec fn view(&self) -> HeaderView {
        HeaderView { name: self.name@, value: self.value@ }
    }
}

/// The headers of a list, each by its view.
pub open spec fn headers_view(headers: Seq<Header>) -> Seq<HeaderView> {
    headers.map_values(|h: Header| h@)
}

/// The value of the first header called `name`, if there is one.
pub open spec fn header_value(headers: Seq<HeaderView>, name: Seq<char>) -> Option<Seq<char>>
    decreases headers.len(),
{
    if headers.len() == 0 {
        None
    } else if headers[0].name == name {
        Some(headers[0].value)
    } else {
        header_value(headers.drop_first(), name)
    }
}

/// The body of a response.
#[derive(Debug, PartialEq, Eq)]
pub enum Body<P> {
    /// No body.
    Empty,
    /// A fixed text.
    Text(String),
    /// The static welcome page, which the carrier supplies.
    WelcomePage,
    /// One product, to be written as a JSON object.
    Product(P),
    /// A list of products, to be written as a bare JSON array.
    ProductList(Vec<P>),
}

/// What a `Body` holds.
pub enum BodyView<P> {
    Empty,
    Text(Seq<char>),
    WelcomePage,
    Product(P),
    ProductList(Seq<P>),
}

impl<P> View for Body<P> {
    type V = BodyView<P>;

    open spec fn view(&self) -> BodyView<P> {
        match self {
            Body::Empty => BodyView::Empty,
            Body::Text(text) => BodyView::Text(text@),
            Body::WelcomePage => BodyView::WelcomePage,
            Body::Product(product) => BodyView::Product(*product),
            Body::ProductList(products) => BodyView::ProductList(products@),
        }
    }
}

/// An HTTP response.
#[derive(Debug, PartialEq, Eq)]
pub struct Response<P> {
    pub status: u16,
    pub headers: Vec<Header>,
    pub body: Body<P>,
}

/// What a `Response` holds.
pub struct ResponseView<P> {
    pub status: u16,
    pub headers: Seq<HeaderView>,
    pub body: BodyView<P>,
}

impl<P> View for Response<P> {
    type V = ResponseView<P>;

    open spec fn view(&self) -> ResponseView<P> {
        ResponseView {
            status: self.status,
            headers: headers_view(self.headers@),
            body: self.body@,
        }
    }
}

impl<P> ResponseView<P> {
    /// 405 with the `Allow` header and a plain-text notice.
    pub open spec fn method_not_allowed() -> ResponseView<P> {
        ResponseView {
            status: 405,
            headers: seq![
                HeaderView { name: ALLOW@, value: ALLOWED_METHODS@ },
                HeaderView { name: CONTENT_TYPE@, value: TEXT_PLAIN@ },
            ],
            body: BodyView::Text(METHOD_NOT_ALLOWED_TEXT@),
        }
    }

    /// 200 with the welcome page as HTML.
    pub open spec fn welcome() -> ResponseView<P> {
        ResponseView {
            status: 200,
            headers: seq![HeaderView { name: CONTENT_TYPE@, value: TEXT_HTML@ }],
            body: BodyView::WelcomePage,
        }
    }

    /// 404 with the notice that no page answers the request.
    pub open spec fn page_not_found() -> ResponseView<P> {
        ResponseView {
            status: 404,
            headers: Seq::empty(),
            body: BodyView::Text(PAGE_NOT_FOUND_TEXT@),
        }
    }

    /// 404 with the plain-text notice that the backend knows no such product.
    pub open spec fn product_not_found() -> ResponseView<P> {
        ResponseView {
            status: 404,
            headers: seq![HeaderView { name: CONTENT_TYPE@, value: TEXT_PLAIN@ }],
            body: BodyView::Text(PRODUCT_NOT_FOUND_TEXT@),
        }
    }

    /// The given status with one product as JSON.
    pub open spec fn product(status: u16, product: P) -> ResponseView<P> {
        ResponseView {
            status,
            headers: seq![HeaderView { name: CONTENT_TYPE@, value: APPLICATION_JSON@ }],
            body: BodyView::Product(product),
        }
    }

    /// 200 with the products as a JSON array.
    pub open spec fn product_list(products: Seq<P>) -> ResponseView<P> {
        ResponseView {
            status: 200,
            headers: seq![HeaderView { name: CONTENT_TYPE@, value: APPLICATION_JSON@ }],
            body: BodyView::ProductList(products),
        }
    }

    /// 204 without headers or body.
    pub open spec fn no_content() -> ResponseView<P> {
        ResponseView { status: 204, headers: Seq::empty(), body: BodyView::Empty }
    }
}

/// Appends the header `name: value` to the list.
pub(crate) fn push_header(headers: &mut Vec<Header>, name: &str, value: &str)
    ensures
        headers_view(final(headers)@) == headers_view(old(headers)@).push(
            HeaderView { name: name@, value: value@ },
        ),
{
    headers.push(Header { name: name.to_owned(), value: value.to_owned() });
    assert(headers_view(headers@) =~= headers_view(old(headers)@).push(
        HeaderView { name: name@, value: value@ },
    ));
}

/// A list with the one header `name: value`.
fn one_header(name: &str, value: &str) -> (headers: Vec<Header>)
    ensures
        headers_view(headers@) == seq![HeaderView { name: name@, value: value@ }],
{
    let mut headers: Vec<Header> = Vec::new();
    assert(headers_view(headers@) =~= Seq::empty());
    push_header(&mut headers, name, value);
    headers
}

impl<P> Response<P> {
    /// The response to a method that is not let through: status 405, the
    /// header `Allow: GET, HEAD, POST, PUT, DELETE` and a plain-text notice.
    pub fn method_not_allowed() -> (response: Response<P>)
        ensures
            response@ == ResponseView::<P>::method_not_allowed(),
    {
        let mut headers = one_header(ALLOW, ALLOWED_METHODS);
        push_header(&mut headers, CONTENT_TYPE, TEXT_PLAIN);
        assert(headers_view(headers@) =~= ResponseView::<P>::method_not_allowed().headers);
        Response { status: 405, headers, body: Body::Text(METHOD_NOT_ALLOWED_TEXT.to_owned()) }
    }

    /// The welcome page: status 200 and the media type
    /// `text/html; charset=utf-8`.
    pub fn welcome() -> (response: Response<P>)
        ensures
            response@ == ResponseView::<P>::welcome(),
    {
        Response { status: 200, headers: one_header(CONTENT_TYPE, TEXT_HTML), body: Body::WelcomePage }
    }

    /// The response to a request that matches no route: status 404 and the
    /// text "The page you requested could not be found".
    pub fn page_not_found() -> (response: Response<P>)
        ensures
            response@ == ResponseView::<P>::page_not_found(),
    {
        let headers: Vec<Header> = Vec::new();
        assert(headers_view(headers@) =~= Seq::empty());
        Response { status: 404, headers, body: Body::Text(PAGE_NOT_FOUND_TEXT.to_owned()) }
    }

    /// The response where the backend knows no such product: status 404 and
    /// the plain text "Product Not Found".
    pub fn product_not_found() -> (response: Response<P>)
        ensures
            response@ == ResponseView::<P>::product_not_found(),
    {
        Response {
            status: 404,
            headers: one_header(CONTENT_TYPE, TEXT_PLAIN),
            body: Body::Text(PRODUCT_NOT_FOUND_TEXT.to_owned()),
        }
    }

    /// A response that carries one product as JSON under the given status.
    pub fn product(status: u16, product: P) -> (response: Response<P>)
        ensures
            response@ == ResponseView::product(status, product),
    {
        Response {
            status,
            headers: one_header(CONTENT_TYPE, APPLICATION_JSON),
            body: Body::Product(product),
        }
    }

    /// The response that carries a list of products as a JSON array, with
    /// status 200.
    pub fn product_list(products: Vec<P>) -> (response: Response<P>)
        ensures
            response@ == ResponseView::product_list(products@),
    {
        Response {
            status: 200,
            headers: one_header(CONTENT_TYPE, APPLICATION_JSON),
            body: Body::ProductList(products),
        }
    }

    /// The response to a deletion that went through: status 204, nothing else.
    pub fn no_content() -> (response: Response<P>)
        ensures
            response@ == ResponseView::<P>::no_content(),
    {
        let headers: Vec<Header> = Vec::new();
        assert(headers_view(headers@) =~= Seq::empty());
        Response { status: 204, headers, body: Body::Empty }
    }
}

} // verus!
