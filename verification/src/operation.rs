//! The operations that the service hands to the backend, and the two steps
//! around the call: deciding what a request leads to, and turning the
//! backend's answer into the response.

use vstd::prelude::*;
use crate::backend::{
    backend_request, call_for, BackendRequest, BackendRequestView, Envelope, EnvelopeView,
};
use crate::fault::Fault;
use crate::method::Method;
use crate::path::{slug_of, split_path};
use crate::query::{
    all_products_query, create_product_query, create_product_text, delete_product_query,
    delete_product_text, find_product_query, find_product_text, update_product_query,
    update_product_text, ALL_PRODUCTS_QUERY,
};
use crate::response::{Response, ResponseView};
use crate::route::{Route, Shape};
use crate::settings::{entry_text, get_api_key, get_fauna_url, DEFAULT_URL};

verus! {

/// A query or mutation for the backend, with the id it is about where it is
/// about one product.
#[derive(Debug, PartialEq, Eq)]
pub enum Operation {
    /// Create the product in the request body.
    CreateProduct,
    /// Find the product with this id.
    GetProductById { id: String },
    /// Replace the product with this id by the one in the request body.
    UpdateProductById { id: String },
    /// Delete the product with this id.
    DeleteProductById { id: String },
    /// List all products.
    ListProducts,
}

/// What an `Operation` holds.
pub enum OperationView {
    CreateProduct,
    GetProductById { id: Seq<char> },
    UpdateProductById { id: Seq<char> },
    DeleteProductById { id: Seq<char> },
    ListProducts,
}

impl View for Operation {
    type V = OperationView;

    open spec fn view(&self) -> OperationView {
        match self {
            Operation::CreateProduct => OperationView::CreateProduct,
            Operation::GetProductById { id } => OperationView::GetProductById { id: id@ },
            Operation::UpdateProductById { id } => OperationView::UpdateProductById { id: id@ },
            Operation::DeleteProductById { id } => OperationView::DeleteProductById { id: id@ },
            Operation::ListProducts => OperationView::ListProducts,
        }
    }
}

impl OperationView {
    /// The operation that a route stands for, with `slug` as the id where
    /// the route names one product; `None` for the two routes that are
    /// answered on the spot.
    pub open spec fn of_route(route: Route, slug: Seq<char>) -> Option<OperationView> {
        match route {
            Route::Welcome => None,
            Route::CreateProduct => Some(OperationView::CreateProduct),
            Route::GetProductById => Some(OperationView::GetProductById { id: slug }),
            Route::UpdateProductById => Some(OperationView::UpdateProductById { id: slug }),
            Route::DeleteProductById => Some(OperationView::DeleteProductById { id: slug }),
            Route::ListProducts => Some(OperationView::ListProducts),
            Route::NotFound => None,
        }
    }

    /// The route that led to the operation.
    pub open spec fn route(self) -> Route {
        match self {
            OperationView::CreateProduct => Route::CreateProduct,
            OperationView::GetProductById { .. } => Route::GetProductById,
            OperationView::UpdateProductById { .. } => Route::UpdateProductById,
            OperationView::DeleteProductById { .. } => Route::DeleteProductById,
            OperationView::ListProducts => Route::ListProducts,
        }
    }

    /// The id of the product that the operation is about, where it is about
    /// one.
    pub open spec fn id(self) -> Option<Seq<char>> {
        match self {
            OperationView::GetProductById { id } => Some(id),
            OperationView::UpdateProductById { id } => Some(id),
            OperationView::DeleteProductById { id } => Some(id),
            _ => None,
        }
    }

    /// The GraphQL request of the operation. `body` is the request body; it
    /// goes into a creation and an update and is of no account otherwise.
    pub open spec fn query(self, body: Seq<char>) -> Seq<char> {
        match self {
            OperationView::CreateProduct => create_product_text(body),
            OperationView::GetProductById { id } => find_product_text(id),
            OperationView::UpdateProductById { id } => update_product_text(id, body),
            OperationView::DeleteProductById { id } => delete_product_text(id),
            OperationView::ListProducts => ALL_PRODUCTS_QUERY@,
        }
    }

    /// The call that takes the operation to the backend, given the request
    /// body and what the configuration store holds under `url` and `key`.
    /// Without a key there is no call; without an address the call goes to
    /// `DEFAULT_URL`.
    pub open spec fn call(
        self,
        body: Seq<char>,
        url_entry: Option<Seq<char>>,
        key_entry: Option<Seq<char>>,
    ) -> Result<BackendRequestView, Fault> {
        match key_entry {
            None => Err(Fault::MissingApiKey),
            Some(api_key) => Ok(
                call_for(
                    match url_entry {
                        Some(url) => url,
                        None => DEFAULT_URL@,
                    },
                    api_key,
                    self.query(body),
                ),
            ),
        }
    }

    /// The response to the operation, given the backend's answer.
    ///
    /// A listing answered by a list gives the list with status 200. Any
    /// other operation answered by a product gives the product under the
    /// status of its route (201 for a creation, 200 for a lookup or an
    /// update), except that a deletion gives 204 without a body. Answered by
    /// no product, each of them gives "Product Not Found" with status 404,
    /// whatever the status of the route. An answer of the other shape is a
    /// fault.
    pub open spec fn reply<P>(self, answer: EnvelopeView<P>) -> Result<ResponseView<P>, Fault> {
        if answer.shape() != self.route().shape() {
            Err(Fault::MalformedAnswer)
        } else {
            let route = self.route();
            match answer {
                EnvelopeView::Product(None) => Ok(ResponseView::product_not_found()),
                EnvelopeView::Product(Some(product)) => if route == Route::DeleteProductById {
                    Ok(ResponseView::no_content())
                } else {
                    Ok(ResponseView::product(route.success_status(), product))
                },
                EnvelopeView::ProductList(products) => Ok(ResponseView::product_list(products)),
            }
        }
    }
}

impl Operation {
    /// The route that led to the operation.
    pub fn route(&self) -> (route: Route)
        ensures
            route == self@.route(),
    {
        match self {
            Operation::CreateProduct => Route::CreateProduct,
            Operation::GetProductById { .. } => Route::GetProductById,
            Operation::UpdateProductById { .. } => Route::UpdateProductById,
            Operation::DeleteProductById { .. } => Route::DeleteProductById,
            Operation::ListProducts => Route::ListProducts,
        }
    }

    /// The id of the product that the operation is about: `Some` for a
    /// lookup, an update and a deletion.
    pub fn id(&self) -> (id: Option<&str>)
        ensures
            id is Some <==> self@.id() is Some,
            id matches Some(text) ==> self@.id() == Some(text@),
    {
        match self {
            Operation::GetProductById { id } => Some(id.as_str()),
            Operation::UpdateProductById { id } => Some(id.as_str()),
            Operation::DeleteProductById { id } => Some(id.as_str()),
            _ => None,
        }
    }

    /// Whether the request body goes into the query: `true` for a creation
    /// and an update. The body of any other request need not be read.
    pub fn needs_body(&self) -> (yes: bool)
        ensures
            yes == self@.route().takes_body(),
    {
        self.route().needs_body()
    }

    /// The shape in which the backend answers the operation.
    pub fn expects(&self) -> (shape: Shape)
        ensures
            shape == self@.route().shape(),
    {
        self.route().expects()
    }

    /// Renders the GraphQL request of the operation. The id and the body are
    /// put in as they stand.
    pub fn query(&self, body: &str) -> (query: String)
        ensures
            query@ == self@.query(body@),
    {
        match self {
            Operation::CreateProduct => create_product_query(body),
            Operation::GetProductById { id } => find_product_query(id.as_str()),
            Operation::UpdateProductById { id } => update_product_query(id.as_str(), body),
            Operation::DeleteProductById { id } => delete_product_query(id.as_str()),
            Operation::ListProducts => all_products_query(),
        }
    }

    /// Describes the call that takes the operation to the backend.
    ///
    /// `body` is the request body, `url_entry` and `key_entry` are what the
    /// configuration store holds under `url` and `key`. Fails with
    /// `Fault::MissingApiKey` exactly where there is no key.
    pub fn backend_call(
        &self,
        body: &str,
        url_entry: Option<String>,
        key_entry: Option<String>,
    ) -> (outcome: Result<BackendRequest, Fault>)
        ensures
            outcome is Ok <==> key_entry is Some,
            outcome matches Ok(request) ==> self@.call(
                body@,
                entry_text(url_entry),
                entry_text(key_entry),
            ) == Ok::<BackendRequestView, Fault>(request@),
            outcome matches Err(fault) ==> fault == Fault::MissingApiKey,
    {
        let query = self.query(body);
        let url = get_fauna_url(url_entry);
        match get_api_key(key_entry) {
            Ok(api_key) => Ok(backend_request(url.as_str(), api_key.as_str(), query)),
            Err(fault) => Err(fault),
        }
    }

    /// Shapes the response from the backend's answer.
    ///
    /// Fails with `Fault::MalformedAnswer` exactly where the answer is a list
    /// and the operation is no listing, or the other way round.
    pub fn respond<P>(&self, answer: Envelope<P>) -> (outcome: Result<Response<P>, Fault>)
        ensures
            outcome is Ok <==> answer@.shape() == self@.route().shape(),
            outcome matches Ok(response) ==> self@.reply(answer@) == Ok::<
                ResponseView<P>,
                Fault,
            >(response@),
            outcome matches Err(fault) ==> self@.reply(answer@) == Err::<ResponseView<P>, Fault>(
                fault,
            ),
    {
        let route = self.route();
        match answer {
            Envelope::Product(found) => match route.expects() {
                Shape::ProductList => Err(Fault::MalformedAnswer),
                Shape::SingleProduct => match found {
                    None => Ok(Response::product_not_found()),
                    Some(product) => match route {
                        Route::DeleteProductById => Ok(Response::no_content()),
                        _ => Ok(Response::product(route.status(), product)),
                    },
                },
            },
            Envelope::ProductList(products) => match route.expects() {
                Shape::SingleProduct => Err(Fault::MalformedAnswer),
                Shape::ProductList => Ok(Response::product_list(products)),
            },
        }
    }
}

/// What a request leads to.
#[derive(Debug, PartialEq, Eq)]
pub enum Dispatch<P> {
    /// The response is known without the backend.
    Reply(Response<P>),
    /// The backend has to be asked.
    Forward(Operation),
}

/// What a `Dispatch` holds.
pub enum DispatchView<P> {
    Reply(ResponseView<P>),
    Forward(OperationView),
}

impl<P> View for Dispatch<P> {
    type V = DispatchView<P>;

    open spec fn view(&self) -> DispatchView<P> {
        match self {
            Dispatch::Reply(response) => DispatchView::Reply(response@),
            Dispatch::Forward(operation) => DispatchView::Forward(operation@),
        }
    }
}

/// What the request with the given method token and path leads to.
///
/// A method other than GET, HEAD, POST, PUT and DELETE is rejected before
/// the path is looked at. Otherwise the route decides: the welcome page and
/// the not-found page are replies, every other route is an operation, with
/// the slug of the path as its id where it names one product.
pub open spec fn decide<P>(method: Seq<char>, path: Seq<char>) -> DispatchView<P> {
    let method = Method::of(method);
    if !method.allowed() {
        DispatchView::Reply(ResponseView::method_not_allowed())
    } else {
        let route = Route::of_request(method, path);
        match OperationView::of_route(route, slug_of(path)) {
            Some(operation) => DispatchView::Forward(operation),
            None => if route == Route::Welcome {
                DispatchView::Reply(ResponseView::welcome())
            } else {
                DispatchView::Reply(ResponseView::page_not_found())
            },
        }
    }
}

/// Decides what a request leads to, from its method token and its path.
pub fn dispatch<P>(method: &str, path: &str) -> (step: Dispatch<P>)
    ensures
        step@ == decide::<P>(method@, path@),
{
    let method = Method::from_token(method);
    if !method.is_allowed() {
        return Dispatch::Reply(Response::method_not_allowed());
    }
    match split_path(path) {
        None => Dispatch::Reply(Response::page_not_found()),
        Some(parts) => match Route::matching(method, parts.resource, parts.slug) {
            Route::Welcome => Dispatch::Reply(Response::welcome()),
            Route::CreateProduct => Dispatch::Forward(Operation::CreateProduct),
            Route::GetProductById => Dispatch::Forward(
                Operation::GetProductById { id: parts.slug.to_owned() },
            ),
            Route::UpdateProductById => Dispatch::Forward(
                Operation::UpdateProductById { id: parts.slug.to_owned() },
            ),
            Route::DeleteProductById => Dispatch::Forward(
                Operation::DeleteProductById { id: parts.slug.to_owned() },
            ),
            Route::ListProducts => Dispatch::Forward(Operation::ListProducts),
            Route::NotFound => Dispatch::Reply(Response::page_not_found()),
        },
    }
}

} // verus!
