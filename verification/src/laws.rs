//! What holds of the service as a whole.
//!
//! The laws are stated over `decide` and `reply`, the models that `dispatch`
//! and `respond` are proved to follow, and over `exchange`, which puts the two
//! together with a backend.

use vstd::prelude::*;
use crate::backend::EnvelopeView;
use crate::fault::Fault;
use crate::method::{lemma_method_tokens, Method};
use crate::operation::{decide, DispatchView, OperationView};
use crate::path::{
    has_resource, lemma_pieces_lack_separator, lemma_split_at, lemma_split_whole, resource_of,
    slug_of, split_on, PATH_SEPARATOR,
};
use crate::query::find_product_text;
use crate::response::{header_value, BodyView, ResponseView, ALLOW};
use crate::route::{Route, PRODUCT_RESOURCE};

verus! {

/// Whether the path is one of `/`, `/product` and `/product/{id}`: its
/// resource is empty and it has no slug, or its resource is `product`.
pub open spec fn names_a_page(path: Seq<char>) -> bool {
    has_resource(path) && ((resource_of(path).len() == 0 && slug_of(path).len() == 0)
        || resource_of(path) == PRODUCT_RESOURCE@)
}

/// Whether the text can stand for one piece of a path: it is not empty and
/// holds no `/`.
pub open spec fn is_path_piece(text: Seq<char>) -> bool {
    text.len() > 0 && forall|j: int| 0 <= j < text.len() ==> text[j] != PATH_SEPARATOR
}

/// The path of the product with the given id: `/product/{id}`.
pub open spec fn product_path(id: Seq<char>) -> Seq<char> {
    "/product/"@ + id
}

/// One whole exchange: the request is decided on, the backend is asked where
/// the decision calls for it, and its answer is shaped into the response.
/// The backend is a function from the GraphQL request to its answer; the
/// exchange keeps nothing from one request to the next.
pub open spec fn exchange<P>(
    method: Seq<char>,
    path: Seq<char>,
    body: Seq<char>,
    backend: spec_fn(Seq<char>) -> EnvelopeView<P>,
) -> Result<ResponseView<P>, Fault> {
    match decide::<P>(method, path) {
        DispatchView::Reply(response) => Ok(response),
        DispatchView::Forward(operation) => operation.reply(backend(operation.query(body))),
    }
}

/// Every method other than GET, HEAD, POST, PUT and DELETE is answered with
/// status 405 and the header `Allow: GET, HEAD, POST, PUT, DELETE`, whatever
/// the path, and the backend is not asked.
pub proof fn lemma_other_methods_are_rejected<P>(method: Seq<char>, path: Seq<char>)
    requires
        method != "GET"@,
        method != "HEAD"@,
        method != "POST"@,
        method != "PUT"@,
        method != "DELETE"@,
    ensures
        decide::<P>(method, path) == DispatchView::Reply(ResponseView::<P>::method_not_allowed()),
        ResponseView::<P>::method_not_allowed().status == 405,
        header_value(ResponseView::<P>::method_not_allowed().headers, ALLOW@) == Some(
            "GET, HEAD, POST, PUT, DELETE"@,
        ),
{
}

/// A request with an allowed method whose path is none of `/`, `/product`
/// and `/product/{id}` is answered with status 404 and the text "The page you
/// requested could not be found", and the backend is not asked.
pub proof fn lemma_unknown_paths_are_not_found<P>(method: Seq<char>, path: Seq<char>)
    requires
        Method::of(method).allowed(),
        !names_a_page(path),
    ensures
        decide::<P>(method, path) == DispatchView::Reply(ResponseView::<P>::page_not_found()),
        ResponseView::<P>::page_not_found().status == 404,
        ResponseView::<P>::page_not_found().body == BodyView::<P>::Text(
            "The page you requested could not be found"@,
        ),
{
}

/// Looking a product up is repeatable. The response to `GET /product/{id}`
/// depends on the path and on the backend's answer to the one query that the
/// path determines, and on nothing else: not on the request body, and not on
/// any request that went before. Against an unchanged backend the same
/// lookup therefore yields the same response, which is the product with
/// status 200 or "Product Not Found" with status 404.
pub proof fn lemma_lookup_is_repeatable<P>(
    path: Seq<char>,
    first_body: Seq<char>,
    second_body: Seq<char>,
    backend: spec_fn(Seq<char>) -> EnvelopeView<P>,
)
    requires
        Route::of_request(Method::Get, path) == Route::GetProductById,
    ensures
        ({
            let lookup = OperationView::GetProductById { id: slug_of(path) };
            let first = exchange("GET"@, path, first_body, backend);
            let second = exchange("GET"@, path, second_body, backend);
            &&& decide::<P>("GET"@, path) == DispatchView::<P>::Forward(lookup)
            &&& lookup.query(first_body) == find_product_text(slug_of(path))
            &&& lookup.query(second_body) == find_product_text(slug_of(path))
            &&& first == lookup.reply(backend(find_product_text(slug_of(path))))
            &&& first == second
            &&& first matches Ok(response) ==> response.status == 200 || response.status == 404
        }),
{
}

/// The pieces of `/product/{id}` are the empty text, `product` and the id.
proof fn lemma_pieces_of_product_path(id: Seq<char>)
    requires
        forall|j: int| 0 <= j < id.len() ==> id[j] != PATH_SEPARATOR,
    ensures
        split_on(product_path(id), PATH_SEPARATOR) == seq![Seq::empty(), PRODUCT_RESOURCE@, id],
{
    reveal_strlit("/product/");
    reveal_strlit("product");
    let path = product_path(id);
    let after_first = path.skip(1);
    let after_second = after_first.skip(8);
    lemma_split_at(path, PATH_SEPARATOR, 0);
    lemma_split_at(after_first, PATH_SEPARATOR, 7);
    assert(after_second =~= id);
    lemma_split_whole(id, PATH_SEPARATOR);
    assert(path.take(0) =~= Seq::empty());
    assert(after_first.take(7) =~= PRODUCT_RESOURCE@);
    assert(split_on(path, PATH_SEPARATOR) =~= seq![Seq::empty(), PRODUCT_RESOURCE@, id]);
}

/// The three fixed paths of the service: `GET /` is answered with the
/// welcome page, `POST /product` creates a product and `GET /product` lists
/// all of them.
pub proof fn lemma_fixed_paths<P>()
    ensures
        decide::<P>("GET"@, "/"@) == DispatchView::Reply(ResponseView::<P>::welcome()),
        decide::<P>("POST"@, "/product"@) == DispatchView::<P>::Forward(
            OperationView::CreateProduct,
        ),
        decide::<P>("GET"@, "/product"@) == DispatchView::<P>::Forward(
            OperationView::ListProducts,
        ),
{
    lemma_method_tokens();
    reveal_strlit("/");
    reveal_strlit("/product");
    reveal_strlit("product");
    let root = "/"@;
    lemma_split_at(root, PATH_SEPARATOR, 0);
    lemma_split_whole(root.skip(1), PATH_SEPARATOR);
    assert(root.take(0) =~= Seq::empty());
    assert(split_on(root, PATH_SEPARATOR) =~= seq![Seq::empty(), root.skip(1)]);
    let listing = "/product"@;
    lemma_split_at(listing, PATH_SEPARATOR, 0);
    lemma_split_whole(listing.skip(1), PATH_SEPARATOR);
    assert(listing.skip(1) =~= PRODUCT_RESOURCE@);
    assert(split_on(listing, PATH_SEPARATOR) =~= seq![listing.take(0), PRODUCT_RESOURCE@]);
}

/// Under `/product/{id}`, GET looks the product up, PUT updates it and
/// DELETE deletes it, each with exactly the id that the path names. This
/// holds for every id that is one piece of a path.
pub proof fn lemma_product_paths<P>(id: Seq<char>)
    requires
        is_path_piece(id),
    ensures
        decide::<P>("GET"@, product_path(id)) == DispatchView::<P>::Forward(
            OperationView::GetProductById { id },
        ),
        decide::<P>("PUT"@, product_path(id)) == DispatchView::<P>::Forward(
            OperationView::UpdateProductById { id },
        ),
        decide::<P>("DELETE"@, product_path(id)) == DispatchView::<P>::Forward(
            OperationView::DeleteProductById { id },
        ),
{
    lemma_method_tokens();
    lemma_pieces_of_product_path(id);
}

/// An operation that comes out of a request and is about one product has an
/// id that is one piece of the path: not empty, and without a `/`.
pub proof fn lemma_forwarded_ids_are_path_pieces<P>(method: Seq<char>, path: Seq<char>)
    ensures
        decide::<P>(method, path) matches DispatchView::Forward(operation) ==> (
        operation.id() is Some <==> operation.route().by_id()),
        decide::<P>(method, path) matches DispatchView::Forward(operation) ==> (
        operation.id() matches Some(id) ==> is_path_piece(id)),
{
    lemma_pieces_lack_separator(path, PATH_SEPARATOR);
    let pieces = split_on(path, PATH_SEPARATOR);
    if pieces.len() > 2 {
        assert forall|j: int| 0 <= j < pieces[2].len() implies pieces[2][j] != PATH_SEPARATOR by {
            assert(pieces[2][j] != PATH_SEPARATOR);
        }
    }
}

/// Whether the status is one that the service gives.
pub open spec fn is_service_status(status: u16) -> bool {
    status == 200 || status == 201 || status == 204 || status == 404 || status == 405
}

/// Every response of the service has one of the statuses 200, 201, 204, 404
/// and 405, whether it is given on the spot or shaped from the backend's
/// answer.
pub proof fn lemma_statuses<P>(
    method: Seq<char>,
    path: Seq<char>,
    body: Seq<char>,
    backend: spec_fn(Seq<char>) -> EnvelopeView<P>,
)
    ensures
        exchange(method, path, body, backend) matches Ok(response) ==> is_service_status(
            response.status,
        ),
{
}

} // verus!
