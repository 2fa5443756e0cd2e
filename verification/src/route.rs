//! The routes of the service and the table that selects one.

use vstd::prelude::*;
use crate::method::Method;
use crate::path::{has_resource, resource_of, slug_of, split_path};
use crate::text::text_eq;

verus! {

/// The one resource that the service knows.
pub const PRODUCT_RESOURCE: &'static str = "product";

/// What a request asks for. Every request falls under exactly one case.
#[derive(Clone, Copy, Debug, PartialEq, Eq, Structural)]
pub enum Route {
    /// `GET /`: the welcome page.
    Welcome,
    /// `POST /product`: create a product from the request body.
    CreateProduct,
    /// `GET /product/{id}`: find one product.
    GetProductById,
    /// `PUT /product/{id}`: replace one product by the request body.
    UpdateProductById,
    /// `DELETE /product/{id}`: delete one product.
    DeleteProductById,
    /// `GET /product`: list all products.
    ListProducts,
    /// Anything else.
    NotFound,
}

/// The shape in which the backend wraps its answer.
#[derive(Clone, Copy, Debug, PartialEq, Eq, Structural)]
pub enum Shape {
    /// One product, or none.
    SingleProduct,
    /// A list of products.
    ProductList,
}

impl Route {
    /// The routing table: the first row that fits wins.
    pub open spec fn select(method: Method, resource: Seq<char>, slug: Seq<char>) -> Route {
        if method == Method::Get && resource.len() == 0 && slug.len() == 0 {
            Route::Welcome
        } else if method == Method::Post && resource == PRODUCT_RESOURCE@ && slug.len() == 0 {
            Route::CreateProduct
        } else if method == Method::Get && resource == PRODUCT_RESOURCE@ && slug.len() > 0 {
            Route::GetProductById
        } else if method == Method::Put && resource == PRODUCT_RESOURCE@ && slug.len() > 0 {
            Route::UpdateProductById
        } else if method == Method::Delete && resource == PRODUCT_RESOURCE@ && slug.len() > 0 {
            Route::DeleteProductById
        } else if method == Method::Get && resource == PRODUCT_RESOURCE@ && slug.len() == 0 {
            Route::ListProducts
        } else {
            Route::NotFound
        }
    }

    /// The route of a request: the table applied to the resource and the
    /// slug of its path. A path without a resource has no route.
    pub open spec fn of_request(method: Method, path: Seq<char>) -> Route {
        if has_resource(path) {
            Route::select(method, resource_of(path), slug_of(path))
        } else {
            Route::NotFound
        }
    }

    /// Whether the route sends a query to the backend. The welcome page and
    /// the not-found page are answered on the spot.
    pub open spec fn forwards(self) -> bool {
        self != Route::Welcome && self != Route::NotFound
    }

    /// Whether the route names one product by its id.
    pub open spec fn by_id(self) -> bool {
        self == Route::GetProductById || self == Route::UpdateProductById || self
            == Route::DeleteProductById
    }

    /// Whether the request body is the product that the route sends on.
    pub open spec fn takes_body(self) -> bool {
        self == Route::CreateProduct || self == Route::UpdateProductById
    }

    /// The status of the response where the route succeeds.
    pub open spec fn success_status(self) -> u16 {
        match self {
            Route::CreateProduct => 201,
            Route::DeleteProductById => 204,
            Route::NotFound => 404,
            _ => 200,
        }
    }

    /// The shape of the backend's answer: a list for the listing, one
    /// product for every other route.
    pub open spec fn shape(self) -> Shape {
        if self == Route::ListProducts {
            Shape::ProductList
        } else {
            Shape::SingleProduct
        }
    }

    /// Applies the routing table.
    pub fn matching(method: Method, resource: &str, slug: &str) -> (route: Route)
        ensures
            route == Route::select(method, resource@, slug@),
    {
        proof {
            reveal_strlit("product");
        }
        let no_slug = slug.is_empty();
        if resource.is_empty() {
            match method {
                Method::Get => if no_slug {
                    Route::Welcome
                } else {
                    Route::NotFound
                },
                _ => Route::NotFound,
            }
        } else if text_eq(resource, PRODUCT_RESOURCE) {
            match method {
                Method::Get => if no_slug {
                    Route::ListProducts
                } else {
                    Route::GetProductById
                },
                Method::Post => if no_slug {
                    Route::CreateProduct
                } else {
                    Route::NotFound
                },
                Method::Put => if no_slug {
                    Route::NotFound
                } else {
                    Route::UpdateProductById
                },
                Method::Delete => if no_slug {
                    Route::NotFound
                } else {
                    Route::DeleteProductById
                },
                _ => Route::NotFound,
            }
        } else {
            Route::NotFound
        }
    }

    /// The route of a request with the given method and path.
    pub fn for_request(method: Method, path: &str) -> (route: Route)
        ensures
            route == Route::of_request(method, path@),
    {
        match split_path(path) {
            Some(parts) => Route::matching(method, parts.resource, parts.slug),
            None => Route::NotFound,
        }
    }

    /// Whether the route sends a query to the backend.
    pub fn is_forwarded(&self) -> (yes: bool)
        ensures
            yes == self.forwards(),
    {
        match self {
            Route::Welcome | Route::NotFound => false,
            _ => true,
        }
    }

    /// Whether the request body is the product that the route sends on.
    pub fn needs_body(&self) -> (yes: bool)
        ensures
            yes == self.takes_body(),
    {
        match self {
            Route::CreateProduct | Route::UpdateProductById => true,
            _ => false,
        }
    }

    /// The status of the response where the route succeeds: 201 for a
    /// creation, 204 for a deletion, 404 for the not-found page, 200 otherwise.
    pub fn status(&self) -> (code: u16)
        ensures
            code == self.success_status(),
    {
        match self {
            Route::CreateProduct => 201,
            Route::DeleteProductById => 204,
            Route::NotFound => 404,
            _ => 200,
        }
    }

    /// The shape in which the backend answers the route's query.
    pub fn expects(&self) -> (shape: Shape)
        ensures
            shape == self.shape(),
    {
        match self {
            Route::ListProducts => Shape::ProductList,
            _ => Shape::SingleProduct,
        }
    }
}

} // verus!
