//! The GraphQL requests that the service sends, one per operation.
//!
//! Each request is a fixed JSON text with room for the variables: the id
//! taken from the path and the product taken from the request body. Both
//! are put in as they stand. The body is expected to be a JSON object in the
//! shape of the backend's `ProductInput`; it is not inspected here. The field
//! `id: _id` of each selection makes the backend's identifier surface as `id`.

use vstd::prelude::*;
use vstd::string::*;

verus! {

/// The creation request up to the product.
pub const CREATE_PRODUCT_HEAD: &'static str = r#"{
          "query": "mutation createProduct($product: ProductInput!) {
            product: createProduct(data: $product) {
              id: _id
              serialNumber
              title
              weightLbs
              quantity
            }
          }",
          "variables": {
            "product": "#;

/// The creation request after the product.
pub const CREATE_PRODUCT_TAIL: &'static str = r#"
          }
        }"#;

/// The lookup request up to the id.
pub const FIND_PRODUCT_HEAD: &'static str = r#"{
          "query": "query FindProductById($id: ID!) {
            product: findProductByID(id: $id) {
              id: _id
              serialNumber
              title
              weightLbs
              quantity
            }
          }",
          "variables": {
            "id": ""#;

/// The lookup request after the id.
pub const FIND_PRODUCT_TAIL: &'static str = r#""
          } 
        }"#;

/// The update request up to the id.
pub const UPDATE_PRODUCT_HEAD: &'static str = r#"{
          "query": "mutation UpdateProductById(
            $id: ID!
            $product: ProductInput!
          ) {
            product: updateProduct(
              id: $id
              data: $product
            ) {
              id: _id
              serialNumber
              title
              weightLbs
              quantity            
            }
          }",
          "variables": {
            "id": ""#;

/// The update request between the id and the product.
pub const UPDATE_PRODUCT_MIDDLE: &'static str = r#"",
            "product": "#;

/// The update request after the product.
pub const UPDATE_PRODUCT_TAIL: &'static str = r#"
          }        
        }"#;

/// The deletion request up to the id.
pub const DELETE_PRODUCT_HEAD: &'static str = r#"{
          "query": "mutation DeleteProductById($id: ID!) {
            product: deleteProduct(id: $id) {
              id: _id
              serialNumber
              title
              weightLbs
              quantity            
            }
          }",
          "variables": {
            "id": ""#;

/// The deletion request after the id.
pub const DELETE_PRODUCT_TAIL: &'static str = r#""
          }        
        }"#;

/// The listing request. It has no variables.
pub const ALL_PRODUCTS_QUERY: &'static str = r#"{
          "query": "query AllProducts {
            allProducts {
              data {
                id: _id
                serialNumber
                title
                weightLbs
                quantity
              }
            }
          }"
        }"#;

/// The request that creates the product written in `product`.
pub open spec fn create_product_text(product: Seq<char>) -> Seq<char> {
    CREATE_PRODUCT_HEAD@ + product + CREATE_PRODUCT_TAIL@
}

/// The request that looks up the product with the given id.
pub open spec fn find_product_text(id: Seq<char>) -> Seq<char> {
    FIND_PRODUCT_HEAD@ + id + FIND_PRODUCT_TAIL@
}

/// The request that replaces the product with the given id by `product`.
pub open spec fn update_product_text(id: Seq<char>, product: Seq<char>) -> Seq<char> {
    UPDATE_PRODUCT_HEAD@ + id + UPDATE_PRODUCT_MIDDLE@ + product + UPDATE_PRODUCT_TAIL@
}

/// The request that deletes the product with the given id.
pub open spec fn delete_product_text(id: Seq<char>) -> Seq<char> {
    DELETE_PRODUCT_HEAD@ + id + DELETE_PRODUCT_TAIL@
}

/// Renders the `createProduct` mutation with `product` as its `$product`.
pub fn create_product_query(product: &str) -> (query: String)
    ensures
        query@ == create_product_text(product@),
{
    let mut query = CREATE_PRODUCT_HEAD.to_owned();
    query.append(product);
    query.append(CREATE_PRODUCT_TAIL);
    query
}

/// Renders the `findProductByID` query with `id` as its `$id`.
pub fn find_product_query(id: &str) -> (query: String)
    ensures
        query@ == find_product_text(id@),
{
    let mut query = FIND_PRODUCT_HEAD.to_owned();
    query.append(id);
    query.append(FIND_PRODUCT_TAIL);
    query
}

/// Renders the `updateProduct` mutation with `id` as its `$id` and `product`
/// as its `$product`.
pub fn update_product_query(id: &str, product: &str) -> (query: String)
    ensures
        query@ == update_product_text(id@, product@),
{
    let mut query = UPDATE_PRODUCT_HEAD.to_owned();
    query.append(id);
    query.append(UPDATE_PRODUCT_MIDDLE);
    query.append(product);
    query.append(UPDATE_PRODUCT_TAIL);
    query
}

/// Renders the `deleteProduct` mutation with `id` as its `$id`.
pub fn delete_product_query(id: &str) -> (query: String)
    ensures
        query@ == delete_product_text(id@),
{
    let mut query = DELETE_PRODUCT_HEAD.to_owned();
    query.append(id);
    query.append(DELETE_PRODUCT_TAIL);
    query
}

/// Renders the `allProducts` query.
pub fn all_products_query() -> (query: String)
    ensures
        query@ == ALL_PRODUCTS_QUERY@,
{
    ALL_PRODUCTS_QUERY.to_owned()
}

} // verus!
