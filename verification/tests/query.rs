use product_rest::operation::Operation;
use product_rest::query::{
    all_products_query, create_product_query, delete_product_query, find_product_query,
    update_product_query,
};

const CREATE_TEMPLATE: &str = r#"{
          "query": "mutation createProduct($product: ProductInput!) {
            product: createProduct(data: $product) {
              id: _id
              serialNumber
              title
              weightLbs
              quantity
            }
          }",
          "variables": {
            "product": $REQUEST_BODY
          }
        }"#;

const FIND_TEMPLATE: &str = r#"{
          "query": "query FindProductById($id: ID!) {
            product: findProductByID(id: $id) {
              id: _id
              serialNumber
              title
              weightLbs
              quantity
            }
          }",
          "variables": {
            "id": "$PARAM_ID"
          } 
        }"#;

const UPDATE_TEMPLATE: &str = r#"{
          "query": "mutation UpdateProductById(
            $id: ID!
            $product: ProductInput!
          ) {
            product: updateProduct(
              id: $id
              data: $product
            ) {
              id: _id
              serialNumber
              title
              weightLbs
              quantity            
            }
          }",
          "variables": {
            "id": "$PARAM_ID",
            "product": $REQUEST_BODY
          }        
        }"#;

const DELETE_TEMPLATE: &str = r#"{
          "query": "mutation DeleteProductById($id: ID!) {
            product: deleteProduct(id: $id) {
              id: _id
              serialNumber
              title
              weightLbs
              quantity            
            }
          }",
          "variables": {
            "id": "$PARAM_ID"
          }        
        }"#;

const LIST_TEMPLATE: &str = r#"{
          "query": "query AllProducts {
            allProducts {
              data {
                id: _id
                serialNumber
                title
                weightLbs
                quantity
              }
            }
          }"
        }"#;

const WIDGET: &str = r#"{"serialNumber":"SN1","title":"Widget","weightLbs":1.5,"quantity":10}"#;

#[test]
fn create_query_embeds_the_body_as_product_variable() {
    let query = create_product_query(WIDGET);
    assert_eq!(query, CREATE_TEMPLATE.replace("$REQUEST_BODY", WIDGET));
    assert!(query.contains("mutation createProduct($product: ProductInput!)"));
    assert!(query.contains("product: createProduct(data: $product)"));
    assert!(query.contains(
        r#""product": {"serialNumber":"SN1","title":"Widget","weightLbs":1.5,"quantity":10}"#
    ));
}

#[test]
fn find_query_embeds_the_id() {
    let query = find_product_query("abc123");
    assert_eq!(query, FIND_TEMPLATE.replace("$PARAM_ID", "abc123"));
    assert!(query.contains("query FindProductById($id: ID!)"));
    assert!(query.contains("product: findProductByID(id: $id)"));
    assert!(query.contains(r#""id": "abc123""#));
}

#[test]
fn update_query_embeds_the_id_and_the_body() {
    let query = update_product_query("abc123", WIDGET);
    assert_eq!(
        query,
        UPDATE_TEMPLATE.replace("$PARAM_ID", "abc123").replace("$REQUEST_BODY", WIDGET)
    );
    assert!(query.contains("mutation UpdateProductById("));
    assert!(query.contains("product: updateProduct("));
    assert!(query.contains(r#""id": "abc123","#));
    assert!(query.contains(
        r#""product": {"serialNumber":"SN1","title":"Widget","weightLbs":1.5,"quantity":10}"#
    ));
}

#[test]
fn delete_query_embeds_the_id() {
    let query = delete_product_query("abc123");
    assert_eq!(query, DELETE_TEMPLATE.replace("$PARAM_ID", "abc123"));
    assert!(query.contains("mutation DeleteProductById($id: ID!)"));
    assert!(query.contains("product: deleteProduct(id: $id)"));
    assert!(query.contains(r#""id": "abc123""#));
}

#[test]
fn list_query_has_no_variables() {
    let query = all_products_query();
    assert_eq!(query, LIST_TEMPLATE);
    assert!(query.contains("query AllProducts {"));
    assert!(!query.contains("variables"));
}

#[test]
fn every_query_surfaces_the_backend_id_as_id() {
    for query in [
        create_product_query("{}"),
        find_product_query("1"),
        update_product_query("1", "{}"),
        delete_product_query("1"),
        all_products_query(),
    ] {
        assert!(query.contains("id: _id"));
        for field in ["serialNumber", "title", "weightLbs", "quantity"] {
            assert!(query.contains(field));
        }
    }
}

#[test]
fn id_and_body_are_put_in_as_they_stand() {
    let id = "a\"b é$PARAM_ID";
    let body = "not json at all $REQUEST_BODY";
    let find = find_product_query(id);
    assert!(find.contains("\"id\": \"a\"b é$PARAM_ID\""));
    let create = create_product_query(body);
    assert!(create.contains("\"product\": not json at all $REQUEST_BODY\n"));
}

#[test]
fn update_keeps_an_id_that_looks_like_the_body_variable() {
    let query = update_product_query("$REQUEST_BODY", "{}");
    assert!(query.contains(r#""id": "$REQUEST_BODY","#));
    assert!(query.contains(r#""product": {}"#));
}

#[test]
fn empty_variables_leave_the_fixed_text() {
    assert_eq!(create_product_query(""), CREATE_TEMPLATE.replace("$REQUEST_BODY", ""));
    assert_eq!(find_product_query(""), FIND_TEMPLATE.replace("$PARAM_ID", ""));
}

#[test]
fn operation_query_picks_the_request_of_the_operation() {
    let id = || "abc123".to_string();
    assert_eq!(Operation::CreateProduct.query(WIDGET), create_product_query(WIDGET));
    assert_eq!(
        Operation::GetProductById { id: id() }.query(WIDGET),
        find_product_query("abc123")
    );
    assert_eq!(
        Operation::UpdateProductById { id: id() }.query(WIDGET),
        update_product_query("abc123", WIDGET)
    );
    assert_eq!(
        Operation::DeleteProductById { id: id() }.query(WIDGET),
        delete_product_query("abc123")
    );
    assert_eq!(Operation::ListProducts.query(WIDGET), all_products_query());
}
