use product_rest::backend::{
    backend_request, Envelope, AUTHORIZATION, BACKEND_NAME, BEARER,
};
use product_rest::method::Method;
use product_rest::response::Header;
use product_rest::route::Shape;

#[test]
fn backend_request_is_a_post_with_bearer_and_json() {
    let request = backend_request(
        "https://graphql.fauna.com/graphql",
        "fnAEXAMPLE",
        "{\"query\": \"...\"}".to_string(),
    );
    assert_eq!(request.backend, "fauna_gql");
    assert_eq!(request.method, Method::Post);
    assert_eq!(request.url, "https://graphql.fauna.com/graphql");
    assert_eq!(
        request.headers,
        vec![
            Header { name: "Authorization".to_string(), value: "Bearer fnAEXAMPLE".to_string() },
            Header { name: "Content-Type".to_string(), value: "application/json".to_string() },
        ]
    );
    assert_eq!(request.body, "{\"query\": \"...\"}");
    assert!(request.pass);
}

#[test]
fn backend_request_takes_the_key_as_it_stands() {
    let request = backend_request("u", "", String::new());
    assert_eq!(request.headers[0].value, "Bearer ");
    let request = backend_request("u", " a b ", String::new());
    assert_eq!(request.headers[0].value, "Bearer  a b ");
    assert_eq!(request.url, "u");
    assert_eq!(request.body, "");
}

#[test]
fn backend_constants() {
    assert_eq!(BACKEND_NAME, "fauna_gql");
    assert_eq!(AUTHORIZATION, "Authorization");
    assert_eq!(BEARER, "Bearer ");
}

#[test]
fn envelopes_know_their_shape() {
    assert_eq!(Envelope::Product(Some(1u8)).shape(), Shape::SingleProduct);
    assert_eq!(Envelope::<u8>::Product(None).shape(), Shape::SingleProduct);
    assert_eq!(Envelope::ProductList(vec![1u8]).shape(), Shape::ProductList);
    assert_eq!(Envelope::<u8>::ProductList(vec![]).shape(), Shape::ProductList);
}
