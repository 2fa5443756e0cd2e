use product_rest::response::{
    Body, Header, Response, ALLOW, APPLICATION_JSON, CONTENT_TYPE, METHOD_NOT_ALLOWED_TEXT,
    PAGE_NOT_FOUND_TEXT, PRODUCT_NOT_FOUND_TEXT, TEXT_HTML, TEXT_PLAIN,
};

fn header(name: &str, value: &str) -> Header {
    Header { name: name.to_string(), value: value.to_string() }
}

#[test]
fn method_not_allowed_is_405_with_allow() {
    let response = Response::<u32>::method_not_allowed();
    assert_eq!(response.status, 405);
    assert_eq!(
        response.headers,
        vec![
            header("Allow", "GET, HEAD, POST, PUT, DELETE"),
            header("Content-Type", "text/plain; charset=utf-8"),
        ]
    );
    assert_eq!(response.body, Body::Text("This method is not allowed".to_string()));
}

#[test]
fn welcome_is_200_html() {
    let response = Response::<u32>::welcome();
    assert_eq!(response.status, 200);
    assert_eq!(response.headers, vec![header("Content-Type", "text/html; charset=utf-8")]);
    assert_eq!(response.body, Body::WelcomePage);
}

#[test]
fn page_not_found_is_404_with_text() {
    let response = Response::<u32>::page_not_found();
    assert_eq!(response.status, 404);
    assert_eq!(response.headers, vec![]);
    assert_eq!(
        response.body,
        Body::Text("The page you requested could not be found".to_string())
    );
}

#[test]
fn product_not_found_is_404_with_plain_text() {
    let response = Response::<u32>::product_not_found();
    assert_eq!(response.status, 404);
    assert_eq!(response.headers, vec![header("Content-Type", "text/plain; charset=utf-8")]);
    assert_eq!(response.body, Body::Text("Product Not Found".to_string()));
}

#[test]
fn product_is_json_under_the_given_status() {
    for status in [200u16, 201] {
        let response = Response::product(status, 7u32);
        assert_eq!(response.status, status);
        assert_eq!(response.headers, vec![header("Content-Type", "application/json")]);
        assert_eq!(response.body, Body::Product(7));
    }
}

#[test]
fn product_list_is_200_json() {
    let response = Response::product_list(vec![1u32, 2, 3]);
    assert_eq!(response.status, 200);
    assert_eq!(response.headers, vec![header("Content-Type", "application/json")]);
    assert_eq!(response.body, Body::ProductList(vec![1, 2, 3]));
    let none = Response::<u32>::product_list(vec![]);
    assert_eq!(none.status, 200);
    assert_eq!(none.body, Body::ProductList(vec![]));
}

#[test]
fn no_content_is_204_and_bare() {
    let response = Response::<u32>::no_content();
    assert_eq!(response.status, 204);
    assert_eq!(response.headers, vec![]);
    assert_eq!(response.body, Body::Empty);
}

#[test]
fn fixed_texts() {
    assert_eq!(ALLOW, "Allow");
    assert_eq!(CONTENT_TYPE, "Content-Type");
    assert_eq!(TEXT_PLAIN, "text/plain; charset=utf-8");
    assert_eq!(TEXT_HTML, "text/html; charset=utf-8");
    assert_eq!(APPLICATION_JSON, "application/json");
    assert_eq!(METHOD_NOT_ALLOWED_TEXT, "This method is not allowed");
    assert_eq!(PAGE_NOT_FOUND_TEXT, "The page you requested could not be found");
    assert_eq!(PRODUCT_NOT_FOUND_TEXT, "Product Not Found");
}
