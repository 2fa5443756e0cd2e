use product_rest::fault::{Fault, MALFORMED_ANSWER_TEXT, MISSING_API_KEY_TEXT};
use product_rest::settings::{
    get_api_key, get_fauna_url, API_KEY_ENTRY, CONFIG_STORE, DEFAULT_URL, URL_ENTRY,
};

#[test]
fn api_key_is_the_entry() {
    assert_eq!(get_api_key(Some("fnAEXAMPLE".to_string())), Ok("fnAEXAMPLE".to_string()));
    assert_eq!(get_api_key(Some(String::new())), Ok(String::new()));
}

#[test]
fn missing_api_key_is_a_fault() {
    assert_eq!(get_api_key(None), Err(Fault::MissingApiKey));
}

#[test]
fn url_is_the_entry() {
    assert_eq!(
        get_fauna_url(Some("https://graphql.eu.fauna.com/graphql".to_string())),
        "https://graphql.eu.fauna.com/graphql"
    );
    assert_eq!(get_fauna_url(Some(String::new())), "");
}

#[test]
fn missing_url_falls_back_to_the_default() {
    assert_eq!(get_fauna_url(None), "https://graphql.fauna.com/graphql");
    assert_eq!(DEFAULT_URL, "https://graphql.fauna.com/graphql");
}

#[test]
fn store_and_entries_are_named() {
    assert_eq!(CONFIG_STORE, "fauna_env");
    assert_eq!(API_KEY_ENTRY, "key");
    assert_eq!(URL_ENTRY, "url");
}

#[test]
fn faults_describe_themselves() {
    assert_eq!(Fault::MissingApiKey.message(), "No Fauna API key!");
    assert_eq!(Fault::MissingApiKey.message(), MISSING_API_KEY_TEXT);
    assert_eq!(Fault::MalformedAnswer.message(), MALFORMED_ANSWER_TEXT);
    assert_ne!(Fault::MissingApiKey.message(), Fault::MalformedAnswer.message());
}
