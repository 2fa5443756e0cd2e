use product_rest::text::text_eq;

#[test]
fn equal_texts_are_equal() {
    assert!(text_eq("", ""));
    assert!(text_eq("product", "product"));
    assert!(text_eq("prodüct/日本", "prodüct/日本"));
}

#[test]
fn different_texts_are_different() {
    assert!(!text_eq("product", "products"));
    assert!(!text_eq("products", "product"));
    assert!(!text_eq("product", "produkt"));
    assert!(!text_eq("", "x"));
    assert!(!text_eq("GET", "get"));
    assert!(!text_eq("é", "e"));
}

#[test]
fn text_eq_agrees_with_std() {
    let samples = ["", "/", "a", "ab", "ba", "é", "e\u{301}", "product", "Product"];
    for a in samples {
        for b in samples {
            assert_eq!(text_eq(a, b), a == b, "{:?} {:?}", a, b);
        }
    }
}
