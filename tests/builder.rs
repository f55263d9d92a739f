use request_builder::builder::RequestBuilder;
use request_builder::request::{Method, Request};

fn pairs(h: &[(&str, &str)]) -> Vec<(String, String)> {
    h.iter().map(|(k, v)| (k.to_string(), v.to_string())).collect()
}

fn method_is_get(r: &Request) -> bool {
    matches!(r.method(), Method::GET)
}

#[test]
fn get_with_headers_has_no_body() {
    let req = RequestBuilder::new()
        .get()
        .url("https://www.google.com")
        .header("Token", "zxcvasdv")
        .header("user-agent", "chrome/4.20.69")
        .build();
    assert_eq!(req.url(), "https://www.google.com");
    assert!(method_is_get(&req));
    assert_eq!(req.headers(), &pairs(&[("Token", "zxcvasdv"), ("user-agent", "chrome/4.20.69")]));
    assert_eq!(req.body(), &None);
}

#[test]
fn post_with_body_keeps_body() {
    let req = RequestBuilder::new()
        .url("https://www.google.com")
        .post()
        .header("Token", "zxcvasdv")
        .body("asdf")
        .build();
    assert_eq!(req.url(), "https://www.google.com");
    assert_eq!(req.method(), Method::POST);
    assert_eq!(req.headers(), &pairs(&[("Token", "zxcvasdv")]));
    assert_eq!(req.body(), &Some("asdf".to_string()));
}

#[test]
fn post_without_body_has_none() {
    let req = RequestBuilder::new()
        .url("https://www.google.com")
        .post()
        .header("Token", "zxcvasdv")
        .build();
    assert_eq!(req.url(), "https://www.google.com");
    assert_eq!(req.method(), Method::POST);
    assert_eq!(req.headers(), &pairs(&[("Token", "zxcvasdv")]));
    assert_eq!(req.body(), &None);
}

#[test]
fn post_with_body_and_two_headers() {
    let req = RequestBuilder::new()
        .url("https://www.google.com")
        .post()
        .header("Token", "zxcvasdv")
        .header("user-agent", "chrome/4.20.69")
        .body("asdf")
        .build();
    assert_eq!(req.headers(), &pairs(&[("Token", "zxcvasdv"), ("user-agent", "chrome/4.20.69")]));
    assert_eq!(req.body(), &Some("asdf".to_string()));
}

#[test]
fn headers_keep_order_and_duplicates() {
    let req = RequestBuilder::new()
        .header("a", "1")
        .url("x")
        .header("b", "2")
        .header("a", "3")
        .post()
        .header("a", "3")
        .build();
    assert_eq!(req.headers(), &pairs(&[("a", "1"), ("b", "2"), ("a", "3"), ("a", "3")]));
}

#[test]
fn no_headers_gives_empty_list() {
    let req = RequestBuilder::new().url("x").get().build();
    assert!(req.headers().is_empty());
    assert_eq!(req.url(), "x");
}

#[test]
fn last_url_wins() {
    let req = RequestBuilder::new().url("first").get().url("second").build();
    assert_eq!(req.url(), "second");
    assert!(method_is_get(&req));
}

#[test]
fn url_may_come_after_method_and_body() {
    let req = RequestBuilder::new().post().body("payload").url("late").build();
    assert_eq!(req.url(), "late");
    assert_eq!(req.method(), Method::POST);
    assert_eq!(req.body(), &Some("payload".to_string()));
}

#[test]
fn body_before_post_is_kept() {
    let req = RequestBuilder::new().body("early").url("u").post().build();
    assert_eq!(req.method(), Method::POST);
    assert_eq!(req.body(), &Some("early".to_string()));
}

#[test]
fn body_before_get_is_dropped() {
    let req = RequestBuilder::new().body("early").get().url("u").build();
    assert!(method_is_get(&req));
    assert_eq!(req.body(), &None);
}

#[test]
fn empty_body_text_is_still_a_body() {
    let req = RequestBuilder::new().url("u").post().body("").build();
    assert_eq!(req.body(), &Some(String::new()));
}

#[test]
fn default_method_is_get() {
    assert_eq!(Method::default(), Method::GET);
}
