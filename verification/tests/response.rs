use bandwidth_hero_proxy::response::{
    check_header_value, create_error_response, create_image_response, get_cache_headers,
};
use bandwidth_hero_proxy::string_map::StringMap;

#[test]
fn replies_forbid_caching() {
    let headers = get_cache_headers(None);
    assert_eq!(headers.len(), 5);
    assert_eq!(headers.get("content-encoding"), Some(&"identity".to_string()));
    assert_eq!(
        headers.get("cache-control"),
        Some(&"private, no-store, no-cache, must-revalidate, max-age=0".to_string())
    );
    assert_eq!(headers.get("pragma"), Some(&"no-cache".to_string()));
    assert_eq!(headers.get("expires"), Some(&"0".to_string()));
    assert_eq!(headers.get("vary"), Some(&"url, jpeg, grayscale, quality".to_string()));
}

#[test]
fn custom_headers_win() {
    let mut custom = StringMap::new();
    custom.insert("expires".to_string(), "1".to_string());
    custom.insert("x-extra".to_string(), "yes".to_string());
    let headers = get_cache_headers(Some(custom));
    assert_eq!(headers.len(), 6);
    assert_eq!(headers.get("expires"), Some(&"1".to_string()));
    assert_eq!(headers.get("x-extra"), Some(&"yes".to_string()));
    assert_eq!(headers.get("pragma"), Some(&"no-cache".to_string()));
}

#[test]
fn an_error_reply_holds_what_it_is_given() {
    let (status, body) = create_error_response(502, "Upstream fetch failed", Some("http://x/".to_string()));
    assert_eq!(status, 502);
    assert_eq!(body.error, "Upstream fetch failed");
    assert_eq!(body.url, Some("http://x/".to_string()));
    let (status, body) = create_error_response(400, "Invalid URL", None);
    assert_eq!(status, 400);
    assert_eq!(body.error, "Invalid URL");
    assert_eq!(body.url, None);
}

#[test]
fn an_image_reply_declares_type_and_length() {
    let reply = create_image_response(vec![9u8; 1234], "image/webp", None);
    assert_eq!(reply.body, vec![9u8; 1234]);
    assert_eq!(reply.headers.len(), 7);
    assert_eq!(reply.headers.get("content-type"), Some(&"image/webp".to_string()));
    assert_eq!(reply.headers.get("content-length"), Some(&"1234".to_string()));
    assert_eq!(reply.headers.get("pragma"), Some(&"no-cache".to_string()));
    let reply = create_image_response(Vec::new(), "", None);
    assert_eq!(reply.headers.get("content-type"), Some(&"".to_string()));
    assert_eq!(reply.headers.get("content-length"), Some(&"0".to_string()));
}

#[test]
fn a_type_that_no_header_can_hold_is_replaced() {
    let reply = create_image_response(vec![1], "image/png\r\nx-injected: 1", None);
    assert_eq!(reply.headers.get("content-type"), Some(&"image/jpeg".to_string()));
    let mut custom = StringMap::new();
    custom.insert("content-type".to_string(), "text/plain".to_string());
    custom.insert("content-length".to_string(), "99".to_string());
    let reply = create_image_response(vec![1, 2], "image/gif", Some(custom));
    assert_eq!(reply.headers.get("content-type"), Some(&"image/gif".to_string()));
    assert_eq!(reply.headers.get("content-length"), Some(&"2".to_string()));
    assert_eq!(reply.headers.len(), 7);
}

#[test]
fn header_values_hold_no_control_characters() {
    assert!(check_header_value("image/jpeg"));
    assert!(check_header_value(""));
    assert!(check_header_value("a\tb"));
    assert!(check_header_value("~ !"));
    assert!(check_header_value("caf\u{e9}"));
    assert!(!check_header_value("a\nb"));
    assert!(!check_header_value("a\rb"));
    assert!(!check_header_value("\u{0}"));
    assert!(!check_header_value("\u{1f}"));
    assert!(!check_header_value("del\u{7f}"));
}

#[test]
fn header_values_are_judged_as_the_http_crate_judges_them() {
    let mut samples: Vec<String> = (0u32..=300).filter_map(char::from_u32).map(|c| c.to_string()).collect();
    samples.push("image/avif".to_string());
    samples.push("a\u{7f}b".to_string());
    samples.push("tab\tinside".to_string());
    samples.push("\u{2028}".to_string());
    for sample in samples {
        assert_eq!(
            check_header_value(&sample),
            axum::http::HeaderValue::from_str(&sample).is_ok(),
            "{:?}",
            sample
        );
    }
}
