use bandwidth_hero_proxy::request::{parse_query_params, CompressionQuery};
use bandwidth_hero_proxy::urls::{clean_image_url, generate_url_hash};

fn query(url: Option<&str>, jpeg: Option<&str>, bw: Option<&str>, l: Option<&str>) -> CompressionQuery {
    CompressionQuery {
        url: url.map(|s| s.to_string()),
        jpeg: jpeg.map(|s| s.to_string()),
        bw: bw.map(|s| s.to_string()),
        l: l.map(|s| s.to_string()),
    }
}

#[test]
fn a_query_with_an_address_is_read() {
    let params = parse_query_params(&query(Some("  https://example.com/a.png \n"), None, None, None)).unwrap();
    assert_eq!(params.image_url, "https://example.com/a.png");
    assert!(!params.wants_jpeg);
    assert!(!params.is_grayscale);
    assert_eq!(params.quality, 40);
}

#[test]
fn flags_are_set_by_one_only() {
    let params = parse_query_params(&query(Some("u"), Some("1"), Some("1"), Some("75"))).unwrap();
    assert!(params.wants_jpeg);
    assert!(params.is_grayscale);
    assert_eq!(params.quality, 75);
    let params = parse_query_params(&query(Some("u"), Some("0"), Some("true"), Some("0"))).unwrap();
    assert!(!params.wants_jpeg);
    assert!(!params.is_grayscale);
    assert_eq!(params.quality, 0);
    let params = parse_query_params(&query(Some("u"), Some(""), Some(" 1"), Some("255"))).unwrap();
    assert!(!params.wants_jpeg);
    assert!(!params.is_grayscale);
    assert_eq!(params.quality, 255);
}

#[test]
fn an_unreadable_quality_gives_the_default() {
    for l in ["", "abc", "256", "-1", "4 0", "40.5", "1e1"] {
        let params = parse_query_params(&query(Some("u"), None, None, Some(l))).unwrap();
        assert_eq!(params.quality, 40);
    }
    let params = parse_query_params(&query(Some("u"), None, None, Some("+9"))).unwrap();
    assert_eq!(params.quality, 9);
}

#[test]
fn a_query_without_an_address_is_refused() {
    assert_eq!(
        parse_query_params(&query(None, Some("1"), None, None)).unwrap_err(),
        "Missing query parameters"
    );
    assert_eq!(
        parse_query_params(&query(Some(""), None, None, None)).unwrap_err(),
        "Missing query parameters"
    );
    assert_eq!(
        parse_query_params(&query(Some(" \t\n\u{a0}\u{3000}"), None, None, None)).unwrap_err(),
        "Missing query parameters"
    );
}

#[test]
fn addresses_are_brought_into_canonical_form() {
    assert_eq!(clean_image_url("https://example.com"), Ok("https://example.com/".to_string()));
    assert_eq!(
        clean_image_url("  HTTP://EXAMPLE.com/a b?q=1#f  "),
        Ok("http://example.com/a%20b?q=1#f".to_string())
    );
    assert_eq!(
        clean_image_url("https://example.com:443/x/../y"),
        Ok("https://example.com/y".to_string())
    );
}

#[test]
fn texts_that_are_no_address_are_refused() {
    for text in ["", "   ", "example.com/a.png", "/a.png", "http://", "://x", "https://exa mple.com"] {
        assert_eq!(clean_image_url(text), Err("Invalid URL".to_string()));
    }
}

#[test]
fn the_identifier_is_the_md5_digest_in_hex() {
    assert_eq!(generate_url_hash(""), "d41d8cd98f00b204e9800998ecf8427e");
    assert_eq!(generate_url_hash("a"), "0cc175b9c0f1b6a831c399e269772661");
    assert_eq!(generate_url_hash("abc"), "900150983cd24fb0d6963f7d28e17f72");
    assert_eq!(generate_url_hash("hello world"), "5eb63bbbe01eeed093cb22bb8f5acdc3");
    assert_eq!(
        generate_url_hash("https://example.com/image.jpg"),
        "18867d45576d8283d6fabb82406789c8"
    );
    assert_eq!(generate_url_hash("https://example.com/image.jpg").len(), 32);
    assert_ne!(generate_url_hash("https://example.com/"), generate_url_hash("https://example.com"));
}

#[test]
fn white_space_is_what_unicode_says_it_is() {
    let white = |c: char| {
        matches!(
            c,
            '\u{9}'..='\u{d}'
                | ' '
                | '\u{85}'
                | '\u{a0}'
                | '\u{1680}'
                | '\u{2000}'..='\u{200a}'
                | '\u{2028}'
                | '\u{2029}'
                | '\u{202f}'
                | '\u{205f}'
                | '\u{3000}'
        )
    };
    for c in (0u32..=0x3100).chain(0xfe00..=0xff00).filter_map(char::from_u32) {
        let padded = format!("{c}{c}x y{c}");
        let params = parse_query_params(&query(Some(&padded), None, None, None)).unwrap();
        if white(c) {
            assert_eq!(params.image_url, "x y", "{:?}", c);
            assert!(parse_query_params(&query(Some(&c.to_string()), None, None, None)).is_err());
        } else {
            assert_eq!(params.image_url, padded, "{:?}", c);
            assert!(parse_query_params(&query(Some(&c.to_string()), None, None, None)).is_ok());
        }
    }
}
