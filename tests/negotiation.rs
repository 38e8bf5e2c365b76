use atomic_server::content_type::{get_accept, parse_accept_header, ContentType};
use atomic_server::resource::{response_headers, serializer_for, Serializer};
use atomic_server::subject::{request_target, try_extension};
use atomic_server::text::{chars_of, contains_chars, same_text, starts_with_chars};

#[test]
fn mime_types_per_format() {
    assert_eq!(ContentType::Json.to_mime(), "application/json");
    assert_eq!(ContentType::JsonLd.to_mime(), "application/ld+json");
    assert_eq!(ContentType::JsonAd.to_mime(), "application/ad+json");
    assert_eq!(ContentType::Html.to_mime(), "text/html");
    assert_eq!(ContentType::Turtle.to_mime(), "text/turtle");
    assert_eq!(ContentType::NTriples.to_mime(), "application/n-triples");
}

#[test]
fn accept_header_selects_json_ld() {
    assert_eq!(get_accept(Some("application/ld+json")), ContentType::JsonLd);
}

#[test]
fn accept_header_absent_or_unknown_is_html() {
    assert_eq!(get_accept(None), ContentType::Html);
    assert_eq!(get_accept(Some("")), ContentType::Html);
    assert_eq!(parse_accept_header("image/png, audio/ogg"), ContentType::Html);
}

#[test]
fn accept_header_first_known_range_wins() {
    assert_eq!(parse_accept_header("image/png, text/turtle, application/json"), ContentType::Turtle);
    assert_eq!(parse_accept_header("application/ad+json"), ContentType::JsonAd);
    assert_eq!(parse_accept_header("application/json;q=0.9"), ContentType::Json);
    assert_eq!(parse_accept_header("application/n-triples"), ContentType::NTriples);
    assert_eq!(
        parse_accept_header("text/html,application/xhtml+xml,application/xml;q=0.9"),
        ContentType::Html
    );
    assert_eq!(parse_accept_header("application/xml"), ContentType::Html);
}

#[test]
fn extension_splits_known_formats() {
    assert_eq!(try_extension("res1.ttl"), Some((ContentType::Turtle, "res1".to_string())));
    assert_eq!(try_extension("res1.json"), Some((ContentType::Json, "res1".to_string())));
    assert_eq!(try_extension("res1.jsonld"), Some((ContentType::JsonLd, "res1".to_string())));
    assert_eq!(try_extension("res1.jsonad"), Some((ContentType::JsonAd, "res1".to_string())));
    assert_eq!(try_extension("a/b.html"), Some((ContentType::Html, "a/b".to_string())));
    assert_eq!(
        try_extension("docs/v1.2/res1.ttl"),
        Some((ContentType::Turtle, "docs/v1.2/res1".to_string()))
    );
    assert_eq!(try_extension("a.b.ttl"), Some((ContentType::Turtle, "a.b".to_string())));
}

#[test]
fn extension_rejects_unknown_or_missing() {
    assert_eq!(try_extension("res1"), None);
    assert_eq!(try_extension("res1.png"), None);
    assert_eq!(try_extension("a.b/c"), None);
    assert_eq!(try_extension("res1."), None);
    assert_eq!(try_extension(""), None);
}

#[test]
fn target_of_extension_path() {
    let t = request_target("https://example.com", Some("res1.ttl"), "", ContentType::Html);
    assert_eq!(t.subject, "https://example.com/res1");
    assert_eq!(t.content_type, ContentType::Turtle);
}

#[test]
fn target_keeps_extension_when_accept_decided() {
    let t = request_target("https://example.com", Some("res1.ttl"), "", ContentType::Json);
    assert_eq!(t.subject, "https://example.com/res1.ttl");
    assert_eq!(t.content_type, ContentType::Json);
}

#[test]
fn target_of_home_and_query() {
    let home = request_target("https://example.com", None, "x=1", ContentType::JsonLd);
    assert_eq!(home.subject, "https://example.com");
    assert_eq!(home.content_type, ContentType::JsonLd);
    let empty = request_target("https://example.com", Some(""), "", ContentType::Html);
    assert_eq!(empty.subject, "https://example.com");
    let q = request_target("https://example.com", Some("collections"), "page=2", ContentType::Html);
    assert_eq!(q.subject, "https://example.com/collections?page=2");
    assert_eq!(q.content_type, ContentType::Html);
}

#[test]
fn serializer_table() {
    assert_eq!(serializer_for(ContentType::Html), Serializer::JsonAd);
    assert_eq!(serializer_for(ContentType::JsonAd), Serializer::JsonAd);
    assert_eq!(serializer_for(ContentType::Json), Serializer::Json);
    assert_eq!(serializer_for(ContentType::JsonLd), Serializer::JsonLd);
    assert_eq!(serializer_for(ContentType::Turtle), Serializer::NTriples);
    assert_eq!(serializer_for(ContentType::NTriples), Serializer::NTriples);
}

#[test]
fn headers_never_cache() {
    let h = response_headers(ContentType::Turtle);
    assert_eq!(h.len(), 2);
    assert_eq!(h[0], ("Content-Type".to_string(), "text/turtle".to_string()));
    assert_eq!(
        h[1],
        (
            "Cache-Control".to_string(),
            "no-store, no-cache, must-revalidate, private".to_string()
        )
    );
}

#[test]
fn text_search_and_equality() {
    assert!(contains_chars(&chars_of("https://localhost/res1"), &chars_of("localhost/")));
    assert!(!contains_chars(&chars_of("https://other.example/res1"), &chars_of("localhost")));
    assert!(contains_chars(&chars_of("abc"), &chars_of("")));
    assert!(!contains_chars(&chars_of(""), &chars_of("a")));
    assert!(starts_with_chars(&chars_of("https://localhost/res1"), &chars_of("https://localhost")));
    assert!(!starts_with_chars(&chars_of("https://local"), &chars_of("https://localhost")));
    assert!(same_text("ttl", "ttl"));
    assert!(!same_text("ttl", "tt"));
}
