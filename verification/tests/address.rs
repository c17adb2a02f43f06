use browser_shell::address::{normalize_url, page_title, title_for_host};

#[test]
fn bare_host_gets_https() {
    assert_eq!(normalize_url("example.com"), "https://example.com");
    assert_eq!(normalize_url("foo.com"), "https://foo.com");
    assert_eq!(normalize_url("a.b/c?d=e"), "https://a.b/c?d=e");
    assert_eq!(normalize_url("."), "https://.");
}

#[test]
fn explicit_scheme_is_kept() {
    assert_eq!(normalize_url("https://x.com"), "https://x.com");
    assert_eq!(normalize_url("http://x.com/a b"), "http://x.com/a b");
    assert_eq!(normalize_url("https://"), "https://");
    assert_eq!(normalize_url("http://no dots"), "http://no dots");
}

#[test]
fn other_text_becomes_a_search() {
    assert_eq!(
        normalize_url("rust lang"),
        "https://www.google.com/search?q=rust+lang"
    );
    assert_eq!(
        normalize_url("what is 1.5 plus 2"),
        "https://www.google.com/search?q=what+is+1.5+plus+2"
    );
    assert_eq!(normalize_url("rust"), "https://www.google.com/search?q=rust");
    assert_eq!(normalize_url(""), "https://www.google.com/search?q=");
    assert_eq!(
        normalize_url("  two  spaces "),
        "https://www.google.com/search?q=++two++spaces+"
    );
}

#[test]
fn other_schemes_are_not_schemes_here() {
    assert_eq!(normalize_url("ftp://x.com"), "https://ftp://x.com");
    assert_eq!(normalize_url("HTTP://x.com"), "https://HTTP://x.com");
    assert_eq!(normalize_url("http:/x.com"), "https://http:/x.com");
    assert_eq!(
        normalize_url("https:"),
        "https://www.google.com/search?q=https:"
    );
}

#[test]
fn any_whitespace_makes_a_search() {
    assert_eq!(
        normalize_url("a.b\tc"),
        "https://www.google.com/search?q=a.b\tc"
    );
    assert_eq!(
        normalize_url("a.b\u{a0}c"),
        "https://www.google.com/search?q=a.b\u{a0}c"
    );
    assert_eq!(
        normalize_url("a.b\u{3000}c d"),
        "https://www.google.com/search?q=a.b\u{3000}c+d"
    );
    assert_eq!(normalize_url("a.b\u{200b}c"), "https://a.b\u{200b}c");
}

#[test]
fn whitespace_agrees_with_the_standard_library() {
    for code in 0u32..0x11000 {
        if let Some(c) = char::from_u32(code) {
            assert_eq!(
                browser_shell::text::whitespace(c),
                c.is_whitespace(),
                "U+{:04X}",
                code
            );
        }
    }
}

#[test]
fn normalizing_twice_changes_nothing_more() {
    for text in ["example.com", "https://x.com", "rust lang", "", "a b.c"] {
        let once = normalize_url(text);
        assert_eq!(normalize_url(&once), once);
    }
}

#[test]
fn title_is_the_host() {
    assert_eq!(page_title("https://foo.com"), "foo.com");
    assert_eq!(page_title("https://foo.com/x/y?z=1#top"), "foo.com");
    assert_eq!(page_title("http://user@Sub.Example.COM:8080/"), "sub.example.com");
    assert_eq!(page_title("https://127.0.0.1/index.html"), "127.0.0.1");
    assert_eq!(
        page_title("https://www.google.com/search?q=rust+lang"),
        "www.google.com"
    );
}

#[test]
fn title_falls_back_without_a_host() {
    assert_eq!(page_title("not a url"), "Page");
    assert_eq!(page_title(""), "Page");
    assert_eq!(page_title("https://"), "Page");
    assert_eq!(page_title("data:text/plain,hello"), "Page");
    assert_eq!(page_title("mailto:someone@example.com"), "Page");
}

#[test]
fn title_for_each_parse_result() {
    assert_eq!(title_for_host(None), "Page");
    assert_eq!(title_for_host(Some(None)), "Page");
    assert_eq!(title_for_host(Some(Some("foo.com".to_string()))), "foo.com");
    assert_eq!(title_for_host(Some(Some(String::new()))), "");
}
