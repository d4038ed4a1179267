use authcore::web::{client_side_redirect_location, default_cache_control, escape_html, RenderOptions};

#[test]
fn redirect_location_json() {
    assert_eq!(client_side_redirect_location("/protected"), r##"{"path":"/protected","target":"#page"}"##);
}

#[test]
fn dont_cache_pages_by_default() {
    assert_eq!(default_cache_control(true, false, false), Some("no-cache"));
    assert_eq!(default_cache_control(true, true, false), None);
    assert_eq!(default_cache_control(false, false, false), None);
}

#[test]
fn dont_cache_protected_pages() {
    assert_eq!(default_cache_control(true, false, true), Some("no-cache, private"));
}

#[test]
fn htmx_requests_skip_the_base_layout() {
    assert!(!RenderOptions::for_request(true).use_base_layout);
    assert!(RenderOptions::for_request(false).use_base_layout);
}

#[test]
fn markup_is_escaped() {
    assert_eq!(escape_html("<a href=\"x\">'&'</a>"), "&lt;a href=&quot;x&quot;&gt;&#x27;&amp;&#x27;&lt;/a&gt;");
    assert_eq!(escape_html("plain@example.com"), "plain@example.com");
}
