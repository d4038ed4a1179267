use vstd::prelude::*;

verus! {

/// `Cache-Control` of pages that do not set their own.
pub const PAGE_CACHE_CONTROL: &'static str = "no-cache";

/// `Cache-Control` of protected pages that do not set their own.
pub const PROTECTED_PAGE_CACHE_CONTROL: &'static str = "no-cache, private";

/// `Cache-Control` of fingerprinted assets, which never change.
pub const ASSET_CACHE_CONTROL: &'static str = "public, max-age=31536000, immutable";

/// The element that a client-side redirect swaps the new page into.
pub const PAGE_CONTENT_SELECTOR: &'static str = "#page";

/// How a page is rendered for one request.
#[derive(Clone, Copy, Debug, PartialEq, Eq, Structural)]
pub struct RenderOptions {
    pub use_base_layout: bool,
}

impl RenderOptions {
    /// A request made by htmx (it carries `HX-Request`) gets the page's
    /// content alone; any other request gets the whole document.
    pub fn for_request(is_htmx_request: bool) -> (r: RenderOptions)
        ensures
            r.use_base_layout == !is_htmx_request,
    {
        RenderOptions { use_base_layout: !is_htmx_request }
    }
}

/// The page shown for an unknown path.
pub struct NotFoundTemplate {
    pub options: RenderOptions,
}

/// The `Cache-Control` value to add to a response, if any: only a
/// successful response that sets none of its own gets the default.
pub fn default_cache_control(is_success: bool, has_cache_control: bool, protected: bool) -> (r:
    Option<&'static str>)
    ensures
        r is Some <==> is_success && !has_cache_control,
        r matches Some(v) ==> v@ == (if protected {
            PROTECTED_PAGE_CACHE_CONTROL@
        } else {
            PAGE_CACHE_CONTROL@
        }),
{
    if is_success && !has_cache_control {
        if protected {
            Some(PROTECTED_PAGE_CACHE_CONTROL)
        } else {
            Some(PAGE_CACHE_CONTROL)
        }
    } else {
        None
    }
}

/// The JSON object of an `HX-Location` header that sends the browser to `path`.
pub open spec fn location_json(path: Seq<char>) -> Seq<char> {
    "{\"path\":\""@ + path + "\",\"target\":\""@ + PAGE_CONTENT_SELECTOR@ + "\"}"@
}

/// The value of the `HX-Location` header of a client-side redirect to `path`.
pub fn client_side_redirect_location(path: &str) -> (r: String)
    ensures
        r@ == location_json(path@),
{
    let mut value = String::from_str("{\"path\":\"");
    value.append(path);
    value.append("\",\"target\":\"");
    value.append(PAGE_CONTENT_SELECTOR);
    value.append("\"}");
    value
}

/// The text that stands for `c` in HTML: markup characters become entities.
pub open spec fn html_escape_char(c: char) -> Seq<char> {
    if c == '&' {
        "&amp;"@
    } else if c == '<' {
        "&lt;"@
    } else if c == '>' {
        "&gt;"@
    } else if c == '"' {
        "&quot;"@
    } else if c == '\'' {
        "&#x27;"@
    } else {
        seq![c]
    }
}

/// `s` with every markup character replaced by its entity.
pub open spec fn html_escaped(s: Seq<char>) -> Seq<char>
    decreases s.len(),
{
    if s.len() == 0 {
        seq![]
    } else {
        html_escaped(s.drop_last()) + html_escape_char(s.last())
    }
}

/// Escapes text, such as an e-mail address typed into a form, for an HTML
/// page or attribute value.
pub fn escape_html(s: &str) -> (r: String)
    ensures
        r@ == html_escaped(s@),
{
    let len = s.unicode_len();
    let mut out = String::new();
    let mut i: usize = 0;
    while i < len
        invariant
            len == s@.len(),
            i <= len,
            out@ == html_escaped(s@.subrange(0, i as int)),
        decreases len - i,
    {
        let c = s.get_char(i);
        assert(s@.subrange(0, i + 1).drop_last() =~= s@.subrange(0, i as int));
        if c == '&' {
            out.append("&amp;");
        } else if c == '<' {
            out.append("&lt;");
        } else if c == '>' {
            out.append("&gt;");
        } else if c == '"' {
            out.append("&quot;");
        } else if c == '\'' {
            out.append("&#x27;");
        } else {
            out.append(s.substring_char(i, i + 1));
        }
        i = i + 1;
    }
    assert(s@.subrange(0, len as int) =~= s@);
    out
}

} // verus!
