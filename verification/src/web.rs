//! What the worker and the pages decide around a request: form fields,
//! asset paths, response headers, and the remembered operator handle.
use vstd::prelude::*;
use crate::text::{chars_of, owned, push_str, trim, trimmed};

verus! {

/// A form field as an optional value: blank (after trimming) is `None`,
/// anything else is kept trimmed.
pub fn empty_to_none(value: String) -> (r: Option<String>)
    ensures
        trimmed(value@).len() == 0 ==> r is None,
        trimmed(value@).len() > 0 ==> (r matches Some(v) && v@ == trimmed(value@)),
{
    let t = trim(value.as_str());
    if chars_of(t.as_str()).len() == 0 {
        None
    } else {
        Some(t)
    }
}

/// The path of a built asset: `/{pkg_dir}/{output_name}.{extension}`, with
/// the content hash before the extension when there is one.
pub fn asset_href(pkg_dir: &str, output_name: &str, extension: &str, hash: &str) -> (r: String)
    ensures
        hash@.len() == 0 ==> r@ == "/"@ + pkg_dir@ + "/"@ + output_name@ + "."@ + extension@,
        hash@.len() > 0 ==> r@ == "/"@ + pkg_dir@ + "/"@ + output_name@ + "."@ + hash@ + "."@
            + extension@,
{
    let mut r = owned("/");
    push_str(&mut r, pkg_dir);
    push_str(&mut r, "/");
    push_str(&mut r, output_name);
    push_str(&mut r, ".");
    if chars_of(hash).len() > 0 {
        push_str(&mut r, hash);
        push_str(&mut r, ".");
    }
    push_str(&mut r, extension);
    r
}

/// The feedback link, a mail draft stamped with the build the operator
/// is on.
pub fn feedback_href(email: &str, version: &str, sha: &str) -> (r: String)
    ensures
        r@ == "mailto:"@ + email@ + "?subject=WHL%20feedback%20(v"@ + version@ + "%20"@ + sha@
            + ")"@,
{
    let mut r = owned("mailto:");
    push_str(&mut r, email);
    push_str(&mut r, "?subject=WHL%20feedback%20(v");
    push_str(&mut r, version);
    push_str(&mut r, "%20");
    push_str(&mut r, sha);
    push_str(&mut r, ")");
    r
}

/// The cache policy of a response: pages (GET or HEAD) revalidate on
/// every navigation but stay in the back-forward cache; everything else,
/// the server-function calls, is never stored.
pub fn cache_control(is_get_or_head: bool) -> (v: &'static str)
    ensures
        is_get_or_head ==> v@ == "private, no-cache"@,
        !is_get_or_head ==> v@ == "no-store"@,
{
    if is_get_or_head {
        "private, no-cache"
    } else {
        "no-store"
    }
}

/// The content security policy: everything is served from this origin;
/// the WebAssembly module needs `wasm-unsafe-eval` and the hydration
/// bootstrap is an inline module script; no framing, plugins or `<base>`.
pub open spec fn csp_text() -> Seq<char> {
    "default-src 'self'; script-src 'self' 'unsafe-inline' 'wasm-unsafe-eval'; style-src 'self'; img-src 'self' data:; font-src 'self'; connect-src 'self'; frame-ancestors 'none'; object-src 'none'; base-uri 'self'"@
}

/// The content security policy, as sent.
pub fn csp() -> (p: &'static str)
    ensures
        p@ == csp_text(),
{
    "default-src 'self'; script-src 'self' 'unsafe-inline' 'wasm-unsafe-eval'; style-src 'self'; img-src 'self' data:; font-src 'self'; connect-src 'self'; frame-ancestors 'none'; object-src 'none'; base-uri 'self'"
}

/// The security headers every response carries, name and value.
pub fn security_headers() -> (h: Vec<(&'static str, &'static str)>)
    ensures
        h@.len() == 6,
        h@[0].0@ == "x-content-type-options"@ && h@[0].1@ == "nosniff"@,
        h@[1].0@ == "referrer-policy"@ && h@[1].1@ == "strict-origin-when-cross-origin"@,
        h@[2].0@ == "content-security-policy"@ && h@[2].1@ == csp_text(),
        h@[3].0@ == "x-frame-options"@ && h@[3].1@ == "DENY"@,
        h@[4].0@ == "strict-transport-security"@ && h@[4].1@ == "max-age=31536000; includeSubDomains"@,
        h@[5].0@ == "permissions-policy"@ && h@[5].1@
            == "camera=(), microphone=(), geolocation=(), interest-cohort=()"@,
{
    let mut h: Vec<(&'static str, &'static str)> = Vec::new();
    h.push(("x-content-type-options", "nosniff"));
    h.push(("referrer-policy", "strict-origin-when-cross-origin"));
    h.push(("content-security-policy", csp()));
    h.push(("x-frame-options", "DENY"));
    h.push(("strict-transport-security", "max-age=31536000; includeSubDomains"));
    h.push(("permissions-policy", "camera=(), microphone=(), geolocation=(), interest-cohort=()"));
    h
}

/// The handle saved for a name: the trimmed name, or nothing when blank.
pub open spec fn operator_saved(name: Seq<char>) -> Option<Seq<char>> {
    if trimmed(name).len() == 0 {
        None
    } else {
        Some(trimmed(name))
    }
}

/// The handle loaded from what storage holds: a non-empty stored value,
/// or nothing.
pub open spec fn operator_loaded(stored: Option<Seq<char>>) -> Option<Seq<char>> {
    match stored {
        Some(s) => if s.len() > 0 { Some(s) } else { None },
        None => None,
    }
}

/// What storage holds after saving `name` over `prior`: the saved handle,
/// or `prior` untouched when there is nothing to save.
pub open spec fn operator_stored_after(name: Seq<char>, prior: Option<Seq<char>>) -> Option<Seq<char>> {
    match operator_saved(name) {
        Some(v) => Some(v),
        None => prior,
    }
}

/// The operator handle worth remembering: the trimmed name, unless it is
/// blank.
pub fn operator_to_save(name: &str) -> (r: Option<String>)
    ensures
        r.deep_view() == operator_saved(name@),
        trimmed(name@).len() == 0 ==> r is None,
        trimmed(name@).len() > 0 ==> (r matches Some(v) && v@ == trimmed(name@)),
{
    let t = trim(name);
    if chars_of(t.as_str()).len() == 0 {
        None
    } else {
        Some(t)
    }
}

/// A remembered operator handle, unless it is empty.
pub fn remembered_operator(stored: Option<String>) -> (r: Option<String>)
    ensures
        r.deep_view() == operator_loaded(stored.deep_view()),
        stored.deep_view() matches Some(s) && s.len() > 0 ==> r == stored,
        !(stored.deep_view() matches Some(s) && s.len() > 0) ==> r is None,
{
    match stored {
        Some(s) => {
            if chars_of(s.as_str()).len() > 0 {
                Some(s)
            } else {
                None
            }
        },
        None => None,
    }
}

/// Saving the operator's handle and loading it back: a non-blank name is
/// loaded back trimmed; a blank one saves nothing, so what was remembered
/// before is what loads; with nothing ever stored nothing loads.
pub proof fn lemma_operator_reads_back(name: Seq<char>, prior: Option<Seq<char>>)
    ensures
        trimmed(name).len() > 0 ==> operator_loaded(operator_stored_after(name, prior)) == Some(
            trimmed(name),
        ),
        trimmed(name).len() == 0 ==> operator_stored_after(name, prior) == prior,
        operator_loaded(None) is None,
{
}

} // verus!
