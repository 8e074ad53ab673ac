//! The request router: from a URL path, the settings and the asset store to
//! the response that answers it.
use vstd::prelude::*;
use crate::assets::{Assets, entries_wf, lemma_lookup_relative, lookup};
use crate::response::{
    Response, ResponseView, not_found, not_found_view, ok_response, ok_view, text_html,
};
use crate::settings::{WebConsoleSettings, json_string_of, serve_settings, settings_view};

verus! {

/// The content type that mime_guess gives for a path, by its extension.
pub uninterp spec fn mime_type_of(path: Seq<char>) -> Seq<char>;

/// Relies on mime_guess::from_path and MimeGuess::first_or_octet_stream: the
/// first type known for the path's extension, else `application/octet-stream`;
/// it depends on the path alone.
#[verifier::external_body]
fn guess_mime(path: &str) -> (r: String)
    ensures
        r@ == mime_type_of(path@),
{
    let mime = mime_guess::from_path(path).first_or_octet_stream();
    let s: &str = mime.as_ref();
    s.to_string()
}

/// The path of the settings document.
pub open spec fn settings_path() -> Seq<char> {
    "subscriber.json"@
}

/// The path of the entry document.
pub open spec fn entry_path() -> Seq<char> {
    "index.html"@
}

/// The request path as a store key: one leading `/` taken off.
pub open spec fn normalize(path: Seq<char>) -> Seq<char> {
    if path.len() > 0 && path[0] == '/' {
        path.drop_first()
    } else {
        path
    }
}

/// The answer for the entry document.
pub open spec fn entry_view(entries: Seq<(Seq<char>, Seq<u8>)>) -> ResponseView {
    match lookup(entries, entry_path()) {
        Some(d) => ok_view(text_html(), d),
        None => not_found_view(),
    }
}

/// The answer for a store key that is neither the root nor the entry
/// document: the asset, else a 404 for a path with a dot, else the entry
/// document.
pub open spec fn asset_view(entries: Seq<(Seq<char>, Seq<u8>)>, path: Seq<char>) -> ResponseView {
    match lookup(entries, path) {
        Some(d) => ok_view(mime_type_of(path), d),
        None => if path.contains('.') {
            not_found_view()
        } else {
            entry_view(entries)
        },
    }
}

/// The answer for a store key once the settings document is out of the way.
pub open spec fn document_or_asset_view(
    entries: Seq<(Seq<char>, Seq<u8>)>,
    path: Seq<char>,
) -> ResponseView {
    if path.len() == 0 || path == entry_path() {
        entry_view(entries)
    } else {
        asset_view(entries, path)
    }
}

/// The answer for a request path, given the target address and the store.
pub open spec fn route(
    path: Seq<char>,
    target: Option<Seq<char>>,
    entries: Seq<(Seq<char>, Seq<u8>)>,
) -> ResponseView {
    let key = normalize(path);
    match target {
        Some(s) if key == settings_path() => settings_view(json_string_of(s)),
        _ => document_or_asset_view(entries, key),
    }
}

/// Whether `p` holds a `.`.
fn contains_dot(p: &str) -> (r: bool)
    ensures
        r == p@.contains('.'),
{
    let n = p.unicode_len();
    let mut i: usize = 0;
    while i < n
        invariant
            n == p@.len(),
            0 <= i <= n,
            forall|j: int| 0 <= j < i ==> p@[j] != '.',
        decreases n - i,
    {
        if p.get_char(i) == '.' {
            assert(p@[i as int] == '.');
            return true;
        }
        i += 1;
    }
    false
}

/// Whether `p` is exactly `name`.
fn is_named(p: &str, name: &str) -> (r: bool)
    ensures
        r == (p@ == name@),
{
    let a = p.to_owned();
    let b = name.to_owned();
    a == b
}

/// The request path with one leading `/` taken off.
fn strip_slash(path: &str) -> (r: &str)
    ensures
        r@ == normalize(path@),
{
    let n = path.unicode_len();
    if n > 0 && path.get_char(0) == '/' {
        let r = path.substring_char(1, n);
        assert(r@ =~= path@.drop_first());
        r
    } else {
        path
    }
}

/// Serves the entry document, or 404 where the store lacks it.
pub fn index_html(assets: &Assets) -> (r: Response)
    ensures
        r@ == entry_view(assets@),
{
    match assets.get("index.html") {
        Some(d) => ok_response("text/html; charset=utf-8".to_owned(), d),
        None => not_found(),
    }
}

/// Answers the request for `path` (a URL path, with or without its leading
/// `/`).
pub fn static_handler(path: &str, settings: &WebConsoleSettings, assets: &Assets) -> (r: Response)
    ensures
        r@ == route(path@, settings.target(), assets@),
{
    let key = strip_slash(path);
    if is_named(key, "subscriber.json") {
        match &settings.target_addr {
            Some(addr) => {
                return serve_settings(addr);
            },
            None => {},
        }
    }
    if key.is_empty() || is_named(key, "index.html") {
        return index_html(assets);
    }
    match assets.get(key) {
        Some(d) => ok_response(guess_mime(key), d),
        None => {
            if contains_dot(key) {
                return not_found();
            }
            index_html(assets)
        },
    }
}

proof fn lemma_literals()
    ensures
        settings_path().len() == 15,
        settings_path()[0] == 's',
        settings_path()[10] == '.',
        entry_path().len() == 10,
        entry_path()[0] == 'i',
        entry_path()[5] == '.',
{
    reveal_strlit("subscriber.json");
    reveal_strlit("index.html");
}

/// A path that the store holds is answered with status 200 and the stored
/// bytes, whatever the settings; the one path set apart is the settings
/// document while a target address is set.
pub proof fn lemma_stored_asset_served(
    path: Seq<char>,
    target: Option<Seq<char>>,
    entries: Seq<(Seq<char>, Seq<u8>)>,
)
    requires
        entries_wf(entries),
        lookup(entries, path) is Some,
        path.len() > 0,
        !(path == settings_path() && target is Some),
    ensures
        route(path, target, entries).status == 200,
        route(path, target, entries).body == lookup(entries, path)->Some_0,
{
    lemma_lookup_relative(entries, path);
    assert(normalize(path) == path);
}

/// With a target address `s` set, the settings document is answered with
/// status 200, type `application/json` and the body
/// `{"targetAddress":<s as a JSON string>}`, the 500 response standing
/// only where serde_json reports an error.
pub proof fn lemma_settings_served(s: Seq<char>, entries: Seq<(Seq<char>, Seq<u8>)>)
    ensures
        route(settings_path(), Some(s), entries) == settings_view(json_string_of(s)),
        json_string_of(s) is Some ==> {
            let r = route(settings_path(), Some(s), entries);
            &&& r.status == 200
            &&& r.content_type == crate::response::application_json()
            &&& r.body == vstd::utf8::encode_utf8(
                crate::settings::settings_json(json_string_of(s)->Some_0),
            )
        },
{
    lemma_literals();
    assert(normalize(settings_path()) == settings_path());
}

/// Without a target address no path is the settings document: every path
/// goes to the entry document or the store, `subscriber.json` included.
pub proof fn lemma_unset_target_falls_through(
    path: Seq<char>,
    entries: Seq<(Seq<char>, Seq<u8>)>,
)
    ensures
        route(path, None, entries) == document_or_asset_view(entries, normalize(path)),
        route(settings_path(), None, entries) == asset_view(entries, settings_path()),
{
    lemma_literals();
    assert(normalize(settings_path()) == settings_path());
}

/// The root and `index.html` get the same answer: the entry document.
pub proof fn lemma_root_is_entry(target: Option<Seq<char>>, entries: Seq<(Seq<char>, Seq<u8>)>)
    ensures
        route(Seq::empty(), target, entries) == route(entry_path(), target, entries),
        route(Seq::empty(), target, entries) == entry_view(entries),
{
    lemma_literals();
    assert(normalize(entry_path()) == entry_path());
    assert(entry_path() != settings_path());
}

/// A path without a dot that the store does not hold is answered as the
/// root is: with the entry document.
pub proof fn lemma_route_fallback(
    path: Seq<char>,
    target: Option<Seq<char>>,
    entries: Seq<(Seq<char>, Seq<u8>)>,
)
    requires
        !path.contains('.'),
        lookup(entries, path) is None,
        lookup(entries, normalize(path)) is None,
    ensures
        route(path, target, entries) == route(Seq::empty(), target, entries),
{
    lemma_literals();
    lemma_root_is_entry(target, entries);
    let key = normalize(path);
    assert(!key.contains('.')) by {
        if key.contains('.') {
            let j = choose|j: int| 0 <= j < key.len() && key[j] == '.';
            if path.len() > 0 && path[0] == '/' {
                assert(path[j + 1] == '.');
            } else {
                assert(path[j] == '.');
            }
        }
    }
    assert(key != settings_path()) by {
        if key == settings_path() {
            assert(key[10] == '.');
        }
    }
    assert(key != entry_path()) by {
        if key == entry_path() {
            assert(key[5] == '.');
        }
    }
    assert(normalize(Seq::<char>::empty()) == Seq::<char>::empty());
}

/// A path with a dot that the store does not hold is answered with 404;
/// set apart is the settings document while a target address is set.
pub proof fn lemma_dotted_missing_not_found(
    path: Seq<char>,
    target: Option<Seq<char>>,
    entries: Seq<(Seq<char>, Seq<u8>)>,
)
    requires
        path.contains('.'),
        lookup(entries, path) is None,
        lookup(entries, normalize(path)) is None,
        !(normalize(path) == settings_path() && target is Some),
    ensures
        route(path, target, entries).status == 404,
{
    lemma_literals();
    let key = normalize(path);
    let j = choose|j: int| 0 <= j < path.len() && path[j] == '.';
    if path.len() > 0 && path[0] == '/' {
        assert(key[j - 1] == '.');
    }
    assert(key.contains('.'));
}

/// Routing is a function of its inputs: two answers to the same request
/// with the same settings and store are the same.
pub proof fn lemma_route_deterministic(
    r1: ResponseView,
    r2: ResponseView,
    path: Seq<char>,
    target: Option<Seq<char>>,
    entries: Seq<(Seq<char>, Seq<u8>)>,
)
    requires
        r1 == route(path, target, entries),
        r2 == route(path, target, entries),
    ensures
        r1 == r2,
{
}

} // verus!
