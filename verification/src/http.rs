//! The HTTP side of the bridge: which request does what to the shared text,
//! and what is answered.

use crate::blob::SharedBlob;
use crate::json::{
    escape, is_member_document, is_string_body, lemma_escape_plain, lemma_escape_round_trip,
    member_document, text_member, unescape,
};
use crate::text::{decode_lossy, lossy_text, text_eq};
use vstd::prelude::*;
use vstd::utf8::{decode_utf8, valid_utf8};

verus! {

/// What a request asks of the bridge.
#[derive(Clone, Copy, Debug, PartialEq, Eq)]
pub enum Route {
    /// `POST /api/save`: store the request body.
    Save,
    /// `GET /api/get`: hand out the stored text.
    Fetch,
    /// `OPTIONS` on any path: a cross-origin preflight.
    Preflight,
    /// Everything else.
    NotFound,
}

/// The route of a request with this method and path. Both are compared as
/// they were received, letter for letter.
pub open spec fn route_of(method: Seq<char>, path: Seq<char>) -> Route {
    if method == "POST"@ && path == "/api/save"@ {
        Route::Save
    } else if method == "GET"@ && path == "/api/get"@ {
        Route::Fetch
    } else if method == "OPTIONS"@ {
        Route::Preflight
    } else {
        Route::NotFound
    }
}

/// One response header.
#[derive(Clone, Debug, PartialEq, Eq)]
pub struct Header {
    pub name: String,
    pub value: String,
}

/// A response: status code, headers in the order in which they are sent, and
/// body.
#[derive(Clone, Debug, PartialEq, Eq)]
pub struct Response {
    pub status: u16,
    pub headers: Vec<Header>,
    pub body: String,
}

/// A response as plain values.
pub struct ResponseView {
    pub status: u16,
    pub headers: Seq<(Seq<char>, Seq<char>)>,
    pub body: Seq<char>,
}

impl View for Header {
    type V = (Seq<char>, Seq<char>);

    open spec fn view(&self) -> (Seq<char>, Seq<char>) {
        (self.name@, self.value@)
    }
}

/// The headers as pairs of name and value, in their order.
pub open spec fn header_views(headers: Seq<Header>) -> Seq<(Seq<char>, Seq<char>)> {
    Seq::new(headers.len(), |i: int| headers[i]@)
}

impl View for Response {
    type V = ResponseView;

    open spec fn view(&self) -> ResponseView {
        ResponseView {
            status: self.status,
            headers: header_views(self.headers@),
            body: self.body@,
        }
    }
}

/// The header that lets a page of any origin read the response.
pub open spec fn allow_origin() -> (Seq<char>, Seq<char>) {
    ("Access-Control-Allow-Origin"@, "*"@)
}

/// The header that names the methods a page may use.
pub open spec fn allow_methods() -> (Seq<char>, Seq<char>) {
    ("Access-Control-Allow-Methods"@, "GET, POST, OPTIONS"@)
}

/// The header that names the request headers a page may send.
pub open spec fn allow_headers() -> (Seq<char>, Seq<char>) {
    ("Access-Control-Allow-Headers"@, "Content-Type"@)
}

/// The header that marks a body as JSON.
pub open spec fn json_content() -> (Seq<char>, Seq<char>) {
    ("Content-Type"@, "application/json"@)
}

/// The body that answers a fetch while `stored` is the shared text.
pub open spec fn fetch_body(stored: Seq<char>) -> Seq<char> {
    "{\"data\":\""@ + escape(stored) + "\"}"@
}

/// The response to a request of this route, where `stored` is the shared text
/// once the request has been carried out.
pub open spec fn reply_of(route: Route, stored: Seq<char>) -> ResponseView {
    match route {
        Route::Save => ResponseView {
            status: 200,
            headers: seq![json_content(), allow_origin(), allow_methods(), allow_headers()],
            body: "{\"status\":\"saved\"}"@,
        },
        Route::Fetch => ResponseView {
            status: 200,
            headers: seq![json_content(), allow_origin(), allow_methods(), allow_headers()],
            body: fetch_body(stored),
        },
        Route::Preflight => ResponseView {
            status: 200,
            headers: seq![allow_origin(), allow_methods(), allow_headers()],
            body: Seq::empty(),
        },
        Route::NotFound => ResponseView {
            status: 404,
            headers: seq![allow_origin()],
            body: "404 Not Found"@,
        },
    }
}

/// The shared text after a request of this route, where `stored` was the text
/// before it and `text` is the request body read as text.
pub open spec fn stored_after(route: Route, stored: Seq<char>, text: Seq<char>) -> Seq<char> {
    if route is Save {
        text
    } else {
        stored
    }
}

/// The route of a request with this method and path.
pub fn route(method: &str, path: &str) -> (r: Route)
    ensures
        r == route_of(method@, path@),
{
    if text_eq(method, "POST") && text_eq(path, "/api/save") {
        Route::Save
    } else if text_eq(method, "GET") && text_eq(path, "/api/get") {
        Route::Fetch
    } else if text_eq(method, "OPTIONS") {
        Route::Preflight
    } else {
        Route::NotFound
    }
}

fn header(name: &str, value: &str) -> (h: Header)
    ensures
        h@ == (name@, value@),
{
    Header { name: name.to_owned(), value: value.to_owned() }
}

fn cors_headers(json: bool) -> (headers: Vec<Header>)
    ensures
        json ==> header_views(headers@) == seq![
            json_content(),
            allow_origin(),
            allow_methods(),
            allow_headers(),
        ],
        !json ==> header_views(headers@) == seq![
            allow_origin(),
            allow_methods(),
            allow_headers(),
        ],
{
    let mut headers: Vec<Header> = Vec::new();
    if json {
        headers.push(header("Content-Type", "application/json"));
    }
    headers.push(header("Access-Control-Allow-Origin", "*"));
    headers.push(header("Access-Control-Allow-Methods", "GET, POST, OPTIONS"));
    headers.push(header("Access-Control-Allow-Headers", "Content-Type"));
    headers
}

proof fn lemma_plain_words()
    ensures
        escape("data"@) == "data"@,
        escape("status"@) == "status"@,
        escape("saved"@) == "saved"@,
{
    reveal_strlit("data");
    reveal_strlit("status");
    reveal_strlit("saved");
    lemma_escape_plain("data"@);
    lemma_escape_plain("status"@);
    lemma_escape_plain("saved"@);
}

/// Carries out a request of the given route, whose body was read as `text`,
/// and gives the response. Only a save changes the shared text.
pub fn respond(blob: &mut SharedBlob, route: Route, text: String) -> (response: Response)
    ensures
        final(blob)@ == stored_after(route, old(blob)@, text@),
        response@ == reply_of(route, final(blob)@),
{
    match route {
        Route::Save => {
            blob.save(text);
            proof {
                lemma_plain_words();
                lemma_save_body_is_json(blob@);
            }
            Response {
                status: 200,
                headers: cors_headers(true),
                body: text_member("status", "saved"),
            }
        },
        Route::Fetch => {
            let stored = blob.get();
            proof {
                lemma_plain_words();
                lemma_fetch_body_is_json(stored@);
            }
            Response {
                status: 200,
                headers: cors_headers(true),
                body: text_member("data", stored.as_str()),
            }
        },
        Route::Preflight => Response {
            status: 200,
            headers: cors_headers(false),
            body: String::new(),
        },
        Route::NotFound => {
            let mut headers: Vec<Header> = Vec::new();
            headers.push(header("Access-Control-Allow-Origin", "*"));
            assert(header_views(headers@) =~= seq![allow_origin()]);
            Response { status: 404, headers, body: "404 Not Found".to_owned() }
        },
    }
}

/// Answers one request. The body counts only for a save, where it is read as
/// UTF-8 text; bytes that are not valid UTF-8 are read as
/// `String::from_utf8_lossy` reads them.
pub fn handle(blob: &mut SharedBlob, method: &str, path: &str, body: &[u8]) -> (response:
    Response)
    ensures
        final(blob)@ == stored_after(route_of(method@, path@), old(blob)@, lossy_text(body@)),
        response@ == reply_of(route_of(method@, path@), final(blob)@),
        route_of(method@, path@) is Save && valid_utf8(body@) ==> final(blob)@ == decode_utf8(
            body@,
        ),
{
    let r = route(method, path);
    let text = match r {
        Route::Save => decode_lossy(body),
        _ => String::new(),
    };
    respond(blob, r, text)
}

/// A preflight is answered alike on every path: status 200, no body, and the
/// three cross-origin headers.
pub proof fn lemma_preflight_reply(path: Seq<char>, stored: Seq<char>)
    ensures
        route_of("OPTIONS"@, path) == Route::Preflight,
        reply_of(route_of("OPTIONS"@, path), stored).status == 200,
        reply_of(route_of("OPTIONS"@, path), stored).body.len() == 0,
        reply_of(route_of("OPTIONS"@, path), stored).headers == seq![
            allow_origin(),
            allow_methods(),
            allow_headers(),
        ],
{
    reveal_strlit("OPTIONS");
    reveal_strlit("POST");
    reveal_strlit("GET");
    assert("OPTIONS"@.len() != "POST"@.len());
    assert("OPTIONS"@.len() != "GET"@.len());
}

/// A request that is no save, no fetch and no preflight is answered with
/// status 404, the body `404 Not Found`, and the header that allows any
/// origin.
pub proof fn lemma_unmatched_reply(method: Seq<char>, path: Seq<char>, stored: Seq<char>)
    requires
        method != "OPTIONS"@,
        !(method == "POST"@ && path == "/api/save"@),
        !(method == "GET"@ && path == "/api/get"@),
    ensures
        route_of(method, path) == Route::NotFound,
        reply_of(route_of(method, path), stored).status == 404,
        reply_of(route_of(method, path), stored).body == "404 Not Found"@,
        reply_of(route_of(method, path), stored).headers.contains(allow_origin()),
{
    let headers = reply_of(Route::NotFound, stored).headers;
    assert(headers[0] == allow_origin());
}

/// Every response lets any origin read it, and every response but the 404
/// also names the allowed methods and request headers.
pub proof fn lemma_cross_origin_headers(route: Route, stored: Seq<char>)
    ensures
        reply_of(route, stored).headers.contains(allow_origin()),
        !(route is NotFound) ==> reply_of(route, stored).headers.contains(allow_methods())
            && reply_of(route, stored).headers.contains(allow_headers()),
        reply_of(route, stored).status == 404 <==> route is NotFound,
        !(route is NotFound) ==> reply_of(route, stored).status == 200,
{
    let headers = reply_of(route, stored).headers;
    match route {
        Route::Save | Route::Fetch => {
            assert(headers[1] == allow_origin());
            assert(headers[2] == allow_methods());
            assert(headers[3] == allow_headers());
        },
        Route::Preflight => {
            assert(headers[0] == allow_origin());
            assert(headers[1] == allow_methods());
            assert(headers[2] == allow_headers());
        },
        Route::NotFound => {
            assert(headers[0] == allow_origin());
        },
    }
}

/// The body of a fetch is a well-formed JSON document whatever the stored
/// text holds, quotes, backslashes and control characters included: an object
/// with the one member `data`, whose value is a string that reads back as
/// exactly the stored text.
pub proof fn lemma_fetch_body_is_json(stored: Seq<char>)
    ensures
        fetch_body(stored) == member_document("data"@, escape(stored)),
        is_string_body("data"@),
        is_string_body(escape(stored)),
        unescape(escape(stored)) == stored,
        is_member_document(fetch_body(stored)),
{
    reveal_strlit("{\"data\":\"");
    reveal_strlit("\"}");
    reveal_strlit("data");
    lemma_plain_words();
    lemma_escape_round_trip(stored);
    lemma_escape_round_trip("data"@);
    assert(fetch_body(stored) =~= member_document("data"@, escape(stored)));
}

/// The body that answers a save is a well-formed JSON document: an object
/// with the one member `status`, whose value is the string `saved`.
pub proof fn lemma_save_body_is_json(stored: Seq<char>)
    ensures
        reply_of(Route::Save, stored).body == member_document("status"@, "saved"@),
        is_member_document(reply_of(Route::Save, stored).body),
{
    reveal_strlit("{\"status\":\"saved\"}");
    reveal_strlit("status");
    reveal_strlit("saved");
    lemma_plain_words();
    lemma_escape_round_trip("status"@);
    lemma_escape_round_trip("saved"@);
    assert("{\"status\":\"saved\"}"@ =~= member_document("status"@, "saved"@));
}

/// Only a save changes the shared text: after any other request it is what
/// it was before.
pub proof fn lemma_only_save_changes(route: Route, stored: Seq<char>, text: Seq<char>)
    requires
        !(route is Save),
    ensures
        stored_after(route, stored, text) == stored,
{
}

/// A fetch that follows a save hands out the text of that save, whatever was
/// stored before it and whatever body the fetch came with.
pub proof fn lemma_save_then_fetch(stored: Seq<char>, text: Seq<char>, body: Seq<char>)
    ensures
        stored_after(Route::Fetch, stored_after(Route::Save, stored, text), body) == text,
        reply_of(
            Route::Fetch,
            stored_after(Route::Fetch, stored_after(Route::Save, stored, text), body),
        ).body == fetch_body(text),
{
}

} // verus!
