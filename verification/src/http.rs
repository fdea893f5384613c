//! The HTTP face of the service: the route table, the dispatcher, and
//! the full response for a request — status, headers and body — with
//! the cross-origin allow-all header attached to every response.

use vstd::prelude::*;
use crate::json::json_object2;
use crate::quotes::QuoteBank;
use crate::quotes::fallback_quote;
use crate::quotes::selected_quote;
use crate::response::health;
use crate::response::health_json;
use crate::response::valentine;
use crate::response::valentine_at;
use crate::response::valentine_json;
use crate::response::valentine_sender;

verus! {

/// The route table has two entries; everything else is not found.
#[derive(Clone, Copy, Debug, PartialEq, Eq, Structural)]
pub enum Route {
    Health,
    Valentine,
    NotFound,
}

/// The route for a method and a path: `GET /health`, `GET
/// /api/valentine`, and nothing else.
pub open spec fn route_of(method: Seq<char>, path: Seq<char>) -> Route {
    if method == "GET"@ && path == "/health"@ {
        Route::Health
    } else if method == "GET"@ && path == "/api/valentine"@ {
        Route::Valentine
    } else {
        Route::NotFound
    }
}

/// One response header.
pub struct Header {
    pub name: String,
    pub value: String,
}

/// A complete response: status code, headers and body.
pub struct HttpResponse {
    pub status: u16,
    pub headers: Vec<Header>,
    pub body: String,
}

/// Whether the response carries the header `name: value`.
pub open spec fn has_header(r: HttpResponse, name: Seq<char>, value: Seq<char>) -> bool {
    exists|j: int|
        0 <= j < r.headers@.len() && r.headers@[j].name@ == name && r.headers@[j].value@ == value
}

/// Whether the response lets a browser client from any origin read it.
pub open spec fn allows_any_origin(r: HttpResponse) -> bool {
    has_header(r, "Access-Control-Allow-Origin"@, "*"@)
}

/// Whether the response declares a JSON body.
pub open spec fn declares_json_body(r: HttpResponse) -> bool {
    has_header(r, "Content-Type"@, "application/json"@)
}

/// The exact body of a health response.
pub open spec fn health_wire_body() -> Seq<char> {
    json_object2("status"@, "ok"@, "service"@, "valentine-backend"@)
}

/// The exact body of a valentine response carrying the quote `q`.
pub open spec fn valentine_wire_body(q: Seq<char>) -> Seq<char> {
    json_object2("message"@, q, "from"@, valentine_sender())
}

/// One entry of the route table: a method, a path, and the route they
/// lead to.
pub struct RouteEntry {
    pub method: String,
    pub path: String,
    pub route: Route,
}

/// The route a table maps a request line to: the first entry whose
/// method and path both match, or not-found when none does.
pub open spec fn lookup_route(entries: Seq<RouteEntry>, m: Seq<char>, p: Seq<char>) -> Route
    decreases entries.len(),
{
    if entries.len() == 0 {
        Route::NotFound
    } else if entries[0].method@ == m && entries[0].path@ == p {
        entries[0].route
    } else {
        lookup_route(entries.drop_first(), m, p)
    }
}

/// The service's own table: exactly the two GET routes, in order.
pub open spec fn is_service_table(entries: Seq<RouteEntry>) -> bool {
    entries.len() == 2 && entries[0].method@ == "GET"@ && entries[0].path@ == "/health"@
        && entries[0].route == Route::Health && entries[1].method@ == "GET"@ && entries[1].path@
        == "/api/valentine"@ && entries[1].route == Route::Valentine
}

/// Builds the route table, once, at startup.
pub fn route_table() -> (entries: Vec<RouteEntry>)
    ensures
        is_service_table(entries@),
{
    let mut entries: Vec<RouteEntry> = Vec::new();
    entries.push(
        RouteEntry { method: "GET".to_owned(), path: "/health".to_owned(), route: Route::Health },
    );
    entries.push(
        RouteEntry {
            method: "GET".to_owned(),
            path: "/api/valentine".to_owned(),
            route: Route::Valentine,
        },
    );
    entries
}

/// Looking a request up in the service's table decides exactly as the
/// route table in the interface description does.
pub proof fn lemma_service_table_routes(entries: Seq<RouteEntry>, m: Seq<char>, p: Seq<char>)
    requires
        is_service_table(entries),
    ensures
        lookup_route(entries, m, p) == route_of(m, p),
{
    let rest = entries.drop_first();
    let rest2 = rest.drop_first();
    assert(rest[0] == entries[1]);
    assert(rest2.len() == 0);
    assert(lookup_route(rest2, m, p) == Route::NotFound);
    assert(lookup_route(rest, m, p) == if rest[0].method@ == m && rest[0].path@ == p {
        rest[0].route
    } else {
        lookup_route(rest2, m, p)
    });
}

/// Finds the first entry of the table that matches the request line.
pub fn dispatch_in(entries: &Vec<RouteEntry>, method: &str, path: &str) -> (r: Route)
    ensures
        r == lookup_route(entries@, method@, path@),
{
    let m = method.to_owned();
    let p = path.to_owned();
    let n = entries.len();
    let mut i: usize = 0;
    proof {
        assert(entries@.skip(0) =~= entries@);
    }
    while i < n
        invariant
            n == entries@.len(),
            i <= n,
            m@ == method@,
            p@ == path@,
            lookup_route(entries@, method@, path@) == lookup_route(
                entries@.skip(i as int),
                method@,
                path@,
            ),
        decreases n - i,
    {
        let entry = &entries[i];
        proof {
            assert(entries@.skip(i as int)[0] == entries@[i as int]);
        }
        if entry.method == m && entry.path == p {
            return entry.route;
        }
        proof {
            assert(entries@.skip(i as int).drop_first() =~= entries@.skip(i as int + 1));
        }
        i = i + 1;
    }
    proof {
        assert(entries@.skip(n as int).len() == 0);
    }
    Route::NotFound
}

/// Maps a request line to its route.
pub fn dispatch(method: &str, path: &str) -> (r: Route)
    ensures
        r == route_of(method@, path@),
{
    let table = route_table();
    let r = dispatch_in(&table, method, path);
    proof {
        lemma_service_table_routes(table@, method@, path@);
    }
    r
}

/// Assembles a response: the given status and body, the cross-origin
/// allow-all header on every response, and a JSON content type on every
/// success.
fn build_response(status: u16, body: String) -> (resp: HttpResponse)
    ensures
        resp.status == status,
        resp.body@ == body@,
        allows_any_origin(resp),
        status == 200 ==> declares_json_body(resp),
{
    let mut headers: Vec<Header> = Vec::new();
    headers.push(
        Header { name: "Access-Control-Allow-Origin".to_owned(), value: "*".to_owned() },
    );
    if status == 200 {
        headers.push(
            Header { name: "Content-Type".to_owned(), value: "application/json".to_owned() },
        );
    }
    let resp = HttpResponse { status, headers, body };
    proof {
        assert(resp.headers@[0].name@ == "Access-Control-Allow-Origin"@);
        if status == 200 {
            assert(resp.headers@[1].name@ == "Content-Type"@);
        }
    }
    resp
}

/// The response for a request whose selector draw is `i`: the fixed
/// health body on `GET /health`, the quote at `i` on `GET
/// /api/valentine`, and an empty not-found response on anything else —
/// every one of them readable from any origin.
pub fn respond_at(method: &str, path: &str, bank: &QuoteBank, i: usize) -> (resp: HttpResponse)
    ensures
        allows_any_origin(resp),
        resp.status == 200 ==> declares_json_body(resp),
        route_of(method@, path@) == Route::Health ==> resp.status == 200 && resp.body@
            == health_wire_body(),
        route_of(method@, path@) == Route::Valentine ==> resp.status == 200 && resp.body@
            == valentine_wire_body(selected_quote(bank@, i as int)),
        route_of(method@, path@) == Route::NotFound ==> resp.status == 404 && resp.body@
            == Seq::<char>::empty(),
{
    match dispatch(method, path) {
        Route::Health => {
            let h = health();
            build_response(200, health_json(&h))
        },
        Route::Valentine => {
            let m = valentine_at(bank, i);
            build_response(200, valentine_json(&m))
        },
        Route::NotFound => build_response(404, String::new()),
    }
}

/// The response for a request, with the selector drawing at random: as
/// `respond_at`, except that the valentine body carries some quote of
/// the bank (the fallback only on an empty bank) — and still every
/// response is readable from any origin.
pub fn respond(method: &str, path: &str, bank: &QuoteBank) -> (resp: HttpResponse)
    ensures
        allows_any_origin(resp),
        resp.status == 200 ==> declares_json_body(resp),
        route_of(method@, path@) == Route::Health ==> resp.status == 200 && resp.body@
            == health_wire_body(),
        route_of(method@, path@) == Route::Valentine && bank@.len() > 0 ==> resp.status == 200
            && exists|q: Seq<char>| bank@.contains(q) && resp.body@ == valentine_wire_body(q),
        route_of(method@, path@) == Route::Valentine && bank@.len() == 0 ==> resp.status == 200
            && resp.body@ == valentine_wire_body(fallback_quote()),
        route_of(method@, path@) == Route::NotFound ==> resp.status == 404 && resp.body@
            == Seq::<char>::empty(),
{
    match dispatch(method, path) {
        Route::Health => {
            let h = health();
            build_response(200, health_json(&h))
        },
        Route::Valentine => {
            let m = valentine(bank);
            let resp = build_response(200, valentine_json(&m));
            proof {
                if bank@.len() > 0 {
                    assert(bank@.contains(m.message@) && resp.body@ == valentine_wire_body(
                        m.message@,
                    ));
                }
            }
            resp
        },
        Route::NotFound => build_response(404, String::new()),
    }
}

} // verus!
