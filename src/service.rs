//! The lookup service: routing a request, and the reply it gets.

use vstd::prelude::*;
use crate::request::{RequestFault, fault_text, json_zip_member, zip_from_body};
use crate::store::RateTable;

verus! {

/// Status of a reply that carries what was asked for.
pub const STATUS_OK: u16 = 200;

/// Status of a reply to a route, or a ZIP code, that is not known.
pub const STATUS_NOT_FOUND: u16 = 404;

/// Status of a reply to a request that could not be handled.
pub const STATUS_SERVER_ERROR: u16 = 500;

/// The routes the service knows.
#[derive(Debug, Clone, Copy, PartialEq, Eq, Structural)]
pub enum Route {
    /// `GET /`: usage instructions.
    Usage,
    /// `POST /find_rate`: a rate lookup.
    FindRate,
    /// Any other method and path.
    Unknown,
}

/// The route of a request with this method and path.
pub open spec fn route_of(method: Seq<char>, path: Seq<char>) -> Route {
    if method == "GET"@ && path == "/"@ {
        Route::Usage
    } else if method == "POST"@ && path == "/find_rate"@ {
        Route::FindRate
    } else {
        Route::Unknown
    }
}

/// Whether two texts are the same.
fn same_text(a: &str, b: &str) -> (r: bool)
    ensures
        r == (a@ == b@),
{
    a.to_owned() == b.to_owned()
}

/// The route of a request with this method and path.
pub fn route(method: &str, path: &str) -> (r: Route)
    ensures
        r == route_of(method@, path@),
{
    if same_text(method, "GET") && same_text(path, "/") {
        Route::Usage
    } else if same_text(method, "POST") && same_text(path, "/find_rate") {
        Route::FindRate
    } else {
        Route::Unknown
    }
}

/// A reply: its HTTP status and its plain-text body.
pub struct Reply {
    pub status: u16,
    pub body: String,
}

impl View for Reply {
    type V = (u16, Seq<char>);

    open spec fn view(&self) -> (u16, Seq<char>) {
        (self.status, self.body@)
    }
}

/// The body of the usage reply.
pub open spec fn usage_text() -> Seq<char> {
    "Try POSTing data to /find_rate such as: `curl http://localhost:8001/get_rate -XPOST -d '78701'`"@
}

/// The body of the reply to a ZIP code that the store does not know.
pub open spec fn not_found_text() -> Seq<char> {
    "Not Found"@
}

/// The reply to `GET /`.
pub fn usage_reply() -> (r: Reply)
    ensures
        r@ == (STATUS_OK, usage_text()),
{
    Reply {
        status: STATUS_OK,
        body: String::from_str(
            "Try POSTing data to /find_rate such as: `curl http://localhost:8001/get_rate -XPOST -d '78701'`",
        ),
    }
}

/// The reply to a route the service does not know: not found, empty body.
pub fn unknown_route_reply() -> (r: Reply)
    ensures
        r@ == (STATUS_NOT_FOUND, Seq::<char>::empty()),
{
    Reply { status: STATUS_NOT_FOUND, body: String::new() }
}

/// The reply to a lookup, from what the store answered.
pub open spec fn lookup_outcome(answer: Option<Seq<char>>) -> (u16, Seq<char>) {
    match answer {
        Some(rate) => (STATUS_OK, rate),
        None => (STATUS_NOT_FOUND, not_found_text()),
    }
}

/// The reply to a lookup, from what the store answered: the rate itself
/// where it had one, else not found.
pub fn lookup_reply(answer: Option<String>) -> (r: Reply)
    ensures
        r@ == lookup_outcome(
            match answer {
                Some(rate) => Some(rate@),
                None => None,
            },
        ),
{
    match answer {
        Some(rate) => Reply { status: STATUS_OK, body: rate },
        None => Reply { status: STATUS_NOT_FOUND, body: String::from_str("Not Found") },
    }
}

/// The reply to a request that ran into a fault: a server error that says
/// what went wrong.
pub fn fault_reply(fault: RequestFault) -> (r: Reply)
    ensures
        r@ == (STATUS_SERVER_ERROR, fault_text(fault)),
{
    Reply { status: STATUS_SERVER_ERROR, body: fault.message() }
}

/// The reply that a request with this method, path and body gets from a
/// store that holds `store`.
pub open spec fn reply_for(
    method: Seq<char>,
    path: Seq<char>,
    body: Seq<u8>,
    store: Map<Seq<char>, Seq<char>>,
) -> (u16, Seq<char>) {
    match route_of(method, path) {
        Route::Usage => (STATUS_OK, usage_text()),
        Route::Unknown => (STATUS_NOT_FOUND, Seq::empty()),
        Route::FindRate => match json_zip_member(body) {
            None => (STATUS_SERVER_ERROR, fault_text(RequestFault::InvalidJson)),
            Some(None) => (STATUS_SERVER_ERROR, fault_text(RequestFault::MissingZip)),
            Some(Some(zip)) => lookup_outcome(
                if store.contains_key(zip) {
                    Some(store[zip])
                } else {
                    None
                },
            ),
        },
    }
}

/// What a request needs next: a reply now, or a read of the store first.
pub enum Next {
    /// The reply, which no store read can change.
    Reply(Reply),
    /// Read the store under this ZIP code, then reply with `lookup_reply`.
    Lookup(String),
}

/// Decides what a request needs next. The body is read only on the lookup
/// route.
pub fn begin(method: &str, path: &str, body: &[u8]) -> (r: Next)
    ensures
        match r {
            Next::Reply(reply) => forall|store: Map<Seq<char>, Seq<char>>|
                #[trigger] reply_for(method@, path@, body@, store) == reply@,
            Next::Lookup(zip) => route_of(method@, path@) == Route::FindRate
                && json_zip_member(body@) == Some(Some(zip@)),
        },
{
    match route(method, path) {
        Route::Usage => Next::Reply(usage_reply()),
        Route::Unknown => Next::Reply(unknown_route_reply()),
        Route::FindRate => match zip_from_body(body) {
            Ok(zip) => Next::Lookup(zip),
            Err(fault) => Next::Reply(fault_reply(fault)),
        },
    }
}

/// Handles a request against an in-memory store. The store is only read.
pub fn handle(method: &str, path: &str, body: &[u8], store: &RateTable) -> (r: Reply)
    ensures
        r@ == reply_for(method@, path@, body@, store@),
{
    match begin(method, path, body) {
        Next::Reply(reply) => reply,
        Next::Lookup(zip) => lookup_reply(store.get(zip.as_str())),
    }
}

} // verus!
