//! What holds of the service as a whole: lookups after a load, the fixed
//! routes, and faulty requests.

use vstd::prelude::*;
use crate::request::json_zip_member;
use crate::service::{
    Route,
    STATUS_NOT_FOUND,
    STATUS_OK,
    STATUS_SERVER_ERROR,
    not_found_text,
    reply_for,
    route_of,
    usage_text,
};
use crate::store::{lemma_written_untouched, written};

verus! {

/// `POST /find_rate` is the lookup route.
proof fn lemma_lookup_route()
    ensures
        route_of("POST"@, "/find_rate"@) == Route::FindRate,
{
    reveal_strlit("GET");
    reveal_strlit("POST");
    assert("GET"@.len() != "POST"@.len());
}

/// After the records are written in order, a lookup of a record's ZIP code
/// replies with that record's rate, provided no later record has the same
/// ZIP code (a later one overwrites it).
pub proof fn lemma_loaded_zip_found(
    records: Seq<(Seq<char>, Seq<char>)>,
    i: int,
    body: Seq<u8>,
)
    requires
        0 <= i < records.len(),
        forall|j: int| i < j < records.len() ==> #[trigger] records[j].0 != records[i].0,
        json_zip_member(body) == Some(Some(records[i].0)),
    ensures
        reply_for("POST"@, "/find_rate"@, body, written(records)) == (STATUS_OK, records[i].1),
{
    lemma_lookup_route();
    lemma_written_untouched(records, i + 1, records[i].0);
    assert(records.take(i + 1).drop_last() =~= records.take(i));
}

/// After the records are written, a lookup of a ZIP code that none of them
/// has replies not found.
pub proof fn lemma_absent_zip_not_found(
    records: Seq<(Seq<char>, Seq<char>)>,
    zip: Seq<char>,
    body: Seq<u8>,
)
    requires
        forall|j: int| 0 <= j < records.len() ==> #[trigger] records[j].0 != zip,
        json_zip_member(body) == Some(Some(zip)),
    ensures
        reply_for("POST"@, "/find_rate"@, body, written(records)) == (
            STATUS_NOT_FOUND,
            not_found_text(),
        ),
{
    lemma_lookup_route();
    lemma_written_untouched(records, 0, zip);
    assert(records.take(0) =~= Seq::<(Seq<char>, Seq<char>)>::empty());
}

/// `GET /` replies with the usage text whatever the store holds and
/// whatever the body is.
pub proof fn lemma_usage_whatever_the_store(body: Seq<u8>, store: Map<Seq<char>, Seq<char>>)
    ensures
        reply_for("GET"@, "/"@, body, store) == (STATUS_OK, usage_text()),
{
}

/// A lookup whose body is not JSON, or has no string member `zip`, replies
/// with a server error, whatever the store holds.
pub proof fn lemma_bad_body_is_server_error(body: Seq<u8>, store: Map<Seq<char>, Seq<char>>)
    requires
        !(json_zip_member(body) matches Some(Some(_))),
    ensures
        reply_for("POST"@, "/find_rate"@, body, store).0 == STATUS_SERVER_ERROR,
{
    lemma_lookup_route();
}

/// A request on any other method and path than `GET /` and
/// `POST /find_rate` replies not found with an empty body.
pub proof fn lemma_unknown_route_not_found(
    method: Seq<char>,
    path: Seq<char>,
    body: Seq<u8>,
    store: Map<Seq<char>, Seq<char>>,
)
    requires
        !(method == "GET"@ && path == "/"@),
        !(method == "POST"@ && path == "/find_rate"@),
    ensures
        reply_for(method, path, body, store) == (STATUS_NOT_FOUND, Seq::<char>::empty()),
{
}

} // verus!
