use sales_tax_rate::dataset::parse_dataset;
use sales_tax_rate::request::RequestFault;
use sales_tax_rate::service::{
    begin, fault_reply, handle, lookup_reply, route, unknown_route_reply, usage_reply, Next,
    Route,
};
use sales_tax_rate::store::RateTable;

const USAGE: &str =
    "Try POSTing data to /find_rate such as: `curl http://localhost:8001/get_rate -XPOST -d '78701'`";

fn sample_table() -> RateTable {
    let recs = parse_dataset(b"zip,rate\n78701,0.0825\n00501,0.08625\n").unwrap();
    RateTable::load(&recs)
}

#[test]
fn routes() {
    assert_eq!(route("GET", "/"), Route::Usage);
    assert_eq!(route("POST", "/find_rate"), Route::FindRate);
    assert_eq!(route("GET", "/find_rate"), Route::Unknown);
    assert_eq!(route("DELETE", "/find_rate"), Route::Unknown);
    assert_eq!(route("POST", "/"), Route::Unknown);
    assert_eq!(route("POST", "/find_rate/"), Route::Unknown);
    assert_eq!(route("get", "/"), Route::Unknown);
}

#[test]
fn usage_on_root() {
    let r = usage_reply();
    assert_eq!(r.status, 200);
    assert_eq!(r.body, USAGE);
    let t = sample_table();
    let r = handle("GET", "/", b"", &t);
    assert_eq!(r.status, 200);
    assert_eq!(r.body, USAGE);
    let r = handle("GET", "/", b"", &RateTable::new());
    assert_eq!(r.status, 200);
    assert_eq!(r.body, USAGE);
}

#[test]
fn usage_needs_no_store_read() {
    match begin("GET", "/", b"not json") {
        Next::Reply(r) => {
            assert_eq!(r.status, 200);
            assert_eq!(r.body, USAGE);
        }
        Next::Lookup(_) => panic!("usage route asked for a store read"),
    }
}

#[test]
fn lookup_needs_store_read() {
    match begin("POST", "/find_rate", br#"{"zip":"78701"}"#) {
        Next::Lookup(zip) => assert_eq!(zip, "78701"),
        Next::Reply(_) => panic!("lookup route did not ask for a store read"),
    }
}

#[test]
fn loaded_zip_is_found() {
    let t = sample_table();
    let r = handle("POST", "/find_rate", br#"{"zip":"78701"}"#, &t);
    assert_eq!(r.status, 200);
    assert_eq!(r.body, "0.0825");
    let r = handle("POST", "/find_rate", br#"{"zip":"00501"}"#, &t);
    assert_eq!(r.status, 200);
    assert_eq!(r.body, "0.08625");
}

#[test]
fn absent_zip_is_not_found() {
    let t = sample_table();
    let r = handle("POST", "/find_rate", br#"{"zip":"00000"}"#, &t);
    assert_eq!(r.status, 404);
    assert_eq!(r.body, "Not Found");
    let r = handle("POST", "/find_rate", br#"{"zip":"501"}"#, &t);
    assert_eq!(r.status, 404);
    assert_eq!(r.body, "Not Found");
}

#[test]
fn scenario_single_row() {
    let recs = parse_dataset(b"zip,rate\n78701,0.0825\n").unwrap();
    assert_eq!(recs.len(), 1);
    assert_eq!(recs[0].zip, "78701");
    assert_eq!(recs[0].rate, "0.0825");
    let t = RateTable::load(&recs);
    assert_eq!(t.get("78701"), Some("0.0825".to_string()));
    let r = handle("POST", "/find_rate", br#"{"zip":"78701"}"#, &t);
    assert_eq!((r.status, r.body.as_str()), (200, "0.0825"));
    let r = handle("POST", "/find_rate", br#"{"zip":"00000"}"#, &t);
    assert_eq!((r.status, r.body.as_str()), (404, "Not Found"));
}

#[test]
fn bad_bodies_are_server_errors() {
    let t = sample_table();
    let r = handle("POST", "/find_rate", b"78701,", &t);
    assert_eq!(r.status, 500);
    assert_eq!(r.body, "the request body is not valid JSON");
    let r = handle("POST", "/find_rate", br#"{"code":"78701"}"#, &t);
    assert_eq!(r.status, 500);
    assert_eq!(r.body, "the request body has no string field `zip`");
    let r = handle("POST", "/find_rate", br#"{"zip":78701}"#, &t);
    assert_eq!(r.status, 500);
    let r = handle("POST", "/find_rate", br#"{"zip":"78701"}"#, &t);
    assert_eq!(r.status, 200);
    assert_eq!(r.body, "0.0825");
}

#[test]
fn unknown_routes_are_empty_not_found() {
    let t = sample_table();
    for (m, p) in [("DELETE", "/find_rate"), ("GET", "/find_rate"), ("PUT", "/"), ("GET", "/x")] {
        let r = handle(m, p, br#"{"zip":"78701"}"#, &t);
        assert_eq!(r.status, 404);
        assert_eq!(r.body, "");
    }
    let r = unknown_route_reply();
    assert_eq!(r.status, 404);
    assert_eq!(r.body, "");
}

#[test]
fn repeated_requests_get_the_same_reply() {
    let t = sample_table();
    let requests: [(&str, &str, &[u8]); 4] = [
        ("GET", "/", b""),
        ("POST", "/find_rate", br#"{"zip":"78701"}"#),
        ("POST", "/find_rate", br#"{"zip":"00000"}"#),
        ("POST", "/find_rate", b"oops"),
    ];
    for (m, p, b) in requests {
        let first = handle(m, p, b, &t);
        for _ in 0..3 {
            let again = handle(m, p, b, &t);
            assert_eq!(again.status, first.status);
            assert_eq!(again.body, first.body);
        }
    }
}

#[test]
fn store_answers_map_to_replies() {
    let r = lookup_reply(Some("0.0825".to_string()));
    assert_eq!((r.status, r.body.as_str()), (200, "0.0825"));
    let r = lookup_reply(Some(String::new()));
    assert_eq!((r.status, r.body.as_str()), (200, ""));
    let r = lookup_reply(None);
    assert_eq!((r.status, r.body.as_str()), (404, "Not Found"));
    let r = fault_reply(RequestFault::StoreUnavailable);
    assert_eq!((r.status, r.body.as_str()), (500, "the rate store could not be reached"));
    let r = fault_reply(RequestFault::UnreadableBody);
    assert_eq!(r.status, 500);
}
