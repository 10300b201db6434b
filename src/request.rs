//! Reading the ZIP code out of a lookup request's body, and the faults that
//! a request can run into.

use vstd::prelude::*;

verus! {

#[verifier::external_type_specification]
#[verifier::external_body]
pub struct ExJsonError(serde_json::Error);

/// What `body` holds as JSON under the member `zip`: `None` where it is not
/// JSON, `Some(None)` where it is JSON without a string member `zip`.
pub uninterp spec fn json_zip_member(body: Seq<u8>) -> Option<Option<Seq<char>>>;

/// Relies on serde_json::from_slice to parse the body into a
/// serde_json::Value, and on Value::get and Value::as_str to read its member
/// `zip` as a string.
#[verifier::external_body]
fn parse_zip_member(body: &[u8]) -> (r: Result<Option<String>, serde_json::Error>)
    ensures
        match r {
            Ok(Some(zip)) => json_zip_member(body@) == Some(Some(zip@)),
            Ok(None) => json_zip_member(body@) == Some(None::<Seq<char>>),
            Err(_) => json_zip_member(body@) is None,
        },
{
    let value: serde_json::Value = serde_json::from_slice(body)?;
    Ok(value.get("zip").and_then(serde_json::Value::as_str).map(String::from))
}

/// A fault in handling one request. It ends that request with a server
/// error; it does not end the service.
#[derive(Debug, Clone, Copy, PartialEq, Eq, Structural)]
pub enum RequestFault {
    /// The request body could not be read.
    UnreadableBody,
    /// The request body is not JSON.
    InvalidJson,
    /// The request body is JSON without a string member `zip`.
    MissingZip,
    /// The key-value store could not be reached.
    StoreUnavailable,
}

/// The text that explains a fault.
pub open spec fn fault_text(f: RequestFault) -> Seq<char> {
    match f {
        RequestFault::UnreadableBody => "the request body could not be read"@,
        RequestFault::InvalidJson => "the request body is not valid JSON"@,
        RequestFault::MissingZip => "the request body has no string field `zip`"@,
        RequestFault::StoreUnavailable => "the rate store could not be reached"@,
    }
}

impl RequestFault {
    /// The text that explains this fault.
    pub fn message(&self) -> (r: String)
        ensures
            r@ == fault_text(*self),
    {
        match self {
            RequestFault::UnreadableBody => String::from_str("the request body could not be read"),
            RequestFault::InvalidJson => String::from_str("the request body is not valid JSON"),
            RequestFault::MissingZip => String::from_str(
                "the request body has no string field `zip`",
            ),
            RequestFault::StoreUnavailable => String::from_str(
                "the rate store could not be reached",
            ),
        }
    }
}

/// The ZIP code that a request asks for, or the fault that ends it, from
/// what parsing its body gave.
pub fn zip_from_parsed(
    parsed: Result<Option<String>, serde_json::Error>,
) -> (r: Result<String, RequestFault>)
    ensures
        match parsed {
            Ok(Some(zip)) => r == Ok::<String, RequestFault>(zip),
            Ok(None) => r == Err::<String, RequestFault>(RequestFault::MissingZip),
            Err(_) => r == Err::<String, RequestFault>(RequestFault::InvalidJson),
        },
{
    match parsed {
        Ok(Some(zip)) => Ok(zip),
        Ok(None) => Err(RequestFault::MissingZip),
        Err(_) => Err(RequestFault::InvalidJson),
    }
}

/// The ZIP code that a lookup body `{"zip": "<code>"}` asks for, or the
/// fault that ends the request.
pub fn zip_from_body(body: &[u8]) -> (r: Result<String, RequestFault>)
    ensures
        match json_zip_member(body@) {
            Some(Some(zip)) => r matches Ok(z) && z@ == zip,
            Some(None) => r == Err::<String, RequestFault>(RequestFault::MissingZip),
            None => r == Err::<String, RequestFault>(RequestFault::InvalidJson),
        },
{
    zip_from_parsed(parse_zip_member(body))
}

} // verus!
