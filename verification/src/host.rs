//! Listening address and the headers of every response.

use vstd::prelude::*;

verus! {

/// The address the host listens on when none is configured.
pub open spec fn default_bind() -> Seq<char> {
    "127.0.0.1:4783"@
}

/// The headers added to every response: JSON content, and CORS open to any
/// origin so that a site on localhost can call the host.
pub open spec fn response_header_table() -> Seq<(Seq<char>, Seq<char>)> {
    seq![
        ("Content-Type"@, "application/json"@),
        ("Access-Control-Allow-Origin"@, "*"@),
        ("Access-Control-Allow-Headers"@, "Content-Type"@),
        ("Access-Control-Allow-Methods"@, "GET, POST, OPTIONS"@),
    ]
}

/// The address to listen on: the configured one (`REEDHOLD_HOST`), else
/// `127.0.0.1:4783`.
pub fn bind_address(configured: Option<String>) -> (bind: String)
    ensures
        bind@ == match configured {
            Some(text) => text@,
            None => default_bind(),
        },
{
    match configured {
        Some(text) => text,
        None => String::from_str("127.0.0.1:4783"),
    }
}

/// The headers added to every response, name first, in this order.
pub fn response_headers() -> (headers: Vec<(String, String)>)
    ensures
        headers@.len() == response_header_table().len(),
        forall|i: int|
            0 <= i < headers@.len() ==> (#[trigger] headers@[i]).0@ == response_header_table()[i].0
                && headers@[i].1@ == response_header_table()[i].1,
{
    let mut headers: Vec<(String, String)> = Vec::new();
    headers.push((String::from_str("Content-Type"), String::from_str("application/json")));
    headers.push((String::from_str("Access-Control-Allow-Origin"), String::from_str("*")));
    headers.push(
        (String::from_str("Access-Control-Allow-Headers"), String::from_str("Content-Type")),
    );
    headers.push(
        (String::from_str("Access-Control-Allow-Methods"), String::from_str("GET, POST, OPTIONS")),
    );
    headers
}

} // verus!
