//! The registry client's computed values: the request URL and the
//! identifying user-agent header. The network call itself is made by the
//! program around the library.

use vstd::prelude::*;

verus! {

/// The fixed path template the package identifier is interpolated into,
/// against the registry host.
pub open spec fn url_prefix() -> Seq<char> {
    "https://crates.io/api/v1/crates/"@
}

/// The fixed identifying user-agent header value sent with the request.
pub open spec fn user_agent_spec() -> Seq<char> {
    "crates (github.com/typable/crates)"@
}

/// The request URL for a package: the identifier, unescaped, appended to
/// the fixed template.
pub fn crate_url(id: &str) -> (r: String)
    ensures
        r@ == url_prefix() + id@,
{
    let mut r = String::from_str("https://crates.io/api/v1/crates/");
    r.append(id);
    r
}

/// The user-agent header value as a value, for the request.
pub fn user_agent() -> (r: String)
    ensures
        r@ == user_agent_spec(),
{
    String::from_str("crates (github.com/typable/crates)")
}

} // verus!
