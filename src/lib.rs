use vstd::prelude::*;

pub mod api;
pub mod call;
pub mod client;
pub mod error;
pub mod request;
pub mod resolve;

verus! {

/// The result of the library's calls.
pub type Result<T, E = error::DnsError> = core::result::Result<T, E>;

/// The fixed part of every project's base URL.
pub open spec fn api_root() -> Seq<char> {
    "https://dns.googleapis.com/dns/v1/projects/"@
}

/// The base URL of the API for one project: the root, the project id, and a
/// closing slash, so that routes resolve below it.
pub open spec fn base_url_of(project_id: Seq<char>) -> Seq<char> {
    api_root() + project_id + "/"@
}

/// Builds `https://dns.googleapis.com/dns/v1/projects/<project_id>/`.
pub fn base_url(project_id: &str) -> (r: String)
    ensures
        r@ == base_url_of(project_id@),
{
    let mut s = String::from_str("https://dns.googleapis.com/dns/v1/projects/");
    s.append(project_id);
    s.append("/");
    s
}

/// The OAuth scope under which every API call is authorised.
pub open spec fn readwrite_scope() -> Seq<char> {
    "https://www.googleapis.com/auth/ndev.clouddns.readwrite"@
}

/// The scopes requested from the token provider: read-write access to Cloud DNS.
pub fn scopes() -> (r: Vec<&'static str>)
    ensures
        r@.len() == 1,
        r@[0]@ == readwrite_scope(),
{
    vec!["https://www.googleapis.com/auth/ndev.clouddns.readwrite"]
}

} // verus!
