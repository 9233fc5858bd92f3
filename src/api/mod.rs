//! The API's resources: their data, and one handler per resource that builds
//! the resource's routes and starts calls on them.
use vstd::prelude::*;

pub mod changes;
pub mod dns_keys;
pub mod managed_zone_operations;
pub mod managed_zones;
pub mod policies;
pub mod projects;
pub mod resource_record_sets;

verus! {

/// The fields that every list response carries.
#[derive(Debug, Clone, PartialEq)]
pub struct ListEnvelope {
    pub kind: String,
    pub header: Option<Header>,
    pub next_page_token: Option<String>,
}

/// The fields that every update response carries.
#[derive(Debug, Clone, PartialEq)]
pub struct UpdateEnvelope {
    pub header: Option<Header>,
}

/// The header of a response: the operation it belongs to.
#[derive(Debug, Clone, PartialEq)]
pub struct Header {
    pub operation_id: String,
}

/// `a` followed by `b`.
pub(crate) fn concat2(a: &str, b: &str) -> (r: String)
    ensures
        r@ == a@ + b@,
{
    let mut s = String::from_str(a);
    s.append(b);
    s
}

/// `a`, `b` and `c` one after the other.
pub(crate) fn concat3(a: &str, b: &str, c: &str) -> (r: String)
    ensures
        r@ == a@ + b@ + c@,
{
    let mut s = concat2(a, b);
    s.append(c);
    s
}

/// `a` to `e` one after the other.
pub(crate) fn concat5(a: &str, b: &str, c: &str, d: &str, e: &str) -> (r: String)
    ensures
        r@ == a@ + b@ + c@ + d@ + e@,
{
    let mut s = concat3(a, b, c);
    s.append(d);
    s.append(e);
    s
}

} // verus!
