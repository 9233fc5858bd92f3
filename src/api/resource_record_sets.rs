//! The record sets of a managed zone.
use vstd::prelude::*;
use super::{concat3, ListEnvelope};
use crate::call::ApiCall;
use crate::client::{call_started, DnsClient};
use crate::error::DnsError;
use crate::request::Verb;

verus! {

/// All the records of one name and type.
#[derive(Debug, Clone, PartialEq)]
pub struct ResourceRecordSet {
    pub kind: String,
    pub name: String,
    pub record_type: String,
    pub ttl: i32,
    pub rrdatas: Vec<String>,
    pub signature_rrdatas: Vec<String>,
}

/// A page of record sets.
#[derive(Debug, Clone, PartialEq)]
pub struct ResourceRecordSets {
    pub envelope: ListEnvelope,
    pub rrsets: Vec<ResourceRecordSet>,
}

/// The route of a zone's record sets.
pub open spec fn rrsets_route(managed_zone: Seq<char>) -> Seq<char> {
    "managedZones/"@ + managed_zone + "/rrsets"@
}

/// The route of the record set of one name and type.
pub open spec fn rrset_route(managed_zone: Seq<char>, name: Seq<char>, typ: Seq<char>) -> Seq<
    char,
> {
    rrsets_route(managed_zone) + "/"@ + name + "/"@ + typ
}

/// `managedZones/<zone>/rrsets/<name>/<type>`.
fn rrset_path(managed_zone: &str, name: &str, typ: &str) -> (r: String)
    ensures
        r@ == rrset_route(managed_zone@, name@, typ@),
{
    let mut s = concat3("managedZones/", managed_zone, "/rrsets/");
    s.append(name);
    s.append("/");
    s.append(typ);
    proof {
        reveal_strlit("/rrsets/");
        reveal_strlit("/rrsets");
        reveal_strlit("/");
        assert("/rrsets/"@ =~= "/rrsets"@ + "/"@);
        assert(s@ =~= rrset_route(managed_zone@, name@, typ@));
    }
    s
}

/// Calls on the record sets of managed zones.
pub struct ResourceRecordSetsHandler<'client> {
    pub client: &'client DnsClient,
}

impl<'client> ResourceRecordSetsHandler<'client> {
    pub(crate) fn new(client: &'client DnsClient) -> (r: Self)
        ensures
            r.client == client,
    {
        ResourceRecordSetsHandler { client }
    }

    /// Lists a zone's record sets: `GET managedZones/<zone>/rrsets`.
    pub fn list(&self, managed_zone: &str) -> (r: Result<ApiCall, DnsError>)
        ensures
            call_started(*self.client, Verb::Get, rrsets_route(managed_zone@), Seq::empty(), r),
    {
        let route = concat3("managedZones/", managed_zone, "/rrsets");
        self.client.get(route.as_str())
    }

    /// Fetches one record set: `GET managedZones/<zone>/rrsets/<name>/<type>`.
    pub fn get(&self, managed_zone: &str, name: &str, record_type: &str) -> (r: Result<
        ApiCall,
        DnsError,
    >)
        ensures
            call_started(
                *self.client,
                Verb::Get,
                rrset_route(managed_zone@, name@, record_type@),
                Seq::empty(),
                r,
            ),
    {
        let route = rrset_path(managed_zone, name, record_type);
        self.client.get(route.as_str())
    }

    /// Updates one record set with the JSON encoding `record_set`:
    /// `PATCH managedZones/<zone>/rrsets/<name>/<type>`.
    pub fn patch(&self, managed_zone: &str, name: &str, record_type: &str, record_set: Vec<u8>) -> (r:
        Result<ApiCall, DnsError>)
        ensures
            call_started(
                *self.client,
                Verb::Patch,
                rrset_route(managed_zone@, name@, record_type@),
                record_set@,
                r,
            ),
    {
        let route = rrset_path(managed_zone, name, record_type);
        self.client.patch(route.as_str(), Some(record_set))
    }

    /// Creates a record set from its JSON encoding:
    /// `POST managedZones/<zone>/rrsets`.
    pub fn create(&self, managed_zone: &str, record_set: Vec<u8>) -> (r: Result<
        ApiCall,
        DnsError,
    >)
        ensures
            call_started(*self.client, Verb::Post, rrsets_route(managed_zone@), record_set@, r),
    {
        let route = concat3("managedZones/", managed_zone, "/rrsets");
        self.client.post(route.as_str(), Some(record_set))
    }

    /// Deletes one record set: `DELETE managedZones/<zone>/rrsets/<name>/<type>`.
    pub fn delete(&self, managed_zone: &str, name: &str, record_type: &str) -> (r: Result<
        ApiCall,
        DnsError,
    >)
        ensures
            call_started(
                *self.client,
                Verb::Delete,
                rrset_route(managed_zone@, name@, record_type@),
                Seq::empty(),
                r,
            ),
    {
        let route = rrset_path(managed_zone, name, record_type);
        self.client.delete(route.as_str())
    }
}

} // verus!
