//! Change batches on the record sets of a managed zone.
use vstd::prelude::*;
use super::resource_record_sets::ResourceRecordSet;
use super::{concat3, concat5, ListEnvelope};
use crate::call::ApiCall;
use crate::client::{call_started, DnsClient};
use crate::error::DnsError;
use crate::request::Verb;

verus! {

/// One atomic batch of record-set additions and deletions.
#[derive(Debug, Clone, PartialEq)]
pub struct Change {
    pub kind: String,
    pub additions: Vec<ResourceRecordSet>,
    pub deletions: Vec<ResourceRecordSet>,
    pub start_time: String,
    pub id: String,
    pub status: Status,
    pub is_serving: Option<bool>,
}

/// Whether a change has been applied.
#[derive(Debug, Clone, Copy, PartialEq, Eq, Structural)]
pub enum Status {
    Done,
    Pending,
}

/// A page of changes.
#[derive(Debug, Clone, PartialEq)]
pub struct Changes {
    pub envelope: ListEnvelope,
    pub changes: Vec<Change>,
}

/// The route of a zone's changes.
pub open spec fn changes_route(managed_zone: Seq<char>) -> Seq<char> {
    "managedZones/"@ + managed_zone + "/changes"@
}

/// Calls on the changes of managed zones.
pub struct ChangesHandler<'client> {
    pub client: &'client DnsClient,
}

impl<'client> ChangesHandler<'client> {
    pub(crate) fn new(client: &'client DnsClient) -> (r: Self)
        ensures
            r.client == client,
    {
        ChangesHandler { client }
    }

    /// Lists the changes of a zone: `GET managedZones/<zone>/changes`.
    pub fn list(&self, managed_zone: &str) -> (r: Result<ApiCall, DnsError>)
        ensures
            call_started(*self.client, Verb::Get, changes_route(managed_zone@), Seq::empty(), r),
    {
        let route = concat3("managedZones/", managed_zone, "/changes");
        self.client.get(route.as_str())
    }

    /// Fetches one change: `GET managedZones/<zone>/changes/<id>`.
    pub fn get(&self, managed_zone: &str, change_id: &str) -> (r: Result<ApiCall, DnsError>)
        ensures
            call_started(
                *self.client,
                Verb::Get,
                changes_route(managed_zone@) + "/"@ + change_id@,
                Seq::empty(),
                r,
            ),
    {
        let route = concat5("managedZones/", managed_zone, "/changes", "/", change_id);
        self.client.get(route.as_str())
    }

    /// Submits a change, given as its JSON encoding:
    /// `POST managedZones/<zone>/changes`.
    pub fn create(&self, managed_zone: &str, change: Vec<u8>) -> (r: Result<ApiCall, DnsError>)
        ensures
            call_started(*self.client, Verb::Post, changes_route(managed_zone@), change@, r),
    {
        let route = concat3("managedZones/", managed_zone, "/changes");
        self.client.post(route.as_str(), Some(change))
    }
}

} // verus!
