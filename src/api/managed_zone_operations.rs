//! The operations that changed a managed zone or its keys.
use vstd::prelude::*;
use super::dns_keys::DnsKey;
use super::managed_zones::ManagedZone;
use super::{concat3, concat5, ListEnvelope};
use crate::call::ApiCall;
use crate::client::{call_started, DnsClient};
use crate::error::DnsError;
use crate::request::Verb;

verus! {

/// One operation on a zone.
#[derive(Debug, Clone, PartialEq)]
pub struct ManagedZoneOperation {
    pub kind: String,
    pub id: String,
    pub start_time: String,
    pub status: String,
    pub user: String,
    pub operation_type: String,
    pub zone_context: ZoneContext,
    pub dns_key_context: DnsKeyContext,
}

/// A zone before and after an operation.
#[derive(Debug, Clone, PartialEq)]
pub struct ZoneContext {
    pub old_value: ManagedZone,
    pub new_value: ManagedZone,
}

/// A key before and after an operation.
#[derive(Debug, Clone, PartialEq)]
pub struct DnsKeyContext {
    pub old_value: DnsKey,
    pub new_value: DnsKey,
}

/// A page of operations.
#[derive(Debug, Clone, PartialEq)]
pub struct ManagedZoneOperations {
    pub envelope: ListEnvelope,
    pub operations: Vec<ManagedZoneOperation>,
}

/// The route of a zone's operations.
pub open spec fn operations_route(managed_zone: Seq<char>) -> Seq<char> {
    "managedZones/"@ + managed_zone + "/operations"@
}

/// Calls on the operations of managed zones.
pub struct ManagedZoneOperationsHandler<'client> {
    pub client: &'client DnsClient,
}

impl<'client> ManagedZoneOperationsHandler<'client> {
    pub(crate) fn new(client: &'client DnsClient) -> (r: Self)
        ensures
            r.client == client,
    {
        ManagedZoneOperationsHandler { client }
    }

    /// Lists a zone's operations: `GET managedZones/<zone>/operations`.
    pub fn list(&self, managed_zone: &str) -> (r: Result<ApiCall, DnsError>)
        ensures
            call_started(*self.client, Verb::Get, operations_route(managed_zone@), Seq::empty(), r),
    {
        let route = concat3("managedZones/", managed_zone, "/operations");
        self.client.get(route.as_str())
    }

    /// Fetches one operation: `GET managedZones/<zone>/operations/<id>`.
    pub fn get(&self, managed_zone: &str, operation_id: &str) -> (r: Result<ApiCall, DnsError>)
        ensures
            call_started(
                *self.client,
                Verb::Get,
                operations_route(managed_zone@) + "/"@ + operation_id@,
                Seq::empty(),
                r,
            ),
    {
        let route = concat5("managedZones/", managed_zone, "/operations", "/", operation_id);
        self.client.get(route.as_str())
    }
}

} // verus!
