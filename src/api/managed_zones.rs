//! Managed zones: the DNS zones that the API serves.
use vstd::prelude::*;
use std::collections::HashMap;
use super::{concat2, ListEnvelope};
use crate::call::ApiCall;
use crate::client::{call_started, DnsClient};
use crate::error::DnsError;
use crate::request::Verb;

verus! {

/// A zone and its configuration.
#[derive(Debug, Clone, PartialEq)]
pub struct ManagedZone {
    pub kind: String,
    pub name: String,
    pub dns_name: String,
    pub description: String,
    pub id: u64,
    pub name_servers: Vec<String>,
    pub creation_time: String,
    pub dnssec_config: DnsSecConfig,
    pub name_server_set: String,
    pub visibility: String,
    pub private_visibility_config: PrivateVisibilityConfig,
    pub forwarding_config: ForwardingConfig,
    pub labels: HashMap<String, serde_json::Value>,
    pub peering_config: PeeringConfig,
    pub reverse_lookup_config: ReverseLookupConfig,
    pub service_directory_config: ServiceDirectoryConfig,
}

/// The service directory namespace that backs a zone.
#[derive(Debug, Clone, PartialEq)]
pub struct ServiceDirectoryConfig {
    pub kind: String,
    pub namespace: ServiceDirectoryConfigNamespace,
}

/// A service directory namespace.
#[derive(Debug, Clone, PartialEq)]
pub struct ServiceDirectoryConfigNamespace {
    pub kind: String,
    pub namespace_url: String,
    pub deletion_time: String,
}

/// Marks a reverse-lookup zone.
#[derive(Debug, Clone, PartialEq)]
pub struct ReverseLookupConfig {
    pub kind: String,
}

/// The network whose zones a peering zone answers from.
#[derive(Debug, Clone, PartialEq)]
pub struct PeeringConfig {
    pub kind: String,
    pub target_network: PeeringConfigTargetNetwork,
}

/// A peered network.
#[derive(Debug, Clone, PartialEq)]
pub struct PeeringConfigTargetNetwork {
    pub kind: String,
    pub network_url: String,
    pub deactivate_time: String,
}

/// The networks a private zone is visible to.
#[derive(Debug, Clone, PartialEq)]
pub struct PrivateVisibilityConfig {
    pub kind: String,
    pub networks: Vec<PrivateVisibilityConfigNetwork>,
}

/// The name servers a forwarding zone forwards to.
#[derive(Debug, Clone, PartialEq)]
pub struct ForwardingConfig {
    pub kind: String,
    pub target_name_servers: Vec<ForwardingConfigNameServerTarget>,
}

/// A name server that queries are forwarded to.
#[derive(Debug, Clone, PartialEq)]
pub struct ForwardingConfigNameServerTarget {
    pub kind: String,
    pub ipv4_address: String,
    pub forwarding_path: String,
}

/// A network a private zone is visible to.
#[derive(Debug, Clone, PartialEq)]
pub struct PrivateVisibilityConfigNetwork {
    pub kind: String,
    pub network_url: String,
}

/// The DNSSEC settings of a zone.
#[derive(Debug, Clone, PartialEq)]
pub struct DnsSecConfig {
    pub kind: String,
    pub state: String,
    pub default_key_specs: Vec<DefaultKeySpec>,
    pub non_existence: String,
}

/// The parameters of a key that DNSSEC creates by default.
#[derive(Debug, Clone, PartialEq)]
pub struct DefaultKeySpec {
    pub kind: String,
    pub key_type: String,
    pub algorithm: String,
    pub key_length: u64,
}

/// A page of zones.
#[derive(Debug, Clone, PartialEq)]
pub struct ManagedZones {
    pub envelope: ListEnvelope,
    pub managed_zones: Vec<ManagedZone>,
}

/// The route of all zones.
pub open spec fn zones_route() -> Seq<char> {
    "managedZones"@
}

/// The route of one zone.
pub open spec fn zone_route(managed_zone: Seq<char>) -> Seq<char> {
    "managedZones/"@ + managed_zone
}

/// Calls on managed zones.
pub struct ManagedZonesHandler<'client> {
    pub client: &'client DnsClient,
}

impl<'client> ManagedZonesHandler<'client> {
    pub(crate) fn new(client: &'client DnsClient) -> (r: Self)
        ensures
            r.client == client,
    {
        ManagedZonesHandler { client }
    }

    /// Lists the zones: `GET managedZones`.
    pub fn list(&self) -> (r: Result<ApiCall, DnsError>)
        ensures
            call_started(*self.client, Verb::Get, zones_route(), Seq::empty(), r),
    {
        self.client.get("managedZones")
    }

    /// Fetches one zone: `GET managedZones/<zone>`.
    pub fn get(&self, managed_zone: String) -> (r: Result<ApiCall, DnsError>)
        ensures
            call_started(*self.client, Verb::Get, zone_route(managed_zone@), Seq::empty(), r),
    {
        let route = concat2("managedZones/", managed_zone.as_str());
        self.client.get(route.as_str())
    }

    /// Updates a zone with the JSON encoding `managed_zone`:
    /// `PATCH managedZones/<id>`.
    pub fn patch(&self, managed_zone_id: &str, managed_zone: Vec<u8>) -> (r: Result<
        ApiCall,
        DnsError,
    >)
        ensures
            call_started(*self.client, Verb::Patch, zone_route(managed_zone_id@), managed_zone@, r),
    {
        let route = concat2("managedZones/", managed_zone_id);
        self.client.patch(route.as_str(), Some(managed_zone))
    }

    /// Creates a zone from its JSON encoding: `POST managedZones`.
    pub fn create(&self, managed_zone: Vec<u8>) -> (r: Result<ApiCall, DnsError>)
        ensures
            call_started(*self.client, Verb::Post, zones_route(), managed_zone@, r),
    {
        self.client.post("managedZones", Some(managed_zone))
    }

    /// Deletes a zone: `DELETE managedZones/<zone>`.
    pub fn delete(&self, managed_zone: &str) -> (r: Result<ApiCall, DnsError>)
        ensures
            call_started(*self.client, Verb::Delete, zone_route(managed_zone@), Seq::empty(), r),
    {
        let route = concat2("managedZones/", managed_zone);
        self.client.delete(route.as_str())
    }

    /// Replaces a zone with the JSON encoding `managed_zone`:
    /// `PUT managedZones/<id>`.
    pub fn update(&self, managed_zone_id: &str, managed_zone: Vec<u8>) -> (r: Result<
        ApiCall,
        DnsError,
    >)
        ensures
            call_started(*self.client, Verb::Put, zone_route(managed_zone_id@), managed_zone@, r),
    {
        let route = concat2("managedZones/", managed_zone_id);
        self.client.put(route.as_str(), Some(managed_zone))
    }
}

} // verus!
