//! Server policies: inbound forwarding, logging and alternative name servers
//! for networks.
use vstd::prelude::*;
use super::{concat2, ListEnvelope, UpdateEnvelope};
use crate::call::ApiCall;
use crate::client::{call_started, DnsClient};
use crate::error::DnsError;
use crate::request::Verb;

verus! {

/// A policy and the network it applies to.
#[derive(Debug, Clone, PartialEq)]
pub struct Policy {
    pub kind: String,
    pub id: u64,
    pub name: String,
    pub enable_inbound_forwarding: bool,
    pub description: String,
    pub networks: PolicyNetwork,
    pub alternative_name_server_config: AlternativeNameServerConfig,
    pub enable_logging: bool,
}

/// A network bound to a policy.
#[derive(Debug, Clone, PartialEq)]
pub struct PolicyNetwork {
    pub kind: String,
    pub network_url: String,
}

/// The name servers that replace the default resolver.
#[derive(Debug, Clone, PartialEq)]
pub struct AlternativeNameServerConfig {
    pub kind: String,
    pub target_name_servers: Vec<AlternativeNameServerConfigTargetNameServers>,
}

/// An alternative name server.
#[derive(Debug, Clone, PartialEq)]
pub struct AlternativeNameServerConfigTargetNameServers {
    pub kind: String,
    pub ipv4_address: String,
    pub forwarding_path: String,
}

/// A page of policies.
#[derive(Debug, Clone, PartialEq)]
pub struct Policies {
    pub envelope: ListEnvelope,
    pub policies: Vec<Policy>,
}

/// The answer to a policy update.
#[derive(Debug, Clone, PartialEq)]
pub struct UpdatePolicy {
    pub envelope: UpdateEnvelope,
    pub policy: Policy,
}

/// The route of all policies.
pub open spec fn policies_route() -> Seq<char> {
    "policies"@
}

/// The route of one policy.
pub open spec fn policy_route(policy: Seq<char>) -> Seq<char> {
    "policies/"@ + policy
}

/// Calls on policies.
pub struct PoliciesHandler<'client> {
    pub client: &'client DnsClient,
}

impl<'client> PoliciesHandler<'client> {
    pub(crate) fn new(client: &'client DnsClient) -> (r: Self)
        ensures
            r.client == client,
    {
        PoliciesHandler { client }
    }

    /// Lists the policies: `GET policies`.
    pub fn list(&self) -> (r: Result<ApiCall, DnsError>)
        ensures
            call_started(*self.client, Verb::Get, policies_route(), Seq::empty(), r),
    {
        self.client.get("policies")
    }

    /// Fetches one policy: `GET policies/<policy>`.
    pub fn get(&self, policy: &str) -> (r: Result<ApiCall, DnsError>)
        ensures
            call_started(*self.client, Verb::Get, policy_route(policy@), Seq::empty(), r),
    {
        let route = concat2("policies/", policy);
        self.client.get(route.as_str())
    }

    /// Updates a policy with the JSON encoding `policy`: `PATCH policies/<id>`.
    pub fn patch(&self, policy_id: &str, policy: Vec<u8>) -> (r: Result<ApiCall, DnsError>)
        ensures
            call_started(*self.client, Verb::Patch, policy_route(policy_id@), policy@, r),
    {
        let route = concat2("policies/", policy_id);
        self.client.patch(route.as_str(), Some(policy))
    }

    /// Creates a policy from its JSON encoding: `POST policies`.
    pub fn create(&self, policy: Vec<u8>) -> (r: Result<ApiCall, DnsError>)
        ensures
            call_started(*self.client, Verb::Post, policies_route(), policy@, r),
    {
        self.client.post("policies", Some(policy))
    }

    /// Deletes a policy: `DELETE policies/<id>`.
    pub fn delete(&self, policy_id: &str) -> (r: Result<ApiCall, DnsError>)
        ensures
            call_started(*self.client, Verb::Delete, policy_route(policy_id@), Seq::empty(), r),
    {
        let route = concat2("policies/", policy_id);
        self.client.delete(route.as_str())
    }

    /// Replaces a policy with the JSON encoding `policy`: `PUT policies/<id>`.
    pub fn update(&self, policy_id: &str, policy: Vec<u8>) -> (r: Result<ApiCall, DnsError>)
        ensures
            call_started(*self.client, Verb::Put, policy_route(policy_id@), policy@, r),
    {
        let route = concat2("policies/", policy_id);
        self.client.put(route.as_str(), Some(policy))
    }
}

} // verus!
