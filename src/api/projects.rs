//! The project itself and its quotas.
use vstd::prelude::*;
use crate::call::ApiCall;
use crate::client::{call_started, DnsClient};
use crate::error::DnsError;
use crate::request::Verb;

verus! {

/// A project and its quotas.
#[derive(Debug, Clone, PartialEq)]
pub struct Project {
    pub kind: String,
    pub number: u64,
    pub id: String,
    pub quota: Quota,
}

/// The limits that apply to a project.
#[derive(Debug, Clone, PartialEq)]
pub struct Quota {
    pub kind: String,
    pub managed_zones: i64,
    pub rrsets_per_managed_zone: i64,
    pub rrset_additions_per_change: i64,
    pub rrset_deletions_per_change: i64,
    pub total_rrdata_size_per_change: i64,
    pub resource_records_per_rrset: i64,
    pub dns_keys_per_managed_zone: i64,
    pub whitelisted_key_specs: Vec<WhitelistedKeySpec>,
    pub networks_per_managed_zone: i64,
    pub managed_zones_per_network: i64,
    pub policies: i64,
    pub networks_per_policy: i64,
    pub target_name_servers_per_policy: i64,
    pub target_name_servers_per_managed_zone: i64,
}

/// A key specification that the project may use.
#[derive(Debug, Clone, PartialEq)]
pub struct WhitelistedKeySpec {
    pub kind: String,
    pub key_type: String,
    pub algorithm: String,
    pub key_length: u64,
}

/// Calls on the project.
pub struct ProjectsHandler<'client> {
    pub client: &'client DnsClient,
}

impl<'client> ProjectsHandler<'client> {
    pub(crate) fn new(client: &'client DnsClient) -> (r: Self)
        ensures
            r.client == client,
    {
        ProjectsHandler { client }
    }

    /// Fetches the project: `GET /`.
    pub fn get(&self) -> (r: Result<ApiCall, DnsError>)
        ensures
            call_started(*self.client, Verb::Get, "/"@, Seq::empty(), r),
    {
        self.client.get("/")
    }
}

} // verus!
