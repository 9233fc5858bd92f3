//! The DNSSEC signing keys of a managed zone.
use vstd::prelude::*;
use super::{concat3, concat5, ListEnvelope};
use crate::call::ApiCall;
use crate::client::{call_started, DnsClient};
use crate::error::DnsError;
use crate::request::Verb;

verus! {

/// A DNSSEC key of a zone.
#[derive(Debug, Clone, PartialEq)]
pub struct DnsKey {
    pub kind: String,
    pub id: String,
    pub algorithm: Algorithm,
    pub key_length: u64,
    pub public_key: String,
    pub creation_time: String,
    pub is_active: bool,
    pub key_type: KeyType,
    pub key_tag: i32,
    pub digests: Vec<Digest>,
    pub description: Option<String>,
}

/// What a key signs.
#[derive(Debug, Clone, Copy, PartialEq, Eq, Structural)]
pub enum KeyType {
    KeySigning,
    ZoneSigning,
}

/// The signature algorithm of a key.
#[derive(Debug, Clone, Copy, PartialEq, Eq, Structural)]
pub enum Algorithm {
    Ecdsap256sha256,
    Ecdsap384sha384,
    Rsasha1,
    Rsasha256,
    Rsasha512,
}

/// A digest of a key.
#[derive(Debug, Clone, PartialEq)]
pub struct Digest {
    pub digest_type: DigestType,
    pub digest: String,
}

/// The hash function of a digest.
#[derive(Debug, Clone, Copy, PartialEq, Eq, Structural)]
pub enum DigestType {
    Sha1,
    Sha256,
    Sha384,
}

/// A page of keys.
#[derive(Debug, Clone, PartialEq)]
pub struct DnsKeys {
    pub envelope: ListEnvelope,
    pub dns_keys: Vec<DnsKey>,
}

/// The route of a zone's keys.
pub open spec fn dns_keys_route(managed_zone: Seq<char>) -> Seq<char> {
    "managedZones/"@ + managed_zone + "/dnsKeys"@
}

/// Calls on the keys of managed zones.
pub struct DnsKeysHandler<'client> {
    pub client: &'client DnsClient,
}

impl<'client> DnsKeysHandler<'client> {
    pub(crate) fn new(client: &'client DnsClient) -> (r: Self)
        ensures
            r.client == client,
    {
        DnsKeysHandler { client }
    }

    /// Lists a zone's keys: `GET managedZones/<zone>/dnsKeys`.
    pub fn list(&self, managed_zone: &str) -> (r: Result<ApiCall, DnsError>)
        ensures
            call_started(*self.client, Verb::Get, dns_keys_route(managed_zone@), Seq::empty(), r),
    {
        let route = concat3("managedZones/", managed_zone, "/dnsKeys");
        self.client.get(route.as_str())
    }

    /// Fetches one key: `GET managedZones/<zone>/dnsKeys/<id>`.
    pub fn get(&self, managed_zone: &str, dns_key_id: &str) -> (r: Result<ApiCall, DnsError>)
        ensures
            call_started(
                *self.client,
                Verb::Get,
                dns_keys_route(managed_zone@) + "/"@ + dns_key_id@,
                Seq::empty(),
                r,
            ),
    {
        let route = concat5("managedZones/", managed_zone, "/dnsKeys", "/", dns_key_id);
        self.client.get(route.as_str())
    }
}

} // verus!
