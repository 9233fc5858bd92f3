//! The client: the project's base URL, route resolution, and the five verbs,
//! each of which starts one [`ApiCall`].
use vstd::prelude::*;
use crate::{api_root, base_url, base_url_of};
use crate::api::changes::ChangesHandler;
use crate::api::dns_keys::DnsKeysHandler;
use crate::api::managed_zone_operations::ManagedZoneOperationsHandler;
use crate::api::managed_zones::ManagedZonesHandler;
use crate::api::policies::PoliciesHandler;
use crate::api::projects::ProjectsHandler;
use crate::api::resource_record_sets::ResourceRecordSetsHandler;
use crate::call::ApiCall;
use crate::error::DnsError;
use crate::request::{is_authorized_request, HttpRequest, Verb};
use crate::resolve::{
    join_url, parse_url, plain_base, plain_route, plain_url, url_join, url_parse,
};

verus! {

/// A project id that can stand as one plain path segment.
pub open spec fn plain_segment(s: Seq<char>) -> bool {
    plain_route(s) && forall|i: int| 0 <= i < s.len() ==> #[trigger] s[i] != '/'
}

/// The base URL of a project whose id is a plain segment is a plain base.
pub proof fn lemma_plain_project_base(project_id: Seq<char>)
    requires
        plain_segment(project_id),
    ensures
        plain_base(base_url_of(project_id)),
{
    let n = api_root().len() as int;
    let u = base_url_of(project_id);
    let tail = u.subrange(n, u.len() as int);
    assert(u.subrange(0, n) =~= api_root());
    assert(tail =~= project_id + "/"@);
    reveal_strlit("/");
    assert(tail.len() == project_id.len() + 1);
    assert forall|i: int| 0 <= i < tail.len() && #[trigger] tail[i] == '/' implies i > 0 && tail[i
        - 1] != '/' by {
        if i < project_id.len() {
            assert(tail[i] == project_id[i]);
        } else {
            assert(tail[i - 1] == project_id[i - 1]);
        }
    }
    assert forall|i: int| 0 <= i < tail.len() && #[trigger] tail[i] == '.' implies i > 0 && tail[i
        - 1] != '/' && tail[i - 1] != '.' by {
        if i < project_id.len() {
            assert(tail[i] == project_id[i]);
        }
    }
    assert forall|i: int| 0 <= i < tail.len() implies crate::resolve::is_path_char(#[trigger] tail[i]) by {
        if i < project_id.len() {
            assert(tail[i] == project_id[i]);
        }
    }
}

/// The Cloud DNS API client: where routes resolve, for one project.
#[derive(Debug, Clone)]
pub struct DnsClient {
    pub base_url: String,
    pub project_id: String,
}

/// `r` is the outcome of starting a call of `verb` on `route` with `body`
/// from `client`: the route resolves through `url`, or the call fails with a
/// URL error before anything is sent.
pub open spec fn call_started(
    client: DnsClient,
    verb: Verb,
    route: Seq<char>,
    body: Seq<u8>,
    r: Result<ApiCall, DnsError>,
) -> bool {
    match url_join(client.base_url@, route) {
        Some(u) => r matches Ok(c) && c.verb == verb && c.url@ == u && c.body@ == body
            && c.phase is AwaitingToken,
        None => r matches Err(e) && e is Url,
    }
}

impl DnsClient {
    /// The base URL is what `url` made of the project's base URL.
    pub open spec fn wf(&self) -> bool {
        url_parse(base_url_of(self.project_id@)) == Some(self.base_url@)
    }

    /// A client for `project_id`; it fails where the base URL does not parse.
    /// A project id that is one plain segment always gives a client, whose
    /// base URL is `https://dns.googleapis.com/dns/v1/projects/<project_id>/`.
    pub fn new(project_id: &str) -> (r: Result<DnsClient, DnsError>)
        ensures
            r is Ok <==> url_parse(base_url_of(project_id@)) is Some,
            r matches Ok(c) ==> c.wf() && c.project_id@ == project_id@,
            r matches Err(e) ==> e is Url,
            plain_segment(project_id@) ==> (r matches Ok(c) && c.base_url@ == base_url_of(
                project_id@,
            ) && plain_base(c.base_url@)),
    {
        proof {
            if plain_segment(project_id@) {
                lemma_plain_project_base(project_id@);
            }
        }
        let text = base_url(project_id);
        match parse_url(text.as_str()) {
            Ok(u) => Ok(DnsClient { base_url: u, project_id: project_id.to_owned() }),
            Err(e) => Err(DnsError::Url(e)),
        }
    }

    /// The project this client speaks for.
    pub fn project_id(&self) -> (r: &str)
        ensures
            r@ == self.project_id@,
    {
        self.project_id.as_str()
    }

    /// Calls on change batches.
    pub fn changes(&self) -> (r: ChangesHandler<'_>)
        ensures
            r.client == self,
    {
        ChangesHandler::new(self)
    }

    /// Calls on DNSSEC keys.
    pub fn dns_keys(&self) -> (r: DnsKeysHandler<'_>)
        ensures
            r.client == self,
    {
        DnsKeysHandler::new(self)
    }

    /// Calls on zone operations.
    pub fn managed_zone_operations(&self) -> (r: ManagedZoneOperationsHandler<'_>)
        ensures
            r.client == self,
    {
        ManagedZoneOperationsHandler::new(self)
    }

    /// Calls on managed zones.
    pub fn managed_zones(&self) -> (r: ManagedZonesHandler<'_>)
        ensures
            r.client == self,
    {
        ManagedZonesHandler::new(self)
    }

    /// Calls on policies.
    pub fn policies(&self) -> (r: PoliciesHandler<'_>)
        ensures
            r.client == self,
    {
        PoliciesHandler::new(self)
    }

    /// Calls on the project.
    pub fn projects(&self) -> (r: ProjectsHandler<'_>)
        ensures
            r.client == self,
    {
        ProjectsHandler::new(self)
    }

    /// Calls on record sets.
    pub fn resource_record_sets(&self) -> (r: ResourceRecordSetsHandler<'_>)
        ensures
            r.client == self,
    {
        ResourceRecordSetsHandler::new(self)
    }

    /// Resolves `path` against the base URL. A plain relative route is
    /// appended to a plain base; an absolute plain URL comes back unchanged.
    pub fn absolute_url(&self, path: &str) -> (r: Result<String, DnsError>)
        ensures
            r is Ok <==> url_join(self.base_url@, path@) is Some,
            r matches Ok(u) ==> url_join(self.base_url@, path@) == Some(u@),
            r matches Err(e) ==> e is Url,
            plain_base(self.base_url@) && plain_route(path@) ==> (r matches Ok(u) && u@
                == self.base_url@ + path@),
            plain_base(self.base_url@) && plain_url(path@) ==> (r matches Ok(u) && u@ == path@),
    {
        match join_url(self.base_url.as_str(), path) {
            Ok(u) => Ok(u),
            Err(e) => Err(DnsError::Url(e)),
        }
    }

    /// Builds the request for one API call: the method of `method`, the absolute
    /// `url`, the bearer authorization for `access_token`, and `body` (empty when
    /// the call sends none).
    pub fn request_builder(url: String, method: Verb, access_token: &str, body: Vec<u8>) -> (r:
        HttpRequest)
        ensures
            is_authorized_request(r, method, url@, access_token@, body@),
    {
        let mut value = String::from_str("Bearer ");
        value.append(access_token);
        let bytes = vstd::slice::slice_to_vec(value.as_str().as_bytes());
        let mut headers: Vec<(String, Vec<u8>)> = Vec::new();
        headers.push((String::from_str("authorization"), bytes));
        HttpRequest { method: String::from_str(method.as_str()), uri: url, headers, body }
    }

    /// Starts a call of `verb` on `route`, sending `body` (nothing when absent).
    pub fn start(&self, verb: Verb, route: &str, body: Option<Vec<u8>>) -> (r: Result<
        ApiCall,
        DnsError,
    >)
        ensures
            call_started(
                *self,
                verb,
                route@,
                match body {
                    Some(b) => b@,
                    None => Seq::empty(),
                },
                r,
            ),
    {
        let url = match self.absolute_url(route) {
            Ok(u) => u,
            Err(e) => return Err(e),
        };
        let bytes = match body {
            Some(b) => b,
            None => Vec::new(),
        };
        Ok(ApiCall::new(verb, url, bytes))
    }

    /// Starts a `GET` of `route`, with an empty body.
    pub fn get(&self, route: &str) -> (r: Result<ApiCall, DnsError>)
        ensures
            call_started(*self, Verb::Get, route@, Seq::empty(), r),
    {
        self.start(Verb::Get, route, None)
    }

    /// Starts a `POST` of `body` (JSON bytes) to `route`.
    pub fn post(&self, route: &str, body: Option<Vec<u8>>) -> (r: Result<ApiCall, DnsError>)
        ensures
            call_started(
                *self,
                Verb::Post,
                route@,
                match body {
                    Some(b) => b@,
                    None => Seq::empty(),
                },
                r,
            ),
    {
        self.start(Verb::Post, route, body)
    }

    /// Starts a `PATCH` of `body` (JSON bytes) to `route`.
    pub fn patch(&self, route: &str, body: Option<Vec<u8>>) -> (r: Result<ApiCall, DnsError>)
        ensures
            call_started(
                *self,
                Verb::Patch,
                route@,
                match body {
                    Some(b) => b@,
                    None => Seq::empty(),
                },
                r,
            ),
    {
        self.start(Verb::Patch, route, body)
    }

    /// Starts a `PUT` of `body` (JSON bytes) to `route`.
    pub fn put(&self, route: &str, body: Option<Vec<u8>>) -> (r: Result<ApiCall, DnsError>)
        ensures
            call_started(
                *self,
                Verb::Put,
                route@,
                match body {
                    Some(b) => b@,
                    None => Seq::empty(),
                },
                r,
            ),
    {
        self.start(Verb::Put, route, body)
    }

    /// Starts a `DELETE` of `route`, with an empty body.
    pub fn delete(&self, route: &str) -> (r: Result<ApiCall, DnsError>)
        ensures
            call_started(*self, Verb::Delete, route@, Seq::empty(), r),
    {
        self.start(Verb::Delete, route, None)
    }
}

} // verus!
