//! The federation context of one server: who it is and whom it talks to.

use vstd::prelude::*;
use vstd::string::StringExecFns;
use crate::text::contains_text;

verus! {

/// Federation settings, fixed when the server starts.
#[derive(Debug, PartialEq, Eq)]
pub struct InstanceSettings {
    /// Seconds after which an outbound request is given up.
    pub request_timeout_secs: u64,
    /// How many deliveries may be in flight at once.
    pub worker_count: u64,
    /// How many redirects an outbound fetch may follow.
    pub redirect_limit: u32,
    /// When present, the only domains that may be contacted.
    pub allowed_domains: Option<Vec<String>>,
    /// Domains that are never contacted.
    pub blocked_domains: Vec<String>,
    /// How many resolved remote entities are kept at hand.
    pub cache_capacity: usize,
    /// Seconds for which a resolved remote entity answers lookups.
    pub cache_ttl_secs: u64,
}

pub struct InstanceSettingsView {
    pub request_timeout_secs: u64,
    pub worker_count: u64,
    pub redirect_limit: u32,
    pub allowed_domains: Option<Seq<Seq<char>>>,
    pub blocked_domains: Seq<Seq<char>>,
    pub cache_capacity: usize,
    pub cache_ttl_secs: u64,
}

impl InstanceSettingsView {
    /// A domain may be contacted when it is not blocked and, where an
    /// allow list is set, is on it.
    pub open spec fn domain_allowed(self, domain: Seq<char>) -> bool {
        &&& !self.blocked_domains.contains(domain)
        &&& self.allowed_domains matches Some(allowed) ==> allowed.contains(domain)
    }
}

impl View for InstanceSettings {
    type V = InstanceSettingsView;

    open spec fn view(&self) -> InstanceSettingsView {
        InstanceSettingsView {
            request_timeout_secs: self.request_timeout_secs,
            worker_count: self.worker_count,
            redirect_limit: self.redirect_limit,
            allowed_domains: self.allowed_domains.deep_view(),
            blocked_domains: self.blocked_domains.deep_view(),
            cache_capacity: self.cache_capacity,
            cache_ttl_secs: self.cache_ttl_secs,
        }
    }
}

/// The settings a server starts with unless told otherwise: ten-second
/// timeout, 64 workers, up to 20 redirects, every domain allowed, and a
/// cache of 1024 entities that answer for one hour.
pub open spec fn default_settings() -> InstanceSettingsView {
    InstanceSettingsView {
        request_timeout_secs: 10,
        worker_count: 64,
        redirect_limit: 20,
        allowed_domains: None,
        blocked_domains: Seq::empty(),
        cache_capacity: 1024,
        cache_ttl_secs: 3600,
    }
}

impl Default for InstanceSettings {
    fn default() -> (settings: InstanceSettings)
        ensures
            settings@ == default_settings(),
    {
        let settings = InstanceSettings {
            request_timeout_secs: 10,
            worker_count: 64,
            redirect_limit: 20,
            allowed_domains: None,
            blocked_domains: Vec::new(),
            cache_capacity: 1024,
            cache_ttl_secs: 3600,
        };
        assert(settings@.blocked_domains =~= Seq::empty());
        settings
    }
}

impl InstanceSettings {
    /// Whether `domain` may be contacted.
    pub fn domain_allowed(&self, domain: &String) -> (allowed: bool)
        ensures
            allowed == self@.domain_allowed(domain@),
    {
        if contains_text(&self.blocked_domains, domain) {
            return false;
        }
        match &self.allowed_domains {
            Some(list) => contains_text(list, domain),
            None => true,
        }
    }
}

/// What an outbound fetch is to be made with.
#[derive(Debug, PartialEq, Eq)]
pub struct FetchRequest {
    /// The URL to `GET`.
    pub url: String,
    /// The value of the `Accept` header.
    pub accept: String,
    /// Seconds after which the fetch counts as failed.
    pub timeout_secs: u64,
    /// How many redirects may be followed.
    pub redirect_limit: u32,
}

pub struct FetchRequestView {
    pub url: Seq<char>,
    pub accept: Seq<char>,
    pub timeout_secs: u64,
    pub redirect_limit: u32,
}

impl View for FetchRequest {
    type V = FetchRequestView;

    open spec fn view(&self) -> FetchRequestView {
        FetchRequestView {
            url: self.url@,
            accept: self.accept@,
            timeout_secs: self.timeout_secs,
            redirect_limit: self.redirect_limit,
        }
    }
}

/// The content type of every document that is served or asked for.
pub open spec fn wire_content_type() -> Seq<char> {
    "application/activity+json"@
}

/// The state every component shares: the server's own name, the client
/// that outbound requests go through, and the settings. Built once and
/// read-only from then on.
pub struct LocalInstance<C> {
    hostname: String,
    client: C,
    settings: InstanceSettings,
}

pub struct LocalInstanceView {
    pub hostname: Seq<char>,
    pub settings: InstanceSettingsView,
}

impl<C> View for LocalInstance<C> {
    type V = LocalInstanceView;

    closed spec fn view(&self) -> LocalInstanceView {
        LocalInstanceView { hostname: self.hostname@, settings: self.settings@ }
    }
}

impl<C> LocalInstance<C> {
    /// The context of the server named `hostname`. Nothing is contacted.
    pub fn new(hostname: String, client: C, settings: InstanceSettings) -> (instance: Self)
        ensures
            instance@ == (LocalInstanceView { hostname: hostname@, settings: settings@ }),
            *instance.spec_client() == client,
    {
        LocalInstance { hostname, client, settings }
    }

    /// The client handle, for use in contracts.
    pub closed spec fn spec_client(&self) -> &C {
        &self.client
    }

    /// The name under which this server is reached, with its port where it
    /// is not the default one.
    pub fn hostname(&self) -> (hostname: &String)
        ensures
            hostname@ == self@.hostname,
    {
        &self.hostname
    }

    /// The client that outbound requests go through.
    pub fn client(&self) -> (client: &C)
        ensures
            client == self.spec_client(),
    {
        &self.client
    }

    /// How the document at `url` is to be fetched: as a wire document,
    /// within the configured timeout and redirect bound.
    pub fn fetch_request(&self, url: &String) -> (request: FetchRequest)
        ensures
            request@ == (FetchRequestView {
                url: url@,
                accept: wire_content_type(),
                timeout_secs: self@.settings.request_timeout_secs,
                redirect_limit: self@.settings.redirect_limit,
            }),
    {
        FetchRequest {
            url: url.clone(),
            accept: String::from_str("application/activity+json"),
            timeout_secs: self.settings.request_timeout_secs,
            redirect_limit: self.settings.redirect_limit,
        }
    }

    pub fn settings(&self) -> (settings: &InstanceSettings)
        ensures
            settings@ == self@.settings,
    {
        &self.settings
    }
}

} // verus!
