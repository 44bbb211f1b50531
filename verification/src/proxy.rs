use vstd::prelude::*;
use serde::de::IntoDeserializer;
use crate::connection_string::texts;
use crate::auth::copy_opt_text;
use crate::text::{format_host_port, host_with_port};
use crate::url_ops::{host_of, port_of, url_host, url_port};

verus! {

/// Whether the `no_proxy` exclusion rules `rules` (a list of rules, read as
/// `no_proxy::NoProxy` deserializes a list) match `target`
/// (`no_proxy::NoProxy::matches`).
pub uninterp spec fn no_proxy_matches(rules: Seq<Seq<char>>, target: Seq<char>) -> bool;

/// Matches a host, or `host:port`, against proxy exclusion rules: the list is
/// deserialized into a `no_proxy::NoProxy` (its `Deserialize` impl, which reads
/// a list of texts) and `matches` is asked. Claims: the result is the one
/// `no_proxy_matches` names; the single rule `*` matches every target (the
/// wildcard item), and an empty list matches none (no item is kept).
#[verifier::external_body]
fn rules_match(rules: &Vec<String>, target: &str) -> (matched: bool)
    ensures
        matched == no_proxy_matches(texts(rules@), target@),
        texts(rules@) == seq!["*"@] ==> matched,
        rules@.len() == 0 ==> !matched,
{
    let list: serde::de::value::SeqDeserializer<_, serde::de::value::Error> = rules.clone().into_deserializer();
    match <no_proxy::NoProxy as serde::Deserialize>::deserialize(list) {
        Ok(no_proxy) => no_proxy.matches(target),
        Err(_) => false,
    }
}

/// Proxy settings of the process.
#[derive(Clone, Debug, PartialEq, Eq)]
pub struct ProxyConfig {
    /// Whether proxies are used at all.
    pub enabled: bool,
    /// Proxy for `http` requests.
    pub http: Option<String>,
    /// Proxy for `https` requests.
    pub https: Option<String>,
    /// Rules for the hosts that are reached without proxy.
    pub no_proxy: Vec<String>,
}

/// How the HTTP transport reaches the storage service.
#[derive(Clone, Debug, PartialEq, Eq)]
pub enum ProxyRoute {
    /// No proxy, and no system proxy detection either.
    Direct,
    /// Through the configured proxies, each used where it is set.
    Proxied { http: Option<String>, https: Option<String> },
}

/// The host text a target URL is matched by: its host, or the empty text where
/// it has none.
pub open spec fn host_or_empty(host: Option<Seq<char>>) -> Seq<char> {
    match host {
        Some(h) => h,
        None => Seq::empty(),
    }
}

/// A target bypasses the proxies when the exclusion rules match its host, or
/// its `host:port` where the URL names an explicit port.
pub open spec fn bypasses_proxy(rules: Seq<Seq<char>>, host: Option<Seq<char>>, port: Option<u16>) -> bool {
    ||| no_proxy_matches(rules, host_or_empty(host))
    ||| (port matches Some(p) && no_proxy_matches(rules, host_with_port(host_or_empty(host), p)))
}

/// The route to a target URL (given by its serialization): direct where the
/// target bypasses the proxies or proxies are disabled, else through the
/// configured proxies.
pub open spec fn proxy_route_for(proxy: ProxyConfig, target: Seq<char>) -> ProxyRoute {
    if bypasses_proxy(texts(proxy.no_proxy@), url_host(target), url_port(target)) || !proxy.enabled {
        ProxyRoute::Direct
    } else {
        ProxyRoute::Proxied { http: proxy.http, https: proxy.https }
    }
}

impl ProxyConfig {
    /// Decides how the transport reaches `target`, a URL serialization.
    pub fn route_for(&self, target: &str) -> (route: ProxyRoute)
        ensures
            route == proxy_route_for(*self, target@),
            texts(self.no_proxy@) == seq!["*"@] ==> route == ProxyRoute::Direct,
            self.no_proxy@.len() == 0 && self.enabled ==> route == (ProxyRoute::Proxied {
                http: self.http,
                https: self.https,
            }),
    {
        let host = match host_of(target) {
            Some(h) => h,
            None => String::new(),
        };
        let port = port_of(target);
        let bypass = if rules_match(&self.no_proxy, host.as_str()) {
            true
        } else {
            match port {
                Some(p) => {
                    let with_port = format_host_port(host.as_str(), p);
                    rules_match(&self.no_proxy, with_port.as_str())
                },
                None => false,
            }
        };
        if bypass || !self.enabled {
            ProxyRoute::Direct
        } else {
            ProxyRoute::Proxied { http: copy_opt_text(&self.http), https: copy_opt_text(&self.https) }
        }
    }
}

} // verus!
