//! # Proxy module
//!
//! Which proxy the Clever Cloud api is reached through.

use crate::svc::cfg::ProxyConfiguration;
use clevercloud_sdk::oauth10a::proxy::ProxyBuilder;
use vstd::prelude::*;

verus! {

// -----------------------------------------------------------------------------
// ProxySource enum

/// Where the proxy comes from.
#[derive(PartialEq, Eq, Debug)]
pub enum ProxySource {
    /// The configuration gives its url, and the hosts to reach without it.
    Configured { url: String, no: Vec<String> },
    /// The environment may give one.
    Environment,
}

impl ProxySource {
    /// The configured proxy for https, else the one for http, else whatever
    /// the environment says.
    pub open spec fn of(proxy: Option<ProxyConfiguration>) -> ProxySource {
        match proxy {
            Some(ProxyConfiguration { https: Some(url), no, .. }) => {
                ProxySource::Configured { url, no }
            },
            Some(ProxyConfiguration { https: None, http: Some(url), no }) => {
                ProxySource::Configured { url, no }
            },
            _ => ProxySource::Environment,
        }
    }

    /// Selects the proxy that the configuration asks for.
    pub fn select(proxy: Option<ProxyConfiguration>) -> (source: ProxySource)
        ensures
            source == ProxySource::of(proxy),
    {
        match proxy {
            Some(proxy) if proxy.https.is_some() || proxy.http.is_some() => {
                let url: String = match proxy.https {
                    Some(https) => https,
                    None => proxy.http.expect(
                        "to have one of http or https value in proxy configuration file",
                    ),
                };
                ProxySource::Configured { url, no: proxy.no }
            },
            _ => ProxySource::Environment,
        }
    }

    /// What comes of building the proxy: nothing where the environment decides,
    /// else what the configured url and rules give, which is neither a proxy nor
    /// an error where the url has no host.
    pub open spec fn built(self) -> Option<
        Option<Result<hyper_proxy::Proxy, clevercloud_sdk::oauth10a::proxy::Error>>,
    > {
        match self {
            ProxySource::Configured { url, no } => if url_host(url@) == Some(None::<Seq<char>>) {
                Some(None)
            } else {
                Some(Some(proxy_of(url@, no.deep_view())))
            },
            ProxySource::Environment => None,
        }
    }

    /// Builds the proxy that was selected, if the configuration gives one.
    pub fn build(&self) -> (proxy: Option<
        Option<Result<hyper_proxy::Proxy, clevercloud_sdk::oauth10a::proxy::Error>>,
    >)
        ensures
            proxy == self.built(),
            proxy is None <==> self is Environment,
            self matches ProxySource::Configured { url, no } ==> (proxy matches Some(built) && (
            built is None <==> url_host(url@) == Some(None::<Seq<char>>)) && (built matches Some(
                result,
            ) ==> result == proxy_of(url@, no.deep_view()))),
            self matches ProxySource::Configured { url, .. } ==> (url_host(url@) is None ==> (
            proxy matches Some(Some(Err(err))) && blames(err, url@))),
    {
        match self {
            ProxySource::Configured { url, no } => {
                let rules: Vec<String> = no.clone();
                assert(rules.deep_view() =~= no.deep_view());
                Some(build_proxy(url.clone(), rules))
            },
            ProxySource::Environment => None,
        }
    }
}

// -----------------------------------------------------------------------------
// Proxy

/// What the url library makes of a text: nothing where it is not a url, else
/// the host of the url, if it has one.
pub uninterp spec fn url_host(url: Seq<char>) -> Option<Option<Seq<char>>>;

/// What comes of building a proxy from a url with a host, and from the rules
/// that tell which hosts are reached without it: the proxy, or the error.
pub uninterp spec fn proxy_of(url: Seq<char>, no: Seq<Seq<char>>) -> Result<
    hyper_proxy::Proxy,
    clevercloud_sdk::oauth10a::proxy::Error,
>;

/// Whether whatever the error displays begins by telling that `url` is no url.
pub open spec fn blames(err: clevercloud_sdk::oauth10a::proxy::Error, url: Seq<char>) -> bool {
    forall|text: String| #[trigger]
        vstd::string::to_string_from_display_ensures::<clevercloud_sdk::oauth10a::proxy::Error>(
            &err,
            text,
        ) ==> ("failed to parse '"@ + url + "' as url, "@).is_prefix_of(text@)
}

/// Parses the text with `url::Url::parse` and reads the host of what comes out
/// with `url::Url::host_str`. The result is named, not described.
#[verifier::external_body]
fn host_of(url: &str) -> (host: Option<Option<String>>)
    ensures
        host.deep_view() == url_host(url@),
{
    match url::Url::parse(url) {
        Ok(url) => Some(url.host_str().map(str::to_string)),
        Err(_) => None,
    }
}

/// Builds a proxy with `clevercloud_sdk::oauth10a::proxy::ProxyBuilder::try_from`.
/// It parses the url and the rules, and looks at nothing else: the proxy that
/// they make, or the error, is named, not described, but that a text that is no
/// url makes an error that quotes it. It panics on a url without a host, which
/// is left out.
#[verifier::external_body]
fn proxy_from(url: String, no: Vec<String>) -> (proxy: Result<
    hyper_proxy::Proxy,
    clevercloud_sdk::oauth10a::proxy::Error,
>)
    requires
        url_host(url@) != Some(None::<Seq<char>>),
    ensures
        proxy == proxy_of(url@, no.deep_view()),
        url_host(url@) is None ==> proxy is Err && blames(proxy->Err_0, url@),
{
    ProxyBuilder::try_from(url, no)
}

/// Builds the proxy that the configuration gives, from its url and its rules.
/// There is none to speak of, neither a proxy nor an error, where the url has
/// no host.
pub fn build_proxy(url: String, no: Vec<String>) -> (proxy: Option<
    Result<hyper_proxy::Proxy, clevercloud_sdk::oauth10a::proxy::Error>,
>)
    ensures
        proxy is None <==> url_host(url@) == Some(None::<Seq<char>>),
        proxy matches Some(result) ==> result == proxy_of(url@, no.deep_view()),
        url_host(url@) is None ==> (proxy matches Some(Err(err)) && blames(err, url@)),
{
    match host_of(url.as_str()) {
        Some(None) => None,
        _ => Some(proxy_from(url, no)),
    }
}

} // verus!
