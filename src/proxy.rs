use vstd::prelude::*;
use vstd::string::*;
use crate::error::ClientError;
use crate::text::str_eq;

verus! {

/// reqwest's proxy description, carried through opaque.
#[verifier::external_type_specification]
#[verifier::external_body]
pub struct ExProxy(reqwest::Proxy);

/// reqwest's error, carried through opaque.
#[verifier::external_type_specification]
#[verifier::external_body]
pub struct ExReqwestError(reqwest::Error);

/// reqwest's HTTP client builder, carried through opaque.
#[verifier::external_type_specification]
#[verifier::external_body]
pub struct ExClientBuilder(reqwest::ClientBuilder);

/// Whether reqwest takes `s` as the URL of a proxy (after trying an
/// `http://` prefix where the scheme is missing).
pub uninterp spec fn proxy_url_valid(s: Seq<char>) -> bool;

/// The proxy that reqwest makes of the text `s`, where it takes it as a
/// proxy URL.
pub uninterp spec fn proxy_for(s: Seq<char>) -> reqwest::Proxy;

/// The builder that reqwest makes of `b` by adding the proxy `p`.
pub uninterp spec fn with_proxy(b: reqwest::ClientBuilder, p: reqwest::Proxy) -> reqwest::ClientBuilder;

/// Relies on reqwest::Proxy::all: it parses the text as a URL, and both
/// whether it succeeds and the proxy it makes depend on the text alone.
#[verifier::external_body]
fn proxy_all(url: &str) -> (r: Result<reqwest::Proxy, reqwest::Error>)
    ensures
        r.is_ok() == proxy_url_valid(url@),
        r matches Ok(p) ==> p == proxy_for(url@),
{
    reqwest::Proxy::all(url)
}

/// Relies on reqwest::ClientBuilder::proxy: it adds the proxy to the
/// builder's list, and the result depends on the builder and proxy alone.
#[verifier::external_body]
fn builder_with_proxy(builder: reqwest::ClientBuilder, proxy: reqwest::Proxy) -> (r: reqwest::ClientBuilder)
    ensures
        r == with_proxy(builder, proxy),
{
    builder.proxy(proxy)
}

/// Where outbound requests go.
#[derive(Debug, Clone, PartialEq, Eq)]
pub enum ProxyChoice {
    Disabled,
    Use(String),
}

/// An explicit setting that switches proxying off.
pub open spec fn is_opt_out(s: Seq<char>) -> bool {
    s.len() == 0 || s == "false"@ || s == "-"@
}

/// The proxy to use, from an explicit setting and the values of the
/// `HTTPS_PROXY` and `ALL_PROXY` environment variables, in that order of
/// precedence.
pub open spec fn proxy_source(
    explicit: Option<Seq<char>>,
    https_proxy: Option<Seq<char>>,
    all_proxy: Option<Seq<char>>,
) -> Option<Seq<char>> {
    match explicit {
        Some(p) => if is_opt_out(p) {
            None
        } else {
            Some(p)
        },
        None => match https_proxy {
            Some(p) => Some(p),
            None => all_proxy,
        },
    }
}

pub open spec fn opt_view(o: Option<String>) -> Option<Seq<char>> {
    match o {
        Some(s) => Some(s@),
        None => None,
    }
}

pub open spec fn choice_view(c: ProxyChoice) -> Option<Seq<char>> {
    match c {
        ProxyChoice::Disabled => None,
        ProxyChoice::Use(p) => Some(p@),
    }
}

/// Decides where outbound requests go. An explicit setting wins, and the
/// explicit values `""`, `"false"` and `"-"` switch proxying off; without
/// one, `HTTPS_PROXY` is taken, then `ALL_PROXY`, and without either no
/// proxy is used.
pub fn choose_proxy(
    explicit: &Option<String>,
    https_proxy: &Option<String>,
    all_proxy: &Option<String>,
) -> (r: ProxyChoice)
    ensures
        choice_view(r) == proxy_source(opt_view(*explicit), opt_view(*https_proxy), opt_view(*all_proxy)),
{
    match explicit {
        Some(p) => {
            let s = p.as_str();
            if s.unicode_len() == 0 || str_eq(s, "false") || str_eq(s, "-") {
                ProxyChoice::Disabled
            } else {
                ProxyChoice::Use(p.clone())
            }
        },
        None => match https_proxy {
            Some(p) => ProxyChoice::Use(p.clone()),
            None => match all_proxy {
                Some(p) => ProxyChoice::Use(p.clone()),
                None => ProxyChoice::Disabled,
            },
        },
    }
}

/// Resolves the proxy setting into a proxy, or none where proxying is off.
/// A setting that is not a proxy URL is an error that names it and keeps
/// reqwest's message as its cause.
pub fn resolve_proxy(
    explicit: &Option<String>,
    https_proxy: &Option<String>,
    all_proxy: &Option<String>,
) -> (r: Result<Option<reqwest::Proxy>, ClientError>)
    ensures
        ({
            let src = proxy_source(opt_view(*explicit), opt_view(*https_proxy), opt_view(*all_proxy));
            &&& (r matches Ok(None)) <==> src is None
            &&& (r matches Ok(Some(_))) <==> (src is Some && proxy_url_valid(src->0))
            &&& r matches Ok(Some(p)) ==> p == proxy_for(src->0)
            &&& r is Err <==> (src is Some && !proxy_url_valid(src->0))
            &&& r matches Err(e) ==> (e matches ClientError::InvalidProxy { proxy: p, .. } && Some(p@)
                == src)
        }),
{
    match choose_proxy(explicit, https_proxy, all_proxy) {
        ProxyChoice::Disabled => Ok(None),
        ProxyChoice::Use(p) => match proxy_all(p.as_str()) {
            Ok(proxy) => Ok(Some(proxy)),
            Err(e) => Err(ClientError::InvalidProxy { proxy: p, cause: e.to_string() }),
        },
    }
}

/// Applies the proxy setting to an HTTP client builder: the builder comes
/// back unchanged where proxying is off, with the chosen proxy added where
/// the setting is a proxy URL, and a setting that is not a proxy
/// URL is an error that names it.
pub fn set_proxy(
    builder: reqwest::ClientBuilder,
    proxy: &Option<String>,
    https_proxy: &Option<String>,
    all_proxy: &Option<String>,
) -> (r: Result<reqwest::ClientBuilder, ClientError>)
    ensures
        ({
            let src = proxy_source(opt_view(*proxy), opt_view(*https_proxy), opt_view(*all_proxy));
            &&& src is None ==> r == Ok::<reqwest::ClientBuilder, ClientError>(builder)
            &&& (src is Some && proxy_url_valid(src->0)) ==> r == Ok::<reqwest::ClientBuilder, ClientError>(
                with_proxy(builder, proxy_for(src->0)),
            )
            &&& r is Ok <==> (src is None || proxy_url_valid(src->0))
            &&& r matches Err(e) ==> (e matches ClientError::InvalidProxy { proxy: p, .. } && Some(p@)
                == src)
        }),
{
    match resolve_proxy(proxy, https_proxy, all_proxy) {
        Ok(None) => Ok(builder),
        Ok(Some(p)) => Ok(builder_with_proxy(builder, p)),
        Err(e) => Err(e),
    }
}

} // verus!
