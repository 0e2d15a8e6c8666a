use vstd::prelude::*;
use crate::classify::matches_some_suffix;
use crate::config::Config;
use crate::error::ProxyError;
use crate::rewrite::{
    RequestTarget, RewriteError, gateway_uri_text, host_text, parses_as_uri, rewrite_ton_uri,
};

verus! {

/// Where a request goes.
pub enum Route {
    /// Open a tunnel to `host:port`.
    Tunnel(String),
    /// Forward the request with its target unchanged.
    Forward,
    /// Forward the request to this gateway URI.
    Gateway(String),
    /// Answer with the 502 response for this failure, forwarding nothing.
    Reject(ProxyError),
}

/// The route for a request: CONNECT opens a tunnel to the target's
/// authority; any other method is forwarded, through the gateway when the
/// host matches a configured suffix.
pub fn route_request(config: &Config, is_connect: bool, target: &RequestTarget) -> (r: Route)
    ensures
        is_connect ==> match target.authority {
            Some(a) => r is Tunnel && r->Tunnel_0@ == a@,
            None => r == Route::Reject(ProxyError::MissingAuthority),
        },
        !is_connect && !matches_some_suffix(host_text(*target), config.ton_domains@) ==> r
            is Forward,
        !is_connect && matches_some_suffix(host_text(*target), config.ton_domains@) ==> {
            let text = gateway_uri_text(*target, config.ton_gateway@);
            &&& parses_as_uri(text) ==> r is Gateway && r->Gateway_0@ == text
            &&& !parses_as_uri(text) ==> r == Route::Reject(
                ProxyError::Rewrite(RewriteError::MalformedResult),
            )
        },
{
    if is_connect {
        match &target.authority {
            Some(a) => Route::Tunnel(a.as_str().to_owned()),
            None => Route::Reject(ProxyError::MissingAuthority),
        }
    } else {
        let host: &str = match &target.host {
            Some(h) => h.as_str(),
            None => "",
        };
        proof {
            reveal_strlit("");
        }
        assert(host@ == host_text(*target));
        if config.is_ton_domain(host) {
            match rewrite_ton_uri(target, config.ton_gateway.as_str()) {
                Ok(uri) => Route::Gateway(uri),
                Err(e) => Route::Reject(ProxyError::Rewrite(e)),
            }
        } else {
            Route::Forward
        }
    }
}

} // verus!
