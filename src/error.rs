use vstd::prelude::*;
use vstd::string::StringExecFns;
use crate::rewrite::RewriteError;

verus! {

/// HTTP status of every failure the proxy reports: Bad Gateway.
pub const BAD_GATEWAY: u16 = 502;

/// The kinds of failure the proxy reports to a client.
#[derive(Clone, Copy, Debug, PartialEq, Eq, Structural)]
pub enum ProxyError {
    /// A CONNECT target without `host:port`.
    MissingAuthority,
    /// The outbound TCP connection for a tunnel failed.
    DialFailure,
    /// The gateway URI could not be built.
    Rewrite(RewriteError),
    /// The outbound HTTP request failed; `true` when it went to the gateway.
    ForwardFailure(bool),
    /// A read or write failed while relaying tunnel bytes.
    RelayIo,
}

/// A synthetic response for a failure: status and plain-text body.
pub struct ErrorResponse {
    pub status: u16,
    pub body: String,
}

/// The fixed text that opens the body of the response for `e`.
pub open spec fn message_prefix(e: ProxyError) -> Seq<char> {
    match e {
        ProxyError::MissingAuthority => "CONNECT error: CONNECT request missing authority"@,
        ProxyError::DialFailure => "CONNECT error: "@,
        ProxyError::Rewrite(_) => "Proxy error: Failed to parse rewritten URI: "@,
        ProxyError::ForwardFailure(true) => "Failed to connect to TON gateway: "@,
        ProxyError::ForwardFailure(false) => "Failed to connect to target server: "@,
        ProxyError::RelayIo => "Tunnel error: "@,
    }
}

impl ProxyError {
    /// The status a client receives for this failure.
    pub fn status(&self) -> (r: u16)
        ensures
            r == BAD_GATEWAY,
    {
        BAD_GATEWAY
    }

    /// The fixed text that opens the response body for this failure.
    pub fn prefix(&self) -> (r: &'static str)
        ensures
            r@ == message_prefix(*self),
    {
        match self {
            ProxyError::MissingAuthority => "CONNECT error: CONNECT request missing authority",
            ProxyError::DialFailure => "CONNECT error: ",
            ProxyError::Rewrite(_) => "Proxy error: Failed to parse rewritten URI: ",
            ProxyError::ForwardFailure(true) => "Failed to connect to TON gateway: ",
            ProxyError::ForwardFailure(false) => "Failed to connect to target server: ",
            ProxyError::RelayIo => "Tunnel error: ",
        }
    }
}

/// The 502 response for `error`: its fixed text followed by `detail`, the
/// underlying error's description.
pub fn error_response(error: ProxyError, detail: &str) -> (r: ErrorResponse)
    ensures
        r.status == BAD_GATEWAY,
        r.body@ == message_prefix(error) + detail@,
{
    let mut body = String::new();
    body.append(error.prefix());
    body.append(detail);
    assert(body@ =~= message_prefix(error) + detail@);
    ErrorResponse { status: error.status(), body }
}

} // verus!
