use vstd::prelude::*;
use vstd::string::StringExecFns;

verus! {

/// The parts of a request target that routing reads.
pub struct RequestTarget {
    /// `host:port` (authority form), present for CONNECT targets and absolute URLs.
    pub authority: Option<String>,
    /// Host name, if the target names one.
    pub host: Option<String>,
    /// Path, beginning with `/` when not empty.
    pub path: String,
    /// Query without the leading `?`, if present.
    pub query: Option<String>,
}

/// Why a gateway URI could not be built.
#[derive(Clone, Copy, Debug, PartialEq, Eq, Structural)]
pub enum RewriteError {
    /// The composed text is not a valid URI.
    MalformedResult,
}

/// Whether `http::Uri` accepts the text as a URI.
pub uninterp spec fn parses_as_uri(s: Seq<char>) -> bool;

/// Relies on `<http::Uri as FromStr>::from_str`: whether the text parses.
#[verifier::external_body]
fn uri_parses(s: &str) -> (r: bool)
    ensures
        r == parses_as_uri(s@),
{
    s.parse::<http::Uri>().is_ok()
}

/// `s` with every trailing `/` removed.
pub open spec fn trim_trailing_slashes(s: Seq<char>) -> Seq<char>
    decreases s.len(),
{
    if s.len() > 0 && s.last() == '/' {
        trim_trailing_slashes(s.drop_last())
    } else {
        s
    }
}

/// Relies on `str::trim_end_matches` with the pattern `'/'`: every
/// trailing slash removed, nothing else.
#[verifier::external_body]
fn trim_slashes(s: &str) -> (r: &str)
    ensures
        r@ == trim_trailing_slashes(s@),
{
    s.trim_end_matches('/')
}

/// The host a target names, or the empty text.
pub open spec fn host_text(t: RequestTarget) -> Seq<char> {
    match t.host {
        Some(h) => h@,
        None => Seq::empty(),
    }
}

/// `?query`, or the empty text.
pub open spec fn query_text(t: RequestTarget) -> Seq<char> {
    match t.query {
        Some(q) => seq!['?'] + q@,
        None => Seq::empty(),
    }
}

/// The beginning of every gateway URI for a host: the gateway base without
/// trailing slashes, one `/`, and the host.
pub open spec fn gateway_prefix(gateway: Seq<char>, host: Seq<char>) -> Seq<char> {
    trim_trailing_slashes(gateway) + seq!['/'] + host
}

/// The gateway URI text for a target: the request's own scheme is dropped, and
/// host, path and query follow the gateway base.
pub open spec fn gateway_uri_text(t: RequestTarget, gateway: Seq<char>) -> Seq<char> {
    gateway_prefix(gateway, host_text(t)) + t.path@ + query_text(t)
}

/// Composes the gateway URI text for `target`.
pub fn compose_gateway_uri(target: &RequestTarget, gateway: &str) -> (r: String)
    ensures
        r@ == gateway_uri_text(*target, gateway@),
{
    let mut out = String::new();
    out.append(trim_slashes(gateway));
    proof {
        reveal_strlit("/");
        reveal_strlit("?");
    }
    out.append("/");
    match &target.host {
        Some(h) => out.append(h.as_str()),
        None => {},
    }
    out.append(target.path.as_str());
    match &target.query {
        Some(q) => {
            out.append("?");
            out.append(q.as_str());
        },
        None => {},
    }
    assert(out@ =~= gateway_uri_text(*target, gateway@));
    out
}

/// Accepts composed URI text when it parses, and reports it malformed otherwise.
pub fn finish_rewrite(composed: String, parses: bool) -> (r: Result<String, RewriteError>)
    ensures
        parses ==> r is Ok && r->Ok_0@ == composed@,
        !parses ==> r == Err::<String, RewriteError>(RewriteError::MalformedResult),
{
    if parses {
        Ok(composed)
    } else {
        Err(RewriteError::MalformedResult)
    }
}

/// Rewrites a target to go through the gateway. Fails with
/// `MalformedResult` exactly when the composed text does not parse as a URI.
pub fn rewrite_ton_uri(target: &RequestTarget, gateway: &str) -> (r: Result<String, RewriteError>)
    ensures
        r is Ok <==> parses_as_uri(gateway_uri_text(*target, gateway@)),
        r is Ok ==> r->Ok_0@ == gateway_uri_text(*target, gateway@),
        r is Err ==> r->Err_0 == RewriteError::MalformedResult,
{
    let composed = compose_gateway_uri(target, gateway);
    let parses = uri_parses(composed.as_str());
    finish_rewrite(composed, parses)
}

/// Whatever the gateway's trailing slashes, a gateway URI begins with the
/// trimmed base, one `/` and the request's host.
pub proof fn lemma_gateway_uri_starts_with_prefix(t: RequestTarget, gateway: Seq<char>)
    ensures
        gateway_uri_text(t, gateway).subrange(0, gateway_prefix(gateway, host_text(t)).len() as int)
            == gateway_prefix(gateway, host_text(t)),
        trim_trailing_slashes(gateway).len() == 0 || trim_trailing_slashes(gateway).last() != '/',
{
    let p = gateway_prefix(gateway, host_text(t));
    assert(gateway_uri_text(t, gateway).subrange(0, p.len() as int) =~= p);
    lemma_trim_leaves_no_trailing_slash(gateway);
}

/// Trimming leaves no trailing slash.
proof fn lemma_trim_leaves_no_trailing_slash(s: Seq<char>)
    ensures
        trim_trailing_slashes(s).len() == 0 || trim_trailing_slashes(s).last() != '/',
    decreases s.len(),
{
    if s.len() > 0 && s.last() == '/' {
        lemma_trim_leaves_no_trailing_slash(s.drop_last());
    }
}

/// Extra trailing slashes on the gateway base change nothing.
pub proof fn lemma_trailing_slash_ignored(t: RequestTarget, gateway: Seq<char>)
    ensures
        gateway_uri_text(t, gateway.push('/')) == gateway_uri_text(t, gateway),
{
    assert(gateway.push('/').drop_last() =~= gateway);
}

} // verus!
