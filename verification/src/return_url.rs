//! The caller-supplied return address.
//!
//! A verification request carries a return URL so that the caller can be
//! redirected back whatever the outcome.  The URL must parse as an
//! absolute URL; the handshake reads its scheme, its host and port, and
//! its serialization, and nothing else.

use vstd::prelude::*;

verus! {

use crate::text::dec_str;
use crate::text::u16_to_dec;
use vstd::string::StringExecFns;

/// Mathematical image of a parsed return URL.
pub ghost struct ParsedUrlView {
    pub scheme: Seq<char>,
    pub host: Option<Seq<char>>,
    pub port: Option<u16>,
    pub text: Seq<char>,
}

/// A parsed absolute URL, reduced to the parts the handshake reads.
pub struct ParsedUrl {
    pub scheme: String,
    pub host: Option<String>,
    pub port: Option<u16>,
    pub text: String,
}

impl View for ParsedUrl {
    type V = ParsedUrlView;

    open spec fn view(&self) -> ParsedUrlView {
        ParsedUrlView {
            scheme: self.scheme@,
            host: match self.host {
                Some(h) => Some(h@),
                None => None,
            },
            port: self.port,
            text: self.text@,
        }
    }
}

/// What url::Url::parse makes of a string: None when it is no absolute
/// URL, otherwise the parts the handshake reads.  The outcome is a
/// function of the string alone.
pub uninterp spec fn parse_url_spec(s: Seq<char>) -> Option<ParsedUrlView>;

/// Relies on url::Url::parse and the url::Url accessors scheme, host_str,
/// port and as_str: parses an absolute URL and hands over its scheme, its
/// host, its explicit port and its serialization.
#[verifier::external_body]
pub(crate) fn parse_return_url(s: &str) -> (r: Option<ParsedUrl>)
    ensures
        (match parse_url_spec(s@) {
            Some(v) => r matches Some(u) && u@ == v,
            None => r is None,
        }),
{
    match url::Url::parse(s) {
        Ok(u) => Some(
            ParsedUrl {
                scheme: u.scheme().to_string(),
                host: u.host_str().map(|h| h.to_string()),
                port: u.port(),
                text: u.as_str().to_string(),
            },
        ),
        Err(_) => None,
    }
}

/// The `host[:port]` form rendered into the neutral outcome: the host
/// alone when the URL names no explicit port.
pub open spec fn host_port(host: Seq<char>, port: Option<u16>) -> Seq<char> {
    match port {
        None => host,
        Some(p) => host + ":"@ + dec_str(p as nat),
    }
}

/// Renders `host[:port]`.
pub fn render_host_port(host: &String, port: Option<u16>) -> (r: String)
    ensures
        r@ == host_port(host@, port),
{
    match port {
        None => host.clone(),
        Some(p) => {
            let mut out = host.clone();
            out.append(":");
            let digits = u16_to_dec(p);
            out.append(digits.as_str());
            proof {
                assert(out@ =~= host_port(host@, Some(p)));
            }
            out
        },
    }
}

} // verus!
