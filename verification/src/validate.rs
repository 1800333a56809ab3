//! VerificationRequestValidator: the staged validation of a verification
//! request.
//!
//! The checks run in a fixed order and the first failure decides the
//! outcome: the return URL must be present, must parse as an absolute URL
//! and must carry a host before the slug is resolved, so that every later
//! error can still redirect the caller back; the slug is resolved before
//! the challenge token is checked, so that the error payload carries the
//! most context possible.  The challenge token's presence alone is
//! checked; this core performs no cryptographic verification of it.

use vstd::prelude::*;

verus! {

use crate::model::find_slug;
use crate::model::find_slug_index;
use crate::model::registry_view;
use crate::model::Podcast;
use crate::model::PodcastView;
use crate::return_url::host_port;
use crate::return_url::parse_return_url;
use crate::return_url::parse_url_spec;
use crate::return_url::render_host_port;
use crate::text::has_substring;
use crate::view::verify_body;
use crate::view::verify_status;
use crate::view::VerifyState;
use crate::view::VerifyStateView;
use vstd::string::StringExecFns;

/// View of an optional request parameter.
pub open spec fn opt_view(o: Option<String>) -> Option<Seq<char>> {
    match o {
        Some(s) => Some(s@),
        None => None,
    }
}

/// The message of a missing return URL.
pub open spec fn msg_return_url_required() -> Seq<char> {
    "URL parameter <code>returnUrl</code> is required."@
}

/// The message of a return URL that does not parse or carries no host.
pub open spec fn msg_invalid_return_url() -> Seq<char> {
    "Invalid <code>returnUrl</code>."@
}

/// The message of an unknown slug.
pub open spec fn msg_podcast_not_found(slug: Seq<char>) -> Seq<char> {
    "No podcast with slug <code>"@ + slug + "</code> found."@
}

/// The message of a missing challenge token.
pub open spec fn msg_challenge_token_required() -> Seq<char> {
    "URL parameter <code>challengeToken</code> is required."@
}

/// The validation state machine.  Every transition is terminal; an error
/// outcome carries whatever context the earlier checks resolved.
pub open spec fn validate_spec(
    reg: Seq<PodcastView>,
    slug: Seq<char>,
    challenge_token: Option<Seq<char>>,
    return_url: Option<Seq<char>>,
) -> VerifyStateView {
    match return_url {
        None => VerifyStateView::Error {
            podcast: None,
            return_url: None,
            message: msg_return_url_required(),
            code: 400,
        },
        Some(raw) => match parse_url_spec(raw) {
            None => VerifyStateView::Error {
                podcast: None,
                return_url: None,
                message: msg_invalid_return_url(),
                code: 400,
            },
            Some(u) => match u.host {
                None => VerifyStateView::Error {
                    podcast: None,
                    return_url: Some(u),
                    message: msg_invalid_return_url(),
                    code: 400,
                },
                Some(host) => match find_slug(reg, slug) {
                    None => VerifyStateView::Error {
                        podcast: None,
                        return_url: Some(u),
                        message: msg_podcast_not_found(slug),
                        code: 404,
                    },
                    Some(p) => match challenge_token {
                        None => VerifyStateView::Error {
                            podcast: Some(p),
                            return_url: Some(u),
                            message: msg_challenge_token_required(),
                            code: 400,
                        },
                        Some(_) => VerifyStateView::Neutral {
                            podcasts: reg,
                            podcast: p,
                            return_url_scheme: u.scheme,
                            return_url_domain: host_port(host, u.port),
                        },
                    },
                },
            },
        },
    }
}

/// Law: the neutral outcome arises exactly when every check passes — a
/// return URL is present, it parses as an absolute URL with a host, the
/// slug is registered, and a challenge token is present.
pub proof fn lemma_neutral_iff(
    reg: Seq<PodcastView>,
    slug: Seq<char>,
    challenge_token: Option<Seq<char>>,
    return_url: Option<Seq<char>>,
)
    ensures
        (validate_spec(reg, slug, challenge_token, return_url) is Neutral) <==> (return_url
            is Some && parse_url_spec(return_url.unwrap()) is Some && parse_url_spec(
            return_url.unwrap(),
        ).unwrap().host is Some && find_slug(reg, slug) is Some && challenge_token is Some),
{
}

/// Law: a request without a return URL is rejected as a bad request, and
/// the rendered page references the missing parameter.
pub proof fn lemma_missing_return_url(
    reg: Seq<PodcastView>,
    slug: Seq<char>,
    challenge_token: Option<Seq<char>>,
)
    ensures
        verify_status(validate_spec(reg, slug, challenge_token, None)) == 400,
        has_substring(verify_body(validate_spec(reg, slug, challenge_token, None)), "returnUrl"@),
{
    let msg = msg_return_url_required();
    reveal_strlit("URL parameter <code>returnUrl</code> is required.");
    reveal_strlit("returnUrl");
    assert(msg.subrange(20, 20 + ("returnUrl"@).len() as int) =~= "returnUrl"@);
    assert(has_substring(msg, "returnUrl"@));
    crate::view::lemma_error_page_shows(None, None, msg, 400, "returnUrl"@);
}

/// Law: a return URL that does not parse as an absolute URL is rejected
/// as a bad request, and the rendered page references the parameter.
pub proof fn lemma_invalid_return_url(
    reg: Seq<PodcastView>,
    slug: Seq<char>,
    challenge_token: Option<Seq<char>>,
    raw: Seq<char>,
)
    requires
        parse_url_spec(raw) is None,
    ensures
        verify_status(validate_spec(reg, slug, challenge_token, Some(raw))) == 400,
        has_substring(
            verify_body(validate_spec(reg, slug, challenge_token, Some(raw))),
            "returnUrl"@,
        ),
{
    let msg = msg_invalid_return_url();
    reveal_strlit("Invalid <code>returnUrl</code>.");
    reveal_strlit("returnUrl");
    assert(msg.subrange(14, 14 + ("returnUrl"@).len() as int) =~= "returnUrl"@);
    assert(has_substring(msg, "returnUrl"@));
    crate::view::lemma_error_page_shows(None, None, msg, 400, "returnUrl"@);
}

/// Law: a parsable return URL with an unknown slug is rejected as not
/// found, and the rendered page still holds the redirect back to exactly
/// that URL's serialization.
pub proof fn lemma_unknown_slug(
    reg: Seq<PodcastView>,
    slug: Seq<char>,
    challenge_token: Option<Seq<char>>,
    raw: Seq<char>,
)
    requires
        parse_url_spec(raw) is Some,
        parse_url_spec(raw).unwrap().host is Some,
        find_slug(reg, slug) is None,
    ensures
        verify_status(validate_spec(reg, slug, challenge_token, Some(raw))) == 404,
        has_substring(
            verify_body(validate_spec(reg, slug, challenge_token, Some(raw))),
            parse_url_spec(raw).unwrap().text,
        ),
{
    let u = parse_url_spec(raw).unwrap();
    crate::view::lemma_error_page_redirects(None, u, msg_podcast_not_found(slug), 404);
}

/// Law: a known slug with a parsable return URL but no challenge token is
/// rejected as a bad request; the rendered page references the resolved
/// podcast's title and still redirects back to the caller.
pub proof fn lemma_missing_token(reg: Seq<PodcastView>, slug: Seq<char>, raw: Seq<char>)
    requires
        parse_url_spec(raw) is Some,
        parse_url_spec(raw).unwrap().host is Some,
        find_slug(reg, slug) is Some,
    ensures
        verify_status(validate_spec(reg, slug, None, Some(raw))) == 400,
        has_substring(
            verify_body(validate_spec(reg, slug, None, Some(raw))),
            find_slug(reg, slug).unwrap().title,
        ),
        has_substring(
            verify_body(validate_spec(reg, slug, None, Some(raw))),
            parse_url_spec(raw).unwrap().text,
        ),
{
    let u = parse_url_spec(raw).unwrap();
    let p = find_slug(reg, slug).unwrap();
    crate::view::lemma_error_page_names_podcast(
        p,
        Some(u),
        msg_challenge_token_required(),
        400,
    );
    crate::view::lemma_error_page_redirects(
        Some(p),
        u,
        msg_challenge_token_required(),
        400,
    );
}

/// Law: a fully valid request reaches the neutral outcome: status 200,
/// the resolved podcast, the caller's scheme and host[:port], and the
/// whole registry for the email suggestions.
pub proof fn lemma_valid_request(
    reg: Seq<PodcastView>,
    slug: Seq<char>,
    token: Seq<char>,
    raw: Seq<char>,
)
    requires
        parse_url_spec(raw) is Some,
        parse_url_spec(raw).unwrap().host is Some,
        find_slug(reg, slug) is Some,
    ensures
        verify_status(validate_spec(reg, slug, Some(token), Some(raw))) == 200,
        validate_spec(reg, slug, Some(token), Some(raw)) == (VerifyStateView::Neutral {
            podcasts: reg,
            podcast: find_slug(reg, slug).unwrap(),
            return_url_scheme: parse_url_spec(raw).unwrap().scheme,
            return_url_domain: host_port(
                parse_url_spec(raw).unwrap().host.unwrap(),
                parse_url_spec(raw).unwrap().port,
            ),
        }),
{
}

/// Turns the raw request parameters into a typed outcome, exactly as the
/// state machine prescribes.
pub fn validate(
    podcasts: Vec<Podcast>,
    slug: &str,
    challenge_token: Option<String>,
    return_url: Option<String>,
) -> (r: VerifyState)
    ensures
        r@ == validate_spec(
            registry_view(podcasts@),
            slug@,
            opt_view(challenge_token),
            opt_view(return_url),
        ),
{
    let raw = match return_url {
        Some(u) => u,
        None => {
            return VerifyState::Error {
                podcast: None,
                return_url: None,
                message: "URL parameter <code>returnUrl</code> is required.".to_owned(),
                code: 400,
            };
        },
    };
    let parsed = match parse_return_url(raw.as_str()) {
        Some(p) => p,
        None => {
            return VerifyState::Error {
                podcast: None,
                return_url: None,
                message: "Invalid <code>returnUrl</code>.".to_owned(),
                code: 400,
            };
        },
    };
    let host = match &parsed.host {
        Some(h) => h.clone(),
        None => {
            return VerifyState::Error {
                podcast: None,
                return_url: Some(parsed),
                message: "Invalid <code>returnUrl</code>.".to_owned(),
                code: 400,
            };
        },
    };
    let idx = match find_slug_index(&podcasts, slug) {
        Some(i) => i,
        None => {
            let mut message = "No podcast with slug <code>".to_owned();
            message.append(slug);
            message.append("</code> found.");
            proof {
                assert(message@ =~= msg_podcast_not_found(slug@));
            }
            return VerifyState::Error {
                podcast: None,
                return_url: Some(parsed),
                message,
                code: 404,
            };
        },
    };
    let podcast = podcasts[idx].clone();
    if challenge_token.is_none() {
        return VerifyState::Error {
            podcast: Some(podcast),
            return_url: Some(parsed),
            message: "URL parameter <code>challengeToken</code> is required.".to_owned(),
            code: 400,
        };
    }
    let domain = render_host_port(&host, parsed.port);
    VerifyState::Neutral {
        podcasts,
        podcast,
        return_url_scheme: parsed.scheme,
        return_url_domain: domain,
    }
}

} // verus!
