//! VerificationView: rendering an outcome into a user-facing response.
//!
//! A neutral outcome renders a credential-entry form whose email field
//! offers every registered owner's email as a suggestion — an inherited
//! discoverability trade-off, kept deliberately.  An error outcome renders
//! the message with the matching status code and, when a return URL was
//! resolved, a client-executed ten-second countdown that redirects the
//! browser back to the caller.

use vstd::prelude::*;

verus! {

use crate::model::registry_view;
use crate::model::Podcast;
use crate::model::PodcastView;
use crate::return_url::ParsedUrl;
use crate::return_url::ParsedUrlView;
use crate::text::dec_str;
use crate::text::has_substring;
use crate::text::lemma_concat_has_substring;
use crate::text::lemma_has_substring_embed;
use crate::text::lemma_has_substring_trans;
use crate::text::u16_to_dec;
use vstd::string::StringExecFns;

/// The outcome of validating a verification request: exactly one of a
/// neutral (credential-entry) state and an error state, each fully
/// populated.  An error carries whatever context was resolved before the
/// failing check, so rendering can still redirect the caller back.
#[allow(inconsistent_fields)]
pub enum VerifyState {
    Neutral {
        podcasts: Vec<Podcast>,
        podcast: Podcast,
        return_url_scheme: String,
        return_url_domain: String,
    },
    Error {
        podcast: Option<Podcast>,
        return_url: Option<ParsedUrl>,
        message: String,
        code: u16,
    },
}

/// Mathematical image of a `VerifyState`.
#[allow(inconsistent_fields)]
pub ghost enum VerifyStateView {
    Neutral {
        podcasts: Seq<PodcastView>,
        podcast: PodcastView,
        return_url_scheme: Seq<char>,
        return_url_domain: Seq<char>,
    },
    Error {
        podcast: Option<PodcastView>,
        return_url: Option<ParsedUrlView>,
        message: Seq<char>,
        code: u16,
    },
}

impl View for VerifyState {
    type V = VerifyStateView;

    open spec fn view(&self) -> VerifyStateView {
        match self {
            VerifyState::Neutral { podcasts, podcast, return_url_scheme, return_url_domain } => {
                VerifyStateView::Neutral {
                    podcasts: registry_view(podcasts@),
                    podcast: podcast@,
                    return_url_scheme: return_url_scheme@,
                    return_url_domain: return_url_domain@,
                }
            },
            VerifyState::Error { podcast, return_url, message, code } => {
                VerifyStateView::Error {
                    podcast: match podcast {
                        Some(p) => Some(p@),
                        None => None,
                    },
                    return_url: match return_url {
                        Some(u) => Some(u@),
                        None => None,
                    },
                    message: message@,
                    code: *code,
                }
            },
        }
    }
}

/// The error block: a heading and the message.
pub open spec fn error_fragment(message: Seq<char>) -> Seq<char> {
    "<h2 style=\"color: crimson;\">Error</h2><p>"@ + message + "</p>"@
}

/// The countdown block: a link to the redirect target and a ten-second
/// client-executed timer that follows it.
pub open spec fn redirect_fragment(target: Seq<char>) -> Seq<char> {
    "<strong>Redirecting to <a href=\""@ + target + "\" rel=\"noreferrer\">"@ + target
        + "</a> in <span id=\"countdown\">10</span> seconds...</strong><script>let seconds = 10;let countdown = document.getElementById('countdown');let interval = setInterval(() => {seconds -= 1;countdown.innerText = seconds;if (seconds <= 0) {clearInterval(interval);window.location.href = '"@
        + target + "';}}, 1000);</script>"@
}

/// The status line of a response code, as shown in an error page's title.
pub open spec fn status_line(code: u16) -> Seq<char> {
    if code == 200 {
        "200 OK"@
    } else if code == 400 {
        "400 Bad Request"@
    } else if code == 404 {
        "404 Not Found"@
    } else {
        dec_str(code as nat)
    }
}

/// The page chrome around a main block; `title_text` is the plain text of
/// the page title.
pub open spec fn base_html_spec(title_text: Seq<char>, main: Seq<char>) -> Seq<char> {
    "<!DOCTYPE html><html><head><meta charset=\"UTF-8\"/><meta name=\"viewport\" content=\"width=device-width, initial-scale=1.0\" /><link rel=\"stylesheet\" href=\"https://unpkg.com/mvp.css\" /><title>"@
        + title_text
        + "</title></head><body><header><nav><span>Hosting Company</span><ul><li><a href=\"/\">Home</a></li></ul></nav></header><main>"@
        + main + "</main></body></html>"@
}

/// One email suggestion of the credential form.
pub open spec fn option_elem(email: Seq<char>) -> Seq<char> {
    "<option value=\""@ + email + "\" />"@
}

/// The email suggestions: one option per registered podcast, in registry
/// order, each carrying that podcast's owner's email.
pub open spec fn options_spec(reg: Seq<PodcastView>) -> Seq<char>
    decreases reg.len(),
{
    if reg.len() == 0 {
        Seq::empty()
    } else {
        option_elem(reg[0].owner.email) + options_spec(reg.drop_first())
    }
}

/// The heading of the neutral page: the podcast and a link back to the
/// caller's host.
pub open spec fn neutral_title(title: Seq<char>, scheme: Seq<char>, domain: Seq<char>) -> Seq<
    char,
> {
    "Log in to verify ownership of \""@ + title + "\" to <a href=\""@ + scheme + "://"@ + domain
        + "\" rel=\"noreferrer\" target=\"_blank\">"@ + domain + "</a>"@
}

/// The plain text of the neutral heading, as it stands in the page title.
pub open spec fn neutral_title_text(title: Seq<char>, scheme: Seq<char>, domain: Seq<char>) -> Seq<
    char,
> {
    "Log in to verify ownership of \""@ + title + "\" to "@ + domain
}

/// The credential-entry form of the neutral page.
pub open spec fn neutral_form(reg: Seq<PodcastView>) -> Seq<char> {
    "<form method=\"POST\" autocomplete=\"off\"><input autocomplete=\"false\" name=\"hidden\" type=\"text\" style=\"display:none;\" /><label for=\"email\">Email</label><input type=\"email\" list=\"email-list\" id=\"email\" name=\"email\" autocomplete=\"off\"/><datalist id=\"email-list\">"@
        + options_spec(reg)
        + "</datalist><label for=\"password\">Password</label><input type=\"password\" id=\"password\" name=\"password\" autocomplete=\"off\"/><button type=\"submit\">Log in</button></form>"@
}

/// The main block of the neutral page.
pub open spec fn neutral_main(
    reg: Seq<PodcastView>,
    podcast: PodcastView,
    scheme: Seq<char>,
    domain: Seq<char>,
) -> Seq<char> {
    "<h1>"@ + neutral_title(podcast.title, scheme, domain) + "</h1>"@ + neutral_form(reg)
}

/// The title of an error page: the podcast when one was resolved.
pub open spec fn error_title(podcast: Option<PodcastView>) -> Seq<char> {
    match podcast {
        Some(p) => "Verify ownership of \""@ + p.title + "\""@,
        None => "Verify ownership"@,
    }
}

/// The main block of an error page: the heading, the error block, and the
/// countdown when a return URL was resolved.
pub open spec fn error_main(
    podcast: Option<PodcastView>,
    return_url: Option<ParsedUrlView>,
    message: Seq<char>,
) -> Seq<char> {
    "<h1>"@ + error_title(podcast) + "</h1>"@ + error_fragment(message) + (match return_url {
        Some(u) => redirect_fragment(u.text),
        None => Seq::<char>::empty(),
    })
}

/// The status code of the rendered response.
pub open spec fn verify_status(v: VerifyStateView) -> u16 {
    match v {
        VerifyStateView::Neutral { .. } => 200,
        VerifyStateView::Error { code, .. } => code,
    }
}

/// The full page of the rendered response.
pub open spec fn verify_body(v: VerifyStateView) -> Seq<char> {
    match v {
        VerifyStateView::Neutral { podcasts, podcast, return_url_scheme, return_url_domain } => {
            base_html_spec(
                neutral_title_text(podcast.title, return_url_scheme, return_url_domain),
                neutral_main(podcasts, podcast, return_url_scheme, return_url_domain),
            )
        },
        VerifyStateView::Error { podcast, return_url, message, code } => {
            base_html_spec("Error: "@ + status_line(code), error_main(podcast, return_url, message))
        },
    }
}

/// The page of an error outcome contains its main block.
proof fn lemma_error_page_holds_main(
    podcast: Option<PodcastView>,
    return_url: Option<ParsedUrlView>,
    message: Seq<char>,
    code: u16,
)
    ensures
        has_substring(
            verify_body(VerifyStateView::Error { podcast, return_url, message, code }),
            error_main(podcast, return_url, message),
        ),
{
    let em = error_main(podcast, return_url, message);
    let tt = "Error: "@ + status_line(code);
    let pre =
        "<!DOCTYPE html><html><head><meta charset=\"UTF-8\"/><meta name=\"viewport\" content=\"width=device-width, initial-scale=1.0\" /><link rel=\"stylesheet\" href=\"https://unpkg.com/mvp.css\" /><title>"@
        + tt
        + "</title></head><body><header><nav><span>Hosting Company</span><ul><li><a href=\"/\">Home</a></li></ul></nav></header><main>"@;
    lemma_concat_has_substring(pre, em, "</main></body></html>"@);
}

/// Law: the rendered page of an error outcome shows the message — any
/// part of the message stands somewhere in the page.
pub proof fn lemma_error_page_shows(
    podcast: Option<PodcastView>,
    return_url: Option<ParsedUrlView>,
    message: Seq<char>,
    code: u16,
    x: Seq<char>,
)
    requires
        has_substring(message, x),
    ensures
        has_substring(
            verify_body(VerifyStateView::Error { podcast, return_url, message, code }),
            x,
        ),
{
    let ef = error_fragment(message);
    lemma_concat_has_substring("<h2 style=\"color: crimson;\">Error</h2><p>"@, message, "</p>"@);
    let em = error_main(podcast, return_url, message);
    let tail: Seq<char> = match return_url {
        Some(u) => redirect_fragment(u.text),
        None => Seq::<char>::empty(),
    };
    let pre = "<h1>"@ + error_title(podcast) + "</h1>"@;
    lemma_concat_has_substring(pre, ef, tail);
    assert(pre + ef + tail == em);
    let body = verify_body(VerifyStateView::Error { podcast, return_url, message, code });
    lemma_error_page_holds_main(podcast, return_url, message, code);
    lemma_has_substring_trans(em, ef, message);
    lemma_has_substring_trans(em, message, x);
    lemma_has_substring_trans(body, em, x);
}

/// Law: when an error outcome carries a return URL, the rendered page
/// holds the full countdown block aimed at exactly that URL's
/// serialization, and so the serialization itself.
pub proof fn lemma_error_page_redirects(
    podcast: Option<PodcastView>,
    u: ParsedUrlView,
    message: Seq<char>,
    code: u16,
)
    ensures
        has_substring(
            verify_body(
                VerifyStateView::Error { podcast, return_url: Some(u), message, code },
            ),
            redirect_fragment(u.text),
        ),
        has_substring(
            verify_body(
                VerifyStateView::Error { podcast, return_url: Some(u), message, code },
            ),
            u.text,
        ),
{
    let rf = redirect_fragment(u.text);
    let em = error_main(podcast, Some(u), message);
    let pre = "<h1>"@ + error_title(podcast) + "</h1>"@ + error_fragment(message);
    crate::text::lemma_concat_has_suffix(pre, rf);
    assert(has_substring(em, rf));
    let a = "<strong>Redirecting to <a href=\""@ + u.text + "\" rel=\"noreferrer\">"@ + u.text
        + "</a> in <span id=\"countdown\">10</span> seconds...</strong><script>let seconds = 10;let countdown = document.getElementById('countdown');let interval = setInterval(() => {seconds -= 1;countdown.innerText = seconds;if (seconds <= 0) {clearInterval(interval);window.location.href = '"@;
    lemma_concat_has_substring(a, u.text, "';}}, 1000);</script>"@);
    assert(has_substring(rf, u.text));
    let body = verify_body(VerifyStateView::Error { podcast, return_url: Some(u), message, code });
    lemma_error_page_holds_main(podcast, Some(u), message, code);
    lemma_has_substring_trans(body, em, rf);
    lemma_has_substring_trans(body, rf, u.text);
}

/// Law: when an error outcome carries a podcast, the rendered page
/// references that podcast's title.
pub proof fn lemma_error_page_names_podcast(
    p: PodcastView,
    return_url: Option<ParsedUrlView>,
    message: Seq<char>,
    code: u16,
)
    ensures
        has_substring(
            verify_body(
                VerifyStateView::Error { podcast: Some(p), return_url, message, code },
            ),
            p.title,
        ),
{
    let et = error_title(Some(p));
    lemma_concat_has_substring("Verify ownership of \""@, p.title, "\""@);
    let em = error_main(Some(p), return_url, message);
    let tail: Seq<char> = match return_url {
        Some(u) => redirect_fragment(u.text),
        None => Seq::<char>::empty(),
    };
    let rest = "</h1>"@ + error_fragment(message) + tail;
    assert(em =~= "<h1>"@ + et + rest);
    lemma_has_substring_embed("<h1>"@, et, rest, p.title);
    let body = verify_body(VerifyStateView::Error { podcast: Some(p), return_url, message, code });
    lemma_error_page_holds_main(Some(p), return_url, message, code);
    lemma_has_substring_trans(body, em, p.title);
}

/// The option elements of the registry, one per podcast, in order.
pub open spec fn option_list(reg: Seq<PodcastView>) -> Seq<Seq<char>> {
    reg.map_values(|p: PodcastView| option_elem(p.owner.email))
}

proof fn lemma_option_elem_injective(e1: Seq<char>, e2: Seq<char>)
    requires
        e1 != e2,
    ensures
        option_elem(e1) != option_elem(e2),
{
    reveal_strlit("<option value=\"");
    reveal_strlit("\" />");
    assert(("<option value=\""@).len() == 15);
    assert(("\" />"@).len() == 4);
    assert(option_elem(e1) == "<option value=\""@ + e1 + "\" />"@);
    assert(option_elem(e2) == "<option value=\""@ + e2 + "\" />"@);
    if option_elem(e1) == option_elem(e2) {
        assert(option_elem(e1).len() == 15 + e1.len() + 4);
        assert(option_elem(e2).len() == 15 + e2.len() + 4);
        assert(e1.len() == e2.len());
        assert forall|k: int| 0 <= k < e1.len() implies e1[k] == e2[k] by {
            assert(option_elem(e1)[15 + k] == e1[k]);
            assert(option_elem(e2)[15 + k] == e2[k]);
        }
        assert(e1 =~= e2);
    }
}

/// Law: the email suggestion list of the neutral form holds exactly one
/// option per registered podcast, in registry order, carrying that
/// podcast's owner's email; options of distinct emails are distinct, so
/// when the owners' emails are pairwise distinct, every registered
/// owner's email appears exactly once and none repeats.
pub proof fn lemma_email_options(reg: Seq<PodcastView>)
    ensures
        option_list(reg).len() == reg.len(),
        forall|i: int|
            0 <= i < reg.len() ==> option_list(reg)[i] == option_elem(reg[i].owner.email),
        options_spec(reg) == option_list(reg).flatten(),
        forall|i: int, j: int|
            0 <= i < reg.len() && 0 <= j < reg.len() && reg[i].owner.email != reg[j].owner.email
                ==> option_list(reg)[i] != option_list(reg)[j],
    decreases reg.len(),
{
    if reg.len() == 0 {
        assert(option_list(reg) =~= Seq::<Seq<char>>::empty());
        assert(option_list(reg).flatten() =~= Seq::<char>::empty());
    } else {
        lemma_email_options(reg.drop_first());
        assert(option_list(reg).drop_first() =~= option_list(reg.drop_first()));
        assert(option_list(reg)[0] == option_elem(reg[0].owner.email));
        assert(option_list(reg).flatten() == option_list(reg)[0] + option_list(
            reg,
        ).drop_first().flatten());
        assert(options_spec(reg) == option_elem(reg[0].owner.email) + options_spec(
            reg.drop_first(),
        ));
    }
    assert forall|i: int, j: int|
        0 <= i < reg.len() && 0 <= j < reg.len() && reg[i].owner.email
            != reg[j].owner.email implies option_list(reg)[i] != option_list(reg)[j] by {
        lemma_option_elem_injective(reg[i].owner.email, reg[j].owner.email);
    }
}

fn base_html(title_text: &str, main: &str) -> (r: String)
    ensures
        r@ == base_html_spec(title_text@, main@),
{
    let mut out =
        "<!DOCTYPE html><html><head><meta charset=\"UTF-8\"/><meta name=\"viewport\" content=\"width=device-width, initial-scale=1.0\" /><link rel=\"stylesheet\" href=\"https://unpkg.com/mvp.css\" /><title>".to_owned();
    out.append(title_text);
    out.append(
        "</title></head><body><header><nav><span>Hosting Company</span><ul><li><a href=\"/\">Home</a></li></ul></nav></header><main>",
    );
    out.append(main);
    out.append("</main></body></html>");
    proof {
        assert(out@ =~= base_html_spec(title_text@, main@));
    }
    out
}

fn error(message: String) -> (r: String)
    ensures
        r@ == error_fragment(message@),
{
    let mut out = "<h2 style=\"color: crimson;\">Error</h2><p>".to_owned();
    out.append(message.as_str());
    out.append("</p>");
    proof {
        assert(out@ =~= error_fragment(message@));
    }
    out
}

fn email_options(podcasts: &Vec<Podcast>) -> (r: String)
    ensures
        r@ == options_spec(registry_view(podcasts@)),
{
    let ghost reg = registry_view(podcasts@);
    let mut out = String::new();
    let n = podcasts.len();
    let mut i: usize = 0;
    proof {
        assert(reg.skip(0) =~= reg);
        assert(out@ + options_spec(reg) =~= options_spec(reg));
    }
    while i < n
        invariant
            i <= n,
            n == podcasts@.len(),
            reg == registry_view(podcasts@),
            out@ + options_spec(reg.skip(i as int)) == options_spec(reg),
        decreases n - i,
    {
        out.append("<option value=\"");
        out.append(podcasts[i].owner.email.as_str());
        out.append("\" />");
        proof {
            assert(reg.skip(i as int).drop_first() =~= reg.skip(i + 1));
            assert(reg.skip(i as int)[0] == reg[i as int]);
            assert(reg[i as int].owner.email == podcasts@[i as int]@.owner.email);
            assert(out@ + options_spec(reg.skip(i + 1)) =~= options_spec(reg));
        }
        i += 1;
    }
    proof {
        assert(reg.skip(n as int) =~= Seq::<PodcastView>::empty());
        assert(out@ =~= options_spec(reg));
    }
    out
}

fn status_line_exec(code: u16) -> (r: String)
    ensures
        r@ == status_line(code),
{
    if code == 200 {
        "200 OK".to_owned()
    } else if code == 400 {
        "400 Bad Request".to_owned()
    } else if code == 404 {
        "404 Not Found".to_owned()
    } else {
        u16_to_dec(code)
    }
}

/// Renders an outcome into a status code and a full page.
pub fn verify(state: VerifyState) -> (r: (u16, String))
    ensures
        r.0 == verify_status(state@),
        r.1@ == verify_body(state@),
{
    match state {
        VerifyState::Neutral { podcasts, podcast, return_url_scheme, return_url_domain } => {
            let ghost v = VerifyStateView::Neutral {
                podcasts: registry_view(podcasts@),
                podcast: podcast@,
                return_url_scheme: return_url_scheme@,
                return_url_domain: return_url_domain@,
            };
            let mut title = "Log in to verify ownership of \"".to_owned();
            title.append(podcast.title.as_str());
            title.append("\" to <a href=\"");
            title.append(return_url_scheme.as_str());
            title.append("://");
            title.append(return_url_domain.as_str());
            title.append("\" rel=\"noreferrer\" target=\"_blank\">");
            title.append(return_url_domain.as_str());
            title.append("</a>");
            proof {
                assert(title@ =~= neutral_title(
                    podcast@.title,
                    return_url_scheme@,
                    return_url_domain@,
                ));
            }
            let mut title_text = "Log in to verify ownership of \"".to_owned();
            title_text.append(podcast.title.as_str());
            title_text.append("\" to ");
            title_text.append(return_url_domain.as_str());
            proof {
                assert(title_text@ =~= neutral_title_text(
                    podcast@.title,
                    return_url_scheme@,
                    return_url_domain@,
                ));
            }
            let options = email_options(&podcasts);
            let mut main = "<h1>".to_owned();
            main.append(title.as_str());
            main.append("</h1>");
            main.append(
                "<form method=\"POST\" autocomplete=\"off\"><input autocomplete=\"false\" name=\"hidden\" type=\"text\" style=\"display:none;\" /><label for=\"email\">Email</label><input type=\"email\" list=\"email-list\" id=\"email\" name=\"email\" autocomplete=\"off\"/><datalist id=\"email-list\">",
            );
            main.append(options.as_str());
            main.append(
                "</datalist><label for=\"password\">Password</label><input type=\"password\" id=\"password\" name=\"password\" autocomplete=\"off\"/><button type=\"submit\">Log in</button></form>",
            );
            proof {
                assert(main@ =~= neutral_main(
                    registry_view(podcasts@),
                    podcast@,
                    return_url_scheme@,
                    return_url_domain@,
                ));
            }
            let page = base_html(title_text.as_str(), main.as_str());
            proof {
                assert(page@ == verify_body(v));
            }
            (200, page)
        },
        VerifyState::Error { podcast, return_url, message, code } => {
            let ghost v = VerifyStateView::Error {
                podcast: match podcast {
                    Some(ref p) => Some(p@),
                    None => None,
                },
                return_url: match return_url {
                    Some(ref u) => Some(u@),
                    None => None,
                },
                message: message@,
                code: code,
            };
            let title = match &podcast {
                Some(p) => {
                    let mut t = "Verify ownership of \"".to_owned();
                    t.append(p.title.as_str());
                    t.append("\"");
                    t
                },
                None => "Verify ownership".to_owned(),
            };
            proof {
                assert(title@ =~= error_title(
                    match podcast {
                        Some(ref p) => Some(p@),
                        None => None,
                    },
                ));
            }
            let mut error_title_text = "Error: ".to_owned();
            let line = status_line_exec(code);
            error_title_text.append(line.as_str());
            proof {
                assert(error_title_text@ =~= "Error: "@ + status_line(code));
            }
            let frag = error(message);
            let mut main = "<h1>".to_owned();
            main.append(title.as_str());
            main.append("</h1>");
            main.append(frag.as_str());
            match &return_url {
                Some(u) => {
                    main.append("<strong>Redirecting to <a href=\"");
                    main.append(u.text.as_str());
                    main.append("\" rel=\"noreferrer\">");
                    main.append(u.text.as_str());
                    main.append(
                        "</a> in <span id=\"countdown\">10</span> seconds...</strong><script>let seconds = 10;let countdown = document.getElementById('countdown');let interval = setInterval(() => {seconds -= 1;countdown.innerText = seconds;if (seconds <= 0) {clearInterval(interval);window.location.href = '",
                    );
                    main.append(u.text.as_str());
                    main.append("';}}, 1000);</script>");
                },
                None => {},
            }
            proof {
                let pv = match podcast {
                    Some(ref p) => Some(p@),
                    None => None,
                };
                let uv = match return_url {
                    Some(ref u) => Some(u@),
                    None => None,
                };
                assert(main@ =~= error_main(pv, uv, message@));
            }
            let page = base_html(error_title_text.as_str(), main.as_str());
            proof {
                assert(page@ == verify_body(v));
            }
            (code, page)
        },
    }
}

} // verus!
