use hosting_company::model::Customer;
use hosting_company::model::Podcast;
use hosting_company::validate::validate;
use hosting_company::view::verify;
use hosting_company::view::VerifyState;

fn sample_podcasts() -> Vec<Podcast> {
    vec![
        Podcast {
            title: String::from("Alice's Podcast"),
            slug: String::from("alice-podcast"),
            owner: Customer {
                email: String::from("alice@example.com"),
                password: String::from("password123"),
            },
        },
        Podcast {
            title: String::from("Bob's Podcast"),
            slug: String::from("bob-podcast"),
            owner: Customer {
                email: String::from("bob@example.com"),
                password: String::from("password456"),
            },
        },
    ]
}

fn token() -> Option<String> {
    Some(String::from("opaque-challenge"))
}

fn url() -> Option<String> {
    Some(String::from("https://aggregator.example/return"))
}

#[test]
fn missing_return_url_is_bad_request() {
    let state = validate(sample_podcasts(), "alice-podcast", token(), None);
    let (code, body) = verify(state);
    assert_eq!(code, 400);
    assert!(body.contains("returnUrl"));
    assert!(body.contains("<title>Error: 400 Bad Request</title>"));
}

#[test]
fn unparsable_return_url_is_bad_request() {
    let state = validate(
        sample_podcasts(),
        "alice-podcast",
        token(),
        Some(String::from("not a url")),
    );
    let (code, body) = verify(state);
    assert_eq!(code, 400);
    assert!(body.contains("returnUrl"));
}

#[test]
fn return_url_without_host_is_bad_request_with_redirect() {
    let state = validate(
        sample_podcasts(),
        "alice-podcast",
        token(),
        Some(String::from("mailto:carol@example.com")),
    );
    let (code, body) = verify(state);
    assert_eq!(code, 400);
    assert!(body.contains("returnUrl"));
    // The URL parsed, so the page can still redirect the caller back.
    assert!(body.contains("Redirecting to"));
    assert!(body.contains("mailto:carol@example.com"));
}

#[test]
fn unknown_slug_is_not_found_with_redirect_target() {
    let state = validate(sample_podcasts(), "carol-podcast", token(), url());
    let (code, body) = verify(state);
    assert_eq!(code, 404);
    assert!(body.contains("No podcast with slug <code>carol-podcast</code> found."));
    assert!(body.contains("<a href=\"https://aggregator.example/return\" rel=\"noreferrer\">"));
    assert!(body.contains("window.location.href = 'https://aggregator.example/return';"));
    assert!(body.contains("<title>Error: 404 Not Found</title>"));
}

#[test]
fn missing_challenge_token_is_bad_request_naming_podcast() {
    let state = validate(sample_podcasts(), "alice-podcast", None, url());
    let (code, body) = verify(state);
    assert_eq!(code, 400);
    assert!(body.contains("challengeToken"));
    assert!(body.contains("Alice's Podcast"));
    assert!(body.contains("Redirecting to"));
}

#[test]
fn missing_return_url_page_is_exact() {
    let state = validate(sample_podcasts(), "alice-podcast", token(), None);
    let (code, body) = verify(state);
    assert_eq!(code, 400);
    let expected = "<!DOCTYPE html><html><head><meta charset=\"UTF-8\"/>\
        <meta name=\"viewport\" content=\"width=device-width, initial-scale=1.0\" />\
        <link rel=\"stylesheet\" href=\"https://unpkg.com/mvp.css\" />\
        <title>Error: 400 Bad Request</title></head><body><header><nav>\
        <span>Hosting Company</span><ul><li><a href=\"/\">Home</a></li></ul>\
        </nav></header><main><h1>Verify ownership</h1>\
        <h2 style=\"color: crimson;\">Error</h2>\
        <p>URL parameter <code>returnUrl</code> is required.</p>\
        </main></body></html>";
    assert_eq!(body, expected);
}

#[test]
fn empty_return_url_is_bad_request() {
    let state = validate(sample_podcasts(), "alice-podcast", token(), Some(String::new()));
    let (code, body) = verify(state);
    assert_eq!(code, 400);
    assert!(body.contains("returnUrl"));
}

#[test]
fn valid_request_renders_form_with_every_email_once() {
    let state = validate(sample_podcasts(), "alice-podcast", token(), url());
    let (code, body) = verify(state);
    assert_eq!(code, 200);
    assert!(body.contains("<form method=\"POST\""));
    let alice = "<option value=\"alice@example.com\" />";
    let bob = "<option value=\"bob@example.com\" />";
    assert_eq!(body.matches(alice).count(), 1);
    assert_eq!(body.matches(bob).count(), 1);
    assert!(body.contains("Log in to verify ownership of \"Alice's Podcast\" to "));
    assert!(body.contains("<a href=\"https://aggregator.example\" rel=\"noreferrer\" target=\"_blank\">"));
}

#[test]
fn valid_request_carries_scheme_and_host_port() {
    let state = validate(
        sample_podcasts(),
        "bob-podcast",
        token(),
        Some(String::from("http://aggregator.example:8080/back")),
    );
    match &state {
        VerifyState::Neutral { return_url_scheme, return_url_domain, podcast, .. } => {
            assert_eq!(return_url_scheme, "http");
            assert_eq!(return_url_domain, "aggregator.example:8080");
            assert_eq!(podcast.slug, "bob-podcast");
        }
        VerifyState::Error { .. } => panic!("expected the neutral outcome"),
    }
    let (code, body) = verify(state);
    assert_eq!(code, 200);
    assert!(body.contains("<a href=\"http://aggregator.example:8080\""));
}
