use hosting_company::feed::feed;
use hosting_company::keys::KeyPair;
use hosting_company::model::Customer;
use hosting_company::model::Podcast;
use hosting_company::pem::base64_to_pem;

fn sample_podcasts() -> Vec<Podcast> {
    vec![
        Podcast {
            title: String::from("Alice's Podcast"),
            slug: String::from("alice-podcast"),
            owner: Customer {
                email: String::from("alice@example.com"),
                password: String::from("password123"),
            },
        },
        Podcast {
            title: String::from("Bob's Podcast"),
            slug: String::from("bob-podcast"),
            owner: Customer {
                email: String::from("bob@example.com"),
                password: String::from("password456"),
            },
        },
    ]
}

fn small_keypair() -> KeyPair {
    KeyPair::generate(512).expect("keypair generation")
}

#[test]
fn feed_of_registered_slug_embeds_decodable_key() {
    let keys = small_keypair();
    let doc = feed(sample_podcasts(), "alice-podcast", &keys).expect("registered slug");
    let encoded = keys.public_key_encoded();
    assert!(doc.contains(&format!("publicKey=\"{}\"", encoded)));
    assert!(!encoded.contains('\n'));
    assert!(!encoded.contains("-----"));
    // Re-framing the embedded value reproduces the process's keyed document.
    assert_eq!(&base64_to_pem(&encoded), keys.public_key_pem());
}

#[test]
fn feed_document_is_exact() {
    let keys = small_keypair();
    let doc = feed(sample_podcasts(), "alice-podcast", &keys).expect("registered slug");
    let expected = format!(
        "<?xml version=\"1.0\" encoding=\"UTF-8\"?>\n\
         <rss version=\"2.0\" xmlns:podcast=\"https://podcastindex.org/namespace/1.0\">\n  \
         <channel>\n    \
         <title>Alice's Podcast</title>\n    \
         <podcast:verify\n      \
         verifyUrl=\"http://localhost:8081/feed/alice-podcast/verify\"\n      \
         publicKey=\"{}\"\n      \
         />\n  </channel>\n</rss>",
        keys.public_key_encoded()
    );
    assert_eq!(doc, expected);
}

#[test]
fn feed_holds_title_and_verify_url() {
    let keys = small_keypair();
    let doc = feed(sample_podcasts(), "bob-podcast", &keys).expect("registered slug");
    assert!(doc.contains("<title>Bob's Podcast</title>"));
    assert!(doc.contains("verifyUrl=\"http://localhost:8081/feed/bob-podcast/verify\""));
    assert!(doc.starts_with("<?xml version=\"1.0\" encoding=\"UTF-8\"?>"));
}

#[test]
fn feed_of_unknown_slug_is_none() {
    let keys = small_keypair();
    assert!(feed(sample_podcasts(), "carol-podcast", &keys).is_none());
}

#[test]
fn generation_refuses_impossible_size() {
    assert!(KeyPair::generate(0).is_none());
}
