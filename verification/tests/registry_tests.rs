use hosting_company::model::Customer;
use hosting_company::model::Podcast;
use hosting_company::model::slug_to_podcast;
use hosting_company::text::str_eq;
use hosting_company::text::u16_to_dec;

fn sample_podcasts() -> Vec<Podcast> {
    vec![
        Podcast {
            title: String::from("Alice's Podcast"),
            slug: String::from("alice-podcast"),
            owner: Customer {
                email: String::from("alice@example.com"),
                password: String::from("password123"),
            },
        },
        Podcast {
            title: String::from("Bob's Podcast"),
            slug: String::from("bob-podcast"),
            owner: Customer {
                email: String::from("bob@example.com"),
                password: String::from("password456"),
            },
        },
    ]
}

#[test]
fn slug_lookup_finds_registered_podcast() {
    let found = slug_to_podcast(sample_podcasts(), "bob-podcast");
    let podcast = found.expect("bob-podcast is registered");
    assert_eq!(podcast.title, "Bob's Podcast");
    assert_eq!(podcast.owner.email, "bob@example.com");
}

#[test]
fn slug_lookup_misses_unknown_slug() {
    assert!(slug_to_podcast(sample_podcasts(), "carol-podcast").is_none());
}

#[test]
fn slug_lookup_takes_first_match() {
    let mut podcasts = sample_podcasts();
    podcasts.push(Podcast {
        title: String::from("Shadow"),
        slug: String::from("alice-podcast"),
        owner: Customer {
            email: String::from("shadow@example.com"),
            password: String::from("x"),
        },
    });
    let podcast = slug_to_podcast(podcasts, "alice-podcast").unwrap();
    assert_eq!(podcast.title, "Alice's Podcast");
}

#[test]
fn string_equality_is_exact() {
    assert!(str_eq("alice-podcast", "alice-podcast"));
    assert!(!str_eq("alice-podcast", "alice-podcast "));
    assert!(!str_eq("a", "b"));
    assert!(str_eq("", ""));
}

#[test]
fn decimal_rendering() {
    assert_eq!(u16_to_dec(0), "0");
    assert_eq!(u16_to_dec(7), "7");
    assert_eq!(u16_to_dec(8080), "8080");
    assert_eq!(u16_to_dec(65535), "65535");
}
