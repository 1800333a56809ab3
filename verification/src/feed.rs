//! FeedPublisher: the public feed document of a podcast.
//!
//! The document is well-formed XML holding a verification element: a
//! verify URL under the podcast's slug, and the encoded public key as an
//! attribute value.

use vstd::prelude::*;

verus! {

use crate::keys::KeyPair;
use crate::model::find_slug;
use crate::model::registry_view;
use crate::model::slug_to_podcast;
use crate::model::Podcast;
use crate::pem::pem_wellformed;
use crate::pem::pem_wrap;
use crate::pem::strip_framing;
use crate::text::has_substring;
use crate::text::lemma_concat_has_substring;
use vstd::string::StringExecFns;

/// The feed document for a title, a slug and an encoded public key.
pub open spec fn feed_xml(title: Seq<char>, slug: Seq<char>, key_b64: Seq<char>) -> Seq<char> {
    "<?xml version=\"1.0\" encoding=\"UTF-8\"?>\n<rss version=\"2.0\" xmlns:podcast=\"https://podcastindex.org/namespace/1.0\">\n  <channel>\n    <title>"@
        + title
        + "</title>\n    <podcast:verify\n      verifyUrl=\"http://localhost:8081/feed/"@ + slug
        + "/verify\"\n      publicKey=\""@ + key_b64 + "\"\n      />\n  </channel>\n</rss>"@
}

impl Podcast {
    /// Renders this podcast's feed, embedding the stripped public key.
    pub fn feed(&self, key: &KeyPair) -> (r: String)
        ensures
            r@ == feed_xml(self@.title, self@.slug, strip_framing(key@)),
    {
        let mut out =
            "<?xml version=\"1.0\" encoding=\"UTF-8\"?>\n<rss version=\"2.0\" xmlns:podcast=\"https://podcastindex.org/namespace/1.0\">\n  <channel>\n    <title>".to_owned();
        out.append(self.title.as_str());
        out.append("</title>\n    <podcast:verify\n      verifyUrl=\"http://localhost:8081/feed/");
        out.append(self.slug.as_str());
        out.append("/verify\"\n      publicKey=\"");
        let key_b64 = key.public_key_encoded();
        out.append(key_b64.as_str());
        out.append("\"\n      />\n  </channel>\n</rss>");
        proof {
            assert(out@ =~= feed_xml(self@.title, self@.slug, strip_framing(key@)));
        }
        out
    }
}

/// The feed endpoint's document for a slug: Some exactly when the slug is
/// registered (the caller turns None into a not-found response).
pub fn feed(podcasts: Vec<Podcast>, slug: &str, key: &KeyPair) -> (r: Option<String>)
    ensures
        (match find_slug(registry_view(podcasts@), slug@) {
            Some(p) => r matches Some(doc) && doc@ == feed_xml(
                p.title,
                p.slug,
                strip_framing(key@),
            ),
            None => r is None,
        }),
{
    match slug_to_podcast(podcasts, slug) {
        Some(p) => Some(p.feed(key)),
        None => None,
    }
}

/// Law: the feed document embeds the stripped key as a contiguous piece,
/// and for a well-formed keyed document the embedded piece re-frames to
/// exactly that document — the feed loses no key material.
pub proof fn lemma_feed_embeds_key(title: Seq<char>, slug: Seq<char>, key_doc: Seq<char>)
    requires
        pem_wellformed(key_doc),
    ensures
        has_substring(feed_xml(title, slug, strip_framing(key_doc)), strip_framing(key_doc)),
        pem_wrap(strip_framing(key_doc)) == key_doc,
{
    crate::pem::lemma_pem_round_trip(key_doc);
    let b = strip_framing(key_doc);
    let pre = "<?xml version=\"1.0\" encoding=\"UTF-8\"?>\n<rss version=\"2.0\" xmlns:podcast=\"https://podcastindex.org/namespace/1.0\">\n  <channel>\n    <title>"@
        + title + "</title>\n    <podcast:verify\n      verifyUrl=\"http://localhost:8081/feed/"@
        + slug + "/verify\"\n      publicKey=\""@;
    let post = "\"\n      />\n  </channel>\n</rss>"@;
    lemma_concat_has_substring(pre, b, post);
    assert(pre + b + post =~= feed_xml(title, slug, b));
}

} // verus!
