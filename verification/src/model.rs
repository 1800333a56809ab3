//! The ownership registry: customers, podcasts, and slug lookup.
//!
//! Podcasts and their owners are built at startup and never mutated; a slug
//! is the unique key of a podcast.

use vstd::prelude::*;

verus! {

/// A customer account.
pub struct Customer {
    pub email: String,
    // In practise, we would NEVER store unhashed passwords!
    pub password: String,
}

/// Mathematical image of a `Customer`.
pub ghost struct CustomerView {
    pub email: Seq<char>,
    pub password: Seq<char>,
}

impl View for Customer {
    type V = CustomerView;

    open spec fn view(&self) -> CustomerView {
        CustomerView { email: self.email@, password: self.password@ }
    }
}

impl Clone for Customer {
    fn clone(&self) -> (r: Self)
        ensures
            r@ == self@,
    {
        Customer { email: self.email.clone(), password: self.password.clone() }
    }
}

/// A hosted podcast, keyed by its slug and owned by exactly one customer.
pub struct Podcast {
    pub title: String,
    pub slug: String,
    pub owner: Customer,
}

/// Mathematical image of a `Podcast`.
pub ghost struct PodcastView {
    pub title: Seq<char>,
    pub slug: Seq<char>,
    pub owner: CustomerView,
}

impl View for Podcast {
    type V = PodcastView;

    open spec fn view(&self) -> PodcastView {
        PodcastView { title: self.title@, slug: self.slug@, owner: self.owner@ }
    }
}

impl Clone for Podcast {
    fn clone(&self) -> (r: Self)
        ensures
            r@ == self@,
    {
        Podcast { title: self.title.clone(), slug: self.slug.clone(), owner: self.owner.clone() }
    }
}

/// The registry as a sequence of podcast images.
pub open spec fn registry_view(reg: Seq<Podcast>) -> Seq<PodcastView> {
    reg.map_values(|p: Podcast| p@)
}

/// Slugs identify podcasts uniquely.
pub open spec fn slugs_unique(reg: Seq<PodcastView>) -> bool {
    forall|i: int, j: int| 0 <= i < j < reg.len() ==> reg[i].slug != reg[j].slug
}

/// The first podcast whose slug matches, if any.
pub open spec fn find_slug(reg: Seq<PodcastView>, slug: Seq<char>) -> Option<PodcastView>
    decreases reg.len(),
{
    if reg.len() == 0 {
        None
    } else if reg[0].slug == slug {
        Some(reg[0])
    } else {
        find_slug(reg.drop_first(), slug)
    }
}

/// If nothing in the first `i` entries matches, the search result is decided
/// by the remainder of the registry.
pub proof fn lemma_find_slug_skip(reg: Seq<PodcastView>, slug: Seq<char>, i: int)
    requires
        0 <= i <= reg.len(),
        forall|j: int| 0 <= j < i ==> reg[j].slug != slug,
    ensures
        find_slug(reg, slug) == find_slug(reg.skip(i), slug),
    decreases i,
{
    if i > 0 {
        assert(reg.skip(i - 1).drop_first() =~= reg.skip(i));
        lemma_find_slug_skip(reg, slug, i - 1);
        assert(reg.skip(0) =~= reg);
        assert(reg.skip(i - 1)[0] == reg[i - 1]);
    } else {
        assert(reg.skip(0) =~= reg);
    }
}

/// `find_slug` returns a match exactly when some registered podcast carries
/// the slug, and then the first such podcast.
pub proof fn lemma_find_slug_found(reg: Seq<PodcastView>, slug: Seq<char>)
    ensures
        (find_slug(reg, slug) is Some) == (exists|j: int|
            0 <= j < reg.len() && reg[j].slug == slug),
        find_slug(reg, slug) matches Some(p) ==> exists|j: int|
            0 <= j < reg.len() && reg[j] == p && reg[j].slug == slug,
    decreases reg.len(),
{
    if reg.len() > 0 {
        if reg[0].slug == slug {
        } else {
            lemma_find_slug_found(reg.drop_first(), slug);
            assert(forall|j: int|
                0 <= j < reg.drop_first().len() ==> reg.drop_first()[j] == reg[j + 1]);
            if exists|j: int| 0 <= j < reg.len() && reg[j].slug == slug {
                let j = choose|j: int| 0 <= j < reg.len() && reg[j].slug == slug;
                assert(reg.drop_first()[j - 1].slug == slug);
            }
        }
    }
}

/// Law: under the registry invariant — slugs unique — the podcast a slug
/// resolves to is the only one carrying that slug.
pub proof fn lemma_find_slug_unique(reg: Seq<PodcastView>, slug: Seq<char>)
    requires
        slugs_unique(reg),
    ensures
        find_slug(reg, slug) matches Some(p) ==> forall|j: int|
            0 <= j < reg.len() && reg[j].slug == slug ==> reg[j] == p,
{
    lemma_find_slug_found(reg, slug);
    match find_slug(reg, slug) {
        Some(p) => {
            let j0 = choose|j0: int|
                0 <= j0 < reg.len() && reg[j0] == p && #[trigger] reg[j0].slug == slug;
            assert forall|j: int| 0 <= j < reg.len() && reg[j].slug == slug implies reg[j]
                == p by {
                if j != j0 {
                    if j < j0 {
                        assert(reg[j].slug != reg[j0].slug);
                    } else {
                        assert(reg[j0].slug != reg[j].slug);
                    }
                }
            }
        },
        None => {},
    }
}

/// Index of the first podcast whose slug matches, if any.
pub(crate) fn find_slug_index(podcasts: &Vec<Podcast>, slug: &str) -> (r: Option<usize>)
    ensures
        (match r {
            Some(i) => i < podcasts@.len() && find_slug(registry_view(podcasts@), slug@)
                == Some(podcasts@[i as int]@),
            None => find_slug(registry_view(podcasts@), slug@) is None,
        }),
{
    let ghost reg = registry_view(podcasts@);
    let n = podcasts.len();
    let mut i: usize = 0;
    while i < n
        invariant
            i <= n,
            n == podcasts@.len(),
            reg == registry_view(podcasts@),
            forall|j: int| 0 <= j < i ==> reg[j].slug != slug@,
        decreases n - i,
    {
        if crate::text::str_eq(podcasts[i].slug.as_str(), slug) {
            proof {
                lemma_find_slug_skip(reg, slug@, i as int);
                assert(reg.skip(i as int)[0] == reg[i as int]);
            }
            return Some(i);
        }
        i += 1;
    }
    proof {
        lemma_find_slug_skip(reg, slug@, n as int);
        assert(reg.skip(n as int) =~= Seq::<PodcastView>::empty());
    }
    None
}

/// Takes the first podcast with the given slug out of the list, if any.
pub fn slug_to_podcast(podcasts: Vec<Podcast>, slug: &str) -> (r: Option<Podcast>)
    ensures
        (match find_slug(registry_view(podcasts@), slug@) {
            Some(p) => r matches Some(q) && q@ == p,
            None => r is None,
        }),
{
    let mut podcasts = podcasts;
    match find_slug_index(&podcasts, slug) {
        Some(i) => Some(podcasts.remove(i)),
        None => None,
    }
}

} // verus!
