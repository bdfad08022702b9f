use rand::seq::SliceRandom;
use vstd::arithmetic::div_mod::{lemma_mod_add_multiples_vanish, lemma_small_mod};
use vstd::prelude::*;

use crate::error::Error;
use crate::settings::AppSettings;
use crate::text::{alphanumeric_only, decimal, decimal_string, strip_non_alphanumeric};
use crate::pattern::{regex_is_match, regex_verdict};
use crate::website::{field_text, text_or_empty, Website};

verus! {

/// The shape that every site URL must have: an http or https scheme, then a
/// host that starts with neither punctuation nor whitespace, and no whitespace.
pub const URL_PATTERN: &'static str = "^(http|https)://[^\\s/$.?#].[^\\s]*$";

/// One place in the ring: a site and the indices of its two neighbours.
#[derive(Debug)]
pub struct WebringSite {
    pub website: Website,
    pub next: usize,
    pub previous: usize,
}

/// What the URL pattern says of a URL.
pub open spec fn url_verdict(url: Seq<char>) -> Option<bool> {
    regex_verdict(URL_PATTERN@, url)
}

/// The URL pattern's verdict on each site of a list.
pub open spec fn url_verdicts(ws: Seq<Website>) -> Seq<Option<bool>> {
    Seq::new(ws.len(), |i: int| url_verdict(ws[i].url@))
}

/// The rule that a site breaks.
pub enum Fault {
    BadPattern,
    UnrecognizedUrl,
    DuplicateSlug,
    DuplicateUrl,
}

/// The first rule, in the order they are checked, that site `i` breaks given
/// the sites before it; `verdicts[i]` is what the URL pattern said of its URL.
pub open spec fn fault_at(ws: Seq<Website>, verdicts: Seq<Option<bool>>, i: int) -> Option<Fault> {
    if verdicts[i] is None {
        Some(Fault::BadPattern)
    } else if verdicts[i] == Some(false) {
        Some(Fault::UnrecognizedUrl)
    } else if exists|j: int| 0 <= j < i && (#[trigger] ws[j]).slug@ == ws[i].slug@ {
        Some(Fault::DuplicateSlug)
    } else if exists|j: int| 0 <= j < i && (#[trigger] ws[j]).url@ == ws[i].url@ {
        Some(Fault::DuplicateUrl)
    } else {
        None
    }
}

/// No site of the list breaks a rule.
pub open spec fn all_clear(ws: Seq<Website>, verdicts: Seq<Option<bool>>) -> bool {
    forall|i: int| 0 <= i < ws.len() ==> #[trigger] fault_at(ws, verdicts, i) is None
}

/// Site `i` is the first one in list order that breaks a rule.
pub open spec fn first_fault(ws: Seq<Website>, verdicts: Seq<Option<bool>>, i: int) -> bool {
    &&& 0 <= i < ws.len()
    &&& fault_at(ws, verdicts, i) is Some
    &&& forall|j: int| 0 <= j < i ==> #[trigger] fault_at(ws, verdicts, j) is None
}

/// The error `e` names site `w` and the rule `f` that it breaks.
pub open spec fn reports(e: Error, w: Website, f: Fault) -> bool {
    match f {
        Fault::BadPattern => e is InvalidUrlPattern,
        Fault::UnrecognizedUrl => e matches Error::UnrecognizedUrl { url, slug } && url@ == w.url@
            && slug@ == w.slug@,
        Fault::DuplicateSlug => e matches Error::DuplicateSlug { slug, owner } && slug@ == w.slug@
            && owner@ == text_or_empty(w.owner),
        Fault::DuplicateUrl => e matches Error::DuplicateUrl { url, owner } && url@ == w.url@
            && owner@ == text_or_empty(w.owner),
    }
}

/// The validator's answer: success when no site breaks a rule, else the
/// error for the first site that does.
pub open spec fn validation_outcome(
    ws: Seq<Website>,
    verdicts: Seq<Option<bool>>,
    r: Result<(), Error>,
) -> bool {
    match r {
        Ok(_) => all_clear(ws, verdicts),
        Err(e) => exists|i: int|
            first_fault(ws, verdicts, i) && #[trigger] reports(e, ws[i], fault_at(ws, verdicts, i)->0),
    }
}

/// Applies the validation rules in list order, given for each site what the
/// URL pattern said of its URL, and stops at the first site that breaks one.
pub fn check_websites(websites: &[Website], verdicts: &[Option<bool>]) -> (r: Result<(), Error>)
    requires
        verdicts@.len() == websites@.len(),
    ensures
        validation_outcome(websites@, verdicts@, r),
        r is Ok <==> all_clear(websites@, verdicts@),
{
    let n = websites.len();
    for i in 0..n
        invariant
            n == websites@.len(),
            verdicts@.len() == n,
            forall|k: int| 0 <= k < i ==> #[trigger] fault_at(websites@, verdicts@, k) is None,
    {
        let w = &websites[i];
        match verdicts[i] {
            None => {
                let e = Error::InvalidUrlPattern;
                assert(first_fault(websites@, verdicts@, i as int));
                assert(reports(e, websites@[i as int], fault_at(websites@, verdicts@, i as int)->0));
                return Err(e);
            },
            Some(false) => {
                let e = Error::UnrecognizedUrl { url: w.url.clone(), slug: w.slug.clone() };
                assert(first_fault(websites@, verdicts@, i as int));
                assert(reports(e, websites@[i as int], fault_at(websites@, verdicts@, i as int)->0));
                return Err(e);
            },
            Some(true) => {},
        }
        let mut j: usize = 0;
        while j < i
            invariant
                j <= i < n == websites@.len(),
                w == websites@[i as int],
                verdicts@.len() == n,
                verdicts@[i as int] == Some(true),
                forall|k: int| 0 <= k < i ==> #[trigger] fault_at(websites@, verdicts@, k) is None,
                forall|k: int| 0 <= k < j ==> (#[trigger] websites@[k]).slug@ != w.slug@,
            decreases i - j,
        {
            if websites[j].slug == w.slug {
                assert(websites@[j as int].slug@ == websites@[i as int].slug@);
                let e = Error::DuplicateSlug { slug: w.slug.clone(), owner: field_text(&w.owner) };
                assert(fault_at(websites@, verdicts@, i as int) == Some(Fault::DuplicateSlug));
                assert(first_fault(websites@, verdicts@, i as int));
                assert(reports(e, websites@[i as int], fault_at(websites@, verdicts@, i as int)->0));
                return Err(e);
            }
            j = j + 1;
        }
        assert(!exists|k: int| 0 <= k < i && (#[trigger] websites@[k]).slug@ == w.slug@);
        let mut j: usize = 0;
        while j < i
            invariant
                j <= i < n == websites@.len(),
                w == websites@[i as int],
                verdicts@.len() == n,
                verdicts@[i as int] == Some(true),
                forall|k: int| 0 <= k < i ==> #[trigger] fault_at(websites@, verdicts@, k) is None,
                !exists|k: int| 0 <= k < i && (#[trigger] websites@[k]).slug@ == w.slug@,
                forall|k: int| 0 <= k < j ==> (#[trigger] websites@[k]).url@ != w.url@,
            decreases i - j,
        {
            if websites[j].url == w.url {
                assert(websites@[j as int].url@ == websites@[i as int].url@);
                let e = Error::DuplicateUrl { url: w.url.clone(), owner: field_text(&w.owner) };
                assert(fault_at(websites@, verdicts@, i as int) == Some(Fault::DuplicateUrl));
                assert(first_fault(websites@, verdicts@, i as int));
                assert(reports(e, websites@[i as int], fault_at(websites@, verdicts@, i as int)->0));
                return Err(e);
            }
            j = j + 1;
        }
        assert(fault_at(websites@, verdicts@, i as int) is None);
    }
    Ok(())
}

/// Checks each site's URL against the URL pattern and the list for repeated
/// slugs and URLs; the first site in list order that breaks a rule is reported.
pub fn verify_websites(websites: &[Website]) -> (r: Result<(), Error>)
    ensures
        validation_outcome(websites@, url_verdicts(websites@), r),
        r is Ok <==> all_clear(websites@, url_verdicts(websites@)),
{
    let mut verdicts: Vec<Option<bool>> = Vec::new();
    for i in 0..websites.len()
        invariant
            verdicts@ == url_verdicts(websites@).take(i as int),
    {
        let v = regex_is_match(URL_PATTERN, websites[i].url.as_str());
        verdicts.push(v);
        assert(verdicts@ == url_verdicts(websites@).take(i + 1));
    }
    assert(verdicts@ == url_verdicts(websites@));
    check_websites(websites, verdicts.as_slice())
}

/// Index `i`'s successor in a ring of `n` places.
pub open spec fn next_index(i: int, n: int) -> int {
    (i + 1) % n
}

/// Index `i`'s predecessor in a ring of `n` places.
pub open spec fn previous_index(i: int, n: int) -> int {
    (i - 1 + n) % n
}

/// Every place of `r` links to the places just after and just before it,
/// the last wrapping round to the first.
pub open spec fn ring_links(r: Seq<WebringSite>) -> bool {
    forall|i: int|
        0 <= i < r.len() ==> (#[trigger] r[i]).next == next_index(i, r.len() as int)
            && r[i].previous == previous_index(i, r.len() as int)
}

/// The slug that the site at position `i` ends up with: its 1-based position
/// when numeric slugs are asked for, else its own slug, or where that is empty
/// its URL without the characters that are neither letters nor digits.
/// Derived slugs are not checked again: two URLs that differ only in
/// punctuation (`http://a.com`, `http://a-com`) derive the same slug, an
/// accepted risk of the slug pass.
pub open spec fn slug_for(w: Website, i: int, numeric: bool) -> Seq<char> {
    if numeric {
        decimal((i + 1) as nat)
    } else if w.slug@.len() == 0 {
        alphanumeric_only(w.url@)
    } else {
        w.slug@
    }
}

/// `out` is the site `inp` at position `i` after the slug pass: only the slug
/// may differ, and a site whose slug is kept is kept whole.
pub open spec fn slugged(out: Website, inp: Website, i: int, numeric: bool) -> bool {
    if !numeric && inp.slug@.len() > 0 {
        out == inp
    } else {
        &&& out.slug@ == slug_for(inp, i, numeric)
        &&& out.name == inp.name
        &&& out.about == inp.about
        &&& out.url == inp.url
        &&& out.rss == inp.rss
        &&& out.owner == inp.owner
    }
}

/// `r` holds the sites of `order`, each in its place.
pub open spec fn carries(r: Seq<WebringSite>, order: Seq<Website>) -> bool {
    &&& r.len() == order.len()
    &&& forall|i: int| 0 <= i < r.len() ==> (#[trigger] r[i]).website == order[i]
}

/// `r` is the ring over `order`, with the slug pass applied.
pub open spec fn ring_of(r: Seq<WebringSite>, order: Seq<Website>, numeric: bool) -> bool {
    &&& r.len() == order.len()
    &&& ring_links(r)
    &&& forall|i: int| 0 <= i < r.len() ==> slugged((#[trigger] r[i]).website, order[i], i, numeric)
}

proof fn lemma_wrap(x: int, n: int)
    requires
        0 <= x < 2 * n,
    ensures
        x % n == if x < n { x } else { x - n },
{
    if x < n {
        lemma_small_mod(x as nat, n as nat);
    } else {
        lemma_mod_add_multiples_vanish(x - n, n);
        lemma_small_mod((x - n) as nat, n as nat);
    }
}

/// Relies on rand's SliceRandom::shuffle with the thread-local generator,
/// which permutes the slice in place by swapping its elements.
#[verifier::external_body]
fn shuffle_sites(sites: &mut Vec<Website>)
    ensures
        final(sites)@.to_multiset() == old(sites)@.to_multiset(),
{
    sites.as_mut_slice().shuffle(&mut rand::thread_rng())
}

/// Links the sites into a ring in the order given: place `i` points to
/// `(i + 1) mod n` and `(i - 1 + n) mod n`.
pub fn link_ring(sites: Vec<Website>) -> (r: Vec<WebringSite>)
    ensures
        carries(r@, sites@),
        ring_links(r@),
{
    let n = sites.len();
    let ghost order = sites@;
    let mut ring: Vec<WebringSite> = Vec::with_capacity(n);
    let mut index: usize = 0;
    for website in it: sites.into_iter()
        invariant
            n == order.len(),
            it.seq() == order,
            index == it.index(),
            ring@.len() == index,
            forall|k: int| 0 <= k < index ==> (#[trigger] ring@[k]).website == order[k],
            forall|k: int|
                0 <= k < index ==> (#[trigger] ring@[k]).next == next_index(k, n as int)
                    && ring@[k].previous == previous_index(k, n as int),
    {
        let next = if index + 1 == n {
            0
        } else {
            index + 1
        };
        let previous = if index == 0 {
            n - 1
        } else {
            index - 1
        };
        proof {
            lemma_wrap(index + 1, n as int);
            lemma_wrap(index - 1 + n, n as int);
        }
        ring.push(WebringSite { website, next, previous });
        index = index + 1;
    }
    ring
}

/// The slug pass over sites in ring order: numeric slugs replace every slug
/// with the site's 1-based position; otherwise an empty slug is derived from
/// the URL by dropping every character that is neither a letter nor a digit.
/// Slugs derived this way may collide; they are not deduplicated here.
pub fn assign_slugs(sites: Vec<Website>, numeric: bool) -> (r: Vec<Website>)
    ensures
        r@.len() == sites@.len(),
        forall|i: int| 0 <= i < r@.len() ==> slugged(#[trigger] r@[i], sites@[i], i, numeric),
{
    let n = sites.len();
    let ghost order = sites@;
    let mut out: Vec<Website> = Vec::with_capacity(n);
    let mut index: usize = 0;
    for website in it: sites.into_iter()
        invariant
            n == order.len(),
            it.seq() == order,
            index == it.index(),
            index <= order.len(),
            out@.len() == index,
            forall|k: int| 0 <= k < index ==> slugged(#[trigger] out@[k], order[k], k, numeric),
    {
        let mut w = website;
        if numeric {
            w.slug = decimal_string(index + 1);
        } else if w.slug.as_str().is_empty() {
            w.slug = strip_non_alphanumeric(w.url.as_str());
        }
        out.push(w);
        index = index + 1;
    }
    out
}

/// Builds the ring in list order, or in a random order when `shuffle` is set;
/// slugs are left as they are.
pub fn build_webring_sites(websites: Vec<Website>, shuffle: bool) -> (r: Vec<WebringSite>)
    ensures
        exists|order: Seq<Website>|
            #![trigger carries(r@, order)]
            order.to_multiset() == websites@.to_multiset() && (!shuffle ==> order == websites@)
                && carries(r@, order),
        ring_links(r@),
{
    let mut websites = websites;
    if shuffle {
        shuffle_sites(&mut websites);
    }
    let ghost order = websites@;
    let r = link_ring(websites);
    assert(carries(r@, order));
    r
}

/// `r` is a ring over the sites of `websites`: in their order, or when
/// shuffling in some order of the same sites, each as often, with the slug
/// pass applied.
pub open spec fn ring_built(r: Seq<WebringSite>, websites: Seq<Website>, shuffle: bool, numeric: bool) -> bool {
    exists|order: Seq<Website>|
        #![trigger ring_of(r, order, numeric)]
        order.to_multiset() == websites.to_multiset() && (!shuffle ==> order == websites) && ring_of(
            r,
            order,
            numeric,
        )
}

/// Builds the ring sequence: shuffles the sites when the settings ask for it,
/// runs the slug pass, then links each place to its neighbours.
pub fn build_webring_sequence(websites: Vec<Website>, settings: &AppSettings) -> (r: Vec<
    WebringSite,
>)
    ensures
        ring_built(r@, websites@, settings.shuffle, settings.no_slug),
{
    let mut websites = websites;
    if settings.shuffle {
        shuffle_sites(&mut websites);
    }
    let ghost order = websites@;
    let slugged_sites = assign_slugs(websites, settings.no_slug);
    let ghost named = slugged_sites@;
    let r = link_ring(slugged_sites);
    assert forall|i: int| 0 <= i < r@.len() implies slugged(
        (#[trigger] r@[i]).website,
        order[i],
        i,
        settings.no_slug,
    ) by {
        assert(r@[i].website == named[i]);
    }
    assert(ring_of(r@, order, settings.no_slug));
    r
}

/// A ring is a single cycle: each place's successor and predecessor are in
/// range, the predecessor of its successor is the place itself, and so is the
/// successor of its predecessor.
pub proof fn lemma_ring_is_cycle(r: Seq<WebringSite>)
    requires
        ring_links(r),
    ensures
        forall|i: int|
            0 <= i < r.len() ==> {
                &&& 0 <= (#[trigger] r[i]).next < r.len()
                &&& 0 <= r[i].previous < r.len()
                &&& r[r[i].next as int].previous == i
                &&& r[r[i].previous as int].next == i
            },
{
    let n = r.len() as int;
    assert forall|i: int| 0 <= i < n implies {
        &&& 0 <= (#[trigger] r[i]).next < n
        &&& 0 <= r[i].previous < n
        &&& r[r[i].next as int].previous == i
        &&& r[r[i].previous as int].next == i
    } by {
        lemma_wrap(i + 1, n);
        lemma_wrap(i - 1 + n, n);
        let nx = r[i].next as int;
        let pv = r[i].previous as int;
        lemma_wrap(nx - 1 + n, n);
        lemma_wrap(pv + 1, n);
    }
}

/// Without shuffling, place `i` of the ring holds the `i`-th input site, up to
/// the slug pass; where that site has a slug and numeric slugs are not asked
/// for, it is exactly the `i`-th input site.
pub proof fn lemma_unshuffled_keeps_order(r: Seq<WebringSite>, websites: Seq<Website>, numeric: bool)
    requires
        ring_built(r, websites, false, numeric),
    ensures
        r.len() == websites.len(),
        forall|i: int| 0 <= i < r.len() ==> slugged((#[trigger] r[i]).website, websites[i], i, numeric),
        forall|i: int|
            0 <= i < r.len() && !numeric && websites[i].slug@.len() > 0 ==> (#[trigger] r[i]).website
                == websites[i],
{
    assert(ring_of(r, websites, numeric));
}

/// Shuffling only reorders: where every site has a slug and numeric slugs are
/// not asked for, the ring holds the same sites as the input, each as often.
pub proof fn lemma_shuffle_keeps_sites(r: Seq<WebringSite>, websites: Seq<Website>, shuffle: bool)
    requires
        ring_built(r, websites, shuffle, false),
        forall|i: int| 0 <= i < websites.len() ==> (#[trigger] websites[i]).slug@.len() > 0,
    ensures
        r.map_values(|s: WebringSite| s.website).to_multiset() == websites.to_multiset(),
{
    let order = choose|order: Seq<Website>|
        #![trigger ring_of(r, order, false)]
        order.to_multiset() == websites.to_multiset() && (!shuffle ==> order == websites) && ring_of(
            r,
            order,
            false,
        );
    assert forall|i: int| 0 <= i < order.len() implies (#[trigger] order[i]).slug@.len() > 0 by {
        order.to_multiset_ensures();
        websites.to_multiset_ensures();
        assert(order.to_multiset().count(order[i]) > 0);
        assert(websites.contains(order[i]));
    }
    let sites = r.map_values(|s: WebringSite| s.website);
    assert forall|i: int| 0 <= i < sites.len() implies #[trigger] sites[i] == order[i] by {
        assert(slugged(r[i].website, order[i], i, false));
    }
    assert(sites =~= order);
}

/// A list whose URLs the pattern accepts and whose slugs and URLs are all
/// distinct passes validation.
pub proof fn lemma_valid_list_passes(ws: Seq<Website>, verdicts: Seq<Option<bool>>)
    requires
        verdicts.len() == ws.len(),
        forall|i: int| 0 <= i < ws.len() ==> #[trigger] verdicts[i] == Some(true),
        forall|i: int, j: int|
            0 <= i < j < ws.len() ==> (#[trigger] ws[i]).slug@ != (#[trigger] ws[j]).slug@
                && ws[i].url@ != ws[j].url@,
    ensures
        all_clear(ws, verdicts),
{
    assert forall|i: int| 0 <= i < ws.len() implies #[trigger] fault_at(ws, verdicts, i) is None by {
        assert(verdicts[i] == Some(true));
        assert(!exists|j: int| 0 <= j < i && (#[trigger] ws[j]).slug@ == ws[i].slug@);
        assert(!exists|j: int| 0 <= j < i && (#[trigger] ws[j]).url@ == ws[i].url@);
    }
}

/// Where site `j` breaks a rule, some site at or before `j` is the first to.
proof fn lemma_first_fault_exists(ws: Seq<Website>, verdicts: Seq<Option<bool>>, j: int)
    requires
        0 <= j < ws.len(),
        fault_at(ws, verdicts, j) is Some,
    ensures
        exists|f: int| 0 <= f <= j && #[trigger] first_fault(ws, verdicts, f),
    decreases j,
{
    if exists|k: int| 0 <= k < j && (#[trigger] fault_at(ws, verdicts, k)) is Some {
        let k = choose|k: int| 0 <= k < j && (#[trigger] fault_at(ws, verdicts, k)) is Some;
        lemma_first_fault_exists(ws, verdicts, k);
    } else {
        assert(first_fault(ws, verdicts, j));
    }
}

/// Where the pattern accepts every URL, a list in which two sites share a slug
/// or a URL fails validation, and the failure is at the first site in list
/// order that repeats the slug or the URL of a site before it.
pub proof fn lemma_duplicate_fails_first(ws: Seq<Website>, verdicts: Seq<Option<bool>>, i: int, j: int)
    requires
        verdicts.len() == ws.len(),
        forall|k: int| 0 <= k < ws.len() ==> #[trigger] verdicts[k] == Some(true),
        0 <= i < j < ws.len(),
        ws[i].slug@ == ws[j].slug@ || ws[i].url@ == ws[j].url@,
    ensures
        !all_clear(ws, verdicts),
        exists|f: int|
            #![trigger first_fault(ws, verdicts, f)]
            0 <= f <= j && first_fault(ws, verdicts, f) && (fault_at(ws, verdicts, f) == Some(
                Fault::DuplicateSlug,
            ) || fault_at(ws, verdicts, f) == Some(Fault::DuplicateUrl)),
{
    assert(verdicts[j] == Some(true));
    if ws[i].slug@ == ws[j].slug@ {
        assert(exists|k: int| 0 <= k < j && (#[trigger] ws[k]).slug@ == ws[j].slug@);
    } else {
        assert(exists|k: int| 0 <= k < j && (#[trigger] ws[k]).url@ == ws[j].url@);
    }
    assert(fault_at(ws, verdicts, j) is Some);
    lemma_first_fault_exists(ws, verdicts, j);
    let f = choose|f: int| 0 <= f <= j && #[trigger] first_fault(ws, verdicts, f);
    assert(verdicts[f] == Some(true));
    assert(fault_at(ws, verdicts, f) is Some);
}

/// Mapping two sequences that hold the same elements, each as often, gives two
/// sequences that again hold the same elements, each as often.
proof fn lemma_map_keeps_multiset<A, B>(a: Seq<A>, b: Seq<A>, f: spec_fn(A) -> B)
    requires
        a.to_multiset() == b.to_multiset(),
    ensures
        a.map_values(f).to_multiset() == b.map_values(f).to_multiset(),
    decreases a.len(),
{
    a.to_multiset_ensures();
    b.to_multiset_ensures();
    if a.len() == 0 {
        assert(b.len() == 0);
        assert(a.map_values(f) =~= b.map_values(f));
    } else {
        let x = a.last();
        let rest = a.drop_last();
        assert(a == rest.push(x));
        rest.to_multiset_ensures();
        assert(b.to_multiset().count(x) > 0);
        let j = choose|j: int| 0 <= j < b.len() && b[j] == x;
        let b2 = b.remove(j);
        b2.to_multiset_ensures();
        assert(rest.to_multiset() =~= a.to_multiset().remove(x));
        assert(b2.to_multiset() =~= b.to_multiset().remove(x));
        lemma_map_keeps_multiset(rest, b2, f);
        let am = a.map_values(f);
        let bm = b.map_values(f);
        am.to_multiset_ensures();
        bm.to_multiset_ensures();
        rest.map_values(f).to_multiset_ensures();
        assert(am =~= rest.map_values(f).push(f(x)));
        assert(bm.remove(j) =~= b2.map_values(f));
        assert(bm.to_multiset() =~= b2.map_values(f).to_multiset().insert(f(x))) by {
            assert(bm.remove(j).to_multiset() =~= bm.to_multiset().remove(bm[j]));
            assert(bm.to_multiset().count(f(x)) > 0);
        }
    }
}

/// For every input, whatever the slug pass does, the ring holds the URLs of
/// the input sites, each as often as the input does.
pub proof fn lemma_ring_keeps_urls(r: Seq<WebringSite>, websites: Seq<Website>, shuffle: bool, numeric: bool)
    requires
        ring_built(r, websites, shuffle, numeric),
    ensures
        r.map_values(|s: WebringSite| s.website.url@).to_multiset() == websites.map_values(
            |w: Website| w.url@,
        ).to_multiset(),
{
    let order = choose|order: Seq<Website>|
        #![trigger ring_of(r, order, numeric)]
        order.to_multiset() == websites.to_multiset() && (!shuffle ==> order == websites) && ring_of(
            r,
            order,
            numeric,
        );
    let urls = r.map_values(|s: WebringSite| s.website.url@);
    let f = |w: Website| w.url@;
    assert forall|i: int| 0 <= i < urls.len() implies #[trigger] urls[i] == order.map_values(f)[i] by {
        assert(slugged(r[i].website, order[i], i, numeric));
    }
    assert(urls =~= order.map_values(f));
    lemma_map_keeps_multiset(order, websites, f);
}

} // verus!
