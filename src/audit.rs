use vstd::prelude::*;

use crate::settings::AppSettings;
use crate::text::{contains_text, occurs_in, trim_end, trim_end_char};
use crate::website::Website;

verus! {

/// For the elements that `selector` picks out of the page `html`, in the order
/// scraper's node walk visits them, the value of attribute `attr` where the element has it; `None` where
/// `selector` is not a valid CSS selector.
pub uninterp spec fn element_attributes(html: Seq<char>, selector: Seq<char>, attr: Seq<char>) -> Option<
    Seq<Option<Seq<char>>>,
>;

/// Relies on scraper: Selector::parse reads the CSS selector (an invalid one is
/// reported), Html::parse_document parses the page, Html::select walks the
/// matching elements in the order their nodes were created and Element::attr
/// reads the attribute.
#[verifier::external_body]
fn select_attributes(html: &str, selector: &str, attr: &str) -> (r: Option<Vec<Option<String>>>)
    ensures
        r.deep_view() == element_attributes(html@, selector@, attr@),
{
    let selector = match scraper::Selector::parse(selector) {
        Ok(s) => s,
        Err(_) => return None,
    };
    let document = scraper::Html::parse_document(html);
    Some(document.select(&selector).map(|e| e.value().attr(attr).map(|v| v.to_string())).collect())
}

/// The attribute values of the picked elements, none where the selector is invalid.
pub open spec fn attribute_values(html: Seq<char>, selector: Seq<char>, attr: Seq<char>) -> Seq<
    Option<Seq<char>>,
> {
    match element_attributes(html, selector, attr) {
        Some(values) => values,
        None => Seq::empty(),
    }
}

/// Which of the two ring links a page was found to carry.
#[derive(Debug, Clone, Copy, PartialEq, Eq, Structural)]
pub struct LinkPresence {
    pub next: bool,
    pub previous: bool,
}

/// The two addresses a member page must link to.
#[derive(Debug)]
pub struct ExpectedLinks {
    pub next: String,
    pub previous: String,
}

/// The address `{base}/{slug}/{text}`, where trailing slashes of the base are dropped.
pub open spec fn ring_address(base: Seq<char>, slug: Seq<char>, text: Seq<char>) -> Seq<char> {
    trim_end(base, '/') + seq!['/'] + slug + seq!['/'] + text
}

/// An attribute value points to `target`: for an anchor's href the value with
/// its trailing slashes dropped equals it, for an onclick handler it holds it.
pub open spec fn points_to(value: Option<Seq<char>>, target: Seq<char>, exact: bool) -> bool {
    match value {
        Some(v) => if exact {
            trim_end(v, '/') == target
        } else {
            occurs_in(v, target)
        },
        None => false,
    }
}

/// What one pass over the attribute values adds to `start`: each link is found
/// when some element points to its address; the two are matched independently,
/// so one element may count for both.
pub open spec fn scanned(
    start: LinkPresence,
    values: Seq<Option<Seq<char>>>,
    next: Seq<char>,
    previous: Seq<char>,
    exact: bool,
) -> LinkPresence {
    LinkPresence {
        next: start.next || exists|i: int| 0 <= i < values.len() && points_to(#[trigger] values[i], next, exact),
        previous: start.previous || exists|i: int|
            0 <= i < values.len() && points_to(#[trigger] values[i], previous, exact),
    }
}

/// Both links were found.
pub open spec fn both_found(p: LinkPresence) -> bool {
    p.next && p.previous
}

/// The search for the two links, in its order of priority: anchors' hrefs; then,
/// only while a link is missing, buttons' onclick handlers; then, only while one
/// is still missing, images' onclick handlers.
pub open spec fn detected(
    anchors: Seq<Option<Seq<char>>>,
    buttons: Seq<Option<Seq<char>>>,
    images: Seq<Option<Seq<char>>>,
    next: Seq<char>,
    previous: Seq<char>,
) -> LinkPresence {
    let a = scanned(LinkPresence { next: false, previous: false }, anchors, next, previous, true);
    let b = if both_found(a) {
        a
    } else {
        scanned(a, buttons, next, previous, false)
    };
    if both_found(b) {
        b
    } else {
        scanned(b, images, next, previous, false)
    }
}

/// A page whose anchors include one pointing to the next address and one
/// pointing to the previous address has both links, whatever its buttons and
/// images hold; one anchor may serve for both.
pub proof fn lemma_anchors_suffice(
    anchors: Seq<Option<Seq<char>>>,
    buttons: Seq<Option<Seq<char>>>,
    images: Seq<Option<Seq<char>>>,
    next: Seq<char>,
    previous: Seq<char>,
    i: int,
    j: int,
)
    requires
        0 <= i < anchors.len(),
        0 <= j < anchors.len(),
        points_to(anchors[i], next, true),
        points_to(anchors[j], previous, true),
    ensures
        both_found(detected(anchors, buttons, images, next, previous)),
{
    let a = scanned(LinkPresence { next: false, previous: false }, anchors, next, previous, true);
    assert(a.next);
    assert(a.previous);
}

/// The per-site result of an audit.
#[derive(Debug)]
pub enum AuditOutcome {
    /// Both ring links were found.
    Passed,
    /// The page was read, and the reason names the missing links.
    Failed { reason: String },
    /// The page could not be fetched, however often it was tried.
    FetchError,
}

pub const MISSING_NEXT: &'static str = "Missing next link. ";
pub const MISSING_PREVIOUS: &'static str = "Missing previous link. ";

/// The failure reason: a sentence for each missing link, next first.
pub open spec fn reason_text(p: LinkPresence) -> Seq<char> {
    (if !p.next {
        MISSING_NEXT@
    } else {
        Seq::empty()
    }) + (if !p.previous {
        MISSING_PREVIOUS@
    } else {
        Seq::empty()
    })
}

/// The outcome for a page on which `p` was found.
pub open spec fn verdict_for(p: LinkPresence, o: AuditOutcome) -> bool {
    if both_found(p) {
        o is Passed
    } else {
        o matches AuditOutcome::Failed { reason } && reason@ == reason_text(p)
    }
}

/// The addresses that a site's page must link to.
pub fn expected_links(website: &Website, settings: &AppSettings) -> (r: ExpectedLinks)
    ensures
        r.next@ == ring_address(settings.base_url@, website.slug@, settings.next_url_text@),
        r.previous@ == ring_address(settings.base_url@, website.slug@, settings.prev_url_text@),
{
    proof {
        reveal_strlit("/");
    }
    let base = trim_end_char(settings.base_url.as_str(), '/');
    let stem = String::from_str(base).concat("/").concat(website.slug.as_str()).concat("/");
    let next = stem.clone().concat(settings.next_url_text.as_str());
    let previous = stem.concat(settings.prev_url_text.as_str());
    ExpectedLinks { next, previous }
}

/// One pass over attribute values, as `scanned` describes it.
pub fn scan_values(
    start: LinkPresence,
    values: &Vec<Option<String>>,
    next: &str,
    previous: &str,
    exact: bool,
) -> (r: LinkPresence)
    ensures
        r == scanned(start, values.deep_view(), next@, previous@, exact),
{
    let ghost vals = values.deep_view();
    let mut found = start;
    let mut i: usize = 0;
    while i < values.len()
        invariant
            vals == values.deep_view(),
            i <= values@.len(),
            found == scanned(start, vals.take(i as int), next@, previous@, exact),
        decreases values@.len() - i,
    {
        let hit_next;
        let hit_previous;
        match &values[i] {
            Some(v) => {
                if exact {
                    let trimmed = trim_end_char(v.as_str(), '/');
                    hit_next = String::from_str(trimmed) == String::from_str(next);
                    hit_previous = String::from_str(trimmed) == String::from_str(previous);
                } else {
                    hit_next = contains_text(v.as_str(), next);
                    hit_previous = contains_text(v.as_str(), previous);
                }
            },
            None => {
                hit_next = false;
                hit_previous = false;
            },
        }
        assert(hit_next == points_to(vals[i as int], next@, exact));
        assert(hit_previous == points_to(vals[i as int], previous@, exact));
        let ghost before = found;
        if hit_next {
            found = LinkPresence { next: true, previous: found.previous };
        }
        if hit_previous {
            found = LinkPresence { next: found.next, previous: true };
        }
        proof {
            let t = vals.take(i + 1);
            let s = vals.take(i as int);
            assert forall|k: int| 0 <= k < s.len() implies #[trigger] s[k] == t[k] by {}
            assert(t[i as int] == vals[i as int]);
            if hit_next {
                assert(points_to(t[i as int], next@, exact));
            }
            if hit_previous {
                assert(points_to(t[i as int], previous@, exact));
            }
            if scanned(start, t, next@, previous@, exact).next {
                if !before.next && !hit_next {
                    let k = choose|k: int| 0 <= k < t.len() && points_to(#[trigger] t[k], next@, exact);
                    assert(k != i);
                    assert(s[k] == t[k]);
                }
            }
            if scanned(start, t, next@, previous@, exact).previous {
                if !before.previous && !hit_previous {
                    let k = choose|k: int| 0 <= k < t.len() && points_to(#[trigger] t[k], previous@, exact);
                    assert(k != i);
                    assert(s[k] == t[k]);
                }
            }
        }
        i = i + 1;
    }
    assert(vals.take(i as int) == vals);
    found
}

/// The search for the ring links over the attribute values of a page's
/// anchors, buttons and images, in that order of priority.
pub fn detect_links(
    anchors: &Vec<Option<String>>,
    buttons: &Vec<Option<String>>,
    images: &Vec<Option<String>>,
    links: &ExpectedLinks,
) -> (r: LinkPresence)
    ensures
        r == detected(
            anchors.deep_view(),
            buttons.deep_view(),
            images.deep_view(),
            links.next@,
            links.previous@,
        ),
{
    let start = LinkPresence { next: false, previous: false };
    let mut found = scan_values(start, anchors, links.next.as_str(), links.previous.as_str(), true);
    if !(found.next && found.previous) {
        found = scan_values(found, buttons, links.next.as_str(), links.previous.as_str(), false);
    }
    if !(found.next && found.previous) {
        found = scan_values(found, images, links.next.as_str(), links.previous.as_str(), false);
    }
    found
}

/// The outcome for a page on which `presence` was found: a pass when both
/// links are there, else a failure whose reason names each missing link.
pub fn audit_verdict(presence: LinkPresence) -> (r: AuditOutcome)
    ensures
        verdict_for(presence, r),
{
    if presence.next && presence.previous {
        AuditOutcome::Passed
    } else {
        let mut reason = String::new();
        if !presence.next {
            reason.append(MISSING_NEXT);
        }
        if !presence.previous {
            reason.append(MISSING_PREVIOUS);
        }
        AuditOutcome::Failed { reason }
    }
}

/// The attribute values that the selector picks, none where it is invalid.
fn values_of(html: &str, selector: &str, attr: &str) -> (r: Vec<Option<String>>)
    ensures
        r.deep_view() == attribute_values(html@, selector@, attr@),
{
    match select_attributes(html, selector, attr) {
        Some(values) => values,
        None => {
            let empty: Vec<Option<String>> = Vec::new();
            assert(empty.deep_view() =~= Seq::<Option<Seq<char>>>::empty());
            empty
        },
    }
}

/// The link search on a fetched page: its anchors' hrefs, then while needed
/// its buttons' and images' onclick handlers.
pub open spec fn page_presence(html: Seq<char>, links: (Seq<char>, Seq<char>)) -> LinkPresence {
    detected(
        attribute_values(html, "a"@, "href"@),
        attribute_values(html, "button"@, "onclick"@),
        attribute_values(html, "img"@, "onclick"@),
        links.0,
        links.1,
    )
}

/// Audits a site's fetched page: it passes when the page links to both of the
/// site's ring addresses, and fails with a reason naming each missing link.
pub fn does_html_contain_links(html: &str, website: &Website, settings: &AppSettings) -> (r:
    AuditOutcome)
    ensures
        verdict_for(
            page_presence(
                html@,
                (
                    ring_address(settings.base_url@, website.slug@, settings.next_url_text@),
                    ring_address(settings.base_url@, website.slug@, settings.prev_url_text@),
                ),
            ),
            r,
        ),
{
    let links = expected_links(website, settings);
    let anchors = values_of(html, "a", "href");
    let start = LinkPresence { next: false, previous: false };
    let mut found = scan_values(start, &anchors, links.next.as_str(), links.previous.as_str(), true);
    if !(found.next && found.previous) {
        let buttons = values_of(html, "button", "onclick");
        found = scan_values(found, &buttons, links.next.as_str(), links.previous.as_str(), false);
    }
    if !(found.next && found.previous) {
        let images = values_of(html, "img", "onclick");
        found = scan_values(found, &images, links.next.as_str(), links.previous.as_str(), false);
    }
    audit_verdict(found)
}

/// What one fetch attempt of a page came to.
#[derive(Debug)]
pub enum FetchEvent {
    /// The page's text was read.
    Fetched(String),
    /// The request failed or its body could not be read.
    Failed,
}

/// What to do after a fetch attempt.
#[derive(Debug)]
pub enum FetchStep {
    /// Audit this page text.
    Done(String),
    /// Wait this many milliseconds, then try again.
    Retry { delay_ms: u64 },
    /// Give up on the site: it is dropped as a fetch error.
    GiveUp,
}

/// The step after attempt number `attempts` (counting from one): a read page
/// is done; a failure is retried after the configured delay until
/// `audit_retries_max` attempts have been made.
pub open spec fn step_after(attempts: u64, event: FetchEvent, max: u64, delay: u64, step: FetchStep) -> bool {
    match event {
        FetchEvent::Fetched(text) => step matches FetchStep::Done(t) && t == text,
        FetchEvent::Failed => if attempts >= max {
            step is GiveUp
        } else {
            step == FetchStep::Retry { delay_ms: delay }
        },
    }
}

/// Decides what follows fetch attempt number `attempts` of a site's page.
pub fn next_fetch_step(attempts: u64, event: FetchEvent, settings: &AppSettings) -> (r: FetchStep)
    ensures
        step_after(attempts, event, settings.audit_retries_max, settings.audit_retries_delay, r),
{
    match event {
        FetchEvent::Fetched(text) => FetchStep::Done(text),
        FetchEvent::Failed => {
            if attempts >= settings.audit_retries_max {
                FetchStep::GiveUp
            } else {
                FetchStep::Retry { delay_ms: settings.audit_retries_delay }
            }
        },
    }
}

/// When every attempt fails, the page is tried exactly `max` times: each of
/// the first `max - 1` failures is followed by a wait of `delay` milliseconds
/// and another try, and the failure of attempt `max` gives up.
pub proof fn lemma_retries_exhaust(max: u64, delay: u64, steps: Seq<FetchStep>)
    requires
        max >= 1,
        steps.len() == max,
        forall|k: int|
            0 <= k < max ==> step_after((k + 1) as u64, FetchEvent::Failed, max, delay, #[trigger] steps[k]),
    ensures
        forall|k: int| 0 <= k < max - 1 ==> #[trigger] steps[k] == (FetchStep::Retry { delay_ms: delay }),
        (steps[max - 1] is GiveUp),
{
    assert forall|k: int| 0 <= k < max - 1 implies #[trigger] steps[k] == (FetchStep::Retry { delay_ms: delay }) by {
        assert(step_after((k + 1) as u64, FetchEvent::Failed, max, delay, steps[k]));
    }
    assert(step_after(max, FetchEvent::Failed, max, delay, steps[max - 1]));
}

/// The sites of `results` whose audit passed, in the order given.
pub open spec fn passed_sites(results: Seq<(Website, AuditOutcome)>) -> Seq<Website>
    decreases results.len(),
{
    if results.len() == 0 {
        Seq::empty()
    } else {
        let rest = passed_sites(results.drop_last());
        if results.last().1 is Passed {
            rest.push(results.last().0)
        } else {
            rest
        }
    }
}

/// Keeps the sites whose audit passed, in the order the results came in.
pub fn passing_sites(results: Vec<(Website, AuditOutcome)>) -> (r: Vec<Website>)
    ensures
        r@ == passed_sites(results@),
{
    let n = results.len();
    let ghost all = results@;
    let mut kept: Vec<Website> = Vec::new();
    let mut index: usize = 0;
    for result in it: results.into_iter()
        invariant
            n == all.len(),
            it.seq() == all,
            index == it.index(),
            index <= all.len(),
            kept@ == passed_sites(all.take(index as int)),
    {
        proof {
            assert(all.take(index + 1).drop_last() == all.take(index as int));
        }
        let (website, outcome) = result;
        match outcome {
            AuditOutcome::Passed => kept.push(website),
            _ => {},
        }
        index = index + 1;
    }
    assert(all.take(index as int) == all);
    kept
}

/// A site whose audit did not pass is not kept, and when no audit passed
/// nothing is kept at all.
pub proof fn lemma_failed_sites_dropped(results: Seq<(Website, AuditOutcome)>)
    ensures
        passed_sites(results).len() <= results.len(),
        (forall|i: int| 0 <= i < results.len() ==> !((#[trigger] results[i]).1 is Passed))
            ==> passed_sites(results).len() == 0,
    decreases results.len(),
{
    if results.len() > 0 {
        let rest = results.drop_last();
        lemma_failed_sites_dropped(rest);
        assert forall|i: int| 0 <= i < rest.len() implies #[trigger] rest[i] == results[i] by {}
    }
}

} // verus!
