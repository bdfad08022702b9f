use vstd::prelude::*;

use rand::seq::SliceRandom;

use crate::file::{is_whitespace, white_space};
use crate::pattern::{regex_captures, regex_groups, regex_is_match, regex_verdict};
use crate::settings::AppSettings;
use crate::text::{decimal, decimal_string};
use crate::webring::WebringSite;
use crate::website::{field_text, text_or_empty};

verus! {

pub const HYPERLINK_PATTERN: &'static str = "<a\\s+[^>]*href=\"([^\"]*)\"[^>]*>(.*?)</a>";
pub const URL_SCHEME_PATTERN: &'static str = "^[a-z]+://";
pub const EMAIL_PATTERN: &'static str = "[A-Za-z0-9._%+-]+@[A-Za-z0-9.-]+\\.[A-Za-z]{2,}";
pub const FEDIVERSE_PATTERN: &'static str = "^@([^\\s@]+)@([^\\s@]+\\.[^\\s@]+)$";
pub const PHONE_PATTERN: &'static str = "^\\+?\\d{10,15}$";
pub const SMS_PATTERN: &'static str = "^sms:\\+?\\d{10,15}$";

/// The words of `s`: its maximal runs of characters that are not white space.
pub open spec fn words(s: Seq<char>) -> Seq<Seq<char>>
    decreases s.len(),
{
    if s.len() == 0 {
        Seq::empty()
    } else {
        let w = words(s.drop_last());
        let c = s.last();
        if white_space(c) {
            w
        } else if s.len() >= 2 && !white_space(s[s.len() - 2]) {
            w.drop_last().push(w.last().push(c))
        } else {
            w.push(seq![c])
        }
    }
}

/// The texts joined with single spaces.
pub open spec fn joined(parts: Seq<Seq<char>>) -> Seq<char>
    decreases parts.len(),
{
    if parts.len() == 0 {
        Seq::empty()
    } else if parts.len() == 1 {
        parts[0]
    } else {
        joined(parts.drop_last()) + seq![' '] + parts.last()
    }
}

/// The pattern matches somewhere in the text.
pub open spec fn hit(pattern: Seq<char>, text: Seq<char>) -> bool {
    regex_verdict(pattern, text) == Some(true)
}

/// `<a href="{prefix}{target}"{attrs}>{label}</a>`: the link forms of an owner word.
pub open spec fn link_text(prefix: Seq<char>, target: Seq<char>, attrs: Seq<char>, label: Seq<char>) -> Seq<char> {
    "<a href=\""@ + prefix + target + attrs + ">"@ + label + "</a>"@
}

/// The markup for one word of an owner field, given what each pattern found
/// in it: a word that already holds a link stays as it is; a fediverse handle
/// `@user@domain` links to `https://domain/@user`; a phone number, an `sms:`
/// number, a URL and an email address each get their link, in that order of
/// priority; anything else stays as it is.
pub open spec fn markup_from(
    part: Seq<char>,
    hyperlink: bool,
    fediverse: Option<Seq<Option<Seq<char>>>>,
    phone: bool,
    sms: bool,
    url: bool,
    email: bool,
) -> Seq<char> {
    if hyperlink {
        part
    } else if fediverse is Some {
        let caps = fediverse->0;
        if caps.len() == 3 && caps[1] is Some && caps[2] is Some {
            link_text("https://"@, caps[2]->0 + "/@"@ + caps[1]->0, "\""@, part)
        } else {
            part
        }
    } else if phone {
        link_text("tel:"@, part, "\""@, part)
    } else if sms {
        link_text("sms:"@, part, "\""@, part)
    } else if url {
        link_text(""@, part, "\" target=\"_blank\""@, part)
    } else if email {
        link_text("mailto:"@, part, "\""@, part)
    } else {
        part
    }
}

/// The markup for one word of an owner field, with the owner patterns run on it.
pub open spec fn word_markup(part: Seq<char>) -> Seq<char> {
    markup_from(
        part,
        hit(HYPERLINK_PATTERN@, part),
        regex_groups(FEDIVERSE_PATTERN@, part),
        hit(PHONE_PATTERN@, part),
        hit(SMS_PATTERN@, part),
        hit(URL_SCHEME_PATTERN@, part),
        hit(EMAIL_PATTERN@, part),
    )
}

/// The markup for a whole owner field: each word's markup, joined by spaces.
pub open spec fn owner_markup(owner: Seq<char>) -> Seq<char> {
    joined(words(owner).map_values(|w: Seq<char>| word_markup(w)))
}

/// Splits `s` at white space into its words.
pub fn split_words(s: &str) -> (r: Vec<String>)
    ensures
        r.deep_view() == words(s@),
{
    let n = s.unicode_len();
    let mut done: Vec<String> = Vec::new();
    let mut cur = String::new();
    let mut in_word = false;
    let mut i: usize = 0;
    while i < n
        invariant
            n == s@.len(),
            i <= n,
            in_word <==> (i > 0 && !white_space(s@[i - 1])),
            in_word ==> words(s@.take(i as int)) == done.deep_view().push(cur@),
            !in_word ==> words(s@.take(i as int)) == done.deep_view(),
        decreases n - i,
    {
        let c = s.get_char(i);
        let ghost before = done.deep_view();
        proof {
            assert(s@.take(i + 1).drop_last() == s@.take(i as int));
            assert(s@.take(i + 1).last() == c);
            if i > 0 {
                assert(s@.take(i + 1)[i - 1] == s@[i - 1]);
            }
        }
        if is_whitespace(c) {
            if in_word {
                let w = cur;
                done.push(w);
                assert(done.deep_view() =~= before.push(w@));
                cur = String::new();
            }
            in_word = false;
        } else {
            let piece = s.substring_char(i, i + 1);
            if in_word {
                let ghost old_cur = cur@;
                cur.append(piece);
                assert(cur@ == old_cur.push(c));
                assert(before.push(old_cur).drop_last() == before);
            } else {
                cur = String::from_str(piece);
                assert(cur@ == seq![c]);
            }
            in_word = true;
        }
        i = i + 1;
    }
    assert(s@.take(n as int) == s@);
    if in_word {
        let ghost before = done.deep_view();
        done.push(cur);
        assert(done.deep_view() =~= before.push(cur@));
    }
    done
}

/// Whether the pattern matches somewhere in the text; a pattern that does not
/// compile matches nothing.
fn pattern_hit(pattern: &str, text: &str) -> (r: bool)
    ensures
        r == hit(pattern@, text@),
{
    match regex_is_match(pattern, text) {
        Some(b) => b,
        None => false,
    }
}

/// `<a href="{prefix}{target}">{label}</a>`, for each link form of an owner word.
fn link(prefix: &str, target: &str, attrs: &str, label: &str) -> (r: String)
    ensures
        r@ == link_text(prefix@, target@, attrs@, label@),
{
    String::from_str("<a href=\"").concat(prefix).concat(target).concat(attrs).concat(">").concat(
        label,
    ).concat("</a>")
}

/// What the owner patterns found in one word: whether the hyperlink, phone,
/// sms, URL and email patterns match, and the fediverse pattern's groups.
#[derive(Debug)]
pub struct WordMatches {
    pub hyperlink: bool,
    pub fediverse: Option<Vec<Option<String>>>,
    pub phone: bool,
    pub sms: bool,
    pub url: bool,
    pub email: bool,
}

/// The markup for one word of an owner field, given what the patterns found.
pub fn markup_for(part: &str, m: &WordMatches) -> (r: String)
    ensures
        r@ == markup_from(part@, m.hyperlink, m.fediverse.deep_view(), m.phone, m.sms, m.url, m.email),
{
    if m.hyperlink {
        return String::from_str(part);
    }
    match &m.fediverse {
        Some(caps) => {
            let ghost g = caps.deep_view();
            if caps.len() == 3 {
                match (&caps[1], &caps[2]) {
                    (Some(user), Some(domain)) => {
                        assert(g[1] == Some(user@) && g[2] == Some(domain@));
                        let target = String::from_str(domain.as_str()).concat("/@").concat(
                            user.as_str(),
                        );
                        return link("https://", target.as_str(), "\"", part);
                    },
                    _ => {
                        return String::from_str(part);
                    },
                }
            }
            return String::from_str(part);
        },
        None => {},
    }
    if m.phone {
        link("tel:", part, "\"", part)
    } else if m.sms {
        link("sms:", part, "\"", part)
    } else if m.url {
        link("", part, "\" target=\"_blank\"", part)
    } else if m.email {
        link("mailto:", part, "\"", part)
    } else {
        String::from_str(part)
    }
}

/// Runs the owner patterns on one word.
pub fn word_matches(part: &str) -> (r: WordMatches)
    ensures
        r.hyperlink == hit(HYPERLINK_PATTERN@, part@),
        r.fediverse.deep_view() == regex_groups(FEDIVERSE_PATTERN@, part@),
        r.phone == hit(PHONE_PATTERN@, part@),
        r.sms == hit(SMS_PATTERN@, part@),
        r.url == hit(URL_SCHEME_PATTERN@, part@),
        r.email == hit(EMAIL_PATTERN@, part@),
{
    WordMatches {
        hyperlink: pattern_hit(HYPERLINK_PATTERN, part),
        fediverse: regex_captures(FEDIVERSE_PATTERN, part),
        phone: pattern_hit(PHONE_PATTERN, part),
        sms: pattern_hit(SMS_PATTERN, part),
        url: pattern_hit(URL_SCHEME_PATTERN, part),
        email: pattern_hit(EMAIL_PATTERN, part),
    }
}

/// The markup for one word of an owner field, as `word_markup` says.
pub fn format_word(part: &str) -> (r: String)
    ensures
        r@ == word_markup(part@),
{
    markup_for(part, &word_matches(part))
}

/// Turns the contact tokens of an owner field into links: fediverse handles,
/// phone and `sms:` numbers, URLs and email addresses; words are rejoined with
/// single spaces.
pub fn format_owner(owner: &str) -> (r: String)
    ensures
        r@ == owner_markup(owner@),
{
    let parts = split_words(owner);
    let ghost ws = parts.deep_view();
    let ghost marked = ws.map_values(|w: Seq<char>| word_markup(w));
    let mut out = String::new();
    let mut i: usize = 0;
    while i < parts.len()
        invariant
            ws == parts.deep_view(),
            marked == ws.map_values(|w: Seq<char>| word_markup(w)),
            i <= parts@.len(),
            out@ == joined(marked.take(i as int)),
        decreases parts@.len() - i,
    {
        let piece = format_word(parts[i].as_str());
        proof {
            reveal_strlit(" ");
            assert(marked.take(i + 1).drop_last() == marked.take(i as int));
            assert(marked[i as int] == piece@);
        }
        if i > 0 {
            out.append(" ");
        }
        out.append(piece.as_str());
        proof {
            if i == 0 {
                assert(marked.take(1) == seq![piece@]);
            }
        }
        i = i + 1;
    }
    assert(marked.take(i as int) == marked);
    out
}

pub const TABLE_HEAD: &'static str = "<table>\n<thead>\n<tr>\n<th scope=\"col\">#</th>\n<th scope=\"col\">Name</th>\n<th scope=\"col\">URL</th>\n<th scope=\"col\">About</th>\n<th scope=\"col\">Owner</th>\n</tr>\n</thead>\n<tbody>\n";
pub const TABLE_TAIL: &'static str = "</tbody>\n</table>\n";
pub const GRID_HEAD: &'static str = "<section class=\"cards\">\n";
pub const GRID_TAIL: &'static str = "</section>";

/// The feed link shown beside a site's URL, where it has a feed.
pub open spec fn rss_link(rss: Option<String>) -> Seq<char> {
    match rss {
        Some(r) => " <a href=\""@ + r@ + "\" target=\"_blank\">[rss]</a>"@,
        None => Seq::empty(),
    }
}

/// The owner markup, empty where the site names no owner.
pub open spec fn owner_cell(owner: Option<String>) -> Seq<char> {
    match owner {
        Some(o) => owner_markup(o@),
        None => Seq::empty(),
    }
}

/// Row `i` of the sites table: position, slug, URL with feed link, about, owner.
pub open spec fn table_row(i: int, s: WebringSite) -> Seq<char> {
    "<tr>\n<td>"@ + decimal((i + 1) as nat) + "</td>\n<td>"@ + s.website.slug@
        + "</td>\n<td><a href=\""@ + s.website.url@ + "\" target=\"_blank\">"@ + s.website.url@
        + "</a>"@ + rss_link(s.website.rss) + "</td>\n<td>"@ + text_or_empty(s.website.about)
        + "</td>\n<td>"@ + owner_cell(s.website.owner) + "</td>\n</tr>\n"@
}

/// The rows of the sites table, one per site in ring order.
pub open spec fn table_rows(sites: Seq<WebringSite>) -> Seq<char>
    decreases sites.len(),
{
    if sites.len() == 0 {
        Seq::empty()
    } else {
        table_rows(sites.drop_last()) + table_row(sites.len() - 1, sites.last())
    }
}

/// The card of a site in the sites grid: owner and slug, URL with feed link, about.
pub open spec fn grid_card(s: WebringSite) -> Seq<char> {
    "<article class=\"card\">\n<div class=\"card-name\">"@ + owner_cell(s.website.owner)
        + " <span class=\"card-slug\">("@ + s.website.slug@
        + ")</span></div>\n<div class=\"card-content\">\n<div class=\"card-link\"><a href=\""@
        + s.website.url@ + "\" target=\"_blank\">"@ + s.website.url@ + "</a>&nbsp;"@ + rss_link(
        s.website.rss,
    ) + "</div>\n<div class=\"card-text\">"@ + text_or_empty(s.website.about)
        + "</div>\n</div>\n</article>\n"@
}

/// The cards of the sites grid, one per site in ring order.
pub open spec fn grid_cards(sites: Seq<WebringSite>) -> Seq<char>
    decreases sites.len(),
{
    if sites.len() == 0 {
        Seq::empty()
    } else {
        grid_cards(sites.drop_last()) + grid_card(sites.last())
    }
}

fn rss_link_text(rss: &Option<String>) -> (r: String)
    ensures
        r@ == rss_link(*rss),
{
    match rss {
        Some(url) => String::from_str(" <a href=\"").concat(url.as_str()).concat(
            "\" target=\"_blank\">[rss]</a>",
        ),
        None => String::new(),
    }
}

fn owner_cell_text(owner: &Option<String>) -> (r: String)
    ensures
        r@ == owner_cell(*owner),
{
    match owner {
        Some(o) => format_owner(o.as_str()),
        None => String::new(),
    }
}

/// The HTML table that lists the ring's sites in order.
pub fn build_sites_table_html(websites: &[WebringSite]) -> (r: String)
    ensures
        r@ == TABLE_HEAD@ + table_rows(websites@) + TABLE_TAIL@,
{
    let mut table = String::from_str(TABLE_HEAD);
    let mut i: usize = 0;
    while i < websites.len()
        invariant
            i <= websites@.len(),
            table@ == TABLE_HEAD@ + table_rows(websites@.take(i as int)),
        decreases websites@.len() - i,
    {
        let site = &websites[i];
        let row = String::from_str("<tr>\n<td>").concat(decimal_string(i + 1).as_str()).concat(
            "</td>\n<td>",
        ).concat(site.website.slug.as_str()).concat("</td>\n<td><a href=\"").concat(
            site.website.url.as_str(),
        ).concat("\" target=\"_blank\">").concat(site.website.url.as_str()).concat("</a>").concat(
            rss_link_text(&site.website.rss).as_str(),
        ).concat("</td>\n<td>").concat(field_text(&site.website.about).as_str()).concat(
            "</td>\n<td>",
        ).concat(owner_cell_text(&site.website.owner).as_str()).concat("</td>\n</tr>\n");
        proof {
            assert(websites@.take(i + 1).drop_last() == websites@.take(i as int));
            assert(row@ == table_row(i as int, websites@[i as int]));
        }
        table.append(row.as_str());
        i = i + 1;
    }
    assert(websites@.take(i as int) == websites@);
    table.append(TABLE_TAIL);
    table
}

/// The CSS grid of cards that lists the ring's sites in order.
pub fn build_sites_grid_html(websites: &[WebringSite]) -> (r: String)
    ensures
        r@ == GRID_HEAD@ + grid_cards(websites@) + GRID_TAIL@,
{
    let mut grid = String::from_str(GRID_HEAD);
    let mut i: usize = 0;
    while i < websites.len()
        invariant
            i <= websites@.len(),
            grid@ == GRID_HEAD@ + grid_cards(websites@.take(i as int)),
        decreases websites@.len() - i,
    {
        let site = &websites[i];
        let card = String::from_str("<article class=\"card\">\n<div class=\"card-name\">").concat(
            owner_cell_text(&site.website.owner).as_str(),
        ).concat(" <span class=\"card-slug\">(").concat(site.website.slug.as_str()).concat(
            ")</span></div>\n<div class=\"card-content\">\n<div class=\"card-link\"><a href=\"",
        ).concat(site.website.url.as_str()).concat("\" target=\"_blank\">").concat(
            site.website.url.as_str(),
        ).concat("</a>&nbsp;").concat(rss_link_text(&site.website.rss).as_str()).concat(
            "</div>\n<div class=\"card-text\">",
        ).concat(field_text(&site.website.about).as_str()).concat("</div>\n</div>\n</article>\n");
        proof {
            assert(websites@.take(i + 1).drop_last() == websites@.take(i as int));
            assert(card@ == grid_card(websites@[i as int]));
        }
        grid.append(card.as_str());
        i = i + 1;
    }
    assert(websites@.take(i as int) == websites@);
    grid.append(GRID_TAIL);
    grid
}

/// Values the templates show that are worked out once per run.
#[derive(Debug)]
pub struct PrecomputedTags {
    pub number_of_sites: usize,
    pub current_time: String,
    pub featured_site_name: String,
    pub featured_site_description: String,
    pub featured_site_url: String,
    pub opml_link: String,
}

/// The tags for a ring of `count` sites featuring `featured`: its name, or
/// its URL where it has none; its description, empty where it has none; its
/// URL; and the link `./{ring name}.opml`.
pub open spec fn tags_describe(
    t: PrecomputedTags,
    count: int,
    featured: WebringSite,
    current_time: Seq<char>,
    ring_name: Seq<char>,
) -> bool {
    &&& t.number_of_sites == count
    &&& t.current_time@ == current_time
    &&& t.featured_site_name@ == match featured.website.name {
        Some(n) => n@,
        None => featured.website.url@,
    }
    &&& t.featured_site_description@ == text_or_empty(featured.website.about)
    &&& t.featured_site_url@ == featured.website.url@
    &&& t.opml_link@ == "./"@ + ring_name + ".opml"@
}

/// The tags for a ring of `count` sites, given the featured site and the time.
pub fn tags_for(count: usize, featured: &WebringSite, current_time: String, ring_name: &str) -> (r:
    PrecomputedTags)
    ensures
        tags_describe(r, count as int, *featured, current_time@, ring_name@),
{
    let w = &featured.website;
    let name = match &w.name {
        Some(n) => n.clone(),
        None => w.url.clone(),
    };
    PrecomputedTags {
        number_of_sites: count,
        current_time,
        featured_site_name: name,
        featured_site_description: field_text(&w.about),
        featured_site_url: w.url.clone(),
        opml_link: String::from_str("./").concat(ring_name).concat(".opml"),
    }
}

/// Relies on rand's SliceRandom::choose with the thread-local generator, which
/// picks one element of a non-empty slice.
#[verifier::external_body]
fn choose_featured(sites: &[WebringSite]) -> (r: &WebringSite)
    requires
        sites@.len() > 0,
    ensures
        sites@.contains(*r),
{
    sites.choose(&mut rand::thread_rng()).unwrap()
}

/// Relies on chrono's Local::now and DelayedFormat: the local time now,
/// written as `YYYY-MM-DD HH:MM:SS`.
#[verifier::external_body]
fn local_time_text() -> (r: String) {
    chrono::Local::now().format("%Y-%m-%d %H:%M:%S").to_string()
}

/// Works out the template tags once per run, featuring a site picked at random.
pub fn precompute_tags(webring: &[WebringSite], settings: &AppSettings) -> (r: PrecomputedTags)
    requires
        webring@.len() > 0,
    ensures
        exists|i: int|
            0 <= i < webring@.len() && tags_describe(
                r,
                webring@.len() as int,
                #[trigger] webring@[i],
                r.current_time@,
                settings.ring_name@,
            ),
{
    let featured = choose_featured(webring);
    let now = local_time_text();
    tags_for(webring.len(), featured, now, settings.ring_name.as_str())
}

/// The feeds the OPML file lists: one per site that names an owner and has a
/// non-empty feed URL, as (owner, feed URL), in ring order.
pub open spec fn feeds_of(sites: Seq<WebringSite>) -> Seq<(Seq<char>, Seq<char>)>
    decreases sites.len(),
{
    if sites.len() == 0 {
        Seq::empty()
    } else {
        let rest = feeds_of(sites.drop_last());
        let w = sites.last().website;
        if w.owner is Some && w.rss is Some && w.rss->0@.len() > 0 {
            rest.push((w.owner->0@, w.rss->0@))
        } else {
            rest
        }
    }
}

/// The (owner, feed URL) pairs that the OPML file lists.
pub fn opml_feeds(webring: &[WebringSite]) -> (r: Vec<(String, String)>)
    ensures
        r.deep_view() == feeds_of(webring@),
{
    let mut feeds: Vec<(String, String)> = Vec::new();
    let mut i: usize = 0;
    while i < webring.len()
        invariant
            i <= webring@.len(),
            feeds.deep_view() == feeds_of(webring@.take(i as int)),
        decreases webring@.len() - i,
    {
        proof {
            assert(webring@.take(i + 1).drop_last() == webring@.take(i as int));
        }
        let w = &webring[i].website;
        match (&w.owner, &w.rss) {
            (Some(owner), Some(rss)) => {
                if !rss.as_str().is_empty() {
                    let ghost before = feeds.deep_view();
                    feeds.push((owner.clone(), rss.clone()));
                    assert(feeds.deep_view() =~= before.push((owner@, rss@)));
                }
            },
            _ => {},
        }
        i = i + 1;
    }
    assert(webring@.take(i as int) == webring@);
    feeds
}

} // verus!
