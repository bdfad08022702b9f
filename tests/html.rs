use ringfairy::html::{
    build_sites_grid_html, build_sites_table_html, format_owner, markup_for, opml_feeds,
    precompute_tags, split_words, tags_for, word_matches, WordMatches,
};
use ringfairy::settings::AppSettings;
use ringfairy::{WebringSite, Website};

fn mock_webring_site() -> Vec<WebringSite> {
    vec![
        WebringSite {
            website: Website {
                slug: "site1".to_string(),
                name: Some("Site 1".to_string()),
                url: "https://site1.com".to_string(),
                about: Some("About Site 1".to_string()),
                owner: Some("owner1".to_string()),
                rss: Some("https://site1.com/rss".to_string()),
            },
            previous: 1,
            next: 1,
        },
        WebringSite {
            website: Website {
                slug: "site2".to_string(),
                name: Some("Site 2".to_string()),
                url: "https://site2.com".to_string(),
                about: Some("About Site 2".to_string()),
                owner: Some("owner2".to_string()),
                rss: Some("https://site2.com/rss".to_string()),
            },
            previous: 0,
            next: 0,
        },
    ]
}

fn mock_app_settings() -> AppSettings {
    AppSettings {
        path_output: "output".to_string(),
        base_url: "https://example.com".to_string(),
        ring_name: "Test Ring".to_string(),
        ring_description: "Description for Test Ring".to_string(),
        ring_owner: "Test Owner".to_string(),
        ring_owner_site: "https://owner.com".to_string(),
        next_url_text: "next".to_string(),
        prev_url_text: "prev".to_string(),
        ..Default::default()
    }
}

#[test]
fn test_precompute_tags() {
    let webring = mock_webring_site();
    let settings = mock_app_settings();

    let tags = precompute_tags(&webring, &settings);

    assert_eq!(tags.number_of_sites, 2);
    assert!(tags.featured_site_name == "Site 1" || tags.featured_site_name == "Site 2");
    assert_eq!(tags.opml_link, "./Test Ring.opml");
    assert_eq!(tags.current_time.len(), 19);
}

#[test]
fn tags_fall_back_to_url_and_empty_description() {
    let mut webring = mock_webring_site();
    webring[1].website.name = None;
    webring[1].website.about = None;
    let tags = tags_for(2, &webring[1], "now".to_string(), "ring");
    assert_eq!(tags.featured_site_name, "https://site2.com");
    assert_eq!(tags.featured_site_description, "");
    assert_eq!(tags.featured_site_url, "https://site2.com");
    assert_eq!(tags.current_time, "now");
    assert_eq!(tags.opml_link, "./ring.opml");
}

#[test]
fn owner_tokens_become_links() {
    assert_eq!(
        format_owner("@alice@social.example"),
        "<a href=\"https://social.example/@alice\">@alice@social.example</a>"
    );
    assert_eq!(
        format_owner("+12345678901"),
        "<a href=\"tel:+12345678901\">+12345678901</a>"
    );
    assert_eq!(
        format_owner("sms:+12345678901"),
        "<a href=\"sms:sms:+12345678901\">sms:+12345678901</a>"
    );
    assert_eq!(
        format_owner("https://alice.tld"),
        "<a href=\"https://alice.tld\" target=\"_blank\">https://alice.tld</a>"
    );
    assert_eq!(
        format_owner("alice@mail.example"),
        "<a href=\"mailto:alice@mail.example\">alice@mail.example</a>"
    );
    assert_eq!(format_owner("Alice"), "Alice");
}

#[test]
fn owner_words_are_rejoined_with_single_spaces() {
    assert_eq!(
        format_owner("  Alice \t alice@mail.example\n"),
        "Alice <a href=\"mailto:alice@mail.example\">alice@mail.example</a>"
    );
    assert_eq!(format_owner(""), "");
    assert_eq!(format_owner("   "), "");
}

#[test]
fn words_split_on_unicode_white_space() {
    assert_eq!(split_words("a\u{3000}b  c"), vec!["a", "b", "c"]);
    assert!(split_words("").is_empty());
}

#[test]
fn sites_table_exact() {
    let mut webring = mock_webring_site();
    webring[1].website.rss = None;
    webring[1].website.owner = None;
    webring[1].website.about = None;
    let expected = "<table>\n<thead>\n<tr>\n<th scope=\"col\">#</th>\n<th scope=\"col\">Name</th>\n<th scope=\"col\">URL</th>\n<th scope=\"col\">About</th>\n<th scope=\"col\">Owner</th>\n</tr>\n</thead>\n<tbody>\n\
<tr>\n<td>1</td>\n<td>site1</td>\n<td><a href=\"https://site1.com\" target=\"_blank\">https://site1.com</a> <a href=\"https://site1.com/rss\" target=\"_blank\">[rss]</a></td>\n<td>About Site 1</td>\n<td>owner1</td>\n</tr>\n\
<tr>\n<td>2</td>\n<td>site2</td>\n<td><a href=\"https://site2.com\" target=\"_blank\">https://site2.com</a></td>\n<td></td>\n<td></td>\n</tr>\n\
</tbody>\n</table>\n";
    assert_eq!(build_sites_table_html(&webring), expected);
}

#[test]
fn sites_grid_exact() {
    let webring = mock_webring_site();
    let expected = "<section class=\"cards\">\n\
<article class=\"card\">\n<div class=\"card-name\">owner1 <span class=\"card-slug\">(site1)</span></div>\n<div class=\"card-content\">\n<div class=\"card-link\"><a href=\"https://site1.com\" target=\"_blank\">https://site1.com</a>&nbsp; <a href=\"https://site1.com/rss\" target=\"_blank\">[rss]</a></div>\n<div class=\"card-text\">About Site 1</div>\n</div>\n</article>\n\
<article class=\"card\">\n<div class=\"card-name\">owner2 <span class=\"card-slug\">(site2)</span></div>\n<div class=\"card-content\">\n<div class=\"card-link\"><a href=\"https://site2.com\" target=\"_blank\">https://site2.com</a>&nbsp; <a href=\"https://site2.com/rss\" target=\"_blank\">[rss]</a></div>\n<div class=\"card-text\">About Site 2</div>\n</div>\n</article>\n\
</section>";
    assert_eq!(build_sites_grid_html(&webring), expected);
}

#[test]
fn empty_table_and_grid() {
    assert!(build_sites_table_html(&[]).ends_with("<tbody>\n</tbody>\n</table>\n"));
    assert_eq!(build_sites_grid_html(&[]), "<section class=\"cards\">\n</section>");
}

#[test]
fn opml_lists_sites_with_owner_and_feed() {
    let mut webring = mock_webring_site();
    webring[0].website.rss = Some(String::new());
    let feeds = opml_feeds(&webring);
    assert_eq!(
        feeds,
        vec![("owner2".to_string(), "https://site2.com/rss".to_string())]
    );
    webring[1].website.owner = None;
    assert!(opml_feeds(&webring).is_empty());
}

fn no_matches() -> WordMatches {
    WordMatches {
        hyperlink: false,
        fediverse: None,
        phone: false,
        sms: false,
        url: false,
        email: false,
    }
}

#[test]
fn markup_follows_the_pattern_priority() {
    let mut m = no_matches();
    assert_eq!(markup_for("x", &m), "x");
    m.email = true;
    assert_eq!(markup_for("x", &m), "<a href=\"mailto:x\">x</a>");
    m.url = true;
    assert_eq!(markup_for("x", &m), "<a href=\"x\" target=\"_blank\">x</a>");
    m.phone = true;
    assert_eq!(markup_for("x", &m), "<a href=\"tel:x\">x</a>");
    m.fediverse = Some(vec![Some("x".to_string()), Some("u".to_string()), Some("d.tld".to_string())]);
    assert_eq!(markup_for("x", &m), "<a href=\"https://d.tld/@u\">x</a>");
    m.fediverse = Some(vec![Some("x".to_string()), None, Some("d.tld".to_string())]);
    assert_eq!(markup_for("x", &m), "x");
    m.hyperlink = true;
    assert_eq!(markup_for("x", &m), "x");
}

#[test]
fn owner_patterns_on_words() {
    let m = word_matches("@bob@mastodon.example");
    assert_eq!(
        m.fediverse,
        Some(vec![
            Some("@bob@mastodon.example".to_string()),
            Some("bob".to_string()),
            Some("mastodon.example".to_string())
        ])
    );
    assert!(!m.hyperlink);
    let m = word_matches("123");
    assert!(!m.phone && !m.sms && !m.url && !m.email && m.fediverse.is_none());
    assert!(word_matches("sms:1234567890").sms);
    assert!(word_matches("ftp://x").url);
}
