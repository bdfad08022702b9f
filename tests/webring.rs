use ringfairy::settings::AppSettings;
use ringfairy::webring::{
    assign_slugs, build_webring_sequence, build_webring_sites, check_websites, link_ring,
    verify_websites, WebringSite,
};
use ringfairy::Error;
use ringfairy::Website;

fn create_sample_website(slug: &str, url: &str) -> Website {
    Website {
        slug: slug.to_string(),
        name: Some(format!("Site {}", slug)),
        about: Some(format!("About {}", slug)),
        url: url.to_string(),
        rss: Some(format!("http://{}.tld/rss", slug)),
        owner: Some(format!("Owner {}", slug)),
    }
}

fn create_sample_site(slug: &str) -> Website {
    Website {
        slug: slug.to_string(),
        name: Some(format!("Site {}", slug)),
        about: Some(format!("About {}", slug)),
        url: format!("http://{}.com", slug),
        rss: Some(format!("http://{}.com/rss", slug)),
        owner: Some(format!("Owner {}", slug)),
    }
}

fn build_settings() -> AppSettings {
    AppSettings {
        shuffle: false,
        ..Default::default()
    }
}

fn build_settings_no_shuffle() -> AppSettings {
    AppSettings {
        shuffle: true,
        ..Default::default()
    }
}

fn assert_ring_links(webring_sites: &[WebringSite]) {
    for i in 0..webring_sites.len() {
        let next_index = (i + 1) % webring_sites.len();
        assert_eq!(webring_sites[i].next, next_index);
        let prev_index = if i == 0 { webring_sites.len() - 1 } else { i - 1 };
        assert_eq!(webring_sites[i].previous, prev_index);
    }
}

#[test]
fn tests_test_build_webring() {
    let websites = vec![
        create_sample_website("site1", "https://site1.tld"),
        create_sample_website("site2", "https://site2.tld"),
        create_sample_website("site3", "https://site3.tld"),
    ];

    let webring_sites = build_webring_sequence(websites.clone(), &build_settings());

    assert_eq!(webring_sites.len(), 3);

    assert_eq!(webring_sites[0].website.slug, "site1");
    assert_eq!(webring_sites[0].next, 1);
    assert_eq!(webring_sites[0].previous, 2);

    assert_eq!(webring_sites[1].website.slug, "site2");
    assert_eq!(webring_sites[1].next, 2);
    assert_eq!(webring_sites[1].previous, 0);

    assert_eq!(webring_sites[2].website.slug, "site3");
    assert_eq!(webring_sites[2].next, 0);
    assert_eq!(webring_sites[2].previous, 1);
}

#[test]
fn tests_test_build_webring_shuffle() {
    let websites = vec![
        create_sample_website("site1", "https://site1.tld"),
        create_sample_website("site2", "https://site2.tld"),
        create_sample_website("site3", "https://site3.tld"),
    ];

    let webring_sites = build_webring_sequence(websites.clone(), &build_settings_no_shuffle());

    assert_eq!(webring_sites.len(), 3);

    let mut slugs: Vec<&str> = webring_sites
        .iter()
        .map(|site| site.website.slug.as_str())
        .collect();
    slugs.sort();
    let expected_slugs: Vec<&str> = websites.iter().map(|site| site.slug.as_str()).collect();
    assert_eq!(slugs, expected_slugs);

    assert_ring_links(&webring_sites);
}

#[test]
fn webring_test_build_webring() {
    let websites = vec![
        create_sample_site("site1"),
        create_sample_site("site2"),
        create_sample_site("site3"),
    ];

    let webring_sites = build_webring_sites(websites.clone(), false);

    assert_eq!(webring_sites.len(), 3);

    assert_eq!(webring_sites[0].website.slug, "site1");
    assert_eq!(webring_sites[0].next, 1);
    assert_eq!(webring_sites[0].previous, 2);

    assert_eq!(webring_sites[1].website.slug, "site2");
    assert_eq!(webring_sites[1].next, 2);
    assert_eq!(webring_sites[1].previous, 0);

    assert_eq!(webring_sites[2].website.slug, "site3");
    assert_eq!(webring_sites[2].next, 0);
    assert_eq!(webring_sites[2].previous, 1);
}

#[test]
fn webring_test_build_webring_shuffle() {
    let websites = vec![
        create_sample_site("site1"),
        create_sample_site("site2"),
        create_sample_site("site3"),
    ];

    let webring_sites = build_webring_sites(websites.clone(), true);

    assert_eq!(webring_sites.len(), 3);

    let mut slugs: Vec<&str> = webring_sites.iter().map(|site| site.website.slug.as_str()).collect();
    slugs.sort();
    let expected_slugs: Vec<&str> = websites.iter().map(|site| site.slug.as_str()).collect();
    assert_eq!(slugs, expected_slugs);

    assert_ring_links(&webring_sites);
}

#[test]
fn test_verify_websites_valid() {
    let websites = vec![
        create_sample_website("site1", "https://site1.tld"),
        create_sample_website("site2", "https://site2.tld"),
        create_sample_website("site3", "https://site3.tld"),
    ];

    let result = verify_websites(&websites);
    assert!(result.is_ok());
}

#[test]
fn test_verify_duplicate_slugs() {
    let websites = vec![
        create_sample_website("site1", "https://site1.tld"),
        create_sample_website("site1", "https://site2.tld"),
    ];

    let result = verify_websites(&websites);
    assert!(result.is_err());
}

#[test]
fn test_verify_duplicate_urls() {
    let websites = vec![
        create_sample_website("site1", "https://site1.tld"),
        create_sample_website("site2", "https://site1.tld"),
    ];

    let result = verify_websites(&websites);
    assert!(result.is_err());
}

#[test]
fn test_verify_empty_url() {
    let websites = vec![create_sample_website("site1", "")];

    let result = verify_websites(&websites);
    assert!(result.is_err());
}

#[test]
fn test_verify_invalid_url() {
    let websites = vec![create_sample_website("site1", "htp/invalid-url")];

    let result = verify_websites(&websites);
    assert!(result.is_err());
}

#[test]
fn verify_reports_the_unrecognized_url() {
    let websites = vec![
        create_sample_website("good", "https://good.tld"),
        create_sample_website("bad", "htp/invalid-url"),
    ];
    match verify_websites(&websites) {
        Err(Error::UnrecognizedUrl { url, slug }) => {
            assert_eq!(url, "htp/invalid-url");
            assert_eq!(slug, "bad");
        }
        other => panic!("unexpected result {:?}", other),
    }
}

#[test]
fn verify_reports_the_first_duplicate_slug_with_its_owner() {
    let websites = vec![
        create_sample_website("a", "https://a.tld"),
        create_sample_website("b", "https://b.tld"),
        create_sample_website("a", "https://c.tld"),
        create_sample_website("b", "https://d.tld"),
    ];
    match verify_websites(&websites) {
        Err(Error::DuplicateSlug { slug, owner }) => {
            assert_eq!(slug, "a");
            assert_eq!(owner, "Owner a");
        }
        other => panic!("unexpected result {:?}", other),
    }
}

#[test]
fn verify_reports_duplicate_url_with_empty_owner() {
    let mut second = create_sample_website("b", "https://a.tld");
    second.owner = None;
    let websites = vec![create_sample_website("a", "https://a.tld"), second];
    match verify_websites(&websites) {
        Err(Error::DuplicateUrl { url, owner }) => {
            assert_eq!(url, "https://a.tld");
            assert_eq!(owner, "");
        }
        other => panic!("unexpected result {:?}", other),
    }
}

#[test]
fn bad_url_before_duplicate_is_reported_first() {
    let websites = vec![
        create_sample_website("a", "https://a.tld"),
        create_sample_website("x", "ftp://x.tld"),
        create_sample_website("a", "https://b.tld"),
    ];
    assert!(matches!(
        verify_websites(&websites),
        Err(Error::UnrecognizedUrl { .. })
    ));
}

#[test]
fn url_shapes() {
    let ok = ["http://a.b", "https://site1.tld/path?q=1", "http://ab", "https://a b"];
    let bad = ["http://", "https://.tld", "http:/a.tld", "mailto:x@y.z", "http://a", "https://a  b"];
    for url in ok.iter() {
        assert!(verify_websites(&[create_sample_website("s", url)]).is_ok(), "{}", url);
    }
    for url in bad.iter() {
        assert!(verify_websites(&[create_sample_website("s", url)]).is_err(), "{}", url);
    }
}

#[test]
fn empty_list_is_valid() {
    assert!(verify_websites(&[]).is_ok());
}

#[test]
fn check_websites_uses_given_verdicts() {
    let websites = vec![create_sample_website("a", "anything")];
    assert!(check_websites(&websites, &[Some(true)]).is_ok());
    assert!(matches!(
        check_websites(&websites, &[None]),
        Err(Error::InvalidUrlPattern)
    ));
    assert!(matches!(
        check_websites(&websites, &[Some(false)]),
        Err(Error::UnrecognizedUrl { .. })
    ));
}

#[test]
fn unshuffled_ring_keeps_every_record() {
    let websites = vec![
        create_sample_website("a", "https://a.tld"),
        create_sample_website("b", "https://b.tld"),
    ];
    let ring = build_webring_sequence(websites.clone(), &build_settings());
    for (i, site) in ring.iter().enumerate() {
        assert_eq!(site.website.slug, websites[i].slug);
        assert_eq!(site.website.url, websites[i].url);
        assert_eq!(site.website.name, websites[i].name);
        assert_eq!(site.website.owner, websites[i].owner);
    }
}

#[test]
fn shuffled_ring_keeps_the_same_sites() {
    let websites: Vec<Website> = (0..20)
        .map(|i| create_sample_website(&format!("s{}", i), &format!("https://s{}.tld", i)))
        .collect();
    let ring = build_webring_sequence(websites.clone(), &build_settings_no_shuffle());
    let mut urls: Vec<String> = ring.iter().map(|s| s.website.url.clone()).collect();
    urls.sort();
    let mut expected: Vec<String> = websites.iter().map(|s| s.url.clone()).collect();
    expected.sort();
    assert_eq!(urls, expected);
    assert_ring_links(&ring);
}

#[test]
fn single_site_ring_links_to_itself() {
    let ring = link_ring(vec![create_sample_website("solo", "https://solo.tld")]);
    assert_eq!(ring.len(), 1);
    assert_eq!(ring[0].next, 0);
    assert_eq!(ring[0].previous, 0);
}

#[test]
fn empty_ring() {
    assert!(link_ring(Vec::new()).is_empty());
    assert!(build_webring_sequence(Vec::new(), &build_settings()).is_empty());
}

#[test]
fn numeric_slugs_follow_position() {
    let websites: Vec<Website> = (0..12)
        .map(|i| create_sample_website(&format!("s{}", i), &format!("https://s{}.tld", i)))
        .collect();
    let settings = AppSettings {
        no_slug: true,
        ..Default::default()
    };
    let ring = build_webring_sequence(websites, &settings);
    let slugs: Vec<&str> = ring.iter().map(|s| s.website.slug.as_str()).collect();
    assert_eq!(
        slugs,
        vec!["1", "2", "3", "4", "5", "6", "7", "8", "9", "10", "11", "12"]
    );
}

#[test]
fn empty_slug_is_derived_from_url() {
    let sites = vec![
        create_sample_website("", "https://my-site.tld/~me/"),
        create_sample_website("kept", "https://kept.tld"),
        create_sample_website("", "http://café.example"),
    ];
    let out = assign_slugs(sites, false);
    assert_eq!(out[0].slug, "httpsmysitetldme");
    assert_eq!(out[1].slug, "kept");
    assert_eq!(out[2].slug, "httpcaféexample");
}

#[test]
fn derived_slugs_may_collide() {
    let sites = vec![
        create_sample_website("", "http://a.com"),
        create_sample_website("", "http://a-com"),
    ];
    let out = assign_slugs(sites, false);
    assert_eq!(out[0].slug, "httpacom");
    assert_eq!(out[1].slug, "httpacom");
}

#[test]
fn shuffle_changes_the_order() {
    let websites: Vec<Website> = (0..20)
        .map(|i| create_sample_website(&format!("s{}", i), &format!("https://s{}.tld", i)))
        .collect();
    let ring = build_webring_sites(websites.clone(), true);
    let order: Vec<&str> = ring.iter().map(|s| s.website.slug.as_str()).collect();
    let input: Vec<&str> = websites.iter().map(|w| w.slug.as_str()).collect();
    assert_ne!(order, input);
}
