use spider_network_blocker::intercept_manager::{ClassifierRegistry, NetworkInterceptManager};
use spider_network_blocker::scripts::url_ignore_patterns;
use spider_network_blocker::trie::{trie_from_patterns, Trie};
use spider_network_blocker::xhr::url_ignore_xhr_patterns;

// ── Trie prefix semantics ────────────────────────────────────────────

#[test]
fn test_url_ignore_xhr_trie_contains() {
    let trie = trie_from_patterns(&url_ignore_xhr_patterns());

    // Positive tests - these URLs should be contained in the trie
    let positive_cases = vec![
        "https://play.google.com/log?",
        "https://googleads.g.doubleclick.net/pagead/id",
        ".doubleclick.net",
    ];

    // Negative tests - these URLs should not be contained in the trie
    let negative_cases = vec!["https://example.com/track", "https://anotherdomain.com/api/"];

    for case in positive_cases {
        assert!(trie.contains_prefix(case), "Trie should contain: {}", case);
    }

    for case in negative_cases {
        assert!(!trie.contains_prefix(case), "Trie should not contain: {}", case);
    }
}

#[test]
fn test_inserted_pattern_matches_extensions() {
    let mut trie = Trie::new();
    trie.insert("https://tracker.example/");
    assert!(trie.contains_prefix("https://tracker.example/"));
    assert!(trie.contains_prefix("https://tracker.example/pixel.gif?id=1"));
    assert!(!trie.contains_prefix("https://tracker.example"));
}

#[test]
fn test_empty_text_requires_empty_pattern() {
    let mut trie = Trie::new();
    assert!(!trie.contains_prefix(""));
    trie.insert("a");
    assert!(!trie.contains_prefix(""));
    trie.insert("");
    assert!(trie.contains_prefix(""));
    // the empty pattern prefixes every text
    assert!(trie.contains_prefix("zzz"));
}

#[test]
fn test_no_inserted_prefix_means_no_match() {
    let trie = trie_from_patterns(&url_ignore_patterns());
    assert!(!trie.contains_prefix("https://example.com/assets/main.css"));
}

#[test]
fn test_insert_idempotent() {
    let mut once = Trie::new();
    once.insert("gtm.js?");
    once.insert("analytics.js");
    let mut thrice = Trie::new();
    thrice.insert("gtm.js?");
    thrice.insert("analytics.js");
    thrice.insert("gtm.js?");
    thrice.insert("gtm.js?");
    let texts = vec!["gtm.js?id=GTM-1", "analytics.js", "gtm.js", "main.js", ""];
    for t in texts {
        assert_eq!(once.contains_prefix(t), thrice.contains_prefix(t));
    }
}

#[test]
fn test_suffix_fragment_prefix_only() {
    let mut trie = Trie::new();
    trie.insert(".doubleclick.net");
    // matches at position 0 of the tested text
    assert!(trie.contains_prefix(".doubleclick.net/pixel"));
    // embedded mid-string is not a match: matching is prefix-of-input
    assert!(!trie.contains_prefix("https://ads.doubleclick.net/pixel"));
    assert!(!trie.contains_prefix("ads.doubleclick.net"));
}

#[test]
fn test_shared_prefix_patterns_distinct() {
    let mut trie = Trie::new();
    trie.insert("track.js");
    trie.insert("tracking.js");
    assert!(trie.contains_prefix("track.js?v=2"));
    assert!(trie.contains_prefix("tracking.js?v=2"));
    assert!(!trie.contains_prefix("tracker.js"));
    assert!(!trie.contains_prefix("track"));
}

// ── Interception decision ────────────────────────────────────────────

#[test]
fn test_decide_unknown_script_blocking() {
    let registry = ClassifierRegistry::new();
    let unknown = NetworkInterceptManager::Unknown;
    assert!(registry.decide(
        &unknown,
        "https://www.google-analytics.com/analytics.js",
        false,
        false
    ));
    assert!(!registry.decide(&unknown, "https://js.stripe.com/v3/", false, false));
}

#[test]
fn test_decide_unknown_xhr_blocking() {
    let registry = ClassifierRegistry::new();
    let unknown = NetworkInterceptManager::Unknown;
    // blocked via the XHR classifier
    assert!(registry.decide(
        &unknown,
        "https://googleads.g.doubleclick.net/pagead/id",
        true,
        false
    ));
    assert!(!registry.decide(&unknown, "https://api.stripe.com/v1/charges", true, false));
}

#[test]
fn test_decide_unknown_base_path_blocking() {
    let registry = ClassifierRegistry::new();
    let unknown = NetworkInterceptManager::Unknown;
    // blocked via the base-path classifier
    assert!(registry.decide(
        &unknown,
        "wp-content/plugins/cookie-law-info/frontend.js",
        false,
        false
    ));
    assert!(!registry.decide(
        &unknown,
        "wp-content/plugins/woocommerce/assets/main.js",
        false,
        false
    ));
}

#[test]
fn test_decide_media_flag_selects_extra_classifiers() {
    let registry = ClassifierRegistry::new();
    let unknown = NetworkInterceptManager::Unknown;
    // media-fetch endpoint: filtered only when the media flag is set
    assert!(!registry.decide(&unknown, "https://api.spotify.com/v1/tracks/xyz", true, false));
    assert!(registry.decide(&unknown, "https://api.spotify.com/v1/tracks/xyz", true, true));
    // style path: filtered only when the media flag is set
    assert!(!registry.decide(&unknown, "wp-content/themes/base/style.css", false, false));
    assert!(registry.decide(&unknown, "wp-content/themes/base/style.css", false, true));
}

#[test]
fn test_decide_site_allow_overrides_generic_block() {
    let registry = ClassifierRegistry::new();
    // generically blocked
    assert!(registry.decide(
        &NetworkInterceptManager::Unknown,
        "https://connect.facebook.net/en_US/sdk.js",
        false,
        false
    ));
    // the facebook category's allow list wins over the generic verdict
    assert!(!registry.decide(
        &NetworkInterceptManager::Facebook,
        "https://connect.facebook.net/en_US/sdk.js",
        false,
        false
    ));
}

#[test]
fn test_decide_site_block_extends_generic_lists() {
    let registry = ClassifierRegistry::new();
    // not in any generic list
    assert!(!registry.decide(
        &NetworkInterceptManager::Unknown,
        "https://fls-na.amazon.com/1/batch/1/OE/",
        true,
        false
    ));
    // the amazon category's own block list covers it
    assert!(registry.decide(
        &NetworkInterceptManager::Amazon,
        "https://fls-na.amazon.com/1/batch/1/OE/",
        true,
        false
    ));
}

#[test]
fn test_intercept_detection_matches_decide() {
    let registry = ClassifierRegistry::new();
    let mgr = NetworkInterceptManager::Unknown;
    let cases = vec![
        ("https://www.google-analytics.com/analytics.js", false, false),
        ("https://js.stripe.com/v3/", false, false),
        ("https://googleads.g.doubleclick.net/pagead/id", true, false),
        ("wp-content/plugins/cookie-law-info/frontend.js", false, false),
    ];
    for (url, bg, media) in cases {
        assert_eq!(
            mgr.intercept_detection(url, bg, media),
            registry.decide(&mgr, url, bg, media)
        );
    }
}

// ── Domain routing ───────────────────────────────────────────────────

#[test]
fn test_from_host_registrable_domain() {
    assert_eq!(
        NetworkInterceptManager::from_host("www.amazon.com"),
        NetworkInterceptManager::Amazon
    );
    assert_eq!(
        NetworkInterceptManager::from_host("amazon.com"),
        NetworkInterceptManager::Amazon
    );
    // a lookalike host is not a subdomain match
    assert_eq!(
        NetworkInterceptManager::from_host("notamazon.com"),
        NetworkInterceptManager::Unknown
    );
    assert_eq!(
        NetworkInterceptManager::from_host("amazon.com.evil.example"),
        NetworkInterceptManager::Unknown
    );
}

#[test]
fn test_routing_absent_origin_degrades_to_unknown() {
    let mgr = NetworkInterceptManager::new(&None);
    assert_eq!(mgr, NetworkInterceptManager::Unknown);
}
