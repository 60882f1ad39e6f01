use spider_network_blocker::adblock::{adblock_patterns, AdblockEngine, FilterListUrls};
use spider_network_blocker::intercept_manager::NetworkInterceptManager;
use spider_network_blocker::scripts::{
    url_ignore_embeded_patterns, url_ignore_path_patterns, url_ignore_patterns,
    url_ignore_script_base_path_patterns, url_ignore_script_style_path_patterns,
};
use spider_network_blocker::trie::{trie_from_patterns, Trie};
use spider_network_blocker::xhr::{url_ignore_xhr_media_patterns, url_ignore_xhr_patterns};

fn create_url(url: &str) -> Option<Box<url::Url>> {
    url::Url::parse(url).ok().map(Box::new)
}

fn url_ignore_trie() -> Trie {
    trie_from_patterns(&url_ignore_patterns())
}

fn url_ignore_embeded_trie() -> Trie {
    trie_from_patterns(&url_ignore_embeded_patterns())
}

fn url_ignore_xhr_trie() -> Trie {
    trie_from_patterns(&url_ignore_xhr_patterns())
}

fn url_ignore_xhr_media_trie() -> Trie {
    trie_from_patterns(&url_ignore_xhr_media_patterns())
}

fn url_ignore_script_base_paths() -> Trie {
    trie_from_patterns(&url_ignore_script_base_path_patterns())
}

fn url_ignore_script_styles_paths() -> Trie {
    trie_from_patterns(&url_ignore_script_style_path_patterns())
}

fn url_ignore_trie_paths() -> Trie {
    trie_from_patterns(&url_ignore_path_patterns())
}

// ── End-to-end script blocking ────────────────────────────────────────

#[test]
fn test_e2e_script_blocking_google_analytics() {
    let trie = url_ignore_trie();
    assert!(trie.contains_prefix("https://www.google-analytics.com/analytics.js"));
    assert!(trie.contains_prefix("https://www.googletagmanager.com/gtm.js?id=GTM-XXXX"));
    assert!(trie.contains_prefix("https://www.googleanalytics.com/ga.js"));
}

#[test]
fn test_e2e_script_blocking_allows_legitimate() {
    let trie = url_ignore_trie();
    // Stripe should NOT be blocked
    assert!(!trie.contains_prefix("https://js.stripe.com/v3/"));
    // Google Fonts should NOT be blocked
    assert!(!trie.contains_prefix("https://fonts.googleapis.com/css2?family=Roboto"));
    // CDN content should NOT be blocked
    assert!(!trie.contains_prefix("https://cdn.jsdelivr.net/npm/vue@3/dist/vue.global.js"));
}

#[test]
fn test_e2e_script_blocking_facebook_pixel() {
    let trie = url_ignore_trie();
    assert!(trie.contains_prefix("https://connect.facebook.net/en_US/fbevents.js"));
    assert!(trie.contains_prefix("https://connect.facebook.net/signals/config/12345"));
}

#[test]
fn test_e2e_script_blocking_hotjar() {
    let trie = url_ignore_trie();
    assert!(trie.contains_prefix("https://static.hotjar.com/c/hotjar-12345.js"));
    assert!(trie.contains_prefix("https://script.hotjar.com/modules.abc123.js"));
}

// ── End-to-end XHR blocking ──────────────────────────────────────────

#[test]
fn test_e2e_xhr_blocking() {
    let trie = url_ignore_xhr_trie();
    assert!(trie.contains_prefix("https://googleads.g.doubleclick.net/pagead/id"));
    assert!(trie.contains_prefix("https://analytics.google.com/g/collect?v=2"));
    assert!(trie.contains_prefix("https://sentry.io/api/12345/envelope/"));
    assert!(trie.contains_prefix("https://www.clarity.ms/collect"));
}

#[test]
fn test_e2e_xhr_allows_legitimate() {
    let trie = url_ignore_xhr_trie();
    assert!(!trie.contains_prefix("https://api.stripe.com/v1/charges"));
    assert!(!trie.contains_prefix("https://api.example.com/v1/users"));
}

#[test]
fn test_e2e_xhr_media_trie() {
    let trie = url_ignore_xhr_media_trie();
    assert!(trie.contains_prefix("https://www.youtube.com/s/player/abc"));
    assert!(trie.contains_prefix("https://api.spotify.com/v1/tracks/xyz"));
    assert!(trie.contains_prefix("https://maps.googleapis.com/maps/api/js"));
    assert!(!trie.contains_prefix("https://api.example.com/data"));
}

// ── Domain-specific manager routing ──────────────────────────────────

#[test]
fn test_manager_routing_known_domains() {
    let cases = vec![
        ("https://www.amazon.com/dp/B08N5WRWNW", NetworkInterceptManager::Amazon),
        ("https://www.reddit.com/r/rust", NetworkInterceptManager::Reddit),
        ("https://www.nytimes.com/section/world", NetworkInterceptManager::Nytimes),
        ("https://www.facebook.com/user", NetworkInterceptManager::Facebook),
    ];

    for (url, expected) in cases {
        let parsed = create_url(url);
        let mgr = NetworkInterceptManager::new(&parsed);
        assert_eq!(mgr, expected, "Domain routing failed for {}", url);
    }
}

#[test]
fn test_manager_routing_unknown_domain() {
    let parsed = create_url("https://www.totally-unknown-site.com/page");
    let mgr = NetworkInterceptManager::new(&parsed);
    assert_eq!(mgr, NetworkInterceptManager::Unknown);
}

#[test]
fn test_manager_intercept_detection_unknown() {
    let parsed = create_url("https://www.unknown.com/page");
    let mgr = NetworkInterceptManager::new(&parsed);
    // Unknown manager should not block anything via domain-specific rules
    assert!(!mgr.intercept_detection("https://cdn.example.com/app.js", false, false));
}

// ── Cross-trie consistency ───────────────────────────────────────────

#[test]
fn test_cross_trie_google_analytics_blocked_in_scripts() {
    let trie = url_ignore_trie();
    assert!(trie.contains_prefix("https://www.google-analytics.com/analytics.js"));
    // Should also appear as generic pattern
    assert!(trie.contains_prefix("analytics.js"));
}

#[test]
fn test_cross_trie_embedded_vs_script() {
    // YouTube embeds should be in embedded trie
    assert!(url_ignore_embeded_trie().contains_prefix("https://www.youtube.com/embed/abc123"));
    // GoogleTagManager should be in both embedded and script tries
    assert!(url_ignore_embeded_trie().contains_prefix("https://www.googletagmanager.com/gtm.js"));
    assert!(url_ignore_trie().contains_prefix("https://www.googletagmanager.com/gtm.js"));
}

#[test]
fn test_suffix_pattern_matching() {
    // Patterns like ".onetrust.com" should match when they appear as prefix of input
    let trie = url_ignore_trie();
    assert!(trie.contains_prefix(".onetrust.com/consent/12345"));
    assert!(trie.contains_prefix(".newrelic.com/nr-123.js"));
    assert!(trie.contains_prefix("doubleclick.net/ads/pixel"));
}

// ── Path-based blocking ──────────────────────────────────────────────

#[test]
fn test_wp_plugin_blocking() {
    let trie = url_ignore_script_base_paths();
    assert!(trie.contains_prefix("wp-content/plugins/cookie-law-info/frontend.js"));
    assert!(trie.contains_prefix("wp-content/plugins/borlabs-cookie/cookie.js"));
    assert!(!trie.contains_prefix("wp-content/plugins/woocommerce/assets/main.js"));
}

#[test]
fn test_wp_theme_and_style_blocking() {
    let trie = url_ignore_script_styles_paths();
    assert!(trie.contains_prefix("wp-content/themes/twentytwentyfour/style.css"));
    assert!(trie.contains_prefix("wp-content/plugins/contact-form-7/frontend.js"));
    assert!(!trie.contains_prefix("wp-content/plugins/woocommerce/main.js"));
}

#[test]
fn test_trie_paths_standalone() {
    let trie = url_ignore_trie_paths();
    assert!(trie.contains_prefix("tracking.js"));
    assert!(trie.contains_prefix("analytics.js"));
    assert!(trie.contains_prefix("ads.js"));
    assert!(trie.contains_prefix("tracking.min.js"));
    assert!(trie.contains_prefix("analytics.min.js"));
    assert!(trie.contains_prefix("_vercel/insights/script.js"));
    assert!(!trie.contains_prefix("main.js"));
    assert!(!trie.contains_prefix("app.bundle.js"));
}

// ── Fallback pattern list integrity ──────────────────────────────────

#[test]
fn test_adblock_patterns_not_empty() {
    let patterns = adblock_patterns();
    assert!(!patterns.is_empty(), "ADBLOCK_PATTERNS should not be empty");
    assert!(patterns.len() > 30, "Expected 30+ patterns, got {}", patterns.len());
}

#[test]
fn test_adblock_patterns_contain_expected() {
    let patterns = adblock_patterns();
    assert!(patterns.contains(&"googletagmanager.com"));
    assert!(patterns.contains(&"googlesyndication.com"));
    assert!(patterns.contains(&"analytics.js"));
    assert!(patterns.contains(&"tracking.js"));
    assert!(patterns.contains(&"ads.js"));
    assert!(patterns.contains(&"-advertisement."));
    assert!(patterns.contains(&"g.doubleclick.net"));
}

#[test]
fn test_adblock_patterns_no_empty_strings() {
    for pattern in adblock_patterns().iter() {
        assert!(!pattern.is_empty(), "ADBLOCK_PATTERNS should not contain empty strings");
        assert!(pattern.len() > 1, "Pattern too short: {}", pattern);
    }
}

// ── Filter-rule engine ───────────────────────────────────────────────

#[test]
fn test_engine_creation_from_rules() {
    let rules = vec![
        "||googletagmanager.com^".to_string(),
        "||google-analytics.com^".to_string(),
        "||doubleclick.net^".to_string(),
    ];
    let engine = AdblockEngine::from_rules(&rules, false);

    assert!(engine.should_block(
        "https://www.googletagmanager.com/gtm.js",
        "https://example.com",
        "script"
    ));
    assert!(engine.should_block(
        "https://www.google-analytics.com/analytics.js",
        "https://example.com",
        "script"
    ));
    assert!(!engine.should_block(
        "https://cdn.example.com/app.js",
        "https://example.com",
        "script"
    ));
}

#[test]
fn test_engine_blocking_xhr() {
    let rules = vec!["||doubleclick.net^".to_string(), "||analytics.google.com^".to_string()];
    let engine = AdblockEngine::from_rules(&rules, false);

    assert!(engine.should_block(
        "https://googleads.g.doubleclick.net/pagead/id",
        "https://example.com",
        "xmlhttprequest"
    ));
}

#[test]
fn test_engine_allows_legitimate_urls() {
    let rules = vec!["||googletagmanager.com^".to_string(), "||doubleclick.net^".to_string()];
    let engine = AdblockEngine::from_rules(&rules, false);

    assert!(!engine.should_block("https://js.stripe.com/v3/", "https://example.com", "script"));
    assert!(!engine.should_block(
        "https://fonts.googleapis.com/css2?family=Roboto",
        "https://example.com",
        "stylesheet"
    ));
}

#[test]
fn test_engine_serialization_roundtrip() {
    let rules = vec![
        "||googletagmanager.com^".to_string(),
        "||doubleclick.net^".to_string(),
        "||hotjar.com^".to_string(),
    ];
    let engine = AdblockEngine::from_rules(&rules, false);

    let serialized = engine.serialize();
    assert!(!serialized.is_empty(), "Serialized data should not be empty");

    let restored = AdblockEngine::deserialize(&serialized).expect("Deserialization should succeed");

    // Verify the restored engine works identically
    assert!(restored.should_block(
        "https://www.googletagmanager.com/gtm.js",
        "https://example.com",
        "script"
    ));
    assert!(restored.should_block(
        "https://static.hotjar.com/c/hotjar-12345.js",
        "https://example.com",
        "script"
    ));
    assert!(!restored.should_block(
        "https://cdn.example.com/app.js",
        "https://example.com",
        "script"
    ));
}

#[test]
fn test_engine_into_shared() {
    let rules = vec!["||googletagmanager.com^".to_string(), "||doubleclick.net^".to_string()];
    let engine = AdblockEngine::from_rules(&rules, false);
    let shared = engine.into_shared();

    assert!(shared.should_block(
        "https://www.googletagmanager.com/gtm.js",
        "https://example.com",
        "script"
    ));
    assert!(!shared.should_block(
        "https://cdn.example.com/app.js",
        "https://example.com",
        "script"
    ));
}

#[test]
fn test_engine_from_filter_list_content() {
    let content = "[Adblock Plus 2.0]\n\
                    ! Title: Test List\n\
                    ! Last modified: 2024-01-01\n\
                    ||googletagmanager.com^\n\
                    ||hotjar.com^\n\
                    ||facebook.net/en_US/fbevents.js\n";

    let engine = AdblockEngine::from_filter_list_content(content, false);

    assert!(engine.should_block(
        "https://www.googletagmanager.com/gtm.js",
        "https://example.com",
        "script"
    ));
    assert!(engine.should_block(
        "https://static.hotjar.com/c/hotjar-12345.js",
        "https://example.com",
        "script"
    ));
    assert!(!engine.should_block(
        "https://cdn.example.com/app.js",
        "https://example.com",
        "script"
    ));
}

#[test]
fn test_engine_check_request_returns_result() {
    let rules = vec!["||googletagmanager.com^".to_string()];
    let engine = AdblockEngine::from_rules(&rules, false);

    let result = engine.check_request(
        "https://www.googletagmanager.com/gtm.js",
        "https://example.com",
        "script",
    );
    assert!(result.is_some());
    assert!(result.unwrap().should_block());

    let result = engine.check_request(
        "https://cdn.example.com/app.js",
        "https://example.com",
        "script",
    );
    assert!(result.is_some());
    assert!(!result.unwrap().should_block());
}

#[test]
fn test_filter_list_urls_constants() {
    assert!(FilterListUrls::EASYLIST.starts_with("https://"));
    assert!(FilterListUrls::EASYLIST.contains("easylist"));
    assert!(FilterListUrls::EASYPRIVACY.starts_with("https://"));
    assert!(FilterListUrls::EASYPRIVACY.contains("easyprivacy"));
}
