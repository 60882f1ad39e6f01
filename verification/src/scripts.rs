//! Curated pattern lists for script, embedded-content and path-based
//! blocking: ad and analytics script loaders, third-party iframe embeds,
//! and relative asset paths such as CMS-plugin tracking scripts.
//!
//! The lists are configuration assets: membership, not order, is what
//! matters, and entries are grouped thematically for maintainability. Each
//! list exists twice, as a spec-level sequence of views that contracts can
//! speak of, and as the executable list pinned to it.

use vstd::prelude::*;

use crate::trie::patterns_view;

verus! {

/// Views of the ad, analytics and tracking script-loader patterns.
pub open spec fn script_pattern_list() -> Seq<Seq<char>> {
    seq!["https://www.google-analytics.com/"@, "https://www.googleanalytics.com/"@, "https://ssl.google-analytics.com/"@, "https://www.googletagmanager.com/gtm.js"@, "https://www.googletagservices.com/"@, "https://www.googleadservices.com/"@, "https://pagead2.googlesyndication.com/"@, "https://adservice.google.com/"@, "https://connect.facebook.net/"@, "https://static.ads-twitter.com/"@, "https://analytics.tiktok.com/"@, "https://snap.licdn.com/"@, "https://static.hotjar.com/"@, "https://script.hotjar.com/"@, "https://cdn.heapanalytics.com/"@, "https://cdn.segment.com/"@, "https://cdn.amplitude.com/"@, "https://cdn.mouseflow.com/"@, "https://bat.bing.com/"@, "https://www.clarity.ms/tag/"@] + seq!["https://cdn.onesignal.com/sdks/"@, "https://widget.intercom.io/widget/"@, "https://js.driftt.com/include/"@, "https://sb.scorecardresearch.com/"@, "https://secure.quantserve.com/"@, "https://rules.quantcount.com/"@, "https://cdn.taboola.com/"@, "https://cdn.outbrain.com/"@, "googletagmanager.com"@, "google-analytics.com"@, "googlesyndication.com"@, "doubleclick.net"@, ".doubleclick.net"@, ".newrelic.com"@, ".onetrust."@, "analytics.js"@, "gtm.js?"@, "fbevents.js"@]
}

/// Full URLs and domain fragments of ad, analytics and tracking script
/// loaders.
#[verifier::rlimit(60)]
pub fn url_ignore_patterns() -> (r: Vec<&'static str>)
    ensures
        patterns_view(r@) == script_pattern_list(),
{
    let mut r: Vec<&'static str> = Vec::new();
    r.push("https://www.google-analytics.com/");
    r.push("https://www.googleanalytics.com/");
    r.push("https://ssl.google-analytics.com/");
    r.push("https://www.googletagmanager.com/gtm.js");
    r.push("https://www.googletagservices.com/");
    r.push("https://www.googleadservices.com/");
    r.push("https://pagead2.googlesyndication.com/");
    r.push("https://adservice.google.com/");
    r.push("https://connect.facebook.net/");
    r.push("https://static.ads-twitter.com/");
    r.push("https://analytics.tiktok.com/");
    r.push("https://snap.licdn.com/");
    r.push("https://static.hotjar.com/");
    r.push("https://script.hotjar.com/");
    r.push("https://cdn.heapanalytics.com/");
    r.push("https://cdn.segment.com/");
    r.push("https://cdn.amplitude.com/");
    r.push("https://cdn.mouseflow.com/");
    r.push("https://bat.bing.com/");
    r.push("https://www.clarity.ms/tag/");
    proof {
        assert(patterns_view(r@) =~= seq!["https://www.google-analytics.com/"@, "https://www.googleanalytics.com/"@, "https://ssl.google-analytics.com/"@, "https://www.googletagmanager.com/gtm.js"@, "https://www.googletagservices.com/"@, "https://www.googleadservices.com/"@, "https://pagead2.googlesyndication.com/"@, "https://adservice.google.com/"@, "https://connect.facebook.net/"@, "https://static.ads-twitter.com/"@, "https://analytics.tiktok.com/"@, "https://snap.licdn.com/"@, "https://static.hotjar.com/"@, "https://script.hotjar.com/"@, "https://cdn.heapanalytics.com/"@, "https://cdn.segment.com/"@, "https://cdn.amplitude.com/"@, "https://cdn.mouseflow.com/"@, "https://bat.bing.com/"@, "https://www.clarity.ms/tag/"@]);
    }
    r.push("https://cdn.onesignal.com/sdks/");
    r.push("https://widget.intercom.io/widget/");
    r.push("https://js.driftt.com/include/");
    r.push("https://sb.scorecardresearch.com/");
    r.push("https://secure.quantserve.com/");
    r.push("https://rules.quantcount.com/");
    r.push("https://cdn.taboola.com/");
    r.push("https://cdn.outbrain.com/");
    r.push("googletagmanager.com");
    r.push("google-analytics.com");
    r.push("googlesyndication.com");
    r.push("doubleclick.net");
    r.push(".doubleclick.net");
    r.push(".newrelic.com");
    r.push(".onetrust.");
    r.push("analytics.js");
    r.push("gtm.js?");
    r.push("fbevents.js");
    proof {
        assert(patterns_view(r@) =~= seq!["https://www.google-analytics.com/"@, "https://www.googleanalytics.com/"@, "https://ssl.google-analytics.com/"@, "https://www.googletagmanager.com/gtm.js"@, "https://www.googletagservices.com/"@, "https://www.googleadservices.com/"@, "https://pagead2.googlesyndication.com/"@, "https://adservice.google.com/"@, "https://connect.facebook.net/"@, "https://static.ads-twitter.com/"@, "https://analytics.tiktok.com/"@, "https://snap.licdn.com/"@, "https://static.hotjar.com/"@, "https://script.hotjar.com/"@, "https://cdn.heapanalytics.com/"@, "https://cdn.segment.com/"@, "https://cdn.amplitude.com/"@, "https://cdn.mouseflow.com/"@, "https://bat.bing.com/"@, "https://www.clarity.ms/tag/"@] + seq!["https://cdn.onesignal.com/sdks/"@, "https://widget.intercom.io/widget/"@, "https://js.driftt.com/include/"@, "https://sb.scorecardresearch.com/"@, "https://secure.quantserve.com/"@, "https://rules.quantcount.com/"@, "https://cdn.taboola.com/"@, "https://cdn.outbrain.com/"@, "googletagmanager.com"@, "google-analytics.com"@, "googlesyndication.com"@, "doubleclick.net"@, ".doubleclick.net"@, ".newrelic.com"@, ".onetrust."@, "analytics.js"@, "gtm.js?"@, "fbevents.js"@]);
    }
    r
}

/// Views of the third-party iframe embed patterns.
pub open spec fn embedded_pattern_list() -> Seq<Seq<char>> {
    seq!["https://www.youtube.com/embed/"@, "https://www.youtube-nocookie.com/embed/"@, "https://player.vimeo.com/"@, "https://open.spotify.com/embed/"@, "https://www.google.com/maps/embed"@, "https://platform.twitter.com/embed/"@, "https://www.facebook.com/plugins/"@, "https://www.googletagmanager.com/"@, "https://disqus.com/embed/"@]
}

/// Patterns specific to third-party iframe embeds such as video players and
/// maps.
pub fn url_ignore_embeded_patterns() -> (r: Vec<&'static str>)
    ensures
        patterns_view(r@) == embedded_pattern_list(),
{
    let mut r: Vec<&'static str> = Vec::new();
    r.push("https://www.youtube.com/embed/");
    r.push("https://www.youtube-nocookie.com/embed/");
    r.push("https://player.vimeo.com/");
    r.push("https://open.spotify.com/embed/");
    r.push("https://www.google.com/maps/embed");
    r.push("https://platform.twitter.com/embed/");
    r.push("https://www.facebook.com/plugins/");
    r.push("https://www.googletagmanager.com/");
    r.push("https://disqus.com/embed/");
    proof {
        assert(patterns_view(r@) =~= seq!["https://www.youtube.com/embed/"@, "https://www.youtube-nocookie.com/embed/"@, "https://player.vimeo.com/"@, "https://open.spotify.com/embed/"@, "https://www.google.com/maps/embed"@, "https://platform.twitter.com/embed/"@, "https://www.facebook.com/plugins/"@, "https://www.googletagmanager.com/"@, "https://disqus.com/embed/"@]);
    }
    r
}

/// Views of the relative base-path patterns.
pub open spec fn base_path_pattern_list() -> Seq<Seq<char>> {
    seq!["wp-content/plugins/cookie-law-info/"@, "wp-content/plugins/borlabs-cookie/"@, "wp-content/plugins/cookie-notice/"@, "wp-content/plugins/complianz-gdpr/"@, "wp-content/plugins/gdpr-cookie-compliance/"@, "wp-content/plugins/wp-statistics/"@, "wp-content/plugins/google-analytics-for-wordpress/"@, "wp-content/plugins/official-facebook-pixel/"@, "cdn-cgi/scripts/"@]
}

/// Path-only fragments, without scheme or host, of same-origin-looking
/// assets such as CMS-plugin tracking scripts.
pub fn url_ignore_script_base_path_patterns() -> (r: Vec<&'static str>)
    ensures
        patterns_view(r@) == base_path_pattern_list(),
{
    let mut r: Vec<&'static str> = Vec::new();
    r.push("wp-content/plugins/cookie-law-info/");
    r.push("wp-content/plugins/borlabs-cookie/");
    r.push("wp-content/plugins/cookie-notice/");
    r.push("wp-content/plugins/complianz-gdpr/");
    r.push("wp-content/plugins/gdpr-cookie-compliance/");
    r.push("wp-content/plugins/wp-statistics/");
    r.push("wp-content/plugins/google-analytics-for-wordpress/");
    r.push("wp-content/plugins/official-facebook-pixel/");
    r.push("cdn-cgi/scripts/");
    proof {
        assert(patterns_view(r@) =~= seq!["wp-content/plugins/cookie-law-info/"@, "wp-content/plugins/borlabs-cookie/"@, "wp-content/plugins/cookie-notice/"@, "wp-content/plugins/complianz-gdpr/"@, "wp-content/plugins/gdpr-cookie-compliance/"@, "wp-content/plugins/wp-statistics/"@, "wp-content/plugins/google-analytics-for-wordpress/"@, "wp-content/plugins/official-facebook-pixel/"@, "cdn-cgi/scripts/"@]);
    }
    r
}

/// Views of the relative style-path patterns.
pub open spec fn style_path_pattern_list() -> Seq<Seq<char>> {
    seq!["wp-content/themes/"@, "wp-content/plugins/contact-form-7/"@, "wp-content/plugins/cookie-law-info/"@, "wp-content/plugins/elementor/assets/css/"@, "wp-includes/css/"@]
}

/// Path-only fragments for stylesheet-category assets.
pub fn url_ignore_script_style_path_patterns() -> (r: Vec<&'static str>)
    ensures
        patterns_view(r@) == style_path_pattern_list(),
{
    let mut r: Vec<&'static str> = Vec::new();
    r.push("wp-content/themes/");
    r.push("wp-content/plugins/contact-form-7/");
    r.push("wp-content/plugins/cookie-law-info/");
    r.push("wp-content/plugins/elementor/assets/css/");
    r.push("wp-includes/css/");
    proof {
        assert(patterns_view(r@) =~= seq!["wp-content/themes/"@, "wp-content/plugins/contact-form-7/"@, "wp-content/plugins/cookie-law-info/"@, "wp-content/plugins/elementor/assets/css/"@, "wp-includes/css/"@]);
    }
    r
}

/// Views of the standalone filename patterns.
pub open spec fn file_pattern_list() -> Seq<Seq<char>> {
    seq!["tracking.js"@, "track.js"@, "tracking.min.js"@, "analytics.js"@, "analytics.min.js"@, "ads.js"@, "ad.js"@, "pixel.js"@, "beacon.js"@, "fbevents.js"@, "gtm.js"@, "otSDKStub.js"@, "otBannerSdk.js"@, "_vercel/insights/"@]
}

/// Standalone filename fragments usable against a bare path without scheme
/// or host context.
pub fn url_ignore_path_patterns() -> (r: Vec<&'static str>)
    ensures
        patterns_view(r@) == file_pattern_list(),
{
    let mut r: Vec<&'static str> = Vec::new();
    r.push("tracking.js");
    r.push("track.js");
    r.push("tracking.min.js");
    r.push("analytics.js");
    r.push("analytics.min.js");
    r.push("ads.js");
    r.push("ad.js");
    r.push("pixel.js");
    r.push("beacon.js");
    r.push("fbevents.js");
    r.push("gtm.js");
    r.push("otSDKStub.js");
    r.push("otBannerSdk.js");
    r.push("_vercel/insights/");
    proof {
        assert(patterns_view(r@) =~= seq!["tracking.js"@, "track.js"@, "tracking.min.js"@, "analytics.js"@, "analytics.min.js"@, "ads.js"@, "ad.js"@, "pixel.js"@, "beacon.js"@, "fbevents.js"@, "gtm.js"@, "otSDKStub.js"@, "otBannerSdk.js"@, "_vercel/insights/"@]);
    }
    r
}

} // verus!
