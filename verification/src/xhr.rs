//! Curated pattern lists for background (XHR / fetch) requests: telemetry,
//! beacon and analytics endpoints, and media endpoints kept separate so that
//! callers may allow media while still blocking telemetry.
//!
//! The lists are configuration assets: membership, not order, is what
//! matters, and entries are grouped thematically for maintainability. Each
//! list exists twice, as a spec-level sequence of views that contracts can
//! speak of, and as the executable list pinned to it.

use vstd::prelude::*;

use crate::trie::patterns_view;

verus! {

/// Views of the background telemetry, beacon and analytics patterns.
pub open spec fn xhr_pattern_list() -> Seq<Seq<char>> {
    seq!["https://play.google.com/log?"@, "https://googleads.g.doubleclick.net/pagead/id"@, "https://js.monitor.azure.com/scripts"@, "https://www.clarity.ms/"@, "https://securepubads.g.doubleclick.net"@, "https://pixel-config.reddit.com/pixels"@, "https://www.amazon.com/af/feedback-link?"@, "https://www.google.com/ads/ga-audiences"@, "https://player.vimeo.com/video/"@, "https://www.youtube.com/iframe_api"@, "https://www.youtube.com/youtubei/v1/log_event"@, "https://tr.snapchat.com/config/"@, "https://collect.tealiumiq.com/"@, "https://cdn.acsbapp.com/config/"@, "https://s.yimg.com/wi"@, "https://disney.my.sentry.io/api/"@, "https://www.redditstatic.com/ads"@, "https://logx.optimizely.com/v1/events"@, "https://analytics.google.com/g/collect"@, "https://www.google-analytics.com/g/collect"@] + seq!["https://api-2-0.spot.im/v1.0.0/"@, "https://static.hotjar.com/"@, "https://www.youtube.com/youtubei/v1/log_event?alt=json"@, "https://matchadsrvr.yieldmo.com/track/"@, "https://translate.googleapis.com/element/log"@, "https://sentry.io/api/"@, "https://api2.branch.io/"@, "https://i.clean.gg/"@, "https://prebid.media.net/"@, "https://buy.tinypass.com/"@, "https://idx.liadm.com"@, "https://geo.privacymanager.io/"@, "https://nimbleplot.com"@, "https://api.lab.amplitude.com/"@, "https://flag.lab.amplitude.com/sdk/v2/flags"@, "https://api2.amplitude.com/2/httpapi"@, "https://api.data4.net/api/report/send"@, "https://cdn-ukwest.onetrust.com/"@, "https://cdn.onetrust.com/"@, "https://sessions.bugsnag.com/"@] + seq!["https://notify.bugsnag.com/"@, "https://geolocation.onetrust.com/"@, "https://assets.adobedtm.com/"@, "https://sdkconfig.pulse."@, "https://static.criteo.net"@, "https://bat.bing.net"@, "https://fundingchoicesmessages.google.com/"@, "https://api.reviews.io/"@, "https://thearenagroup.sp.spiny.ai/"@, "https://ads.rubiconproject.com/"@, "https://check.analytics.rlcdn.com"@, "https://api.config-security.com/event"@, "https://conf.config-security.com/model"@, "https://pagead2.googlesyndication.com/"@, "https://sumome.com/api/load/"@, "https://ogads-pa.googleapis.com/"@, "https://public-api.wordpress.com/geo/"@, "https://events.api.secureserver.net/"@, "https://csp.secureserver.net/eventbus"@, "https://cdn.optimizely.com/datafiles/"@] + seq!["https://ad.doubleclick.net/"@, "https://metrics.beyondwords.io/events"@, "https://rtb.openx.net/openrtbb/prebidjs"@, "https://beacon.taboola.com/"@, "https://collector.ex.co/main/events"@, "https://www.youtube-nocookie.com/youtubei/v1/log_event?"@, "https://api.raygun.io/ping?apiKey="@, "https://hb.emxdgt.com/"@, "https://token.rubiconproject.com/"@, "https://prebid-server.rubiconproject.com"@, "https://targeting.unrulymedia.com/unruly_prebid"@, "https://bf16218erm.bf.dynatrace.com/"@, "https://firebaselogging-pa.googleapis.com/v1/firelog/"@, "https://prebid.adnxs.com/"@, "https://doh.cq0.co/resolve"@, "https://event.api.drift.com/track"@, "https://aan.amazon.com/cem"@, "https://unagi.amazon.com/1/events/com.amazon.csm.csa.prod"@, "https://vsanalytics.visualsoft.co.uk/com.snowplowanalytics.snowplow/tp2"@, "https://a.klaviyo.com/onsite/track-analytics"@] + seq!["https://hit.salesfire.co.uk/config?"@, "https://ib.adnxs.com/"@, "https://secure.adnxs.com/"@, "https://dc.schibsted.io/api/v1/track/"@, "https://live.smartmetrics.co.uk/x/sf"@, "https://api.marker.io/widget/ping"@, "https://targeting.api.drift.com/targeting/evaluate_with_log"@, "https://targeting.api.drift.com/impressions/widget"@, "https://metrics.api.drift.com/monitoring/metrics/"@, "https://events.launchdarkly.com/events/diagnostic/"@, "https://geolocation.onetrust.com/cookieconsentpub/v1/geo/location"@, "https://cdn.segment."@, ".wixapps.net/api/v1/bulklog"@, "https://error-analytics-sessions-production.shopifysvc.com/"@, "https://static-forms."@, "https://nhst.tt.omtrdc.net/rest/v1/delivery"@, "https://video.squarespace-cdn.com/content/"@, "https://bes.gcp.data.bigcommerce.com/nobot"@, "https://www.youtube.com/youtubei/"@, "http://ec.editmysite.com"@] + seq!["https://dcinfos-cache.abtasty.com/"@, "https://featureassets.org/"@, "https://mab.chartbeat.com/"@, "https://c.go-mpulse.net/"@, "https://prodregistryv2.org/v1/"@, "https://dpm.demdex.net/"@, "https://monorail-edge.shopifysvc.com/unstable/produce_batch"@, "https://monorail-edge.shopifysvc.com/v1/produce"@, "https://cloudflareinsights.com/cdn-cgi/rum"@, "https://api.sprig.com/sdk/"@, "googlesyndication.com"@, ".amplitude.com"@, ".doubleclick.net"@, ".doofinder.com"@, ".piano.io/"@, ".browsiprod.com"@, ".onetrust."@, "https://logs."@, "/track.php"@, "/api/v1/bulklog"@] + seq!["cookieconsentpub"@, "cookie-law-info"@, "mediaelement-and-player.min.j"@, ".ingest.us.sentry.io/"@, "/analytics"@, "/tracking"@]
}

/// Patterns for background telemetry, beacon and analytics calls.
#[verifier::rlimit(100)]
pub fn url_ignore_xhr_patterns() -> (r: Vec<&'static str>)
    ensures
        patterns_view(r@) == xhr_pattern_list(),
{
    let mut r: Vec<&'static str> = Vec::new();
    r.push("https://play.google.com/log?");
    r.push("https://googleads.g.doubleclick.net/pagead/id");
    r.push("https://js.monitor.azure.com/scripts");
    r.push("https://www.clarity.ms/");
    r.push("https://securepubads.g.doubleclick.net");
    r.push("https://pixel-config.reddit.com/pixels");
    r.push("https://www.amazon.com/af/feedback-link?");
    r.push("https://www.google.com/ads/ga-audiences");
    r.push("https://player.vimeo.com/video/");
    r.push("https://www.youtube.com/iframe_api");
    r.push("https://www.youtube.com/youtubei/v1/log_event");
    r.push("https://tr.snapchat.com/config/");
    r.push("https://collect.tealiumiq.com/");
    r.push("https://cdn.acsbapp.com/config/");
    r.push("https://s.yimg.com/wi");
    r.push("https://disney.my.sentry.io/api/");
    r.push("https://www.redditstatic.com/ads");
    r.push("https://logx.optimizely.com/v1/events");
    r.push("https://analytics.google.com/g/collect");
    r.push("https://www.google-analytics.com/g/collect");
    proof {
        assert(patterns_view(r@) =~= seq!["https://play.google.com/log?"@, "https://googleads.g.doubleclick.net/pagead/id"@, "https://js.monitor.azure.com/scripts"@, "https://www.clarity.ms/"@, "https://securepubads.g.doubleclick.net"@, "https://pixel-config.reddit.com/pixels"@, "https://www.amazon.com/af/feedback-link?"@, "https://www.google.com/ads/ga-audiences"@, "https://player.vimeo.com/video/"@, "https://www.youtube.com/iframe_api"@, "https://www.youtube.com/youtubei/v1/log_event"@, "https://tr.snapchat.com/config/"@, "https://collect.tealiumiq.com/"@, "https://cdn.acsbapp.com/config/"@, "https://s.yimg.com/wi"@, "https://disney.my.sentry.io/api/"@, "https://www.redditstatic.com/ads"@, "https://logx.optimizely.com/v1/events"@, "https://analytics.google.com/g/collect"@, "https://www.google-analytics.com/g/collect"@]);
    }
    r.push("https://api-2-0.spot.im/v1.0.0/");
    r.push("https://static.hotjar.com/");
    r.push("https://www.youtube.com/youtubei/v1/log_event?alt=json");
    r.push("https://matchadsrvr.yieldmo.com/track/");
    r.push("https://translate.googleapis.com/element/log");
    r.push("https://sentry.io/api/");
    r.push("https://api2.branch.io/");
    r.push("https://i.clean.gg/");
    r.push("https://prebid.media.net/");
    r.push("https://buy.tinypass.com/");
    r.push("https://idx.liadm.com");
    r.push("https://geo.privacymanager.io/");
    r.push("https://nimbleplot.com");
    r.push("https://api.lab.amplitude.com/");
    r.push("https://flag.lab.amplitude.com/sdk/v2/flags");
    r.push("https://api2.amplitude.com/2/httpapi");
    r.push("https://api.data4.net/api/report/send");
    r.push("https://cdn-ukwest.onetrust.com/");
    r.push("https://cdn.onetrust.com/");
    r.push("https://sessions.bugsnag.com/");
    proof {
        assert(patterns_view(r@) =~= seq!["https://play.google.com/log?"@, "https://googleads.g.doubleclick.net/pagead/id"@, "https://js.monitor.azure.com/scripts"@, "https://www.clarity.ms/"@, "https://securepubads.g.doubleclick.net"@, "https://pixel-config.reddit.com/pixels"@, "https://www.amazon.com/af/feedback-link?"@, "https://www.google.com/ads/ga-audiences"@, "https://player.vimeo.com/video/"@, "https://www.youtube.com/iframe_api"@, "https://www.youtube.com/youtubei/v1/log_event"@, "https://tr.snapchat.com/config/"@, "https://collect.tealiumiq.com/"@, "https://cdn.acsbapp.com/config/"@, "https://s.yimg.com/wi"@, "https://disney.my.sentry.io/api/"@, "https://www.redditstatic.com/ads"@, "https://logx.optimizely.com/v1/events"@, "https://analytics.google.com/g/collect"@, "https://www.google-analytics.com/g/collect"@] + seq!["https://api-2-0.spot.im/v1.0.0/"@, "https://static.hotjar.com/"@, "https://www.youtube.com/youtubei/v1/log_event?alt=json"@, "https://matchadsrvr.yieldmo.com/track/"@, "https://translate.googleapis.com/element/log"@, "https://sentry.io/api/"@, "https://api2.branch.io/"@, "https://i.clean.gg/"@, "https://prebid.media.net/"@, "https://buy.tinypass.com/"@, "https://idx.liadm.com"@, "https://geo.privacymanager.io/"@, "https://nimbleplot.com"@, "https://api.lab.amplitude.com/"@, "https://flag.lab.amplitude.com/sdk/v2/flags"@, "https://api2.amplitude.com/2/httpapi"@, "https://api.data4.net/api/report/send"@, "https://cdn-ukwest.onetrust.com/"@, "https://cdn.onetrust.com/"@, "https://sessions.bugsnag.com/"@]);
    }
    r.push("https://notify.bugsnag.com/");
    r.push("https://geolocation.onetrust.com/");
    r.push("https://assets.adobedtm.com/");
    r.push("https://sdkconfig.pulse.");
    r.push("https://static.criteo.net");
    r.push("https://bat.bing.net");
    r.push("https://fundingchoicesmessages.google.com/");
    r.push("https://api.reviews.io/");
    r.push("https://thearenagroup.sp.spiny.ai/");
    r.push("https://ads.rubiconproject.com/");
    r.push("https://check.analytics.rlcdn.com");
    r.push("https://api.config-security.com/event");
    r.push("https://conf.config-security.com/model");
    r.push("https://pagead2.googlesyndication.com/");
    r.push("https://sumome.com/api/load/");
    r.push("https://ogads-pa.googleapis.com/");
    r.push("https://public-api.wordpress.com/geo/");
    r.push("https://events.api.secureserver.net/");
    r.push("https://csp.secureserver.net/eventbus");
    r.push("https://cdn.optimizely.com/datafiles/");
    proof {
        assert(patterns_view(r@) =~= seq!["https://play.google.com/log?"@, "https://googleads.g.doubleclick.net/pagead/id"@, "https://js.monitor.azure.com/scripts"@, "https://www.clarity.ms/"@, "https://securepubads.g.doubleclick.net"@, "https://pixel-config.reddit.com/pixels"@, "https://www.amazon.com/af/feedback-link?"@, "https://www.google.com/ads/ga-audiences"@, "https://player.vimeo.com/video/"@, "https://www.youtube.com/iframe_api"@, "https://www.youtube.com/youtubei/v1/log_event"@, "https://tr.snapchat.com/config/"@, "https://collect.tealiumiq.com/"@, "https://cdn.acsbapp.com/config/"@, "https://s.yimg.com/wi"@, "https://disney.my.sentry.io/api/"@, "https://www.redditstatic.com/ads"@, "https://logx.optimizely.com/v1/events"@, "https://analytics.google.com/g/collect"@, "https://www.google-analytics.com/g/collect"@] + seq!["https://api-2-0.spot.im/v1.0.0/"@, "https://static.hotjar.com/"@, "https://www.youtube.com/youtubei/v1/log_event?alt=json"@, "https://matchadsrvr.yieldmo.com/track/"@, "https://translate.googleapis.com/element/log"@, "https://sentry.io/api/"@, "https://api2.branch.io/"@, "https://i.clean.gg/"@, "https://prebid.media.net/"@, "https://buy.tinypass.com/"@, "https://idx.liadm.com"@, "https://geo.privacymanager.io/"@, "https://nimbleplot.com"@, "https://api.lab.amplitude.com/"@, "https://flag.lab.amplitude.com/sdk/v2/flags"@, "https://api2.amplitude.com/2/httpapi"@, "https://api.data4.net/api/report/send"@, "https://cdn-ukwest.onetrust.com/"@, "https://cdn.onetrust.com/"@, "https://sessions.bugsnag.com/"@] + seq!["https://notify.bugsnag.com/"@, "https://geolocation.onetrust.com/"@, "https://assets.adobedtm.com/"@, "https://sdkconfig.pulse."@, "https://static.criteo.net"@, "https://bat.bing.net"@, "https://fundingchoicesmessages.google.com/"@, "https://api.reviews.io/"@, "https://thearenagroup.sp.spiny.ai/"@, "https://ads.rubiconproject.com/"@, "https://check.analytics.rlcdn.com"@, "https://api.config-security.com/event"@, "https://conf.config-security.com/model"@, "https://pagead2.googlesyndication.com/"@, "https://sumome.com/api/load/"@, "https://ogads-pa.googleapis.com/"@, "https://public-api.wordpress.com/geo/"@, "https://events.api.secureserver.net/"@, "https://csp.secureserver.net/eventbus"@, "https://cdn.optimizely.com/datafiles/"@]);
    }
    r.push("https://ad.doubleclick.net/");
    r.push("https://metrics.beyondwords.io/events");
    r.push("https://rtb.openx.net/openrtbb/prebidjs");
    r.push("https://beacon.taboola.com/");
    r.push("https://collector.ex.co/main/events");
    r.push("https://www.youtube-nocookie.com/youtubei/v1/log_event?");
    r.push("https://api.raygun.io/ping?apiKey=");
    r.push("https://hb.emxdgt.com/");
    r.push("https://token.rubiconproject.com/");
    r.push("https://prebid-server.rubiconproject.com");
    r.push("https://targeting.unrulymedia.com/unruly_prebid");
    r.push("https://bf16218erm.bf.dynatrace.com/");
    r.push("https://firebaselogging-pa.googleapis.com/v1/firelog/");
    r.push("https://prebid.adnxs.com/");
    r.push("https://doh.cq0.co/resolve");
    r.push("https://event.api.drift.com/track");
    r.push("https://aan.amazon.com/cem");
    r.push("https://unagi.amazon.com/1/events/com.amazon.csm.csa.prod");
    r.push("https://vsanalytics.visualsoft.co.uk/com.snowplowanalytics.snowplow/tp2");
    r.push("https://a.klaviyo.com/onsite/track-analytics");
    proof {
        assert(patterns_view(r@) =~= seq!["https://play.google.com/log?"@, "https://googleads.g.doubleclick.net/pagead/id"@, "https://js.monitor.azure.com/scripts"@, "https://www.clarity.ms/"@, "https://securepubads.g.doubleclick.net"@, "https://pixel-config.reddit.com/pixels"@, "https://www.amazon.com/af/feedback-link?"@, "https://www.google.com/ads/ga-audiences"@, "https://player.vimeo.com/video/"@, "https://www.youtube.com/iframe_api"@, "https://www.youtube.com/youtubei/v1/log_event"@, "https://tr.snapchat.com/config/"@, "https://collect.tealiumiq.com/"@, "https://cdn.acsbapp.com/config/"@, "https://s.yimg.com/wi"@, "https://disney.my.sentry.io/api/"@, "https://www.redditstatic.com/ads"@, "https://logx.optimizely.com/v1/events"@, "https://analytics.google.com/g/collect"@, "https://www.google-analytics.com/g/collect"@] + seq!["https://api-2-0.spot.im/v1.0.0/"@, "https://static.hotjar.com/"@, "https://www.youtube.com/youtubei/v1/log_event?alt=json"@, "https://matchadsrvr.yieldmo.com/track/"@, "https://translate.googleapis.com/element/log"@, "https://sentry.io/api/"@, "https://api2.branch.io/"@, "https://i.clean.gg/"@, "https://prebid.media.net/"@, "https://buy.tinypass.com/"@, "https://idx.liadm.com"@, "https://geo.privacymanager.io/"@, "https://nimbleplot.com"@, "https://api.lab.amplitude.com/"@, "https://flag.lab.amplitude.com/sdk/v2/flags"@, "https://api2.amplitude.com/2/httpapi"@, "https://api.data4.net/api/report/send"@, "https://cdn-ukwest.onetrust.com/"@, "https://cdn.onetrust.com/"@, "https://sessions.bugsnag.com/"@] + seq!["https://notify.bugsnag.com/"@, "https://geolocation.onetrust.com/"@, "https://assets.adobedtm.com/"@, "https://sdkconfig.pulse."@, "https://static.criteo.net"@, "https://bat.bing.net"@, "https://fundingchoicesmessages.google.com/"@, "https://api.reviews.io/"@, "https://thearenagroup.sp.spiny.ai/"@, "https://ads.rubiconproject.com/"@, "https://check.analytics.rlcdn.com"@, "https://api.config-security.com/event"@, "https://conf.config-security.com/model"@, "https://pagead2.googlesyndication.com/"@, "https://sumome.com/api/load/"@, "https://ogads-pa.googleapis.com/"@, "https://public-api.wordpress.com/geo/"@, "https://events.api.secureserver.net/"@, "https://csp.secureserver.net/eventbus"@, "https://cdn.optimizely.com/datafiles/"@] + seq!["https://ad.doubleclick.net/"@, "https://metrics.beyondwords.io/events"@, "https://rtb.openx.net/openrtbb/prebidjs"@, "https://beacon.taboola.com/"@, "https://collector.ex.co/main/events"@, "https://www.youtube-nocookie.com/youtubei/v1/log_event?"@, "https://api.raygun.io/ping?apiKey="@, "https://hb.emxdgt.com/"@, "https://token.rubiconproject.com/"@, "https://prebid-server.rubiconproject.com"@, "https://targeting.unrulymedia.com/unruly_prebid"@, "https://bf16218erm.bf.dynatrace.com/"@, "https://firebaselogging-pa.googleapis.com/v1/firelog/"@, "https://prebid.adnxs.com/"@, "https://doh.cq0.co/resolve"@, "https://event.api.drift.com/track"@, "https://aan.amazon.com/cem"@, "https://unagi.amazon.com/1/events/com.amazon.csm.csa.prod"@, "https://vsanalytics.visualsoft.co.uk/com.snowplowanalytics.snowplow/tp2"@, "https://a.klaviyo.com/onsite/track-analytics"@]);
    }
    r.push("https://hit.salesfire.co.uk/config?");
    r.push("https://ib.adnxs.com/");
    r.push("https://secure.adnxs.com/");
    r.push("https://dc.schibsted.io/api/v1/track/");
    r.push("https://live.smartmetrics.co.uk/x/sf");
    r.push("https://api.marker.io/widget/ping");
    r.push("https://targeting.api.drift.com/targeting/evaluate_with_log");
    r.push("https://targeting.api.drift.com/impressions/widget");
    r.push("https://metrics.api.drift.com/monitoring/metrics/");
    r.push("https://events.launchdarkly.com/events/diagnostic/");
    r.push("https://geolocation.onetrust.com/cookieconsentpub/v1/geo/location");
    r.push("https://cdn.segment.");
    r.push(".wixapps.net/api/v1/bulklog");
    r.push("https://error-analytics-sessions-production.shopifysvc.com/");
    r.push("https://static-forms.");
    r.push("https://nhst.tt.omtrdc.net/rest/v1/delivery");
    r.push("https://video.squarespace-cdn.com/content/");
    r.push("https://bes.gcp.data.bigcommerce.com/nobot");
    r.push("https://www.youtube.com/youtubei/");
    r.push("http://ec.editmysite.com");
    proof {
        assert(patterns_view(r@) =~= seq!["https://play.google.com/log?"@, "https://googleads.g.doubleclick.net/pagead/id"@, "https://js.monitor.azure.com/scripts"@, "https://www.clarity.ms/"@, "https://securepubads.g.doubleclick.net"@, "https://pixel-config.reddit.com/pixels"@, "https://www.amazon.com/af/feedback-link?"@, "https://www.google.com/ads/ga-audiences"@, "https://player.vimeo.com/video/"@, "https://www.youtube.com/iframe_api"@, "https://www.youtube.com/youtubei/v1/log_event"@, "https://tr.snapchat.com/config/"@, "https://collect.tealiumiq.com/"@, "https://cdn.acsbapp.com/config/"@, "https://s.yimg.com/wi"@, "https://disney.my.sentry.io/api/"@, "https://www.redditstatic.com/ads"@, "https://logx.optimizely.com/v1/events"@, "https://analytics.google.com/g/collect"@, "https://www.google-analytics.com/g/collect"@] + seq!["https://api-2-0.spot.im/v1.0.0/"@, "https://static.hotjar.com/"@, "https://www.youtube.com/youtubei/v1/log_event?alt=json"@, "https://matchadsrvr.yieldmo.com/track/"@, "https://translate.googleapis.com/element/log"@, "https://sentry.io/api/"@, "https://api2.branch.io/"@, "https://i.clean.gg/"@, "https://prebid.media.net/"@, "https://buy.tinypass.com/"@, "https://idx.liadm.com"@, "https://geo.privacymanager.io/"@, "https://nimbleplot.com"@, "https://api.lab.amplitude.com/"@, "https://flag.lab.amplitude.com/sdk/v2/flags"@, "https://api2.amplitude.com/2/httpapi"@, "https://api.data4.net/api/report/send"@, "https://cdn-ukwest.onetrust.com/"@, "https://cdn.onetrust.com/"@, "https://sessions.bugsnag.com/"@] + seq!["https://notify.bugsnag.com/"@, "https://geolocation.onetrust.com/"@, "https://assets.adobedtm.com/"@, "https://sdkconfig.pulse."@, "https://static.criteo.net"@, "https://bat.bing.net"@, "https://fundingchoicesmessages.google.com/"@, "https://api.reviews.io/"@, "https://thearenagroup.sp.spiny.ai/"@, "https://ads.rubiconproject.com/"@, "https://check.analytics.rlcdn.com"@, "https://api.config-security.com/event"@, "https://conf.config-security.com/model"@, "https://pagead2.googlesyndication.com/"@, "https://sumome.com/api/load/"@, "https://ogads-pa.googleapis.com/"@, "https://public-api.wordpress.com/geo/"@, "https://events.api.secureserver.net/"@, "https://csp.secureserver.net/eventbus"@, "https://cdn.optimizely.com/datafiles/"@] + seq!["https://ad.doubleclick.net/"@, "https://metrics.beyondwords.io/events"@, "https://rtb.openx.net/openrtbb/prebidjs"@, "https://beacon.taboola.com/"@, "https://collector.ex.co/main/events"@, "https://www.youtube-nocookie.com/youtubei/v1/log_event?"@, "https://api.raygun.io/ping?apiKey="@, "https://hb.emxdgt.com/"@, "https://token.rubiconproject.com/"@, "https://prebid-server.rubiconproject.com"@, "https://targeting.unrulymedia.com/unruly_prebid"@, "https://bf16218erm.bf.dynatrace.com/"@, "https://firebaselogging-pa.googleapis.com/v1/firelog/"@, "https://prebid.adnxs.com/"@, "https://doh.cq0.co/resolve"@, "https://event.api.drift.com/track"@, "https://aan.amazon.com/cem"@, "https://unagi.amazon.com/1/events/com.amazon.csm.csa.prod"@, "https://vsanalytics.visualsoft.co.uk/com.snowplowanalytics.snowplow/tp2"@, "https://a.klaviyo.com/onsite/track-analytics"@] + seq!["https://hit.salesfire.co.uk/config?"@, "https://ib.adnxs.com/"@, "https://secure.adnxs.com/"@, "https://dc.schibsted.io/api/v1/track/"@, "https://live.smartmetrics.co.uk/x/sf"@, "https://api.marker.io/widget/ping"@, "https://targeting.api.drift.com/targeting/evaluate_with_log"@, "https://targeting.api.drift.com/impressions/widget"@, "https://metrics.api.drift.com/monitoring/metrics/"@, "https://events.launchdarkly.com/events/diagnostic/"@, "https://geolocation.onetrust.com/cookieconsentpub/v1/geo/location"@, "https://cdn.segment."@, ".wixapps.net/api/v1/bulklog"@, "https://error-analytics-sessions-production.shopifysvc.com/"@, "https://static-forms."@, "https://nhst.tt.omtrdc.net/rest/v1/delivery"@, "https://video.squarespace-cdn.com/content/"@, "https://bes.gcp.data.bigcommerce.com/nobot"@, "https://www.youtube.com/youtubei/"@, "http://ec.editmysite.com"@]);
    }
    r.push("https://dcinfos-cache.abtasty.com/");
    r.push("https://featureassets.org/");
    r.push("https://mab.chartbeat.com/");
    r.push("https://c.go-mpulse.net/");
    r.push("https://prodregistryv2.org/v1/");
    r.push("https://dpm.demdex.net/");
    r.push("https://monorail-edge.shopifysvc.com/unstable/produce_batch");
    r.push("https://monorail-edge.shopifysvc.com/v1/produce");
    r.push("https://cloudflareinsights.com/cdn-cgi/rum");
    r.push("https://api.sprig.com/sdk/");
    r.push("googlesyndication.com");
    r.push(".amplitude.com");
    r.push(".doubleclick.net");
    r.push(".doofinder.com");
    r.push(".piano.io/");
    r.push(".browsiprod.com");
    r.push(".onetrust.");
    r.push("https://logs.");
    r.push("/track.php");
    r.push("/api/v1/bulklog");
    proof {
        assert(patterns_view(r@) =~= seq!["https://play.google.com/log?"@, "https://googleads.g.doubleclick.net/pagead/id"@, "https://js.monitor.azure.com/scripts"@, "https://www.clarity.ms/"@, "https://securepubads.g.doubleclick.net"@, "https://pixel-config.reddit.com/pixels"@, "https://www.amazon.com/af/feedback-link?"@, "https://www.google.com/ads/ga-audiences"@, "https://player.vimeo.com/video/"@, "https://www.youtube.com/iframe_api"@, "https://www.youtube.com/youtubei/v1/log_event"@, "https://tr.snapchat.com/config/"@, "https://collect.tealiumiq.com/"@, "https://cdn.acsbapp.com/config/"@, "https://s.yimg.com/wi"@, "https://disney.my.sentry.io/api/"@, "https://www.redditstatic.com/ads"@, "https://logx.optimizely.com/v1/events"@, "https://analytics.google.com/g/collect"@, "https://www.google-analytics.com/g/collect"@] + seq!["https://api-2-0.spot.im/v1.0.0/"@, "https://static.hotjar.com/"@, "https://www.youtube.com/youtubei/v1/log_event?alt=json"@, "https://matchadsrvr.yieldmo.com/track/"@, "https://translate.googleapis.com/element/log"@, "https://sentry.io/api/"@, "https://api2.branch.io/"@, "https://i.clean.gg/"@, "https://prebid.media.net/"@, "https://buy.tinypass.com/"@, "https://idx.liadm.com"@, "https://geo.privacymanager.io/"@, "https://nimbleplot.com"@, "https://api.lab.amplitude.com/"@, "https://flag.lab.amplitude.com/sdk/v2/flags"@, "https://api2.amplitude.com/2/httpapi"@, "https://api.data4.net/api/report/send"@, "https://cdn-ukwest.onetrust.com/"@, "https://cdn.onetrust.com/"@, "https://sessions.bugsnag.com/"@] + seq!["https://notify.bugsnag.com/"@, "https://geolocation.onetrust.com/"@, "https://assets.adobedtm.com/"@, "https://sdkconfig.pulse."@, "https://static.criteo.net"@, "https://bat.bing.net"@, "https://fundingchoicesmessages.google.com/"@, "https://api.reviews.io/"@, "https://thearenagroup.sp.spiny.ai/"@, "https://ads.rubiconproject.com/"@, "https://check.analytics.rlcdn.com"@, "https://api.config-security.com/event"@, "https://conf.config-security.com/model"@, "https://pagead2.googlesyndication.com/"@, "https://sumome.com/api/load/"@, "https://ogads-pa.googleapis.com/"@, "https://public-api.wordpress.com/geo/"@, "https://events.api.secureserver.net/"@, "https://csp.secureserver.net/eventbus"@, "https://cdn.optimizely.com/datafiles/"@] + seq!["https://ad.doubleclick.net/"@, "https://metrics.beyondwords.io/events"@, "https://rtb.openx.net/openrtbb/prebidjs"@, "https://beacon.taboola.com/"@, "https://collector.ex.co/main/events"@, "https://www.youtube-nocookie.com/youtubei/v1/log_event?"@, "https://api.raygun.io/ping?apiKey="@, "https://hb.emxdgt.com/"@, "https://token.rubiconproject.com/"@, "https://prebid-server.rubiconproject.com"@, "https://targeting.unrulymedia.com/unruly_prebid"@, "https://bf16218erm.bf.dynatrace.com/"@, "https://firebaselogging-pa.googleapis.com/v1/firelog/"@, "https://prebid.adnxs.com/"@, "https://doh.cq0.co/resolve"@, "https://event.api.drift.com/track"@, "https://aan.amazon.com/cem"@, "https://unagi.amazon.com/1/events/com.amazon.csm.csa.prod"@, "https://vsanalytics.visualsoft.co.uk/com.snowplowanalytics.snowplow/tp2"@, "https://a.klaviyo.com/onsite/track-analytics"@] + seq!["https://hit.salesfire.co.uk/config?"@, "https://ib.adnxs.com/"@, "https://secure.adnxs.com/"@, "https://dc.schibsted.io/api/v1/track/"@, "https://live.smartmetrics.co.uk/x/sf"@, "https://api.marker.io/widget/ping"@, "https://targeting.api.drift.com/targeting/evaluate_with_log"@, "https://targeting.api.drift.com/impressions/widget"@, "https://metrics.api.drift.com/monitoring/metrics/"@, "https://events.launchdarkly.com/events/diagnostic/"@, "https://geolocation.onetrust.com/cookieconsentpub/v1/geo/location"@, "https://cdn.segment."@, ".wixapps.net/api/v1/bulklog"@, "https://error-analytics-sessions-production.shopifysvc.com/"@, "https://static-forms."@, "https://nhst.tt.omtrdc.net/rest/v1/delivery"@, "https://video.squarespace-cdn.com/content/"@, "https://bes.gcp.data.bigcommerce.com/nobot"@, "https://www.youtube.com/youtubei/"@, "http://ec.editmysite.com"@] + seq!["https://dcinfos-cache.abtasty.com/"@, "https://featureassets.org/"@, "https://mab.chartbeat.com/"@, "https://c.go-mpulse.net/"@, "https://prodregistryv2.org/v1/"@, "https://dpm.demdex.net/"@, "https://monorail-edge.shopifysvc.com/unstable/produce_batch"@, "https://monorail-edge.shopifysvc.com/v1/produce"@, "https://cloudflareinsights.com/cdn-cgi/rum"@, "https://api.sprig.com/sdk/"@, "googlesyndication.com"@, ".amplitude.com"@, ".doubleclick.net"@, ".doofinder.com"@, ".piano.io/"@, ".browsiprod.com"@, ".onetrust."@, "https://logs."@, "/track.php"@, "/api/v1/bulklog"@]);
    }
    r.push("cookieconsentpub");
    r.push("cookie-law-info");
    r.push("mediaelement-and-player.min.j");
    r.push(".ingest.us.sentry.io/");
    r.push("/analytics");
    r.push("/tracking");
    proof {
        assert(patterns_view(r@) =~= seq!["https://play.google.com/log?"@, "https://googleads.g.doubleclick.net/pagead/id"@, "https://js.monitor.azure.com/scripts"@, "https://www.clarity.ms/"@, "https://securepubads.g.doubleclick.net"@, "https://pixel-config.reddit.com/pixels"@, "https://www.amazon.com/af/feedback-link?"@, "https://www.google.com/ads/ga-audiences"@, "https://player.vimeo.com/video/"@, "https://www.youtube.com/iframe_api"@, "https://www.youtube.com/youtubei/v1/log_event"@, "https://tr.snapchat.com/config/"@, "https://collect.tealiumiq.com/"@, "https://cdn.acsbapp.com/config/"@, "https://s.yimg.com/wi"@, "https://disney.my.sentry.io/api/"@, "https://www.redditstatic.com/ads"@, "https://logx.optimizely.com/v1/events"@, "https://analytics.google.com/g/collect"@, "https://www.google-analytics.com/g/collect"@] + seq!["https://api-2-0.spot.im/v1.0.0/"@, "https://static.hotjar.com/"@, "https://www.youtube.com/youtubei/v1/log_event?alt=json"@, "https://matchadsrvr.yieldmo.com/track/"@, "https://translate.googleapis.com/element/log"@, "https://sentry.io/api/"@, "https://api2.branch.io/"@, "https://i.clean.gg/"@, "https://prebid.media.net/"@, "https://buy.tinypass.com/"@, "https://idx.liadm.com"@, "https://geo.privacymanager.io/"@, "https://nimbleplot.com"@, "https://api.lab.amplitude.com/"@, "https://flag.lab.amplitude.com/sdk/v2/flags"@, "https://api2.amplitude.com/2/httpapi"@, "https://api.data4.net/api/report/send"@, "https://cdn-ukwest.onetrust.com/"@, "https://cdn.onetrust.com/"@, "https://sessions.bugsnag.com/"@] + seq!["https://notify.bugsnag.com/"@, "https://geolocation.onetrust.com/"@, "https://assets.adobedtm.com/"@, "https://sdkconfig.pulse."@, "https://static.criteo.net"@, "https://bat.bing.net"@, "https://fundingchoicesmessages.google.com/"@, "https://api.reviews.io/"@, "https://thearenagroup.sp.spiny.ai/"@, "https://ads.rubiconproject.com/"@, "https://check.analytics.rlcdn.com"@, "https://api.config-security.com/event"@, "https://conf.config-security.com/model"@, "https://pagead2.googlesyndication.com/"@, "https://sumome.com/api/load/"@, "https://ogads-pa.googleapis.com/"@, "https://public-api.wordpress.com/geo/"@, "https://events.api.secureserver.net/"@, "https://csp.secureserver.net/eventbus"@, "https://cdn.optimizely.com/datafiles/"@] + seq!["https://ad.doubleclick.net/"@, "https://metrics.beyondwords.io/events"@, "https://rtb.openx.net/openrtbb/prebidjs"@, "https://beacon.taboola.com/"@, "https://collector.ex.co/main/events"@, "https://www.youtube-nocookie.com/youtubei/v1/log_event?"@, "https://api.raygun.io/ping?apiKey="@, "https://hb.emxdgt.com/"@, "https://token.rubiconproject.com/"@, "https://prebid-server.rubiconproject.com"@, "https://targeting.unrulymedia.com/unruly_prebid"@, "https://bf16218erm.bf.dynatrace.com/"@, "https://firebaselogging-pa.googleapis.com/v1/firelog/"@, "https://prebid.adnxs.com/"@, "https://doh.cq0.co/resolve"@, "https://event.api.drift.com/track"@, "https://aan.amazon.com/cem"@, "https://unagi.amazon.com/1/events/com.amazon.csm.csa.prod"@, "https://vsanalytics.visualsoft.co.uk/com.snowplowanalytics.snowplow/tp2"@, "https://a.klaviyo.com/onsite/track-analytics"@] + seq!["https://hit.salesfire.co.uk/config?"@, "https://ib.adnxs.com/"@, "https://secure.adnxs.com/"@, "https://dc.schibsted.io/api/v1/track/"@, "https://live.smartmetrics.co.uk/x/sf"@, "https://api.marker.io/widget/ping"@, "https://targeting.api.drift.com/targeting/evaluate_with_log"@, "https://targeting.api.drift.com/impressions/widget"@, "https://metrics.api.drift.com/monitoring/metrics/"@, "https://events.launchdarkly.com/events/diagnostic/"@, "https://geolocation.onetrust.com/cookieconsentpub/v1/geo/location"@, "https://cdn.segment."@, ".wixapps.net/api/v1/bulklog"@, "https://error-analytics-sessions-production.shopifysvc.com/"@, "https://static-forms."@, "https://nhst.tt.omtrdc.net/rest/v1/delivery"@, "https://video.squarespace-cdn.com/content/"@, "https://bes.gcp.data.bigcommerce.com/nobot"@, "https://www.youtube.com/youtubei/"@, "http://ec.editmysite.com"@] + seq!["https://dcinfos-cache.abtasty.com/"@, "https://featureassets.org/"@, "https://mab.chartbeat.com/"@, "https://c.go-mpulse.net/"@, "https://prodregistryv2.org/v1/"@, "https://dpm.demdex.net/"@, "https://monorail-edge.shopifysvc.com/unstable/produce_batch"@, "https://monorail-edge.shopifysvc.com/v1/produce"@, "https://cloudflareinsights.com/cdn-cgi/rum"@, "https://api.sprig.com/sdk/"@, "googlesyndication.com"@, ".amplitude.com"@, ".doubleclick.net"@, ".doofinder.com"@, ".piano.io/"@, ".browsiprod.com"@, ".onetrust."@, "https://logs."@, "/track.php"@, "/api/v1/bulklog"@] + seq!["cookieconsentpub"@, "cookie-law-info"@, "mediaelement-and-player.min.j"@, ".ingest.us.sentry.io/"@, "/analytics"@, "/tracking"@]);
    }
    r
}

/// Views of the separately filtered media-fetch patterns.
pub open spec fn xhr_media_pattern_list() -> Seq<Seq<char>> {
    seq!["https://www.youtube.com/s/player/"@, "https://www.vimeo.com/player/"@, "https://soundcloud.com/player/"@, "https://open.spotify.com/"@, "https://api.spotify.com/v1/"@, "https://music.apple.com/"@, "https://maps.googleapis.com/"@]
}

/// Patterns for media-fetch endpoints that are filtered separately.
pub fn url_ignore_xhr_media_patterns() -> (r: Vec<&'static str>)
    ensures
        patterns_view(r@) == xhr_media_pattern_list(),
{
    let mut r: Vec<&'static str> = Vec::new();
    r.push("https://www.youtube.com/s/player/");
    r.push("https://www.vimeo.com/player/");
    r.push("https://soundcloud.com/player/");
    r.push("https://open.spotify.com/");
    r.push("https://api.spotify.com/v1/");
    r.push("https://music.apple.com/");
    r.push("https://maps.googleapis.com/");
    proof {
        assert(patterns_view(r@) =~= seq!["https://www.youtube.com/s/player/"@, "https://www.vimeo.com/player/"@, "https://soundcloud.com/player/"@, "https://open.spotify.com/"@, "https://api.spotify.com/v1/"@, "https://music.apple.com/"@, "https://maps.googleapis.com/"@]);
    }
    r
}

} // verus!
