//! Compact fallback pattern list, and a wrapper around the heavier
//! third-party filter-rule engine that callers may link in as an
//! alternative classifier.
//!
//! The engine is consumed through a black-box contract: build from rules,
//! decide a request, and serialize or deserialize a compiled engine for
//! caching. A malformed request URL is never blocked by this path
//! (fail-open).

use vstd::prelude::*;
use vstd::string::StringExecFns;

use crate::trie::patterns_view;

verus! {

/// Views of the compact fallback filter patterns.
pub open spec fn adblock_pattern_list() -> Seq<Seq<char>> {
    seq!["-advertisement."@, "-advertisement-icon."@, "-advertisement-management/"@, "-advertisement/script."@, "-ads."@, "-ads/script."@, "-ad."@, "ads.js"@, "gtm.js?"@, "googletagmanager.com"@, "ssl.google-analytics.com"@, "-tracking."@, "-tracking/script."@, ".tracking"@, ".snowplowanalytics.snowplow"@, ".mountain.com"@, "tracking.js"@, "track.js"@, "/upi/jslogger"@, "otBannerSdk.js"@] + seq!["analytics.js"@, "analytics.min.js"@, "ob.cityrobotflower.com"@, "siteintercept.qualtrics.com"@, "iesnare.com"@, "iovation.com"@, "googletagmanager.com"@, "forter.com"@, "/first.iovation.com"@, "googlesyndication.com"@, ".googlesyndication.com/safeframe/"@, "adsafeprotected.com"@, "cxense.com/"@, ".sharethis.com"@, "amazon-adsystem.com"@, "g.doubleclick.net"@, "privacy-notice.js"@, "insight.min.js"@]
}

/// Compact ad, tracking and analytics fragments usable as generic filter
/// rules; none is empty or a single character.
#[verifier::rlimit(60)]
pub fn adblock_patterns() -> (r: Vec<&'static str>)
    ensures
        patterns_view(r@) == adblock_pattern_list(),
        forall|i: int| 0 <= i < r@.len() ==> (#[trigger] r@[i])@.len() >= 2,
{
    let mut r: Vec<&'static str> = Vec::new();
    r.push("-advertisement.");
    r.push("-advertisement-icon.");
    r.push("-advertisement-management/");
    r.push("-advertisement/script.");
    r.push("-ads.");
    r.push("-ads/script.");
    r.push("-ad.");
    r.push("ads.js");
    r.push("gtm.js?");
    r.push("googletagmanager.com");
    r.push("ssl.google-analytics.com");
    r.push("-tracking.");
    r.push("-tracking/script.");
    r.push(".tracking");
    r.push(".snowplowanalytics.snowplow");
    r.push(".mountain.com");
    r.push("tracking.js");
    r.push("track.js");
    r.push("/upi/jslogger");
    r.push("otBannerSdk.js");
    proof {
        assert(patterns_view(r@) =~= seq!["-advertisement."@, "-advertisement-icon."@, "-advertisement-management/"@, "-advertisement/script."@, "-ads."@, "-ads/script."@, "-ad."@, "ads.js"@, "gtm.js?"@, "googletagmanager.com"@, "ssl.google-analytics.com"@, "-tracking."@, "-tracking/script."@, ".tracking"@, ".snowplowanalytics.snowplow"@, ".mountain.com"@, "tracking.js"@, "track.js"@, "/upi/jslogger"@, "otBannerSdk.js"@]);
    }
    r.push("analytics.js");
    r.push("analytics.min.js");
    r.push("ob.cityrobotflower.com");
    r.push("siteintercept.qualtrics.com");
    r.push("iesnare.com");
    r.push("iovation.com");
    r.push("googletagmanager.com");
    r.push("forter.com");
    r.push("/first.iovation.com");
    r.push("googlesyndication.com");
    r.push(".googlesyndication.com/safeframe/");
    r.push("adsafeprotected.com");
    r.push("cxense.com/");
    r.push(".sharethis.com");
    r.push("amazon-adsystem.com");
    r.push("g.doubleclick.net");
    r.push("privacy-notice.js");
    r.push("insight.min.js");
    proof {
        assert(patterns_view(r@) =~= seq!["-advertisement."@, "-advertisement-icon."@, "-advertisement-management/"@, "-advertisement/script."@, "-ads."@, "-ads/script."@, "-ad."@, "ads.js"@, "gtm.js?"@, "googletagmanager.com"@, "ssl.google-analytics.com"@, "-tracking."@, "-tracking/script."@, ".tracking"@, ".snowplowanalytics.snowplow"@, ".mountain.com"@, "tracking.js"@, "track.js"@, "/upi/jslogger"@, "otBannerSdk.js"@] + seq!["analytics.js"@, "analytics.min.js"@, "ob.cityrobotflower.com"@, "siteintercept.qualtrics.com"@, "iesnare.com"@, "iovation.com"@, "googletagmanager.com"@, "forter.com"@, "/first.iovation.com"@, "googlesyndication.com"@, ".googlesyndication.com/safeframe/"@, "adsafeprotected.com"@, "cxense.com/"@, ".sharethis.com"@, "amazon-adsystem.com"@, "g.doubleclick.net"@, "privacy-notice.js"@, "insight.min.js"@]);
    }
    proof {
        reveal_strlit("-ad.");
        reveal_strlit("-ads.");
        reveal_strlit("-ads/script.");
        reveal_strlit("-advertisement-icon.");
        reveal_strlit("-advertisement-management/");
        reveal_strlit("-advertisement.");
        reveal_strlit("-advertisement/script.");
        reveal_strlit("-tracking.");
        reveal_strlit("-tracking/script.");
        reveal_strlit(".googlesyndication.com/safeframe/");
        reveal_strlit(".mountain.com");
        reveal_strlit(".sharethis.com");
        reveal_strlit(".snowplowanalytics.snowplow");
        reveal_strlit(".tracking");
        reveal_strlit("/first.iovation.com");
        reveal_strlit("/upi/jslogger");
        reveal_strlit("ads.js");
        reveal_strlit("adsafeprotected.com");
        reveal_strlit("amazon-adsystem.com");
        reveal_strlit("analytics.js");
        reveal_strlit("analytics.min.js");
        reveal_strlit("cxense.com/");
        reveal_strlit("forter.com");
        reveal_strlit("g.doubleclick.net");
        reveal_strlit("googlesyndication.com");
        reveal_strlit("googletagmanager.com");
        reveal_strlit("gtm.js?");
        reveal_strlit("iesnare.com");
        reveal_strlit("insight.min.js");
        reveal_strlit("iovation.com");
        reveal_strlit("ob.cityrobotflower.com");
        reveal_strlit("otBannerSdk.js");
        reveal_strlit("privacy-notice.js");
        reveal_strlit("siteintercept.qualtrics.com");
        reveal_strlit("ssl.google-analytics.com");
        reveal_strlit("track.js");
        reveal_strlit("tracking.js");
    }
    r
}

/// Well-known filter list URLs for callers to fetch externally.
pub struct FilterListUrls;

impl FilterListUrls {
    /// EasyList, the primary ad-blocking filter list.
    pub const EASYLIST: &'static str = "https://easylist.to/easylist/easylist.txt";

    /// EasyPrivacy, the companion privacy and tracking filter list.
    pub const EASYPRIVACY: &'static str = "https://easylist.to/easylist/easyprivacy.txt";
}

#[verifier::external_type_specification]
#[verifier::external_body]
pub struct ExEngine(adblock::Engine);

#[verifier::external_type_specification]
#[verifier::external_body]
pub struct ExBlockerResult(adblock::blocker::BlockerResult);

/// The filter rules parsed out of a list text, one per meaningful line.
/// Texts whose lines parse alike map to the same value, so this is coarser
/// than the text itself: it is the granularity at which the engine keeps
/// its rules.
pub uninterp spec fn parsed_of(list: Seq<char>) -> Seq<Seq<char>>;

/// The parsed rule set a compiled engine holds.
pub uninterp spec fn engine_rules(e: adblock::Engine) -> Seq<Seq<char>>;

/// Whether the engine accepts `url` as a well-formed request URL.
pub uninterp spec fn request_parses(url: Seq<char>) -> bool;

/// The engine's match verdict, a function of the parsed rule set and the
/// request alone.
pub uninterp spec fn engine_verdict(
    rules: Seq<Seq<char>>,
    url: Seq<char>,
    source_url: Seq<char>,
    request_type: Seq<char>,
    method: Seq<char>,
) -> bool;

/// The verdict a blocker result carries, as BlockerResult::should_block
/// reports it.
pub uninterp spec fn blocker_result_verdict(r: adblock::blocker::BlockerResult) -> bool;

/// Whether `data` is a well-formed serialized engine.
pub uninterp spec fn deserialization_ok(data: Seq<u8>) -> bool;

/// The parsed rule set of the engine restored from serialized bytes.
pub uninterp spec fn deserialized_rules(data: Seq<u8>) -> Seq<Seq<char>>;

/// Relies on adblock's FilterSet::new, FilterSet::add_filter_list and
/// Engine::new_with_filter_set: compiles an engine holding exactly the
/// rules parsed from the given filter-list text. The debug flag only
/// retains extra rule metadata.
#[verifier::external_body]
fn engine_from_list(list: String, debug: bool) -> (e: adblock::Engine)
    ensures
        engine_rules(e) == parsed_of(list@),
{
    let mut filter_set = adblock::lists::FilterSet::new(debug);
    filter_set.add_filter_list(list, adblock::lists::ParseOptions::default());
    adblock::Engine::new_with_filter_set(filter_set)
}

/// Relies on adblock's Request::new and Engine::check_network_request:
/// Request::new fails exactly when the request URL cannot be parsed, and
/// the verdict depends on the engine's rules and the request alone.
#[verifier::external_body]
fn engine_check(
    e: &adblock::Engine,
    url: &str,
    source_url: &str,
    request_type: &str,
    method: &str,
) -> (r: Option<bool>)
    ensures
        r is Some <==> request_parses(url@),
        r matches Some(m) ==> m == engine_verdict(
            engine_rules(*e),
            url@,
            source_url@,
            request_type@,
            method@,
        ),
{
    match adblock::request::Request::new(url, source_url, request_type, method) {
        Ok(request) => Some(e.check_network_request(&request).should_block()),
        Err(_) => None,
    }
}

/// Relies on adblock's Request::new, Engine::check_network_request and
/// BlockerResult::should_block, as `engine_check` does, handing back the
/// engine's full blocker result, whose carried verdict is the engine's.
#[verifier::external_body]
fn engine_check_result(
    e: &adblock::Engine,
    url: &str,
    source_url: &str,
    request_type: &str,
    method: &str,
) -> (r: Option<adblock::blocker::BlockerResult>)
    ensures
        r is Some <==> request_parses(url@),
        r matches Some(b) ==> blocker_result_verdict(b) == engine_verdict(
            engine_rules(*e),
            url@,
            source_url@,
            request_type@,
            method@,
        ),
{
    match adblock::request::Request::new(url, source_url, request_type, method) {
        Ok(request) => Some(e.check_network_request(&request)),
        Err(_) => None,
    }
}

/// Relies on adblock's Engine::default and Engine::deserialize: restoring
/// succeeds exactly on well-formed serialized engine bytes, and the
/// restored engine's rules are a function of the bytes alone.
#[verifier::external_body]
fn engine_deserialize(data: &[u8]) -> (r: Option<adblock::Engine>)
    ensures
        r is Some <==> deserialization_ok(data@),
        r matches Some(restored) ==> engine_rules(restored) == deserialized_rules(data@),
{
    let mut engine = adblock::Engine::default();
    if engine.deserialize(data).is_ok() {
        Some(engine)
    } else {
        None
    }
}

/// The filter-list text formed by terminating each rule with a newline.
pub open spec fn joined_rules(rs: Seq<Seq<char>>) -> Seq<char>
    decreases rs.len(),
{
    if rs.len() == 0 {
        Seq::<char>::empty()
    } else {
        rs[0] + seq!['\n'] + joined_rules(rs.drop_first())
    }
}

/// Appending a rule extends the joined text by that rule and a newline.
proof fn lemma_joined_push(rs: Seq<Seq<char>>, x: Seq<char>)
    ensures
        joined_rules(rs.push(x)) =~= joined_rules(rs) + x + seq!['\n'],
    decreases rs.len(),
{
    if rs.len() == 0 {
        assert(rs.push(x)[0] == x);
        assert(rs.push(x).drop_first() =~= Seq::<Seq<char>>::empty());
        assert(x + seq!['\n'] + joined_rules(Seq::<Seq<char>>::empty()) =~= joined_rules(rs) + x
            + seq!['\n']);
    } else {
        assert(rs.push(x)[0] == rs[0]);
        assert(rs.push(x).drop_first() =~= rs.drop_first().push(x));
        lemma_joined_push(rs.drop_first(), x);
        assert(rs[0] + seq!['\n'] + (joined_rules(rs.drop_first()) + x + seq!['\n']) =~= (rs[0]
            + seq!['\n'] + joined_rules(rs.drop_first())) + x + seq!['\n']);
    }
}

/// Wrapper around the third-party filter-rule engine.
pub struct AdblockEngine {
    inner: adblock::Engine,
}

impl AdblockEngine {
    /// The parsed rule set this engine was compiled from.
    pub closed spec fn rules(self) -> Seq<Seq<char>> {
        engine_rules(self.inner)
    }

    /// Build an engine from raw filter rules, each becoming one line of the
    /// compiled filter list.
    pub fn from_rules(rules: &Vec<String>, debug: bool) -> (r: Self)
        ensures
            r.rules() == parsed_of(joined_rules(rules@.map_values(|s: String| s@))),
    {
        let ghost views = rules@.map_values(|s: String| s@);
        let mut text = String::new();
        proof {
            assert(views.take(0) =~= Seq::<Seq<char>>::empty());
        }
        for i in it: 0..rules.len()
            invariant
                text@ == joined_rules(views.take(i as int)),
                views == rules@.map_values(|s: String| s@),
                rules@.len() == views.len(),
        {
            text.append(rules[i].as_str());
            text.append("\n");
            proof {
                reveal_strlit("\n");
                assert(("\n")@ =~= seq!['\n']);
                assert(views.take(i + 1) =~= views.take(i as int).push(views[i as int]));
                lemma_joined_push(views.take(i as int), views[i as int]);
            }
        }
        proof {
            assert(views.take(views.len() as int) =~= views);
        }
        AdblockEngine { inner: engine_from_list(text, debug) }
    }

    /// Build an engine from the text content of a filter list such as
    /// EasyList. Callers are responsible for fetching the content.
    pub fn from_filter_list_content(content: &str, debug: bool) -> (r: Self)
        ensures
            r.rules() == parsed_of(content@),
    {
        AdblockEngine { inner: engine_from_list(content.to_owned(), debug) }
    }

    /// Check whether `url`, requested by the page at `source_url` as a
    /// resource of kind `request_type`, should be blocked. A URL the engine
    /// cannot parse is never blocked.
    pub fn should_block(&self, url: &str, source_url: &str, request_type: &str) -> (r: bool)
        ensures
            r == (request_parses(url@) && engine_verdict(
                self.rules(),
                url@,
                source_url@,
                request_type@,
                "GET"@,
            )),
    {
        match engine_check(&self.inner, url, source_url, request_type, "GET") {
            Some(matched) => matched,
            None => false,
        }
    }

    /// The engine's full blocker result for advanced use; absent exactly
    /// when the request URL cannot be parsed, and carrying the same verdict
    /// `should_block` reports.
    pub fn check_request(&self, url: &str, source_url: &str, request_type: &str) -> (r: Option<
        adblock::blocker::BlockerResult,
    >)
        ensures
            r is Some <==> request_parses(url@),
            r matches Some(b) ==> blocker_result_verdict(b) == engine_verdict(
                self.rules(),
                url@,
                source_url@,
                request_type@,
                "GET"@,
            ),
    {
        engine_check_result(&self.inner, url, source_url, request_type, "GET")
    }

    /// Relies on adblock's Engine::serialize: the engine's binary
    /// representation for caching. The format always begins with a fixed
    /// header, restoring the bytes succeeds, and the engine they restore
    /// holds this engine's rules.
    #[verifier::external_body]
    pub fn serialize(&self) -> (r: Vec<u8>)
        ensures
            r@.len() > 0,
            deserialization_ok(r@),
            deserialized_rules(r@) == self.rules(),
    {
        self.inner.serialize()
    }

    /// Restore a previously serialized engine; succeeds exactly on
    /// well-formed serialized bytes, yielding the engine those bytes
    /// encode.
    pub fn deserialize(data: &[u8]) -> (r: Option<AdblockEngine>)
        ensures
            r is Some <==> deserialization_ok(data@),
            r matches Some(restored) ==> restored.rules() == deserialized_rules(data@),
    {
        match engine_deserialize(data) {
            Some(engine) => Some(AdblockEngine { inner: engine }),
            None => None,
        }
    }

    /// Wrap in a reference-counted pointer for sharing across threads.
    pub fn into_shared(self) -> (r: std::sync::Arc<Self>)
        ensures
            r == self,
    {
        std::sync::Arc::new(self)
    }
}



} // verus!
