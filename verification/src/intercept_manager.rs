//! Domain-aware routing and the interception decision.
//!
//! A page origin is classified once into a closed set of known high-traffic
//! sites (or a catch-all unknown category); each outgoing request is then
//! judged by generic prefix-trie classifiers, refined by per-site allow and
//! block overrides, where an allow match always wins.

use vstd::prelude::*;

use crate::scripts::{
    base_path_pattern_list, embedded_pattern_list, file_pattern_list, script_pattern_list,
    style_path_pattern_list, url_ignore_embeded_patterns, url_ignore_path_patterns,
    url_ignore_patterns, url_ignore_script_base_path_patterns,
    url_ignore_script_style_path_patterns,
};
use crate::trie::{
    chars_of, lemma_trie_list_prefix_view, list_prefix_match, patterns_view, trie_from_patterns,
    trie_stores, Trie,
};
use crate::xhr::{
    url_ignore_xhr_media_patterns, url_ignore_xhr_patterns, xhr_media_pattern_list,
    xhr_pattern_list,
};

verus! {

/// The closed set of known high-traffic sites that receive site-specific
/// refinements, plus the catch-all unknown category.
#[derive(Debug, Clone, Copy, PartialEq, Eq, Structural)]
pub enum NetworkInterceptManager {
    /// The amazon.com retail site.
    Amazon,
    /// The ebay.com retail site.
    Ebay,
    /// The facebook.com social network.
    Facebook,
    /// The linkedin.com professional network.
    Linkedin,
    /// The medium.com publishing site.
    Medium,
    /// The netflix.com streaming site.
    Netflix,
    /// The nytimes.com news site.
    Nytimes,
    /// The reddit.com social network.
    Reddit,
    /// The tiktok.com video site.
    Tiktok,
    /// The upwork.com marketplace.
    Upwork,
    /// Any origin not in the known set; no site-specific overrides apply.
    Unknown,
}

/// Whether `host` is the registrable domain `domain` itself or a subdomain
/// of it.
pub open spec fn domain_matches(host: Seq<char>, domain: Seq<char>) -> bool {
    host == domain || (host.len() > domain.len() && host.skip(host.len() - domain.len())
        == domain && host[host.len() - domain.len() - 1] == '.')
}

/// The category a host routes to: first match in the fixed table wins, and
/// no match falls through to the unknown category.
pub open spec fn spec_route(host: Seq<char>) -> NetworkInterceptManager {
    if domain_matches(host, "amazon.com"@) {
        NetworkInterceptManager::Amazon
    } else if domain_matches(host, "ebay.com"@) {
        NetworkInterceptManager::Ebay
    } else if domain_matches(host, "facebook.com"@) {
        NetworkInterceptManager::Facebook
    } else if domain_matches(host, "linkedin.com"@) {
        NetworkInterceptManager::Linkedin
    } else if domain_matches(host, "medium.com"@) {
        NetworkInterceptManager::Medium
    } else if domain_matches(host, "netflix.com"@) {
        NetworkInterceptManager::Netflix
    } else if domain_matches(host, "nytimes.com"@) {
        NetworkInterceptManager::Nytimes
    } else if domain_matches(host, "reddit.com"@) {
        NetworkInterceptManager::Reddit
    } else if domain_matches(host, "tiktok.com"@) {
        NetworkInterceptManager::Tiktok
    } else if domain_matches(host, "upwork.com"@) {
        NetworkInterceptManager::Upwork
    } else {
        NetworkInterceptManager::Unknown
    }
}

/// The category an optional page origin routes to: the host's category if
/// the origin has a host, the unknown category otherwise.
pub open spec fn spec_classify(url: Option<Box<url::Url>>) -> NetworkInterceptManager {
    match url {
        Some(u) => match host_str_of(*u) {
            Some(h) => spec_route(h),
            None => NetworkInterceptManager::Unknown,
        },
        None => NetworkInterceptManager::Unknown,
    }
}

#[verifier::external_type_specification]
#[verifier::external_body]
pub struct ExUrl(url::Url);

/// The host component of a parsed URL, if it has one.
pub uninterp spec fn host_str_of(u: url::Url) -> Option<Seq<char>>;

/// Relies on url::Url::host_str: the host component of the parsed URL, a
/// pure accessor of the URL value. The routing itself is done by the
/// verified `from_host`.
#[verifier::external_body]
fn host_of(u: &url::Url) -> (r: Option<String>)
    ensures
        r is Some <==> host_str_of(*u) is Some,
        r matches Some(h) ==> Some(h@) == host_str_of(*u),
{
    match u.host_str() {
        Some(h) => Some(h.to_owned()),
        None => None,
    }
}

/// Whether `host` equals `domain` or ends with `.` followed by `domain`.
fn host_matches(host: &Vec<char>, domain: &Vec<char>) -> (r: bool)
    ensures
        r == domain_matches(host@, domain@),
{
    let hl = host.len();
    let dl = domain.len();
    if dl > hl {
        return false;
    }
    let base = hl - dl;
    let mut i: usize = 0;
    while i < dl
        invariant
            i <= dl,
            dl <= hl,
            base == hl - dl,
            hl == host@.len(),
            dl == domain@.len(),
            forall|k: int| 0 <= k < i ==> host@[base + k] == domain@[k],
        decreases dl - i,
    {
        if host[base + i] != domain[i] {
            proof {
                assert(host@.skip(base as int)[i as int] != domain@[i as int]);
                if host@ == domain@ {
                    assert(host@.skip(0) =~= host@);
                }
            }
            return false;
        }
        i += 1;
    }
    proof {
        assert(host@.skip(base as int) =~= domain@);
    }
    if base == 0 {
        proof {
            assert(host@ =~= domain@);
        }
        true
    } else {
        host[base - 1] == '.'
    }
}

impl NetworkInterceptManager {
    /// Route a host name to its site category: first match in the fixed
    /// table of known registrable domains wins; no match yields the unknown
    /// category.
    pub fn from_host(host: &str) -> (r: Self)
        ensures
            r == spec_route(host@),
    {
        let h = chars_of(host);
        if host_matches(&h, &chars_of("amazon.com")) {
            NetworkInterceptManager::Amazon
        } else if host_matches(&h, &chars_of("ebay.com")) {
            NetworkInterceptManager::Ebay
        } else if host_matches(&h, &chars_of("facebook.com")) {
            NetworkInterceptManager::Facebook
        } else if host_matches(&h, &chars_of("linkedin.com")) {
            NetworkInterceptManager::Linkedin
        } else if host_matches(&h, &chars_of("medium.com")) {
            NetworkInterceptManager::Medium
        } else if host_matches(&h, &chars_of("netflix.com")) {
            NetworkInterceptManager::Netflix
        } else if host_matches(&h, &chars_of("nytimes.com")) {
            NetworkInterceptManager::Nytimes
        } else if host_matches(&h, &chars_of("reddit.com")) {
            NetworkInterceptManager::Reddit
        } else if host_matches(&h, &chars_of("tiktok.com")) {
            NetworkInterceptManager::Tiktok
        } else if host_matches(&h, &chars_of("upwork.com")) {
            NetworkInterceptManager::Upwork
        } else {
            NetworkInterceptManager::Unknown
        }
    }

    /// Classify a page origin. An absent origin, or one without a host,
    /// degrades to the unknown category rather than failing; an origin with
    /// a host routes by `from_host`.
    pub fn new(url: &Option<Box<url::Url>>) -> (r: Self)
        ensures
            r == spec_classify(*url),
    {
        match url {
            Some(u) => match host_of(u) {
                Some(h) => Self::from_host(h.as_str()),
                None => NetworkInterceptManager::Unknown,
            },
            None => NetworkInterceptManager::Unknown,
        }
    }

    /// Convenience: build the default classifier registry and apply
    /// `ClassifierRegistry::decide` with this category. Callers keeping a
    /// registry for a page's lifetime should call `decide` directly.
    pub fn intercept_detection(
        &self,
        url: &str,
        is_background: bool,
        is_media: bool,
    ) -> (r: bool)
        ensures
            r == default_decide(*self, url@, is_background, is_media),
    {
        let registry = ClassifierRegistry::new();
        let r = registry.decide(self, url, is_background, is_media);
        proof {
            lemma_default_decide(registry, *self, url@, is_background, is_media);
        }
        r
    }
}

/// Per-site refinement: an allow list whose matches are never blocked, and
/// a block list of site-specific trackers the generic lists do not cover.
pub struct SiteOverride {
    /// The known-site category this override applies to.
    pub category: NetworkInterceptManager,
    /// Patterns that must never be blocked for this site.
    pub allow_patterns: Vec<&'static str>,
    /// Trie over `allow_patterns`.
    pub allow: Trie,
    /// Additional site-specific patterns to block.
    pub block_patterns: Vec<&'static str>,
    /// Trie over `block_patterns`.
    pub block: Trie,
}

impl SiteOverride {
    /// The tries index exactly their pattern lists, and the catch-all
    /// category carries no override.
    pub open spec fn wf(self) -> bool {
        &&& trie_stores(self.allow, self.allow_patterns@)
        &&& trie_stores(self.block, self.block_patterns@)
        &&& self.category != NetworkInterceptManager::Unknown
    }
}

/// Index of the first override for `cat`, if any.
pub open spec fn override_index(s: Seq<SiteOverride>, cat: NetworkInterceptManager) -> Option<
    int,
>
    decreases s.len(),
{
    if s.len() == 0 {
        None
    } else if s[0].category == cat {
        Some(0)
    } else {
        match override_index(s.drop_first(), cat) {
            Some(i) => Some(i + 1),
            None => None,
        }
    }
}

/// Whether `c` is an ASCII letter, the only characters a scheme may start
/// with.
pub open spec fn is_alpha_char(c: char) -> bool {
    (('a' as u32) <= c as u32 && c as u32 <= ('z' as u32)) || (('A' as u32) <= c as u32 && c
        as u32 <= ('Z' as u32))
}

/// Whether `c` may occur in a URL scheme after its first character.
pub open spec fn is_scheme_char(c: char) -> bool {
    is_alpha_char(c) || (('0' as u32) <= c as u32 && c as u32 <= ('9' as u32)) || c == '+' || c
        == '-' || c == '.'
}

/// Whether `url` looks absolute: it starts with a scheme (a letter followed
/// by letters, digits, `+`, `-` or `.`) and then `://`.
pub open spec fn spec_is_absolute(url: Seq<char>) -> bool {
    exists|k: int|
        1 <= k && k + 3 <= url.len() && is_alpha_char(url[0]) && (forall|j: int|
            1 <= j < k ==> is_scheme_char(#[trigger] url[j])) && #[trigger] url[k] == ':' && url[
            k + 1
        ] == '/' && url[k + 2] == '/'
}

/// Whether `c` is an ASCII letter.
fn is_alpha(c: char) -> (r: bool)
    ensures
        r == is_alpha_char(c),
{
    let u = c as u32;
    (('a' as u32) <= u && u <= ('z' as u32)) || (('A' as u32) <= u && u <= ('Z' as u32))
}

/// Whether `c` may occur in a URL scheme after its first character.
fn is_scheme(c: char) -> (r: bool)
    ensures
        r == is_scheme_char(c),
{
    let u = c as u32;
    if is_alpha(c) {
        true
    } else {
        (('0' as u32) <= u && u <= ('9' as u32)) || c == '+' || c == '-' || c == '.'
    }
}

/// Whether `url` starts with a scheme followed by `://`.
fn is_absolute(url: &str) -> (r: bool)
    ensures
        r == spec_is_absolute(url@),
{
    let chars = chars_of(url);
    if chars.len() == 0 {
        return false;
    }
    if !is_alpha(chars[0]) {
        return false;
    }
    let mut i: usize = 1;
    while i < chars.len()
        invariant
            1 <= i <= chars@.len(),
            chars@ == url@,
            is_alpha_char(url@[0]),
            forall|j: int| 1 <= j < i ==> is_scheme_char(#[trigger] url@[j]),
        decreases chars@.len() - i,
    {
        let c = chars[i];
        if c == ':' {
            let slashes = chars.len() - i > 2 && chars[i + 1] == '/' && chars[i + 2] == '/';
            proof {
                assert(!is_scheme_char(':'));
                if slashes {
                    assert(url@[i as int] == ':' && url@[i as int + 1] == '/' && url@[
                        i as int + 2
                    ] == '/');
                } else if spec_is_absolute(url@) {
                    let k = choose|k: int|
                        1 <= k && k + 3 <= url@.len() && is_alpha_char(url@[0]) && (forall|j: int|
                            1 <= j < k ==> is_scheme_char(#[trigger] url@[j])) && #[trigger] url@[k]
                            == ':' && url@[k + 1] == '/' && url@[k + 2] == '/';
                    if k < i {
                        assert(is_scheme_char(url@[k]));
                    } else if k > i {
                        assert(is_scheme_char(url@[i as int]));
                    }
                }
            }
            return slashes;
        }
        if !is_scheme(c) {
            proof {
                assert(!is_scheme_char(':'));
                if spec_is_absolute(url@) {
                    let k = choose|k: int|
                        1 <= k && k + 3 <= url@.len() && is_alpha_char(url@[0]) && (forall|j: int|
                            1 <= j < k ==> is_scheme_char(#[trigger] url@[j])) && #[trigger] url@[k]
                            == ':' && url@[k + 1] == '/' && url@[k + 2] == '/';
                    if k < i {
                        assert(is_scheme_char(url@[k]));
                    } else if k == i {
                        assert(url@[i as int] == ':');
                    } else {
                        assert(is_scheme_char(url@[i as int]));
                    }
                }
            }
            return false;
        }
        i += 1;
    }
    proof {
        assert(!is_scheme_char(':'));
        if spec_is_absolute(url@) {
            let k = choose|k: int|
                1 <= k && k + 3 <= url@.len() && is_alpha_char(url@[0]) && (forall|j: int|
                    1 <= j < k ==> is_scheme_char(#[trigger] url@[j])) && #[trigger] url@[k] == ':'
                    && url@[k + 1] == '/' && url@[k + 2] == '/';
            assert(is_scheme_char(url@[k]));
        }
    }
    false
}

/// The fixed set of named prefix-trie classifiers, one per resource-type
/// and blocking purpose, with each trie's pattern list kept beside it.
/// Built once, read-only thereafter.
pub struct ClassifierRegistry {
    /// Ad and analytics script-loader patterns.
    pub scripts_patterns: Vec<&'static str>,
    /// Trie over `scripts_patterns`.
    pub scripts: Trie,
    /// Third-party iframe embed patterns.
    pub embedded_patterns: Vec<&'static str>,
    /// Trie over `embedded_patterns`.
    pub embedded: Trie,
    /// Background telemetry and analytics patterns.
    pub xhr_patterns: Vec<&'static str>,
    /// Trie over `xhr_patterns`.
    pub xhr: Trie,
    /// Separately filtered media-fetch patterns.
    pub xhr_media_patterns: Vec<&'static str>,
    /// Trie over `xhr_media_patterns`.
    pub xhr_media: Trie,
    /// Relative base-path patterns.
    pub base_path_patterns: Vec<&'static str>,
    /// Trie over `base_path_patterns`.
    pub base_paths: Trie,
    /// Relative style-path patterns.
    pub style_path_patterns: Vec<&'static str>,
    /// Trie over `style_path_patterns`.
    pub style_paths: Trie,
    /// Standalone filename patterns.
    pub file_patterns: Vec<&'static str>,
    /// Trie over `file_patterns`.
    pub file_paths: Trie,
    /// Site-specific refinements, at most one per known-site category.
    pub site_overrides: Vec<SiteOverride>,
}

/// Whether a registry holds the default configuration: each pattern list is
/// the compiled-in default, and the override table is the default table.
pub open spec fn is_default_registry(r: ClassifierRegistry) -> bool {
    &&& patterns_view(r.scripts_patterns@) == script_pattern_list()
    &&& patterns_view(r.embedded_patterns@) == embedded_pattern_list()
    &&& patterns_view(r.xhr_patterns@) == xhr_pattern_list()
    &&& patterns_view(r.xhr_media_patterns@) == xhr_media_pattern_list()
    &&& patterns_view(r.base_path_patterns@) == base_path_pattern_list()
    &&& patterns_view(r.style_path_patterns@) == style_path_pattern_list()
    &&& patterns_view(r.file_patterns@) == file_pattern_list()
    &&& is_default_override_table(r.site_overrides@)
}

impl ClassifierRegistry {
    /// Every trie indexes exactly its pattern list.
    pub open spec fn wf(self) -> bool {
        &&& trie_stores(self.scripts, self.scripts_patterns@)
        &&& trie_stores(self.embedded, self.embedded_patterns@)
        &&& trie_stores(self.xhr, self.xhr_patterns@)
        &&& trie_stores(self.xhr_media, self.xhr_media_patterns@)
        &&& trie_stores(self.base_paths, self.base_path_patterns@)
        &&& trie_stores(self.style_paths, self.style_path_patterns@)
        &&& trie_stores(self.file_paths, self.file_patterns@)
        &&& forall|i: int|
            0 <= i < self.site_overrides@.len() ==> (#[trigger] self.site_overrides@[i]).wf()
    }

    /// The generic verdict, before site overrides: background requests
    /// consult the XHR classifier, and additionally the XHR-media
    /// classifier when flagged as media; other requests consult the script
    /// and embedded classifiers when the URL is absolute, and the
    /// base-path, filename and (when flagged) style-path classifiers when
    /// it is relative.
    pub open spec fn spec_provisional(
        self,
        url: Seq<char>,
        is_background: bool,
        is_media: bool,
    ) -> bool {
        if is_background {
            self.xhr.spec_contains_prefix(url) || (is_media
                && self.xhr_media.spec_contains_prefix(url))
        } else if spec_is_absolute(url) {
            self.scripts.spec_contains_prefix(url) || self.embedded.spec_contains_prefix(url)
        } else {
            self.base_paths.spec_contains_prefix(url) || self.file_paths.spec_contains_prefix(url)
                || (is_media && self.style_paths.spec_contains_prefix(url))
        }
    }

    /// The verdict with the category's refinement applied: a match in its
    /// allow list yields false, otherwise a match in its block list yields
    /// true, and with neither, or with no table entry for the category at
    /// all, the provisional verdict of the generic classifiers stands.
    pub open spec fn spec_decide(
        self,
        cat: NetworkInterceptManager,
        url: Seq<char>,
        is_background: bool,
        is_media: bool,
    ) -> bool {
        match override_index(self.site_overrides@, cat) {
            Some(i) => {
                let ov = self.site_overrides@[i];
                if ov.allow.spec_contains_prefix(url) {
                    false
                } else if ov.block.spec_contains_prefix(url) {
                    true
                } else {
                    self.spec_provisional(url, is_background, is_media)
                }
            },
            None => self.spec_provisional(url, is_background, is_media),
        }
    }

    /// Build the registry from the compiled-in default pattern lists.
    pub fn new() -> (r: Self)
        ensures
            r.wf(),
            is_default_registry(r),
    {
        let scripts_patterns = url_ignore_patterns();
        let scripts = trie_from_patterns(&scripts_patterns);
        let embedded_patterns = url_ignore_embeded_patterns();
        let embedded = trie_from_patterns(&embedded_patterns);
        let xhr_patterns = url_ignore_xhr_patterns();
        let xhr = trie_from_patterns(&xhr_patterns);
        let xhr_media_patterns = url_ignore_xhr_media_patterns();
        let xhr_media = trie_from_patterns(&xhr_media_patterns);
        let base_path_patterns = url_ignore_script_base_path_patterns();
        let base_paths = trie_from_patterns(&base_path_patterns);
        let style_path_patterns = url_ignore_script_style_path_patterns();
        let style_paths = trie_from_patterns(&style_path_patterns);
        let file_patterns = url_ignore_path_patterns();
        let file_paths = trie_from_patterns(&file_patterns);
        let site_overrides = default_site_overrides();
        ClassifierRegistry {
            scripts_patterns,
            scripts,
            embedded_patterns,
            embedded,
            xhr_patterns,
            xhr,
            xhr_media_patterns,
            xhr_media,
            base_path_patterns,
            base_paths,
            style_path_patterns,
            style_paths,
            file_patterns,
            file_paths,
            site_overrides,
        }
    }

    /// Find the override entry for `cat`, scanning in order.
    fn find_override(&self, cat: &NetworkInterceptManager) -> (r: Option<usize>)
        ensures
            match r {
                Some(j) => j < self.site_overrides@.len() && override_index(
                    self.site_overrides@,
                    *cat,
                ) == Some(j as int),
                None => override_index(self.site_overrides@, *cat) is None,
            },
    {
        let mut j: usize = 0;
        while j < self.site_overrides.len()
            invariant
                j <= self.site_overrides@.len(),
                forall|k: int|
                    0 <= k < j ==> (#[trigger] self.site_overrides@[k]).category != *cat,
            decreases self.site_overrides@.len() - j,
        {
            let entry = &self.site_overrides[j];
            if entry.category == *cat {
                proof {
                    lemma_override_index_at(self.site_overrides@, *cat, j as int);
                }
                return Some(j);
            }
            j += 1;
        }
        proof {
            lemma_override_index(self.site_overrides@, *cat);
        }
        None
    }

    /// The generic verdict of the trie classifiers selected by the flags.
    fn provisional(&self, url: &str, is_background: bool, is_media: bool) -> (r: bool)
        ensures
            r == self.spec_provisional(url@, is_background, is_media),
    {
        if is_background {
            if self.xhr.contains_prefix(url) {
                true
            } else {
                is_media && self.xhr_media.contains_prefix(url)
            }
        } else if is_absolute(url) {
            if self.scripts.contains_prefix(url) {
                true
            } else {
                self.embedded.contains_prefix(url)
            }
        } else {
            if self.base_paths.contains_prefix(url) {
                true
            } else if self.file_paths.contains_prefix(url) {
                true
            } else {
                is_media && self.style_paths.contains_prefix(url)
            }
        }
    }

    /// Decide whether the request `url`, made from a page of category
    /// `category` with the given flags, should be blocked.
    pub fn decide(
        &self,
        category: &NetworkInterceptManager,
        url: &str,
        is_background: bool,
        is_media: bool,
    ) -> (r: bool)
        ensures
            r == self.spec_decide(*category, url@, is_background, is_media),
    {
        match self.find_override(category) {
            Some(j) => {
                let ov = &self.site_overrides[j];
                if ov.allow.contains_prefix(url) {
                    false
                } else if ov.block.contains_prefix(url) {
                    true
                } else {
                    self.provisional(url, is_background, is_media)
                }
            },
            None => self.provisional(url, is_background, is_media),
        }
    }
}

/// What `override_index` returns: the first position holding `cat`.
proof fn lemma_override_index(s: Seq<SiteOverride>, cat: NetworkInterceptManager)
    ensures
        match override_index(s, cat) {
            Some(j) => 0 <= j < s.len() && s[j].category == cat && forall|k: int|
                0 <= k < j ==> (#[trigger] s[k]).category != cat,
            None => forall|k: int| 0 <= k < s.len() ==> (#[trigger] s[k]).category != cat,
        },
    decreases s.len(),
{
    if s.len() > 0 && s[0].category != cat {
        lemma_override_index(s.drop_first(), cat);
        assert forall|k: int| 1 <= k < s.len() implies (#[trigger] s[k]).category == s.drop_first()[
            k - 1
        ].category by {}
    }
}

/// The first position holding `cat` is what `override_index` returns.
proof fn lemma_override_index_at(s: Seq<SiteOverride>, cat: NetworkInterceptManager, j: int)
    requires
        0 <= j < s.len(),
        s[j].category == cat,
        forall|k: int| 0 <= k < j ==> (#[trigger] s[k]).category != cat,
    ensures
        override_index(s, cat) == Some(j),
    decreases s.len(),
{
    if j > 0 {
        lemma_override_index_at(s.drop_first(), cat, j - 1);
    }
}

/// Build one site override from its configuration lists.
fn make_override(
    category: NetworkInterceptManager,
    allow_patterns: Vec<&'static str>,
    block_patterns: Vec<&'static str>,
) -> (r: SiteOverride)
    requires
        category != NetworkInterceptManager::Unknown,
    ensures
        r.wf(),
        r.category == category,
        r.allow_patterns@ == allow_patterns@,
        r.block_patterns@ == block_patterns@,
{
    let allow = trie_from_patterns(&allow_patterns);
    let block = trie_from_patterns(&block_patterns);
    SiteOverride { category, allow_patterns, allow, block_patterns, block }
}

/// Views of the amazon.com allow patterns.
pub open spec fn amazon_allow_list() -> Seq<Seq<char>> {
    seq![
        "https://m.media-amazon.com/images/"@,
        "https://images-na.ssl-images-amazon.com/images/"@,
        "https://completion.amazon.com/api/"@,
    ]
}

/// Views of the amazon.com block patterns.
pub open spec fn amazon_block_list() -> Seq<Seq<char>> {
    seq![
        "https://fls-na.amazon.com/"@,
        "https://device-metrics-us.amazon.com/"@,
        "https://unagi-na.amazon.com/"@,
    ]
}

/// Views of the facebook.com allow patterns.
pub open spec fn facebook_allow_list() -> Seq<Seq<char>> {
    seq!["https://static.xx.fbcdn.net/"@, "https://connect.facebook.net/en_US/sdk.js"@]
}

/// Views of the facebook.com block patterns.
pub open spec fn facebook_block_list() -> Seq<Seq<char>> {
    seq!["https://graph.facebook.com/network_ads_common"@, "https://www.facebook.com/tr/"@]
}

/// Views of the reddit.com allow patterns.
pub open spec fn reddit_allow_list() -> Seq<Seq<char>> {
    seq!["https://www.redditstatic.com/shreddit/"@]
}

/// Views of the reddit.com block patterns.
pub open spec fn reddit_block_list() -> Seq<Seq<char>> {
    seq!["https://events.reddit.com/"@, "https://w3-reporting.reddit.com/"@]
}

/// Views of the nytimes.com block patterns.
pub open spec fn nytimes_block_list() -> Seq<Seq<char>> {
    seq![
        "https://a.et.nytimes.com/"@,
        "https://samizdat-graphql.nytimes.com/graphql/v2?operationName=Ping"@,
    ]
}

/// Views of the tiktok.com block patterns.
pub open spec fn tiktok_block_list() -> Seq<Seq<char>> {
    seq!["https://mcs.tiktokv.us/v1/list"@, "https://webcast.us.tiktok.com/webcast/report/"@]
}

/// Allow-list patterns for the amazon.com category: first-party asset hosts
/// that resemble tracked patterns but must not be blocked.
fn amazon_allow_patterns() -> (r: Vec<&'static str>)
    ensures
        patterns_view(r@) == amazon_allow_list(),
{
    let mut r: Vec<&'static str> = Vec::new();
    r.push("https://m.media-amazon.com/images/");
    r.push("https://images-na.ssl-images-amazon.com/images/");
    r.push("https://completion.amazon.com/api/");
    proof {
        assert(patterns_view(r@) =~= amazon_allow_list());
    }
    r
}

/// Block-list patterns for the amazon.com category: site-specific telemetry
/// endpoints the generic lists do not cover.
fn amazon_block_patterns() -> (r: Vec<&'static str>)
    ensures
        patterns_view(r@) == amazon_block_list(),
{
    let mut r: Vec<&'static str> = Vec::new();
    r.push("https://fls-na.amazon.com/");
    r.push("https://device-metrics-us.amazon.com/");
    r.push("https://unagi-na.amazon.com/");
    proof {
        assert(patterns_view(r@) =~= amazon_block_list());
    }
    r
}

/// Allow-list patterns for the facebook.com category: first-party scripts
/// that the generic lists would block but that the site needs.
fn facebook_allow_patterns() -> (r: Vec<&'static str>)
    ensures
        patterns_view(r@) == facebook_allow_list(),
{
    let mut r: Vec<&'static str> = Vec::new();
    r.push("https://static.xx.fbcdn.net/");
    r.push("https://connect.facebook.net/en_US/sdk.js");
    proof {
        assert(patterns_view(r@) =~= facebook_allow_list());
    }
    r
}

/// Block-list patterns for the facebook.com category.
fn facebook_block_patterns() -> (r: Vec<&'static str>)
    ensures
        patterns_view(r@) == facebook_block_list(),
{
    let mut r: Vec<&'static str> = Vec::new();
    r.push("https://graph.facebook.com/network_ads_common");
    r.push("https://www.facebook.com/tr/");
    proof {
        assert(patterns_view(r@) =~= facebook_block_list());
    }
    r
}

/// Allow-list patterns for the reddit.com category.
fn reddit_allow_patterns() -> (r: Vec<&'static str>)
    ensures
        patterns_view(r@) == reddit_allow_list(),
{
    let mut r: Vec<&'static str> = Vec::new();
    r.push("https://www.redditstatic.com/shreddit/");
    proof {
        assert(patterns_view(r@) =~= reddit_allow_list());
    }
    r
}

/// Block-list patterns for the reddit.com category.
fn reddit_block_patterns() -> (r: Vec<&'static str>)
    ensures
        patterns_view(r@) == reddit_block_list(),
{
    let mut r: Vec<&'static str> = Vec::new();
    r.push("https://events.reddit.com/");
    r.push("https://w3-reporting.reddit.com/");
    proof {
        assert(patterns_view(r@) =~= reddit_block_list());
    }
    r
}

/// Block-list patterns for the nytimes.com category.
fn nytimes_block_patterns() -> (r: Vec<&'static str>)
    ensures
        patterns_view(r@) == nytimes_block_list(),
{
    let mut r: Vec<&'static str> = Vec::new();
    r.push("https://a.et.nytimes.com/");
    r.push("https://samizdat-graphql.nytimes.com/graphql/v2?operationName=Ping");
    proof {
        assert(patterns_view(r@) =~= nytimes_block_list());
    }
    r
}

/// Block-list patterns for the tiktok.com category.
fn tiktok_block_patterns() -> (r: Vec<&'static str>)
    ensures
        patterns_view(r@) == tiktok_block_list(),
{
    let mut r: Vec<&'static str> = Vec::new();
    r.push("https://mcs.tiktokv.us/v1/list");
    r.push("https://webcast.us.tiktok.com/webcast/report/");
    proof {
        assert(patterns_view(r@) =~= tiktok_block_list());
    }
    r
}

/// Whether the override table is the default one: one entry per refined
/// site, holding the default allow and block lists.
pub open spec fn is_default_override_table(s: Seq<SiteOverride>) -> bool {
    &&& s.len() == 5
    &&& s[0].category == NetworkInterceptManager::Amazon
    &&& patterns_view(s[0].allow_patterns@) == amazon_allow_list()
    &&& patterns_view(s[0].block_patterns@) == amazon_block_list()
    &&& s[1].category == NetworkInterceptManager::Facebook
    &&& patterns_view(s[1].allow_patterns@) == facebook_allow_list()
    &&& patterns_view(s[1].block_patterns@) == facebook_block_list()
    &&& s[2].category == NetworkInterceptManager::Reddit
    &&& patterns_view(s[2].allow_patterns@) == reddit_allow_list()
    &&& patterns_view(s[2].block_patterns@) == reddit_block_list()
    &&& s[3].category == NetworkInterceptManager::Nytimes
    &&& patterns_view(s[3].allow_patterns@) == Seq::<Seq<char>>::empty()
    &&& patterns_view(s[3].block_patterns@) == nytimes_block_list()
    &&& s[4].category == NetworkInterceptManager::Tiktok
    &&& patterns_view(s[4].allow_patterns@) == Seq::<Seq<char>>::empty()
    &&& patterns_view(s[4].block_patterns@) == tiktok_block_list()
}

/// The default table of site-specific refinements.
fn default_site_overrides() -> (r: Vec<SiteOverride>)
    ensures
        forall|i: int| 0 <= i < r@.len() ==> (#[trigger] r@[i]).wf(),
        is_default_override_table(r@),
{
    let mut r: Vec<SiteOverride> = Vec::new();
    r.push(
        make_override(
            NetworkInterceptManager::Amazon,
            amazon_allow_patterns(),
            amazon_block_patterns(),
        ),
    );
    r.push(
        make_override(
            NetworkInterceptManager::Facebook,
            facebook_allow_patterns(),
            facebook_block_patterns(),
        ),
    );
    r.push(
        make_override(
            NetworkInterceptManager::Reddit,
            reddit_allow_patterns(),
            reddit_block_patterns(),
        ),
    );
    r.push(
        make_override(NetworkInterceptManager::Nytimes, Vec::new(), nytimes_block_patterns()),
    );
    r.push(
        make_override(NetworkInterceptManager::Tiktok, Vec::new(), tiktok_block_patterns()),
    );
    proof {
        assert(patterns_view(Seq::<&'static str>::empty()) =~= Seq::<Seq<char>>::empty());
    }
    r
}

/// The default allow list a category carries.
pub open spec fn default_allow_list(cat: NetworkInterceptManager) -> Seq<Seq<char>> {
    match cat {
        NetworkInterceptManager::Amazon => amazon_allow_list(),
        NetworkInterceptManager::Facebook => facebook_allow_list(),
        NetworkInterceptManager::Reddit => reddit_allow_list(),
        _ => Seq::<Seq<char>>::empty(),
    }
}

/// The default block list a category carries.
pub open spec fn default_block_list(cat: NetworkInterceptManager) -> Seq<Seq<char>> {
    match cat {
        NetworkInterceptManager::Amazon => amazon_block_list(),
        NetworkInterceptManager::Facebook => facebook_block_list(),
        NetworkInterceptManager::Reddit => reddit_block_list(),
        NetworkInterceptManager::Nytimes => nytimes_block_list(),
        NetworkInterceptManager::Tiktok => tiktok_block_list(),
        _ => Seq::<Seq<char>>::empty(),
    }
}

/// The position a category holds in the default override table.
pub open spec fn default_override_slot(cat: NetworkInterceptManager) -> Option<int> {
    match cat {
        NetworkInterceptManager::Amazon => Some(0int),
        NetworkInterceptManager::Facebook => Some(1int),
        NetworkInterceptManager::Reddit => Some(2int),
        NetworkInterceptManager::Nytimes => Some(3int),
        NetworkInterceptManager::Tiktok => Some(4int),
        _ => None,
    }
}

/// The generic verdict of the default pattern lists: background requests
/// consult the XHR list, and additionally the XHR-media list when flagged
/// as media; other requests consult the script and embedded lists when the
/// URL is absolute, and the base-path, filename and (when flagged)
/// style-path lists when it is relative.
pub open spec fn default_provisional(url: Seq<char>, is_background: bool, is_media: bool) -> bool {
    if is_background {
        list_prefix_match(xhr_pattern_list(), url) || (is_media && list_prefix_match(
            xhr_media_pattern_list(),
            url,
        ))
    } else if spec_is_absolute(url) {
        list_prefix_match(script_pattern_list(), url) || list_prefix_match(
            embedded_pattern_list(),
            url,
        )
    } else {
        list_prefix_match(base_path_pattern_list(), url) || list_prefix_match(
            file_pattern_list(),
            url,
        ) || (is_media && list_prefix_match(style_path_pattern_list(), url))
    }
}

/// The verdict of the default configuration for a request: the category's
/// default allow list wins, then its default block list, then the generic
/// verdict of the default pattern lists.
pub open spec fn default_decide(
    cat: NetworkInterceptManager,
    url: Seq<char>,
    is_background: bool,
    is_media: bool,
) -> bool {
    if list_prefix_match(default_allow_list(cat), url) {
        false
    } else if list_prefix_match(default_block_list(cat), url) {
        true
    } else {
        default_provisional(url, is_background, is_media)
    }
}

/// In the default override table, `override_index` finds exactly the
/// category's slot.
proof fn lemma_default_override_slot(s: Seq<SiteOverride>, cat: NetworkInterceptManager)
    requires
        is_default_override_table(s),
    ensures
        override_index(s, cat) == default_override_slot(cat),
{
    reveal_with_fuel(override_index, 7);
    assert(s.drop_first()[0] == s[1]);
    assert(s.drop_first().drop_first()[0] == s[2]);
    assert(s.drop_first().drop_first().drop_first()[0] == s[3]);
    assert(s.drop_first().drop_first().drop_first().drop_first()[0] == s[4]);
    assert(s.drop_first().drop_first().drop_first().drop_first().drop_first().len() == 0);
}

/// On a registry holding the default configuration, `decide`'s verdict is
/// the default verdict.
pub proof fn lemma_default_decide(
    reg: ClassifierRegistry,
    cat: NetworkInterceptManager,
    url: Seq<char>,
    is_background: bool,
    is_media: bool,
)
    requires
        reg.wf(),
        is_default_registry(reg),
    ensures
        reg.spec_decide(cat, url, is_background, is_media) == default_decide(
            cat,
            url,
            is_background,
            is_media,
        ),
{
    lemma_trie_list_prefix_view(reg.scripts, reg.scripts_patterns@, url);
    lemma_trie_list_prefix_view(reg.embedded, reg.embedded_patterns@, url);
    lemma_trie_list_prefix_view(reg.xhr, reg.xhr_patterns@, url);
    lemma_trie_list_prefix_view(reg.xhr_media, reg.xhr_media_patterns@, url);
    lemma_trie_list_prefix_view(reg.base_paths, reg.base_path_patterns@, url);
    lemma_trie_list_prefix_view(reg.style_paths, reg.style_path_patterns@, url);
    lemma_trie_list_prefix_view(reg.file_paths, reg.file_patterns@, url);
    lemma_default_override_slot(reg.site_overrides@, cat);
    match default_override_slot(cat) {
        Some(i) => {
            let ov = reg.site_overrides@[i];
            assert(ov.wf());
            lemma_trie_list_prefix_view(ov.allow, ov.allow_patterns@, url);
            lemma_trie_list_prefix_view(ov.block, ov.block_patterns@, url);
            assert(patterns_view(ov.allow_patterns@) == default_allow_list(cat));
            assert(patterns_view(ov.block_patterns@) == default_block_list(cat));
        },
        None => {
            assert(!list_prefix_match(Seq::<Seq<char>>::empty(), url));
        },
    }
}

} // verus!
