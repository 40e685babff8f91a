use vstd::prelude::*;
use crate::error::StreamError;
use crate::pattern::{pattern_is_match, regex_compiles, regex_matches};
use vstd::string::*;

verus! {

/// The platforms that the registry knows.
#[derive(Clone, Copy, Debug, PartialEq, Eq, Structural)]
pub enum Site {
    Xingyan,
    Panda,
    Douyu,
    Afreeca,
    Inke,
    Douyin,
    TikTok,
}

impl Site {
    /// The URL pattern of the platform, as a regular expression.
    pub open spec fn pattern_spec(self) -> Seq<char> {
        match self {
            Site::Xingyan => r"^(?:https?://)?xingyan\.panda\.tv/[0-9]+/?"@,
            Site::Panda => r"^(?:https?://)?(?:www\.)?panda\.tv/[0-9]+/?"@,
            Site::Douyu => r"^(?:https?://)?(?:www\.)?douyu\.com/[a-zA-Z0-9]+/?"@,
            Site::Afreeca => r"^(?:https?://)?(?:www\.)?(?:play\.)?afreecatv.com/[a-zA-Z0-9]+/?(?:/[0-9]+)?"@,
            Site::Inke => r"^(?:https?://)?(?:www\.)?inke\.cn/live\.html\?uid=[0-9]+"@,
            Site::Douyin => r"^(?:https?://)?(?:www\.)?iesdouyin\.com/.*"@,
            Site::TikTok => r"^(?:https?://)?(?:www\.)?(?:m\.)?tiktok\.com/v/(?:[a-zA-Z0-9]+)(?:\.html)?"@,
        }
    }

    /// The URL pattern of the platform.
    pub fn pattern(self) -> (r: &'static str)
        ensures
            r@ == self.pattern_spec(),
    {
        match self {
            Site::Xingyan => r"^(?:https?://)?xingyan\.panda\.tv/[0-9]+/?",
            Site::Panda => r"^(?:https?://)?(?:www\.)?panda\.tv/[0-9]+/?",
            Site::Douyu => r"^(?:https?://)?(?:www\.)?douyu\.com/[a-zA-Z0-9]+/?",
            Site::Afreeca => r"^(?:https?://)?(?:www\.)?(?:play\.)?afreecatv.com/[a-zA-Z0-9]+/?(?:/[0-9]+)?",
            Site::Inke => r"^(?:https?://)?(?:www\.)?inke\.cn/live\.html\?uid=[0-9]+",
            Site::Douyin => r"^(?:https?://)?(?:www\.)?iesdouyin\.com/.*",
            Site::TikTok => r"^(?:https?://)?(?:www\.)?(?:m\.)?tiktok\.com/v/(?:[a-zA-Z0-9]+)(?:\.html)?",
        }
    }
}

/// The registry in the order it is consulted: a platform's narrow subdomain
/// pattern stands before the broader pattern of the same platform's domain.
pub open spec fn registry_spec() -> Seq<Site> {
    seq![Site::Xingyan, Site::Panda, Site::Douyu, Site::Afreeca, Site::Inke, Site::Douyin, Site::TikTok]
}

/// Whether a platform's pattern compiles and matches the input.
pub open spec fn site_matches(site: Site, input: Seq<char>) -> bool {
    regex_compiles(site.pattern_spec()) && regex_matches(site.pattern_spec(), input)
}

/// First-match lookup over `order`: the first platform whose pattern matches, or
/// `None`; `Err` where a pattern consulted before any match does not compile.
pub open spec fn lookup(order: Seq<Site>, input: Seq<char>) -> Result<Option<Site>, ()>
    decreases order.len(),
{
    if order.len() == 0 {
        Ok(None)
    } else if !regex_compiles(order[0].pattern_spec()) {
        Err(())
    } else if regex_matches(order[0].pattern_spec(), input) {
        Ok(Some(order[0]))
    } else {
        lookup(order.drop_first(), input)
    }
}

/// The registered platforms, in the order they are consulted.
pub fn registry() -> (r: Vec<Site>)
    ensures
        r@ == registry_spec(),
{
    let mut r: Vec<Site> = Vec::new();
    r.push(Site::Xingyan);
    r.push(Site::Panda);
    r.push(Site::Douyu);
    r.push(Site::Afreeca);
    r.push(Site::Inke);
    r.push(Site::Douyin);
    r.push(Site::TikTok);
    assert(r@ =~= registry_spec());
    r
}

/// The platform that owns `input`: the first registered pattern that matches.
pub fn match_site(input: &str) -> (r: Result<Option<Site>, StreamError>)
    ensures
        lookup(registry_spec(), input@) matches Ok(o) ==> r matches Ok(p) && p == o,
        lookup(registry_spec(), input@) is Err ==> r matches Err(StreamError::MalformedPattern),
{
    let sites = registry();
    let mut i: usize = 0;
    assert(sites@.skip(0) =~= sites@);
    while i < sites.len()
        invariant
            sites@ == registry_spec(),
            i <= sites.len(),
            lookup(sites@.skip(i as int), input@) == lookup(registry_spec(), input@),
        decreases sites.len() - i,
    {
        let site = sites[i];
        assert(sites@.skip(i as int)[0] == site);
        assert(sites@.skip(i as int).drop_first() =~= sites@.skip(i + 1));
        match pattern_is_match(site.pattern(), input) {
            Err(_) => {
                return Err(StreamError::MalformedPattern);
            },
            Ok(true) => {
                return Ok(Some(site));
            },
            Ok(false) => {},
        }
        i = i + 1;
    }
    assert(sites@.skip(i as int).len() == 0);
    Ok(None)
}

} // verus!

verus! {

/// What the resolver asks its caller to do next.
#[derive(Clone, Debug)]
pub enum SiteAction {
    /// Build the plugin of this platform from this URL; its own error, if any,
    /// is surfaced as it is.
    Construct(Site, String),
    /// No pattern matched: resolve the redirects of this URL once and hand the
    /// final URL to `get_site_redirected`.
    FollowRedirect(String),
    /// Resolution ends with this error.
    Fail(StreamError),
}

/// The action for `input`, where `redirected` tells whether the redirect
/// fallback has already been taken.
pub open spec fn decides(input: Seq<char>, redirected: bool, r: SiteAction) -> bool {
    match lookup(registry_spec(), input) {
        Ok(Some(s)) => r matches SiteAction::Construct(t, u) && t == s && u@ == input,
        Ok(None) => if redirected {
            r matches SiteAction::Fail(StreamError::UnsupportedSite)
        } else {
            r matches SiteAction::FollowRedirect(u) && u@ == input
        },
        Err(_) => r matches SiteAction::Fail(StreamError::MalformedPattern),
    }
}

/// A platform in `order` whose pattern matches keeps the lookup from ending
/// with "no match".
pub proof fn lemma_match_is_not_none(order: Seq<Site>, site: Site, input: Seq<char>)
    requires
        order.contains(site),
        site_matches(site, input),
    ensures
        lookup(order, input) != Ok::<Option<Site>, ()>(None),
    decreases order.len(),
{
    if order[0] != site {
        let k = choose|k: int| 0 <= k < order.len() && order[k] == site;
        assert(order.drop_first()[k - 1] == site);
        lemma_match_is_not_none(order.drop_first(), site, input);
    }
}

/// First step of resolution: the first matching platform's constructor, or
/// the redirect fallback where no pattern matches. The fallback is asked for
/// exactly when the lookup finds no match, so an input that any registered
/// pattern matches never takes it.
pub fn get_site(input: &str) -> (r: SiteAction)
    ensures
        decides(input@, false, r),
        r is FollowRedirect <==> lookup(registry_spec(), input@) == Ok::<Option<Site>, ()>(None),
        (exists|s: Site| site_matches(s, input@)) ==> !(r is FollowRedirect),
{
    proof {
        if exists|s: Site| site_matches(s, input@) {
            let s = choose|s: Site| site_matches(s, input@);
            assert(registry_spec().contains(s)) by {
                match s {
                    Site::Xingyan => assert(registry_spec()[0] == s),
                    Site::Panda => assert(registry_spec()[1] == s),
                    Site::Douyu => assert(registry_spec()[2] == s),
                    Site::Afreeca => assert(registry_spec()[3] == s),
                    Site::Inke => assert(registry_spec()[4] == s),
                    Site::Douyin => assert(registry_spec()[5] == s),
                    Site::TikTok => assert(registry_spec()[6] == s),
                }
            }
            lemma_match_is_not_none(registry_spec(), s, input@);
        }
    }
    match match_site(input) {
        Ok(Some(site)) => SiteAction::Construct(site, String::from_str(input)),
        Ok(None) => SiteAction::FollowRedirect(String::from_str(input)),
        Err(e) => SiteAction::Fail(e),
    }
}

/// Second and last step of resolution, given the outcome of the one redirect
/// resolution: a failed request surfaces its own error; a final URL is looked
/// up once more, and no match there is an unsupported site. It never asks for
/// a second redirect.
pub fn get_site_redirected(outcome: Result<String, StreamError>) -> (r: SiteAction)
    ensures
        outcome matches Err(e) ==> r == SiteAction::Fail(e),
        outcome matches Ok(u) ==> decides(u@, true, r),
        !(r is FollowRedirect),
{
    match outcome {
        Err(e) => SiteAction::Fail(e),
        Ok(final_url) => match match_site(final_url.as_str()) {
            Ok(Some(site)) => SiteAction::Construct(site, final_url),
            Ok(None) => SiteAction::Fail(StreamError::UnsupportedSite),
            Err(e) => SiteAction::Fail(e),
        },
    }
}

/// Where a URL matches both the narrow `xingyan.panda.tv` subdomain pattern and
/// the broad `panda.tv` pattern, the subdomain's platform is selected.
pub proof fn lemma_subdomain_precedence(input: Seq<char>)
    requires
        site_matches(Site::Xingyan, input),
        site_matches(Site::Panda, input),
    ensures
        lookup(registry_spec(), input) == Ok::<Option<Site>, ()>(Some(Site::Xingyan)),
{
    assert(registry_spec()[0] == Site::Xingyan);
}

/// Once a redirect target matches a registered pattern, resolving it after the
/// fallback decides exactly as passing the target directly would.
pub proof fn lemma_redirect_target_as_direct(target: Seq<char>, r: SiteAction)
    requires
        lookup(registry_spec(), target) matches Ok(Some(_)),
    ensures
        decides(target, true, r) <==> decides(target, false, r),
{
}

} // verus!
