use rsget_lib::error::StreamError;
use rsget_lib::sites::{get_site, get_site_redirected, match_site, registry, Site, SiteAction};
use rsget_lib::xingyan2::Xingyan2;

fn constructed(a: &SiteAction) -> Option<(Site, String)> {
    match a {
        SiteAction::Construct(s, u) => Some((*s, u.clone())),
        _ => None,
    }
}

#[test]
fn registry_puts_subdomain_before_domain() {
    let r = registry();
    assert_eq!(r.len(), 7);
    assert_eq!(r[0], Site::Xingyan);
    assert_eq!(r[1], Site::Panda);
    assert_eq!(r[6], Site::TikTok);
}

#[test]
fn generic_panda_url_selects_panda() {
    assert!(matches!(match_site("panda.tv/12345"), Ok(Some(Site::Panda))));
    let a = get_site("panda.tv/12345");
    assert_eq!(constructed(&a), Some((Site::Panda, String::from("panda.tv/12345"))));
    assert_eq!(Xingyan2::room_id_of("panda.tv/12345").unwrap(), "12345");
}

#[test]
fn xingyan_subdomain_selects_xingyan_with_room() {
    let a = get_site("https://xingyan.panda.tv/678/");
    assert_eq!(constructed(&a), Some((Site::Xingyan, String::from("https://xingyan.panda.tv/678/"))));
    assert_eq!(Xingyan2::room_id_of("https://xingyan.panda.tv/678/").unwrap(), "678");
}

#[test]
fn subdomain_is_never_taken_for_the_domain() {
    for u in ["xingyan.panda.tv/1", "http://xingyan.panda.tv/22/", "https://xingyan.panda.tv/333"] {
        assert!(matches!(match_site(u), Ok(Some(Site::Xingyan))), "{}", u);
    }
    assert!(matches!(match_site("https://www.panda.tv/9"), Ok(Some(Site::Panda))));
}

#[test]
fn each_platform_pattern_matches_its_urls() {
    assert!(matches!(match_site("https://www.douyu.com/abc123"), Ok(Some(Site::Douyu))));
    assert!(matches!(match_site("http://play.afreecatv.com/someone/123"), Ok(Some(Site::Afreeca))));
    assert!(matches!(match_site("inke.cn/live.html?uid=42"), Ok(Some(Site::Inke))));
    assert!(matches!(match_site("https://www.iesdouyin.com/share/video/1/"), Ok(Some(Site::Douyin))));
    assert!(matches!(match_site("https://m.tiktok.com/v/abc.html"), Ok(Some(Site::TikTok))));
}

#[test]
fn unmatched_input_asks_for_one_redirect() {
    let a = get_site("https://short.example/xyz");
    match a {
        SiteAction::FollowRedirect(u) => assert_eq!(u, "https://short.example/xyz"),
        _ => panic!("expected the redirect fallback"),
    }
    assert!(matches!(match_site("https://short.example/xyz"), Ok(None)));
}

#[test]
fn matched_input_skips_the_redirect() {
    for u in ["panda.tv/1", "https://xingyan.panda.tv/678/", "douyu.com/x"] {
        assert!(!matches!(get_site(u), SiteAction::FollowRedirect(_)), "{}", u);
    }
}

#[test]
fn redirect_target_resolves_as_if_passed_directly() {
    let target = String::from("https://xingyan.panda.tv/678/");
    let via = get_site_redirected(Ok(target.clone()));
    let direct = get_site(&target);
    assert_eq!(constructed(&via), constructed(&direct));
    assert_eq!(constructed(&via), Some((Site::Xingyan, target)));
}

#[test]
fn unmatched_redirect_target_is_unsupported() {
    let a = get_site_redirected(Ok(String::from("https://example.com/landing")));
    assert!(matches!(a, SiteAction::Fail(StreamError::UnsupportedSite)));
}

#[test]
fn failed_redirect_surfaces_network_error() {
    let a = get_site_redirected(Err(StreamError::Network(String::from("dns failure"))));
    match a {
        SiteAction::Fail(StreamError::Network(m)) => assert_eq!(m, "dns failure"),
        _ => panic!("expected the network error"),
    }
}

#[test]
fn site_patterns_are_the_registered_expressions() {
    assert_eq!(Site::Panda.pattern(), r"^(?:https?://)?(?:www\.)?panda\.tv/[0-9]+/?");
    assert_eq!(Site::Xingyan.pattern(), r"^(?:https?://)?xingyan\.panda\.tv/[0-9]+/?");
}
