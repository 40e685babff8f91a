use rsget_lib::error::{MetadataFault, StreamError};
use rsget_lib::sites::{get_site, SiteAction};
use rsget_lib::stream::StreamKind;
use rsget_lib::time::LocalTime;
use rsget_lib::xingyan2::{Xingyan2, Xingyan2Info};

fn sample(play_status: &str) -> Xingyan2 {
    Xingyan2::new(
        String::from("https://xingyan.panda.tv/678/"),
        String::from("678"),
        Xingyan2Info {
            name: String::from("show"),
            nick_name: String::from("host"),
            stream_url: String::from("https://cdn.example/live/678.flv"),
            play_status: String::from(play_status),
        },
    )
}

fn at(year: i32, month: u32, day: u32, hour: u32, minute: u32) -> LocalTime {
    LocalTime { year, month, day, hour, minute }
}

#[test]
fn landing_page_follows_room_convention() {
    assert_eq!(Xingyan2::landing_page_url("678"), "https://xingyan.panda.tv/678");
    assert_eq!(Xingyan2::landing_page_url("12345"), "https://xingyan.panda.tv/12345");
}

#[test]
fn url_without_room_id_is_metadata_failure() {
    let r = Xingyan2::room_id_of("https://xingyan.panda.tv/");
    assert!(matches!(r, Err(StreamError::MetadataExtraction(MetadataFault::RoomId))));
}

#[test]
fn page_without_blob_is_metadata_failure_not_fallback() {
    let page = String::from("<html><body>nothing here</body></html>");
    let r = Xingyan2::locate_host_info(Ok(page));
    assert!(matches!(r, Err(StreamError::MetadataExtraction(MetadataFault::HostInfo))));
    assert!(matches!(get_site("https://xingyan.panda.tv/678/"), SiteAction::Construct(_, _)));
}

#[test]
fn page_with_blob_yields_blob() {
    let page = String::from("<head><script>window.HOSTINFO={\"roominfo\":{}};</script></head>");
    assert_eq!(Xingyan2::locate_host_info(Ok(page)).unwrap(), "{\"roominfo\":{}}");
}

#[test]
fn failed_fetch_surfaces_its_error() {
    let r = Xingyan2::locate_host_info(Err(StreamError::Network(String::from("timeout"))));
    assert!(matches!(r, Err(StreamError::Network(m)) if m == "timeout"));
}

#[test]
fn accessors_return_metadata() {
    let x = sample("1");
    assert_eq!(x.get_title(), Some(String::from("show")));
    assert_eq!(x.get_author(), Some(String::from("host")));
    assert_eq!(x.get_ext(), "flv");
    let e = x.get_stream();
    assert_eq!(e.kind, StreamKind::Chunked);
    assert_eq!(e.url, "https://cdn.example/live/678.flv");
}

#[test]
fn online_follows_play_status() {
    assert!(sample("1").is_online());
    assert!(sample("2").is_online());
    assert!(!sample("0").is_online());
}

#[test]
fn default_name_has_fixed_layout() {
    let x = sample("1");
    assert_eq!(x.get_default_name(at(2024, 3, 5, 7, 9)), "678-2024-03-05-07-09-host-show.flv");
    assert_eq!(x.get_default_name(at(2023, 12, 31, 23, 59)), "678-2023-12-31-23-59-host-show.flv");
}

#[test]
fn default_name_pads_small_and_negative_years() {
    let x = sample("1");
    assert_eq!(x.get_default_name(at(7, 1, 1, 0, 0)), "678-0007-01-01-00-00-host-show.flv");
    assert_eq!(x.get_default_name(at(-5, 1, 1, 0, 0)), "678--005-01-01-00-00-host-show.flv");
    assert_eq!(x.get_default_name(at(12345, 1, 1, 0, 0)), "678-12345-01-01-00-00-host-show.flv");
}

#[test]
fn default_name_is_deterministic() {
    let t = at(2024, 6, 1, 12, 30);
    assert_eq!(sample("1").get_default_name(t), sample("0").get_default_name(t));
}

#[test]
fn default_name_now_uses_the_clock() {
    let n = sample("1").default_name_now();
    assert!(n.starts_with("678-"));
    assert!(n.ends_with("-host-show.flv"));
    assert_eq!(n.len(), "678-2024-03-05-07-09-host-show.flv".len());
}

#[test]
fn offline_download_fails_fast() {
    let r = sample("0").download(String::from("out.flv"));
    assert!(matches!(r, Err(StreamError::StreamOffline)));
}

#[test]
fn online_download_plans_notice_file_and_stream() {
    let p = sample("1").download(String::from("out.flv")).unwrap();
    assert_eq!(p.notice, "show by host (678)");
    assert_eq!(p.path, "out.flv");
    assert_eq!(p.endpoint.kind, StreamKind::Chunked);
    assert_eq!(p.endpoint.url, "https://cdn.example/live/678.flv");
}
