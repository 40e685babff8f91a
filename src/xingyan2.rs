use vstd::prelude::*;
use vstd::string::*;
use crate::decimal::{append_padded, padded};
use crate::error::{MetadataFault, StreamError};
use crate::pattern::{pattern_group_one, regex_compiles, regex_group_one};
use crate::stream::{StreamEndpoint, StreamKind};
use crate::time::{local_now, LocalTime};

verus! {

/// The room metadata that the plugin reads from the landing page's host-info blob.
#[derive(Clone, Debug)]
pub struct Xingyan2Info {
    /// Display name of the room: the stream's title.
    pub name: String,
    /// Nickname of the host: the stream's author.
    pub nick_name: String,
    /// URL of the chunked media stream.
    pub stream_url: String,
    /// Live status; `"0"` means offline.
    pub play_status: String,
}

/// A resolved `xingyan.panda.tv` room, holding its metadata for one download.
#[derive(Clone, Debug)]
pub struct Xingyan2 {
    pub url: String,
    pub room_id: String,
    pub host_info: Xingyan2Info,
}

/// What the caller does to download a live room: show the notice, create or
/// truncate the file at `path`, and copy the endpoint's stream into it.
#[derive(Clone, Debug)]
pub struct DownloadPlan {
    pub notice: String,
    pub path: String,
    pub endpoint: StreamEndpoint,
}

/// Pattern whose first group is the room id of a URL.
pub open spec fn room_id_pattern() -> Seq<char> {
    r"/([0-9]+)"@
}

/// Pattern whose first group is the host-info blob of a landing page.
pub open spec fn host_info_pattern() -> Seq<char> {
    r"<script>window.HOSTINFO=(.*);</script>"@
}

/// The landing-page URL of a room.
pub open spec fn landing_page_spec(room_id: Seq<char>) -> Seq<char> {
    "https://xingyan.panda.tv/"@ + room_id
}

/// The default file name: room, local date and time to the minute, author,
/// title and extension.
pub open spec fn default_name_spec(
    room: Seq<char>,
    t: LocalTime,
    author: Seq<char>,
    title: Seq<char>,
    ext: Seq<char>,
) -> Seq<char> {
    room + "-"@ + padded(t.year as int, 4) + "-"@ + padded(t.month as int, 2) + "-"@
        + padded(t.day as int, 2) + "-"@ + padded(t.hour as int, 2) + "-"@
        + padded(t.minute as int, 2) + "-"@ + author + "-"@ + title + "."@ + ext
}

/// The notice shown when a download starts.
pub open spec fn notice_spec(title: Seq<char>, author: Seq<char>, room: Seq<char>) -> Seq<char> {
    title + " by "@ + author + " ("@ + room + ")"@
}

/// A capture of group 1 turned into the library's result: the malformed-pattern
/// error, the given fault where the group is absent, or the captured text.
pub open spec fn captured(pattern: Seq<char>, text: Seq<char>, fault: MetadataFault, r: Result<String, StreamError>) -> bool {
    if !regex_compiles(pattern) {
        r matches Err(StreamError::MalformedPattern)
    } else {
        match regex_group_one(pattern, text) {
            Some(g) => r matches Ok(s) && s@ == g,
            None => r matches Err(StreamError::MetadataExtraction(f)) && f == fault,
        }
    }
}

fn capture_or(pattern: &str, text: &str, fault: MetadataFault) -> (r: Result<String, StreamError>)
    ensures
        captured(pattern@, text@, fault, r),
{
    match pattern_group_one(pattern, text) {
        Ok(Some(s)) => Ok(s),
        Ok(None) => Err(StreamError::MetadataExtraction(fault)),
        Err(_) => Err(StreamError::MalformedPattern),
    }
}

impl Xingyan2 {
    /// The room id of a URL: the digits of the first `/<digits>` in it.
    pub fn room_id_of(url: &str) -> (r: Result<String, StreamError>)
        ensures
            captured(room_id_pattern(), url@, MetadataFault::RoomId, r),
    {
        capture_or(r"/([0-9]+)", url, MetadataFault::RoomId)
    }

    /// The landing page that embeds a room's metadata.
    pub fn landing_page_url(room_id: &str) -> (r: String)
        ensures
            r@ == landing_page_spec(room_id@),
    {
        let mut r = String::from_str("https://xingyan.panda.tv/");
        r.append(room_id);
        r
    }

    /// The host-info blob of a fetched landing page. A failed fetch surfaces
    /// its own error; a page without the blob is a metadata failure.
    pub fn locate_host_info(page: Result<String, StreamError>) -> (r: Result<String, StreamError>)
        ensures
            page matches Err(e) ==> r == Err::<String, StreamError>(e),
            page matches Ok(p) ==> captured(host_info_pattern(), p@, MetadataFault::HostInfo, r),
    {
        match page {
            Err(e) => Err(e),
            Ok(p) => capture_or(r"<script>window.HOSTINFO=(.*);</script>", p.as_str(), MetadataFault::HostInfo),
        }
    }

    /// A plugin instance from its URL, room id and decoded metadata.
    pub fn new(url: String, room_id: String, host_info: Xingyan2Info) -> (r: Xingyan2)
        ensures
            r.url == url,
            r.room_id == room_id,
            r.host_info == host_info,
    {
        Xingyan2 { url, room_id, host_info }
    }

    pub fn get_title(&self) -> (r: Option<String>)
        ensures
            r == Some(self.host_info.name),
    {
        Some(self.host_info.name.clone())
    }

    pub fn get_author(&self) -> (r: Option<String>)
        ensures
            r == Some(self.host_info.nick_name),
    {
        Some(self.host_info.nick_name.clone())
    }

    /// Whether the room is live: its play status is not `"0"`.
    pub open spec fn online_spec(&self) -> bool {
        self.host_info.play_status@ != "0"@
    }

    pub fn is_online(&self) -> (r: bool)
        ensures
            r == self.online_spec(),
    {
        let offline = String::from_str("0");
        !(self.host_info.play_status == offline)
    }

    /// The chunked stream named in the metadata.
    pub fn get_stream(&self) -> (r: StreamEndpoint)
        ensures
            r.kind == StreamKind::Chunked,
            r.url == self.host_info.stream_url,
    {
        StreamEndpoint { kind: StreamKind::Chunked, url: self.host_info.stream_url.clone() }
    }

    pub fn get_ext(&self) -> (r: String)
        ensures
            r@ == "flv"@,
    {
        String::from_str("flv")
    }

    /// The default file name at local time `now`.
    pub fn get_default_name(&self, now: LocalTime) -> (r: String)
        ensures
            r@ == default_name_spec(
                self.room_id@,
                now,
                self.host_info.nick_name@,
                self.host_info.name@,
                "flv"@,
            ),
    {
        let mut r = self.room_id.clone();
        r.append("-");
        append_padded(&mut r, now.year as i64, 4);
        r.append("-");
        append_padded(&mut r, now.month as i64, 2);
        r.append("-");
        append_padded(&mut r, now.day as i64, 2);
        r.append("-");
        append_padded(&mut r, now.hour as i64, 2);
        r.append("-");
        append_padded(&mut r, now.minute as i64, 2);
        r.append("-");
        r.append(self.host_info.nick_name.as_str());
        r.append("-");
        r.append(self.host_info.name.as_str());
        r.append(".");
        let ext = self.get_ext();
        r.append(ext.as_str());
        r
    }

    /// The default file name at the current local time.
    pub fn default_name_now(&self) -> (r: String)
        ensures
            exists|t: LocalTime|
                t.wf() && r@ == default_name_spec(
                    self.room_id@,
                    t,
                    self.host_info.nick_name@,
                    self.host_info.name@,
                    "flv"@,
                ),
    {
        let now = local_now();
        self.get_default_name(now)
    }

    /// Plans the download of the room to `path`. An offline room fails with
    /// `StreamOffline` and yields no plan: no stream is resolved and no file
    /// is opened.
    pub fn download(&self, path: String) -> (r: Result<DownloadPlan, StreamError>)
        ensures
            !self.online_spec() ==> r matches Err(StreamError::StreamOffline),
            self.online_spec() ==> (r matches Ok(p) && p.path == path
                && p.notice@ == notice_spec(self.host_info.name@, self.host_info.nick_name@, self.room_id@)
                && p.endpoint.kind == StreamKind::Chunked
                && p.endpoint.url == self.host_info.stream_url),
    {
        if !self.is_online() {
            Err(StreamError::StreamOffline)
        } else {
            let mut notice = self.host_info.name.clone();
            notice.append(" by ");
            notice.append(self.host_info.nick_name.as_str());
            notice.append(" (");
            notice.append(self.room_id.as_str());
            notice.append(")");
            let endpoint = self.get_stream();
            Ok(DownloadPlan { notice, path, endpoint })
        }
    }
}

/// The default name depends only on room id, author, title, extension and the
/// instant: two plugins that agree on those compose the same name.
pub proof fn lemma_default_name_deterministic(a: Xingyan2, b: Xingyan2, t: LocalTime)
    requires
        a.room_id@ == b.room_id@,
        a.host_info.nick_name@ == b.host_info.nick_name@,
        a.host_info.name@ == b.host_info.name@,
    ensures
        default_name_spec(a.room_id@, t, a.host_info.nick_name@, a.host_info.name@, "flv"@)
            == default_name_spec(b.room_id@, t, b.host_info.nick_name@, b.host_info.name@, "flv"@),
{
}

} // verus!
