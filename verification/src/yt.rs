//! YouTube videos as `yt-dlp` reports them, and the search request sent to it.

use vstd::prelude::*;
use crate::json::{json_as_str, json_as_u64, json_get, json_member, json_str, json_u64, JsonDoc, JsonModel};
use crate::text::{clock, clock_text, decimal, push_decimal};

verus! {

/// A YouTube video: a search result, and also what the history keeps.
#[derive(Debug)]
pub struct Video {
    /// The YouTube video id (the `v=` query parameter of its watch URL).
    pub id: String,
    /// The video's title, as reported by yt-dlp.
    pub title: String,
    /// Duration in whole seconds, if yt-dlp reported one.
    pub duration: Option<u64>,
    /// Uploader/channel name, if yt-dlp reported one.
    pub uploader: Option<String>,
    /// View count, if yt-dlp reported one.
    pub view_count: Option<u64>,
}

/// What a [`Video`] holds, with its texts as character sequences.
pub struct VideoView {
    pub id: Seq<char>,
    pub title: Seq<char>,
    pub duration: Option<u64>,
    pub uploader: Option<Seq<char>>,
    pub view_count: Option<u64>,
}

/// An optional text, as a character sequence.
pub open spec fn opt_text(o: Option<String>) -> Option<Seq<char>> {
    match o {
        Some(s) => Some(s@),
        None => None,
    }
}

impl View for Video {
    type V = VideoView;

    open spec fn view(&self) -> VideoView {
        VideoView {
            id: self.id@,
            title: self.title@,
            duration: self.duration,
            uploader: opt_text(self.uploader),
            view_count: self.view_count,
        }
    }
}

fn clone_opt_text(o: &Option<String>) -> (r: Option<String>)
    ensures
        r == *o,
{
    match o {
        Some(s) => Some(s.clone()),
        None => None,
    }
}

impl Clone for Video {
    fn clone(&self) -> (r: Self)
        ensures
            r == *self,
    {
        Video {
            id: self.id.clone(),
            title: self.title.clone(),
            duration: self.duration,
            uploader: clone_opt_text(&self.uploader),
            view_count: self.view_count,
        }
    }
}

impl PartialEq for Video {
    fn eq(&self, other: &Self) -> (r: bool) {
        let same_uploader = match (&self.uploader, &other.uploader) {
            (Some(a), Some(b)) => *a == *b,
            (None, None) => true,
            _ => false,
        };
        self.id == other.id && self.title == other.title && self.duration == other.duration
            && same_uploader && self.view_count == other.view_count
    }
}

impl vstd::std_specs::cmp::PartialEqSpecImpl for Video {
    open spec fn obeys_eq_spec() -> bool {
        true
    }

    open spec fn eq_spec(&self, other: &Self) -> bool {
        self@ == other@
    }
}

impl Eq for Video {
}

/// The prefix of a YouTube watch URL.
pub open spec fn watch_url_prefix() -> Seq<char> {
    "https://www.youtube.com/watch?v="@
}

impl Video {
    /// The canonical `https://www.youtube.com/watch?v=...` URL for this
    /// video: what gets handed to mpv to play.
    pub fn url(&self) -> (r: String)
        ensures
            r@ == watch_url_prefix() + self.id@,
    {
        let mut s = String::from_str("https://www.youtube.com/watch?v=");
        s.append(self.id.as_str());
        s
    }

    /// [`Video::duration`] as `MM:SS`, or `--:--` if unknown.
    pub fn duration_fmt(&self) -> (r: String)
        ensures
            r@ == match self.duration {
                Some(secs) => clock_text(secs as nat),
                None => "--:--"@,
            },
    {
        match self.duration {
            Some(secs) => clock(secs),
            None => String::from_str("--:--"),
        }
    }
}

/// The fields of a yt-dlp JSON line that a [`Video`] is made from, each
/// as found on the line.
pub struct VideoFields {
    /// `id`, when present and a string.
    pub id: Option<String>,
    /// `title`: `None` when absent, `Some(None)` when present but not a string.
    pub title: Option<Option<String>>,
    /// `duration` rounded to whole seconds, when present and a number.
    pub duration: Option<u64>,
    /// `uploader`, when present and a string.
    pub uploader: Option<String>,
    /// `view_count`, when present and a non-negative integer.
    pub view_count: Option<u64>,
}

/// The title given to a video whose `title` is not a string.
pub open spec fn untitled() -> Seq<char> {
    "(untitled)"@
}

/// A video is made when `id` is a string and `title` is present; a title
/// that is not a string reads `(untitled)`.
pub open spec fn video_of_fields(f: VideoFields) -> Option<VideoView> {
    match (f.id, f.title) {
        (Some(id), Some(title)) => Some(
            VideoView {
                id: id@,
                title: match title {
                    Some(t) => t@,
                    None => untitled(),
                },
                duration: f.duration,
                uploader: opt_text(f.uploader),
                view_count: f.view_count,
            },
        ),
        _ => None,
    }
}

impl VideoFields {
    /// The video these fields describe, if any (see [`video_of_fields`]).
    pub fn into_video(self) -> (r: Option<Video>)
        ensures
            match r {
                Some(v) => video_of_fields(self) == Some(v@),
                None => video_of_fields(self) is None,
            },
    {
        match (self.id, self.title) {
            (Some(id), Some(title)) => {
                let title = match title {
                    Some(t) => t,
                    None => String::from_str("(untitled)"),
                };
                Some(
                    Video {
                        id,
                        title,
                        duration: self.duration,
                        uploader: self.uploader,
                        view_count: self.view_count,
                    },
                )
            },
            _ => None,
        }
    }
}

/// A string member of an object.
pub open spec fn str_member(v: JsonModel, key: Seq<char>) -> Option<Seq<char>> {
    match json_member(v, key) {
        Some(m) => json_str(m),
        None => None,
    }
}

/// The video a yt-dlp JSON line describes, its duration already rounded
/// to `duration`: it needs a string `id` and a `title` member (read as
/// `(untitled)` when not a string); `uploader` and `view_count` are kept
/// when they are a string and an unsigned integer.
pub open spec fn video_of_json(v: JsonModel, duration: Option<u64>) -> Option<VideoView> {
    match (str_member(v, "id"@), json_member(v, "title"@)) {
        (Some(id), Some(title)) => Some(
            VideoView {
                id,
                title: match json_str(title) {
                    Some(t) => t,
                    None => untitled(),
                },
                duration,
                uploader: str_member(v, "uploader"@),
                view_count: match json_member(v, "view_count"@) {
                    Some(c) => json_u64(c),
                    None => None,
                },
            },
        ),
        _ => None,
    }
}

/// Reads a video off one parsed yt-dlp JSON line, silently ignoring
/// fields that do not match rather than dropping the line. `duration` is
/// the line's `duration` already rounded to whole seconds.
pub fn parse_video(raw: &JsonDoc, duration: Option<u64>) -> (r: Option<Video>)
    ensures
        match video_of_json(raw@, duration) {
            Some(v) => r matches Some(w) && w@ == v,
            None => r is None,
        },
{
    let id = match json_get(raw, "id") {
        Some(v) => json_as_str(&v),
        None => None,
    };
    let title = match json_get(raw, "title") {
        Some(v) => Some(json_as_str(&v)),
        None => None,
    };
    let uploader = match json_get(raw, "uploader") {
        Some(v) => json_as_str(&v),
        None => None,
    };
    let view_count = match json_get(raw, "view_count") {
        Some(v) => json_as_u64(&v),
        None => None,
    };
    let fields = VideoFields { id, title, duration, uploader, view_count };
    fields.into_video()
}

/// How many results a search asks yt-dlp for.
pub const SEARCH_LIMIT: u32 = 15;

/// `ytsearch{limit}:{query}`, the search yt-dlp is asked to run.
pub open spec fn search_term_text(limit: nat, query: Seq<char>) -> Seq<char> {
    "ytsearch"@ + decimal(limit) + ":"@ + query
}

/// `format!("ytsearch{}:{}", limit, query)`.
pub fn search_term(limit: u32, query: &str) -> (r: String)
    ensures
        r@ == search_term_text(limit as nat, query@),
{
    let mut s = String::from_str("ytsearch");
    push_decimal(&mut s, limit as u64);
    s.append(":");
    s.append(query);
    s
}

/// The arguments yt-dlp is started with to stream the results of `term`
/// as JSON lines.
pub open spec fn search_args_text(term: Seq<char>) -> Seq<Seq<char>> {
    seq!["--dump-json"@, "--flat-playlist"@, "--no-warnings"@, "--ignore-errors"@, term]
}

/// The command-line arguments for yt-dlp.
pub fn search_args(term: &str) -> (r: Vec<String>)
    ensures
        r@.map_values(|a: String| a@) == search_args_text(term@),
{
    let mut v: Vec<String> = Vec::new();
    v.push(String::from_str("--dump-json"));
    v.push(String::from_str("--flat-playlist"));
    v.push(String::from_str("--no-warnings"));
    v.push(String::from_str("--ignore-errors"));
    v.push(String::from_str(term));
    assert(v@.map_values(|a: String| a@) =~= search_args_text(term@));
    v
}

} // verus!
