//! The text of the screen: titles, list rows, the queue panel, the
//! progress label and the status line, all read off an [`App`]. Laying
//! them out and styling them is done by the program with `ratatui`.

use vstd::prelude::*;
use crate::app::{App, ListSource};
use crate::text::{clock, clock_text, decimal, push_decimal};
use crate::yt::Video;

verus! {

/// Title of the search box.
pub fn search_bar_title() -> (r: &'static str)
    ensures
        r@ == "Search (/ to focus, Enter to search)"@,
{
    "Search (/ to focus, Enter to search)"
}

/// Title of the main list for each source, with its keys.
pub open spec fn main_list_title_text(source: ListSource) -> Seq<char> {
    match source {
        ListSource::Search => "Results (H: history | Enter/a: enqueue | r: play now)"@,
        ListSource::History => "History (H: back to search | Enter/a: enqueue | r: play now)"@,
    }
}

/// Title of the main list.
pub fn main_list_title(source: ListSource) -> (r: &'static str)
    ensures
        r@ == main_list_title_text(source),
{
    match source {
        ListSource::Search => "Results (H: history | Enter/a: enqueue | r: play now)",
        ListSource::History => "History (H: back to search | Enter/a: enqueue | r: play now)",
    }
}

/// `[MM:SS] ` (or `[--:--] `) in front of a row of the main list.
pub fn entry_duration_label(v: &Video) -> (r: String)
    ensures
        r@ == "["@ + match v.duration {
            Some(secs) => clock_text(secs as nat),
            None => "--:--"@,
        } + "] "@,
{
    let mut s = String::from_str("[");
    let d = v.duration_fmt();
    s.append(d.as_str());
    s.append("] ");
    s
}

/// `  — <uploader>` after a row of the main list, when the uploader is known.
pub fn entry_uploader_label(v: &Video) -> (r: Option<String>)
    ensures
        match v.uploader {
            Some(u) => r matches Some(l) && l@ == "  \u{2014} "@ + u@,
            None => r is None,
        },
{
    match &v.uploader {
        Some(u) => {
            let mut s = String::from_str("  \u{2014} ");
            s.append(u.as_str());
            Some(s)
        },
        None => None,
    }
}

/// The highlighted row of a list of `len` rows: the cursor, kept on the
/// last row; none for an empty list.
pub fn highlighted_row(selected: usize, len: usize) -> (r: Option<usize>)
    ensures
        len == 0 ==> r is None,
        len > 0 ==> r == Some(if selected < len {
            selected
        } else {
            (len - 1) as usize
        }),
{
    if len == 0 {
        None
    } else if selected < len - 1 {
        Some(selected)
    } else {
        Some(len - 1)
    }
}

/// The queue row mpv is on: its `playlist-pos` when that is a valid index
/// (not negative, and within `usize`).
pub fn queue_current_row(playlist_pos: Option<i64>) -> (r: Option<usize>)
    ensures
        r == match playlist_pos {
            Some(i) => if 0 <= i <= usize::MAX {
                Some(i as usize)
            } else {
                None
            },
            None => None,
        },
{
    match playlist_pos {
        Some(i) => {
            if i >= 0 && (i as u64) as u128 <= usize::MAX as u128 {
                Some(i as usize)
            } else {
                None
            }
        },
        None => None,
    }
}

/// A queue row: marked with `▶ ` when it is the one playing, else
/// indented; the flag says whether it is.
pub fn queue_row(row: usize, current: Option<usize>, title: &str) -> (r: (bool, String))
    ensures
        r.0 == (current == Some(row)),
        r.1@ == (if r.0 {
            "\u{25b6} "@
        } else {
            "  "@
        }) + title@,
{
    let is_current = match current {
        Some(c) => c == row,
        None => false,
    };
    let mut s = if is_current {
        String::from_str("\u{25b6} ")
    } else {
        String::from_str("  ")
    };
    s.append(title);
    (is_current, s)
}

/// Title of the queue panel, with the queue's length.
pub fn queue_title(len: usize) -> (r: String)
    ensures
        r@ == "Queue ("@ + decimal(len as nat) + ") \u{2014} n/p change track, c clears"@,
{
    let mut s = String::from_str("Queue (");
    push_decimal(&mut s, len as u64);
    s.append(") \u{2014} n/p change track, c clears");
    s
}

/// `MM:SS / MM:SS`: position and duration in whole seconds.
pub fn progress_label(position_secs: u64, duration_secs: u64) -> (r: String)
    ensures
        r@ == clock_text(position_secs as nat) + " / "@ + clock_text(duration_secs as nat),
{
    let mut s = clock(position_secs);
    s.append(" / ");
    let d = clock(duration_secs);
    s.append(d.as_str());
    s
}

/// The status line: what plays and whether it is paused, the video mode,
/// then the free-form status.
pub open spec fn status_line_text(
    now_playing: Option<Video>,
    paused: bool,
    video_enabled: bool,
    status: Seq<char>,
) -> Seq<char> {
    let playback = match now_playing {
        Some(v) => (if paused {
            "paused"@
        } else {
            "playing"@
        }) + ": "@ + v.title@,
        None => "nothing playing"@,
    };
    let audio_mode = if video_enabled {
        "video"@
    } else {
        "audio-only"@
    };
    playback + " ["@ + audio_mode + ", v: toggle] | "@ + status
}

/// The status line for `app`.
pub fn status_line(app: &App) -> (r: String)
    ensures
        r@ == status_line_text(app.now_playing, app.paused, app.video_enabled, app.status@),
{
    let mut s = match &app.now_playing {
        Some(v) => {
            let mut p = if app.paused {
                String::from_str("paused")
            } else {
                String::from_str("playing")
            };
            p.append(": ");
            p.append(v.title.as_str());
            p
        },
        None => String::from_str("nothing playing"),
    };
    s.append(" [");
    s.append(if app.video_enabled {
        "video"
    } else {
        "audio-only"
    });
    s.append(", v: toggle] | ");
    s.append(app.status.as_str());
    s
}

} // verus!
