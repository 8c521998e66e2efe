//! The application state machine: what is on screen, what is queued and
//! playing, and how each key changes it.
//!
//! [`App`] holds the state the program's key handler changes and the
//! screen shows. Work that talks to the outside world (running a search,
//! loading into mpv, saving the history) is not done here: the methods
//! change the state and hand back an [`Effect`] saying what is to be done,
//! and the program reports the outcome back through the methods below.

use vstd::prelude::*;
use crate::history::{pushed, push_entry, History};
use crate::mpv::LoadMode;
use crate::text::{decimal, is_blank, is_blank_text, push_char, push_decimal};
use crate::yt::{Video, watch_url_prefix};

verus! {

/// Whether the user is currently typing a search query or browsing a list.
#[derive(Debug, Clone, Copy, PartialEq, Eq, Structural)]
pub enum Mode {
    /// The search box is focused; keystrokes are appended to [`App::query`].
    Searching,
    /// The main list (search results or history) is focused; keystrokes
    /// navigate and act on it.
    Browsing,
}

/// Which list is currently shown/navigated in the main panel.
#[derive(Debug, Clone, Copy, PartialEq, Eq, Structural)]
pub enum ListSource {
    /// Showing [`App::results`], the most recent search.
    Search,
    /// Showing [`App::history`], the persisted watch/queue history.
    History,
}

/// Whether selecting a video replaces mpv's playlist or joins the queue.
#[derive(Debug, Clone, Copy, PartialEq, Eq, Structural)]
pub enum PlayIntent {
    /// Play now, replacing the whole queue (`loadfile ... replace`).
    Replace,
    /// Join the queue (`loadfile ... append-play`).
    Enqueue,
}

/// All state needed to drive the interface: what's on screen and what's
/// playing. Playback position and duration, the mpv process and the search
/// channel are kept by the program around it.
#[derive(Debug)]
pub struct App {
    /// Whether the search box or the list is currently focused.
    pub mode: Mode,
    /// Which list ([`App::results`] or [`App::history`]) is being shown.
    pub list_source: ListSource,
    /// Current contents of the search box.
    pub query: String,
    /// Results of the most recent search, filled in incrementally as
    /// `yt-dlp` streams them back.
    pub results: Vec<Video>,
    /// Persisted history of played/queued videos.
    pub history: History,
    /// Index of the highlighted item in the currently active list.
    pub selected: usize,
    /// Videos sent to mpv so far, in the order mpv's own playlist should
    /// have them.
    pub queue: Vec<Video>,
    /// mpv's current `playlist-pos`; `None` before the first successful poll.
    pub playlist_pos: Option<i64>,
    /// The video mpv is currently on, if any.
    pub now_playing: Option<Video>,
    /// Whether mpv is currently paused.
    pub paused: bool,
    /// Whether the video track is currently enabled (vs. audio-only).
    pub video_enabled: bool,
    /// Free-form message shown in the status bar.
    pub status: String,
    /// Set to `true` to make the main loop exit on the next iteration.
    pub should_quit: bool,
}

/// The state of an [`App`], with texts as character sequences and lists as
/// sequences.
pub struct AppView {
    pub mode: Mode,
    pub list_source: ListSource,
    pub query: Seq<char>,
    pub results: Seq<Video>,
    pub history: Seq<Video>,
    pub selected: nat,
    pub queue: Seq<Video>,
    pub playlist_pos: Option<i64>,
    pub now_playing: Option<Video>,
    pub paused: bool,
    pub video_enabled: bool,
    pub status: Seq<char>,
    pub should_quit: bool,
}

impl View for App {
    type V = AppView;

    open spec fn view(&self) -> AppView {
        AppView {
            mode: self.mode,
            list_source: self.list_source,
            query: self.query@,
            results: self.results@,
            history: self.history.entries@,
            selected: self.selected as nat,
            queue: self.queue@,
            playlist_pos: self.playlist_pos,
            now_playing: self.now_playing,
            paused: self.paused,
            video_enabled: self.video_enabled,
            status: self.status@,
            should_quit: self.should_quit,
        }
    }
}

/// A video to hand to mpv, as decided by a selection.
#[derive(Debug)]
pub struct LoadRequest {
    /// The YouTube watch URL of the selected video.
    pub url: String,
    /// Whether it replaces the playlist or joins it.
    pub mode: LoadMode,
    /// Whether it starts playing right away, so that the progress shown so
    /// far no longer applies.
    pub starts_now: bool,
}

/// What the program is to do after a key, beyond the state change.
#[derive(Debug)]
pub enum Effect {
    /// Nothing more.
    Nothing,
    /// Search YouTube for this query, streaming the results into
    /// [`App::drain_search_results`].
    Search(String),
    /// Save the history, then load the video into mpv; failures are
    /// reported with [`App::history_not_saved`] and [`App::load_failed`].
    Load(LoadRequest),
    /// Stop mpv and clear its playlist; on success call [`App::clear_queue`].
    ClearQueue,
    /// Toggle mpv's pause; on success call [`App::toggle_pause`].
    TogglePause,
    /// Seek by this many seconds (negative: backward).
    Seek(i32),
    /// Go to the next entry of mpv's playlist.
    NextTrack,
    /// Go to the previous entry of mpv's playlist.
    PrevTrack,
    /// Turn mpv's video track on or off; on success call
    /// [`App::show_video_mode`].
    SetVideo(bool),
}

/// A key as the program reads it from the terminal.
#[derive(Debug, Clone, Copy, PartialEq, Eq, Structural)]
pub enum Key {
    Char(char),
    Enter,
    Backspace,
    Esc,
    Up,
    Down,
    Left,
    Right,
    /// Any other key, which does nothing.
    Other,
}

/// What a key means in a given mode.
#[derive(Debug, Clone, Copy, PartialEq, Eq, Structural)]
pub enum Command {
    Nothing,
    StartSearch,
    TypeChar(char),
    DeleteChar,
    Quit,
    FocusSearch,
    ToggleHistory,
    MoveSelection(i32),
    Enqueue,
    Replace,
    ClearQueue,
    TogglePause,
    Seek(i32),
    NextTrack,
    PrevTrack,
    ToggleVideo,
}

/// How many seconds the arrow keys seek.
pub const SEEK_SECONDS: i32 = 10;

/// The controls: in the search box, Enter searches, characters are typed,
/// Backspace deletes and Esc quits; in the list, `/` focuses the search,
/// `H` toggles the history, arrows or `j`/`k` move, Enter or `a` enqueue,
/// `r` plays now, `c` clears the queue, space pauses, arrows or `h`/`l`
/// seek, `n`/`p` change track, `v` toggles video, `q` or Esc quit.
pub open spec fn key_command_spec(mode: Mode, key: Key) -> Command {
    match mode {
        Mode::Searching => match key {
            Key::Enter => Command::StartSearch,
            Key::Char(c) => Command::TypeChar(c),
            Key::Backspace => Command::DeleteChar,
            Key::Esc => Command::Quit,
            _ => Command::Nothing,
        },
        Mode::Browsing => match key {
            Key::Char('/') => Command::FocusSearch,
            Key::Char('H') => Command::ToggleHistory,
            Key::Down | Key::Char('j') => Command::MoveSelection(1),
            Key::Up | Key::Char('k') => Command::MoveSelection(-1i32),
            Key::Enter | Key::Char('a') => Command::Enqueue,
            Key::Char('r') => Command::Replace,
            Key::Char('c') => Command::ClearQueue,
            Key::Char(' ') => Command::TogglePause,
            Key::Right | Key::Char('l') => Command::Seek(SEEK_SECONDS),
            Key::Left | Key::Char('h') => Command::Seek((-SEEK_SECONDS) as i32),
            Key::Char('n') => Command::NextTrack,
            Key::Char('p') => Command::PrevTrack,
            Key::Char('v') => Command::ToggleVideo,
            Key::Char('q') | Key::Esc => Command::Quit,
            _ => Command::Nothing,
        },
    }
}

/// What `key` means in `mode`.
pub fn key_command(mode: Mode, key: Key) -> (r: Command)
    ensures
        r == key_command_spec(mode, key),
{
    match mode {
        Mode::Searching => match key {
            Key::Enter => Command::StartSearch,
            Key::Char(c) => Command::TypeChar(c),
            Key::Backspace => Command::DeleteChar,
            Key::Esc => Command::Quit,
            _ => Command::Nothing,
        },
        Mode::Browsing => match key {
            Key::Char('/') => Command::FocusSearch,
            Key::Char('H') => Command::ToggleHistory,
            Key::Down | Key::Char('j') => Command::MoveSelection(1),
            Key::Up | Key::Char('k') => Command::MoveSelection(-1i32),
            Key::Enter | Key::Char('a') => Command::Enqueue,
            Key::Char('r') => Command::Replace,
            Key::Char('c') => Command::ClearQueue,
            Key::Char(' ') => Command::TogglePause,
            Key::Right | Key::Char('l') => Command::Seek(SEEK_SECONDS),
            Key::Left | Key::Char('h') => Command::Seek(-SEEK_SECONDS),
            Key::Char('n') => Command::NextTrack,
            Key::Char('p') => Command::PrevTrack,
            Key::Char('v') => Command::ToggleVideo,
            Key::Char('q') | Key::Esc => Command::Quit,
            _ => Command::Nothing,
        },
    }
}

/// The status shown when the program starts.
pub open spec fn welcome_text() -> Seq<char> {
    "Type something and press Enter to search (H to view history)"@
}

/// `Searching "<query>"...`
pub open spec fn searching_text(query: Seq<char>) -> Seq<char> {
    "Searching \""@ + query + "\"..."@
}

/// `Loading "<title>"...`
pub open spec fn loading_text(title: Seq<char>) -> Seq<char> {
    "Loading \""@ + title + "\"..."@
}

/// `Added to queue: "<title>"`
pub open spec fn added_text(title: Seq<char>) -> Seq<char> {
    "Added to queue: \""@ + title + "\""@
}

/// The status after the view switches to `source`.
pub open spec fn list_shown_text(source: ListSource, history_len: nat) -> Seq<char> {
    match source {
        ListSource::Search => "Showing search results"@,
        ListSource::History => "History ("@ + decimal(history_len) + " items)"@,
    }
}

/// The status once the video track was turned on or off.
pub open spec fn video_mode_text(enabled: bool) -> Seq<char> {
    if enabled {
        "Video enabled"@
    } else {
        "Audio-only mode"@
    }
}

/// The list currently shown: the search results or the history.
pub open spec fn active_entries(a: AppView) -> Seq<Video> {
    match a.list_source {
        ListSource::Search => a.results,
        ListSource::History => a.history,
    }
}

/// The highlighted video, if the cursor is on one.
pub open spec fn selected_video(a: AppView) -> Option<Video> {
    if a.selected < active_entries(a).len() {
        Some(active_entries(a)[a.selected as int])
    } else {
        None
    }
}

/// `x` held within `lo..=hi`.
pub open spec fn clamp_int(x: int, lo: int, hi: int) -> int {
    if x < lo {
        lo
    } else if x > hi {
        hi
    } else {
        x
    }
}

/// The state of a new app over `history`.
pub open spec fn initial_view(history: Seq<Video>) -> AppView {
    AppView {
        mode: Mode::Searching,
        list_source: ListSource::Search,
        query: Seq::empty(),
        results: Seq::empty(),
        history,
        selected: 0,
        queue: Seq::empty(),
        playlist_pos: None,
        now_playing: None,
        paused: false,
        video_enabled: false,
        status: welcome_text(),
        should_quit: false,
    }
}

/// A search starts unless the query is blank: the results are cleared and
/// shown, the cursor goes to the top and the list is focused.
pub open spec fn after_start_search(a: AppView) -> AppView {
    if is_blank_text(a.query) {
        a
    } else {
        AppView {
            results: Seq::empty(),
            list_source: ListSource::Search,
            selected: 0,
            status: searching_text(a.query),
            mode: Mode::Browsing,
            ..a
        }
    }
}

/// The other list is shown, with the cursor at its top and the list focused.
pub open spec fn after_toggle_history(a: AppView) -> AppView {
    let source = match a.list_source {
        ListSource::Search => ListSource::History,
        ListSource::History => ListSource::Search,
    };
    AppView {
        list_source: source,
        selected: 0,
        mode: Mode::Browsing,
        status: list_shown_text(source, a.history.len()),
        ..a
    }
}

/// The cursor moves by `delta` within the active list; nothing happens on
/// an empty list.
pub open spec fn after_move(a: AppView, delta: i32) -> AppView {
    let len = active_entries(a).len();
    if len == 0 {
        a
    } else {
        AppView { selected: clamp_int(a.selected + delta, 0, len - 1) as nat, ..a }
    }
}

/// Whether a selection made with `intent` starts playing right away.
pub open spec fn starts_now(a: AppView, intent: PlayIntent) -> bool {
    intent == PlayIntent::Replace || a.now_playing is None
}

/// The state after the highlighted video is sent to mpv with `intent`.
/// Replacing makes it the whole queue and what plays; enqueueing appends
/// it and plays it only if nothing is playing. Either way it goes to the
/// top of the history.
pub open spec fn after_dispatch(a: AppView, intent: PlayIntent) -> AppView {
    match selected_video(a) {
        None => a,
        Some(v) => {
            let now = starts_now(a, intent);
            AppView {
                queue: match intent {
                    PlayIntent::Replace => seq![v],
                    PlayIntent::Enqueue => a.queue.push(v),
                },
                playlist_pos: match intent {
                    PlayIntent::Replace => Some(0),
                    PlayIntent::Enqueue => a.playlist_pos,
                },
                now_playing: if now {
                    Some(v)
                } else {
                    a.now_playing
                },
                paused: if now {
                    false
                } else {
                    a.paused
                },
                status: if now {
                    loading_text(v.title@)
                } else {
                    added_text(v.title@)
                },
                history: pushed(a.history, v),
                ..a
            }
        },
    }
}

/// The `loadfile` mode for an intent.
pub open spec fn load_mode_of(intent: PlayIntent) -> LoadMode {
    match intent {
        PlayIntent::Replace => LoadMode::Replace,
        PlayIntent::Enqueue => LoadMode::AppendPlay,
    }
}

/// What is handed back after a selection with `intent`: nothing when no
/// video is highlighted, else the video's URL, the mode, and whether it
/// starts now.
pub open spec fn dispatch_result(a: AppView, intent: PlayIntent, r: Option<LoadRequest>) -> bool {
    match selected_video(a) {
        None => r is None,
        Some(v) => match r {
            Some(req) => req.url@ == watch_url_prefix() + v.id@ && req.mode == load_mode_of(intent)
                && req.starts_now == starts_now(a, intent),
            None => false,
        },
    }
}

/// The queue is empty and nothing plays.
pub open spec fn after_clear_queue(a: AppView) -> AppView {
    AppView {
        queue: Seq::empty(),
        playlist_pos: None,
        now_playing: None,
        status: "Queue cleared"@,
        ..a
    }
}

/// The state after one key.
pub open spec fn after_command(a: AppView, cmd: Command) -> AppView {
    match cmd {
        Command::StartSearch => after_start_search(a),
        Command::TypeChar(c) => AppView { query: a.query.push(c), ..a },
        Command::DeleteChar => if a.query.len() > 0 {
            AppView { query: a.query.drop_last(), ..a }
        } else {
            a
        },
        Command::Quit => AppView { should_quit: true, ..a },
        Command::FocusSearch => AppView { mode: Mode::Searching, ..a },
        Command::ToggleHistory => after_toggle_history(a),
        Command::MoveSelection(d) => after_move(a, d),
        Command::Enqueue => after_dispatch(a, PlayIntent::Enqueue),
        Command::Replace => after_dispatch(a, PlayIntent::Replace),
        Command::ToggleVideo => AppView { video_enabled: !a.video_enabled, ..a },
        _ => a,
    }
}

/// The effect handed back after one key.
pub open spec fn command_effect(a: AppView, cmd: Command, e: Effect) -> bool {
    match cmd {
        Command::StartSearch => if is_blank_text(a.query) {
            e is Nothing
        } else {
            e matches Effect::Search(q) && q@ == a.query
        },
        Command::Enqueue => match e {
            Effect::Load(req) => dispatch_result(a, PlayIntent::Enqueue, Some(req)),
            Effect::Nothing => dispatch_result(a, PlayIntent::Enqueue, None),
            _ => false,
        },
        Command::Replace => match e {
            Effect::Load(req) => dispatch_result(a, PlayIntent::Replace, Some(req)),
            Effect::Nothing => dispatch_result(a, PlayIntent::Replace, None),
            _ => false,
        },
        Command::ClearQueue => e is ClearQueue,
        Command::TogglePause => e is TogglePause,
        Command::Seek(d) => e matches Effect::Seek(x) && x == d,
        Command::NextTrack => e is NextTrack,
        Command::PrevTrack => e is PrevTrack,
        Command::ToggleVideo => e matches Effect::SetVideo(b) && b == !a.video_enabled,
        _ => e is Nothing,
    }
}

/// The cursor can move by `delta` within 32-bit signed positions, the
/// range its arithmetic is done in. On an empty list nothing moves, so
/// nothing is asked.
pub open spec fn can_move(a: AppView, delta: int) -> bool {
    active_entries(a).len() > 0 ==> {
        &&& active_entries(a).len() <= i32::MAX
        &&& a.selected <= i32::MAX
        &&& i32::MIN <= a.selected + delta <= i32::MAX
    }
}

/// What a refresh read from mpv: for each property, `None` when the read
/// failed, else what it held.
#[derive(Debug, Clone, Copy)]
pub struct ProgressPoll {
    /// Whether a playback position was known before this refresh.
    pub had_position: bool,
    /// `time-pos`: `Some(true)` when it has a value, `Some(false)` when it
    /// has none.
    pub time_pos: Option<bool>,
    /// `playlist-pos`.
    pub playlist_pos: Option<Option<i64>>,
    /// `pause`.
    pub pause: Option<Option<bool>>,
}

/// The video the queue holds at mpv's position `i`, if any.
pub open spec fn queued_at(queue: Seq<Video>, i: i64) -> Option<Video> {
    if (i as usize) < queue.len() {
        Some(queue[(i as usize) as int])
    } else {
        None
    }
}

/// The state after a refresh: nothing changes while nothing plays; else
/// the status says `Playing` once a position first appears, mpv's playlist
/// position is taken over and what plays follows the queue at it, and the
/// pause state is taken over.
pub open spec fn after_refresh(a: AppView, poll: ProgressPoll) -> AppView {
    if a.now_playing is None {
        a
    } else {
        let status = match poll.time_pos {
            Some(true) => if !poll.had_position {
                "Playing"@
            } else {
                a.status
            },
            _ => a.status,
        };
        let playlist_pos = match poll.playlist_pos {
            Some(idx) => idx,
            None => a.playlist_pos,
        };
        let now_playing = match poll.playlist_pos {
            Some(Some(i)) => match queued_at(a.queue, i) {
                Some(v) => if a.now_playing matches Some(n) && n@ == v@ {
                    a.now_playing
                } else {
                    Some(v)
                },
                None => a.now_playing,
            },
            _ => a.now_playing,
        };
        let paused = match poll.pause {
            Some(Some(p)) => p,
            _ => a.paused,
        };
        AppView { status, playlist_pos, now_playing, paused, ..a }
    }
}

/// Toggling the history view twice shows the list that was shown before,
/// with the cursor at its top.
pub proof fn lemma_toggle_history_twice(a: AppView)
    ensures
        after_toggle_history(after_toggle_history(a)).list_source == a.list_source,
        after_toggle_history(after_toggle_history(a)).selected == 0,
        after_toggle_history(after_toggle_history(a)).mode == Mode::Browsing,
{
}

/// One step down then one step up comes back to the same row, away from
/// the bottom edge.
pub proof fn lemma_down_then_up(a: AppView)
    requires
        a.selected + 1 < active_entries(a).len(),
    ensures
        after_move(after_move(a, 1), -1i32).selected == a.selected,
{
}

/// A move changes nothing but the cursor, and nothing at all on an empty list.
pub proof fn lemma_move_only_moves_cursor(a: AppView, delta: i32)
    ensures
        after_move(a, delta) == (AppView { selected: after_move(a, delta).selected, ..a }),
        active_entries(a).len() == 0 ==> after_move(a, delta) == a,
{
}

/// After a move over a non-empty list the cursor is on one of its rows.
pub proof fn lemma_move_stays_in_list(a: AppView, delta: i32)
    requires
        active_entries(a).len() > 0,
    ensures
        after_move(a, delta).selected < active_entries(after_move(a, delta)).len(),
        selected_video(after_move(a, delta)) is Some,
{
}

/// Enqueueing behind something that plays leaves the current track, its
/// pause state and mpv's position alone, appends the video at the end of
/// the queue, and does not start it.
pub proof fn lemma_enqueue_keeps_current_track(a: AppView)
    requires
        a.now_playing is Some,
        selected_video(a) is Some,
    ensures
        after_dispatch(a, PlayIntent::Enqueue).now_playing == a.now_playing,
        after_dispatch(a, PlayIntent::Enqueue).paused == a.paused,
        after_dispatch(a, PlayIntent::Enqueue).playlist_pos == a.playlist_pos,
        after_dispatch(a, PlayIntent::Enqueue).queue == a.queue.push(selected_video(a)->0),
        !starts_now(a, PlayIntent::Enqueue),
{
}

/// Playing now makes the selected video the whole queue, at position 0,
/// playing and not paused.
pub proof fn lemma_replace_plays_selected(a: AppView)
    requires
        selected_video(a) is Some,
    ensures
        after_dispatch(a, PlayIntent::Replace).queue == seq![selected_video(a)->0],
        after_dispatch(a, PlayIntent::Replace).playlist_pos == Some(0i64),
        after_dispatch(a, PlayIntent::Replace).now_playing == selected_video(a),
        !after_dispatch(a, PlayIntent::Replace).paused,
{
}

/// Whatever the intent, the selected video is the most recent history entry.
pub proof fn lemma_selection_recorded_first(a: AppView, intent: PlayIntent)
    requires
        selected_video(a) is Some,
    ensures
        after_dispatch(a, intent).history.len() >= 1,
        after_dispatch(a, intent).history[0] == selected_video(a)->0,
{
    crate::history::lemma_push_entry_front(a.history, selected_video(a)->0);
}

/// Whatever the intent, a selection records the video in the history as
/// `push_entry` does: it comes first, every older entry with its id is
/// gone (so its id occurs once), every other entry was in the history
/// before, the history holds at most `MAX_ENTRIES` entries, distinct ids
/// stay distinct, and with distinct ids nothing is lost but the replaced
/// entry and those beyond the cap.
pub proof fn lemma_selection_updates_history(a: AppView, intent: PlayIntent)
    requires
        selected_video(a) is Some,
    ensures
        ({
            let v = selected_video(a)->0;
            let h = after_dispatch(a, intent).history;
            &&& h.len() >= 1
            &&& h[0] == v
            &&& forall|k: int| 0 < k < h.len() ==> (#[trigger] h[k]).id@ != v.id@ && a.history.contains(h[k])
            &&& h.len() <= crate::history::MAX_ENTRIES
            &&& crate::history::ids_distinct(a.history) ==> crate::history::ids_distinct(h)
            &&& crate::history::ids_distinct(a.history) ==> h.len() >= if a.history.len() < crate::history::MAX_ENTRIES {
                a.history.len()
            } else {
                crate::history::MAX_ENTRIES as nat
            }
        }),
{
    let v = selected_video(a)->0;
    crate::history::lemma_push_entry_front(a.history, v);
    crate::history::lemma_push_entry_single(a.history, v);
    crate::history::lemma_push_entry_bounded(a.history, v);
    if crate::history::ids_distinct(a.history) {
        crate::history::lemma_push_entry_keeps_ids_distinct(a.history, v);
        crate::history::lemma_push_entry_does_not_shrink(a.history, v);
    }
}

/// Playing now and enqueueing record the same history.
pub proof fn lemma_both_intents_same_history(a: AppView)
    ensures
        after_dispatch(a, PlayIntent::Replace).history == after_dispatch(a, PlayIntent::Enqueue).history,
{
}

/// Toggling the view puts the cursor on the top row of the list now shown,
/// whichever it is, and shows the other list.
pub proof fn lemma_toggle_history_resets_cursor(a: AppView)
    ensures
        after_toggle_history(a).selected == 0,
        after_toggle_history(a).list_source != a.list_source,
        active_entries(after_toggle_history(a)).len() > 0 ==> selected_video(after_toggle_history(a))
            == Some(active_entries(after_toggle_history(a))[0]),
{
}

/// While something plays, a pause state read from mpv is taken over as it
/// is, paused or not; when none was read, the pause state stays.
pub proof fn lemma_refresh_takes_pause(a: AppView, poll: ProgressPoll)
    requires
        a.now_playing is Some,
    ensures
        poll.pause matches Some(Some(p)) ==> after_refresh(a, poll).paused == p,
        !(poll.pause matches Some(Some(_))) ==> after_refresh(a, poll).paused == a.paused,
{
}

/// In the list, keys that share a control mean the same: Enter and `a`
/// enqueue, down and `j` move down, up and `k` move up, right and `l` seek
/// forward, left and `h` seek back, `q` and Esc quit.
pub proof fn lemma_key_aliases(k: Key)
    ensures
        key_command_spec(Mode::Browsing, Key::Char('a')) == key_command_spec(Mode::Browsing, Key::Enter),
        key_command_spec(Mode::Browsing, Key::Enter) == Command::Enqueue,
        key_command_spec(Mode::Browsing, Key::Char('r')) == Command::Replace,
        key_command_spec(Mode::Browsing, Key::Char('j')) == key_command_spec(Mode::Browsing, Key::Down),
        key_command_spec(Mode::Browsing, Key::Down) == Command::MoveSelection(1),
        key_command_spec(Mode::Browsing, Key::Char('k')) == key_command_spec(Mode::Browsing, Key::Up),
        key_command_spec(Mode::Browsing, Key::Up) == Command::MoveSelection(-1i32),
        key_command_spec(Mode::Browsing, Key::Char('l')) == key_command_spec(Mode::Browsing, Key::Right),
        key_command_spec(Mode::Browsing, Key::Right) == Command::Seek(10),
        key_command_spec(Mode::Browsing, Key::Char('h')) == key_command_spec(Mode::Browsing, Key::Left),
        key_command_spec(Mode::Browsing, Key::Left) == Command::Seek(-10i32),
        key_command_spec(Mode::Browsing, Key::Char('q')) == key_command_spec(Mode::Browsing, Key::Esc),
        key_command_spec(Mode::Browsing, Key::Esc) == Command::Quit,
        key_command_spec(Mode::Searching, Key::Esc) == Command::Quit,
        key_command_spec(Mode::Searching, Key::Enter) == Command::StartSearch,
        k matches Key::Char(c) ==> key_command_spec(Mode::Searching, k) == Command::TypeChar(c),
{
}

/// Selecting with nothing highlighted changes nothing.
pub proof fn lemma_no_selection_no_change(a: AppView, intent: PlayIntent)
    requires
        selected_video(a) is None,
    ensures
        after_dispatch(a, intent) == a,
{
}

/// Once the queue is cleared, refreshes change nothing until something is
/// selected again.
pub proof fn lemma_refresh_idle_after_clear(a: AppView, poll: ProgressPoll)
    ensures
        after_refresh(after_clear_queue(a), poll) == after_clear_queue(a),
{
}

/// After a refresh that read a playlist position holding a queued video,
/// what plays is that video.
pub proof fn lemma_refresh_follows_queue(a: AppView, poll: ProgressPoll, i: i64)
    requires
        a.now_playing is Some,
        poll.playlist_pos == Some(Some(i)),
        queued_at(a.queue, i) is Some,
    ensures
        after_refresh(a, poll).playlist_pos == Some(i),
        after_refresh(a, poll).now_playing matches Some(n) && n@ == (queued_at(a.queue, i)->0)@,
{
}

/// Turning video on or off twice comes back to where it started.
pub proof fn lemma_toggle_video_twice(a: AppView)
    ensures
        after_command(after_command(a, Command::ToggleVideo), Command::ToggleVideo) == a,
{
}

/// A blank query starts no search and changes nothing.
pub proof fn lemma_blank_query_no_search(a: AppView)
    requires
        is_blank_text(a.query),
    ensures
        after_start_search(a) == a,
{
}

/// Keys that only ask mpv for something (clear, pause, seek, track
/// changes) change no state until mpv has answered.
pub proof fn lemma_mpv_keys_change_nothing(a: AppView, key: Key)
    requires
        a.mode == Mode::Browsing,
        ({
            let c = key_command_spec(a.mode, key);
            c is ClearQueue || c is TogglePause || c is Seek || c is NextTrack || c is PrevTrack
        }),
    ensures
        after_command(a, key_command_spec(a.mode, key)) == a,
{
}

/// What plays is one of the queued videos.
pub open spec fn playing_is_queued(a: AppView) -> bool {
    a.now_playing matches Some(v) ==> a.queue.contains(v)
}

/// A new app plays nothing, so what plays is queued.
pub proof fn lemma_initial_playing_is_queued(history: Seq<Video>)
    ensures
        playing_is_queued(initial_view(history)),
{
}

/// Every key keeps what plays among the queued videos.
pub proof fn lemma_keys_keep_playing_queued(a: AppView, cmd: Command)
    requires
        playing_is_queued(a),
    ensures
        playing_is_queued(after_command(a, cmd)),
{
    let b = after_command(a, cmd);
    match cmd {
        Command::Enqueue => {
            if let Some(v) = selected_video(a) {
                if let Some(n) = a.now_playing {
                    let k = choose|k: int| 0 <= k < a.queue.len() && a.queue[k] == n;
                    assert(b.queue[k] == n);
                } else {
                    assert(b.queue[a.queue.len() as int] == v);
                }
            }
        },
        Command::Replace => {
            if let Some(v) = selected_video(a) {
                assert(b.queue[0] == v);
            }
        },
        _ => {},
    }
}

/// Clearing the queue and refreshing from mpv keep what plays among the
/// queued videos.
pub proof fn lemma_mpv_updates_keep_playing_queued(a: AppView, poll: ProgressPoll)
    requires
        playing_is_queued(a),
    ensures
        playing_is_queued(after_clear_queue(a)),
        playing_is_queued(after_refresh(a, poll)),
{
    if let Some(Some(i)) = poll.playlist_pos {
        if let Some(v) = queued_at(a.queue, i) {
            assert(a.queue[(i as usize) as int] == v);
        }
    }
}

impl App {
    /// A new app over a loaded `history`: searching, nothing queued, with
    /// the welcome status.
    pub fn new(history: History) -> (r: App)
        ensures
            r@ == initial_view(history.entries@),
    {
        App {
            mode: Mode::Searching,
            list_source: ListSource::Search,
            query: String::new(),
            results: Vec::new(),
            history,
            selected: 0,
            queue: Vec::new(),
            playlist_pos: None,
            now_playing: None,
            paused: false,
            video_enabled: false,
            status: String::from_str(
                "Type something and press Enter to search (H to view history)",
            ),
            should_quit: false,
        }
    }

    /// List currently visible for navigation (search results OR history).
    pub fn active_list(&self) -> (r: &Vec<Video>)
        ensures
            r@ == active_entries(self@),
    {
        match self.list_source {
            ListSource::Search => &self.results,
            ListSource::History => &self.history.entries,
        }
    }

    /// Appends the search results that arrived since the last call.
    pub fn drain_search_results(&mut self, received: Vec<Video>)
        ensures
            final(self)@ == (AppView { results: old(self)@.results + received@, ..old(self)@ }),
    {
        let mut received = received;
        self.results.append(&mut received);
    }

    /// Starts a new search for [`App::query`]: clears the previous results
    /// and shows the search list. Gives back the query to search for, or
    /// `None` (changing nothing) if the query is blank.
    pub fn start_search(&mut self) -> (r: Option<String>)
        ensures
            final(self)@ == after_start_search(old(self)@),
            match r {
                Some(q) => !is_blank_text(old(self)@.query) && q@ == old(self)@.query,
                None => is_blank_text(old(self)@.query),
            },
    {
        if is_blank(self.query.as_str()) {
            return None;
        }
        self.results.clear();
        self.list_source = ListSource::Search;
        self.selected = 0;
        let mut status = String::from_str("Searching \"");
        status.append(self.query.as_str());
        status.append("\"...");
        self.status = status;
        self.mode = Mode::Browsing;
        Some(self.query.clone())
    }

    /// Toggles between viewing the last search's results and the saved
    /// history, without needing to search YouTube again.
    pub fn toggle_history_view(&mut self)
        ensures
            final(self)@ == after_toggle_history(old(self)@),
    {
        self.list_source = match self.list_source {
            ListSource::Search => ListSource::History,
            ListSource::History => ListSource::Search,
        };
        self.selected = 0;
        self.mode = Mode::Browsing;
        self.status = match self.list_source {
            ListSource::Search => String::from_str("Showing search results"),
            ListSource::History => {
                let mut s = String::from_str("History (");
                push_decimal(&mut s, self.history.entries.len() as u64);
                s.append(" items)");
                s
            },
        };
    }

    /// Moves the selection cursor in the active list by `delta`, clamped to
    /// the list's bounds. Negative values move up.
    pub fn move_selection(&mut self, delta: i32)
        requires
            can_move(old(self)@, delta as int),
        ensures
            final(self)@ == after_move(old(self)@, delta),
    {
        let len = self.active_list().len();
        if len == 0 {
            return;
        }
        let target: i64 = self.selected as i64 + delta as i64;
        let last: i64 = len as i64 - 1;
        let new_index: i64 = if target < 0 {
            0
        } else if target > last {
            last
        } else {
            target
        };
        self.selected = new_index as usize;
    }

    /// Enter/`a`: joins mpv's queue (append-play) without interrupting
    /// whatever's already playing; if nothing plays, it starts right away.
    pub fn enqueue_selected(&mut self) -> (r: Option<LoadRequest>)
        ensures
            final(self)@ == after_dispatch(old(self)@, PlayIntent::Enqueue),
            dispatch_result(old(self)@, PlayIntent::Enqueue, r),
    {
        self.dispatch_selected(PlayIntent::Enqueue)
    }

    /// `r`: plays now, replacing mpv's entire playlist (clears the queue).
    pub fn replace_selected(&mut self) -> (r: Option<LoadRequest>)
        ensures
            final(self)@ == after_dispatch(old(self)@, PlayIntent::Replace),
            dispatch_result(old(self)@, PlayIntent::Replace, r),
    {
        self.dispatch_selected(PlayIntent::Replace)
    }

    /// Sends the highlighted video to the queue with `intent`, records it
    /// in the history, and says what to load into mpv.
    pub fn dispatch_selected(&mut self, intent: PlayIntent) -> (r: Option<LoadRequest>)
        ensures
            final(self)@ == after_dispatch(old(self)@, intent),
            dispatch_result(old(self)@, intent, r),
    {
        let ghost a = self@;
        let video = {
            let list = self.active_list();
            if self.selected < list.len() {
                list[self.selected].clone()
            } else {
                return None;
            }
        };
        // Position and the loading status are reset only if this selection
        // starts playing right away; an enqueue behind something already
        // playing leaves the current track's progress alone.
        let will_start_now = match intent {
            PlayIntent::Replace => true,
            PlayIntent::Enqueue => self.now_playing.is_none(),
        };
        let mode = match intent {
            PlayIntent::Replace => {
                self.queue.clear();
                self.queue.push(video.clone());
                self.playlist_pos = Some(0);
                self.now_playing = Some(video.clone());
                LoadMode::Replace
            },
            PlayIntent::Enqueue => {
                self.queue.push(video.clone());
                if self.now_playing.is_none() {
                    self.now_playing = Some(video.clone());
                }
                LoadMode::AppendPlay
            },
        };
        if will_start_now {
            self.paused = false;
            let mut s = String::from_str("Loading \"");
            s.append(video.title.as_str());
            s.append("\"...");
            self.status = s;
        } else {
            let mut s = String::from_str("Added to queue: \"");
            s.append(video.title.as_str());
            s.append("\"");
            self.status = s;
        }
        let url = video.url();
        push_entry(&mut self.history, video);
        proof {
            assert(self@.queue =~= after_dispatch(a, intent).queue);
        }
        Some(LoadRequest { url, mode, starts_now: will_start_now })
    }

    /// Notes in the status that saving the history failed with `error`.
    pub fn history_not_saved(&mut self, error: &str)
        ensures
            final(self)@ == (AppView {
                status: old(self)@.status + " (warning: failed to save history: "@ + error@
                    + ")"@,
                ..old(self)@
            }),
    {
        self.status.append(" (warning: failed to save history: ");
        self.status.append(error);
        self.status.append(")");
    }

    /// Notes in the status that mpv failed to load the video with `error`.
    pub fn load_failed(&mut self, error: &str)
        ensures
            final(self)@ == (AppView {
                status: "Error loading into mpv: "@ + error@,
                ..old(self)@
            }),
    {
        let mut s = String::from_str("Error loading into mpv: ");
        s.append(error);
        self.status = s;
    }

    /// Shows a failed command's `error` in the status bar instead of
    /// stopping the program.
    pub fn report_error(&mut self, error: &str)
        ensures
            final(self)@ == (AppView { status: "Error: "@ + error@, ..old(self)@ }),
    {
        let mut s = String::from_str("Error: ");
        s.append(error);
        self.status = s;
    }

    /// Once mpv has stopped and cleared its playlist: the queue is empty
    /// and nothing plays.
    pub fn clear_queue(&mut self)
        ensures
            final(self)@ == after_clear_queue(old(self)@),
    {
        self.queue.clear();
        self.playlist_pos = None;
        self.now_playing = None;
        self.status = String::from_str("Queue cleared");
    }

    /// Once mpv has toggled its pause: the pause state flips.
    pub fn toggle_pause(&mut self)
        ensures
            final(self)@ == (AppView { paused: !old(self)@.paused, ..old(self)@ }),
    {
        self.paused = !self.paused;
    }

    /// Flips whether video is enabled and gives back the new setting, to
    /// be sent to mpv.
    pub fn toggle_video(&mut self) -> (r: bool)
        ensures
            final(self)@ == (AppView { video_enabled: !old(self)@.video_enabled, ..old(self)@ }),
            r == final(self)@.video_enabled,
    {
        self.video_enabled = !self.video_enabled;
        self.video_enabled
    }

    /// Once mpv took the new video setting: the status says which it is.
    pub fn show_video_mode(&mut self)
        ensures
            final(self)@ == (AppView {
                status: video_mode_text(old(self)@.video_enabled),
                ..old(self)@
            }),
    {
        self.status = if self.video_enabled {
            String::from_str("Video enabled")
        } else {
            String::from_str("Audio-only mode")
        };
    }

    /// Takes over what a refresh read from mpv: keeps the playlist index,
    /// what plays and the pause state in step with the real mpv. Nothing
    /// changes while nothing plays (mpv is then not asked at all).
    pub fn refresh_progress(&mut self, poll: ProgressPoll)
        ensures
            final(self)@ == after_refresh(old(self)@, poll),
    {
        if self.now_playing.is_none() {
            return;
        }
        if let Some(true) = poll.time_pos {
            if !poll.had_position {
                self.status = String::from_str("Playing");
            }
        }
        if let Some(idx) = poll.playlist_pos {
            self.playlist_pos = idx;
            // Keeps `now_playing` aligned with the queue's current track.
            if let Some(i) = idx {
                #[verifier::truncate]
                let j = i as usize;
                if j < self.queue.len() {
                    let same = match &self.now_playing {
                        Some(n) => *n == self.queue[j],
                        None => false,
                    };
                    if !same {
                        self.now_playing = Some(self.queue[j].clone());
                    }
                }
            }
        }
        if let Some(Some(p)) = poll.pause {
            self.paused = p;
        }
    }

    /// Handles one key: changes the state as the key means in the current
    /// mode (see [`key_command_spec`]) and says what is to be done outside.
    pub fn handle_key(&mut self, key: Key) -> (r: Effect)
        requires
            key_command_spec(old(self)@.mode, key) matches Command::MoveSelection(d) ==> can_move(
                old(self)@,
                d as int,
            ),
        ensures
            final(self)@ == after_command(old(self)@, key_command_spec(old(self)@.mode, key)),
            command_effect(old(self)@, key_command_spec(old(self)@.mode, key), r),
    {
        match key_command(self.mode, key) {
            Command::Nothing => Effect::Nothing,
            Command::StartSearch => match self.start_search() {
                Some(q) => Effect::Search(q),
                None => Effect::Nothing,
            },
            Command::TypeChar(c) => {
                push_char(&mut self.query, c);
                Effect::Nothing
            },
            Command::DeleteChar => {
                pop_char(&mut self.query);
                Effect::Nothing
            },
            Command::Quit => {
                self.should_quit = true;
                Effect::Nothing
            },
            Command::FocusSearch => {
                self.mode = Mode::Searching;
                Effect::Nothing
            },
            Command::ToggleHistory => {
                self.toggle_history_view();
                Effect::Nothing
            },
            Command::MoveSelection(d) => {
                self.move_selection(d);
                Effect::Nothing
            },
            Command::Enqueue => match self.enqueue_selected() {
                Some(req) => Effect::Load(req),
                None => Effect::Nothing,
            },
            Command::Replace => match self.replace_selected() {
                Some(req) => Effect::Load(req),
                None => Effect::Nothing,
            },
            Command::ClearQueue => Effect::ClearQueue,
            Command::TogglePause => Effect::TogglePause,
            Command::Seek(d) => Effect::Seek(d),
            Command::NextTrack => Effect::NextTrack,
            Command::PrevTrack => Effect::PrevTrack,
            Command::ToggleVideo => Effect::SetVideo(self.toggle_video()),
        }
    }
}

/// Removes the last character, if any: `String::pop`.
#[verifier::external_body]
fn pop_char(s: &mut String) -> (r: Option<char>)
    ensures
        old(s)@.len() == 0 ==> r is None && final(s)@ == old(s)@,
        old(s)@.len() > 0 ==> r == Some(old(s)@.last()) && final(s)@ == old(s)@.drop_last(),
{
    s.pop()
}

} // verus!
