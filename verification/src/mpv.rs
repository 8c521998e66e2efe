//! What the library decides about the single long-lived `mpv` process:
//! how it is started, how long its IPC socket is waited for, what a
//! failed start reports, and how replies on the socket are told apart from
//! mpv's spontaneous events. The process and the socket themselves are
//! handled by the program around the library.

use vstd::prelude::*;
use crate::json::{
    json_as_bool, json_as_i64, json_bool, json_document, json_get, json_i64, json_member, parse_json,
    JsonDoc, JsonModel,
};
use crate::text::{decimal, is_blank, is_blank_text, push_decimal, trim, trimmed};

verus! {

/// How to load a new file into mpv.
#[derive(Debug, Clone, Copy, PartialEq, Eq, Structural)]
pub enum LoadMode {
    /// Replaces the entire playlist and plays immediately.
    Replace,
    /// Appends to the end; if mpv is idle (nothing playing), starts
    /// playing right away; otherwise it just joins the queue.
    AppendPlay,
}

/// The `loadfile` flag for each mode.
pub open spec fn load_mode_text(mode: LoadMode) -> Seq<char> {
    match mode {
        LoadMode::Replace => "replace"@,
        LoadMode::AppendPlay => "append-play"@,
    }
}

impl LoadMode {
    /// The flag `loadfile` takes for this mode.
    pub fn as_str(&self) -> (r: &'static str)
        ensures
            r@ == load_mode_text(*self),
    {
        match self {
            LoadMode::Replace => "replace",
            LoadMode::AppendPlay => "append-play",
        }
    }
}

/// The value of mpv's `vid` property for video on (`auto`) or off (`no`).
pub open spec fn video_track_text(enabled: bool) -> Seq<char> {
    if enabled {
        "auto"@
    } else {
        "no"@
    }
}

/// What `set_property vid` is given to turn the video track on or off.
pub fn video_track(enabled: bool) -> (r: &'static str)
    ensures
        r@ == video_track_text(enabled),
{
    if enabled {
        "auto"
    } else {
        "no"
    }
}

/// A command sent to mpv whose arguments are all texts. (Seeking and the
/// volume take a floating-point number and are built by the program.)
#[derive(Debug)]
pub enum MpvCommand {
    /// `loadfile <url> <mode>`.
    LoadFile(String, LoadMode),
    /// `cycle pause`: toggles play/pause.
    CyclePause,
    /// `playlist-next weak`: no error on the last entry.
    PlaylistNext,
    /// `playlist-prev weak`: no error on the first entry.
    PlaylistPrev,
    /// `set_property vid auto|no`: video track on or off.
    SetVideo(bool),
    /// `get_property <name>`.
    GetProperty(String),
    /// `stop`: stops playback and clears the playlist.
    Stop,
}

/// The words of a command, in the order mpv's `command` array takes them.
pub open spec fn command_words_text(c: MpvCommand) -> Seq<Seq<char>> {
    match c {
        MpvCommand::LoadFile(url, mode) => seq!["loadfile"@, url@, load_mode_text(mode)],
        MpvCommand::CyclePause => seq!["cycle"@, "pause"@],
        MpvCommand::PlaylistNext => seq!["playlist-next"@, "weak"@],
        MpvCommand::PlaylistPrev => seq!["playlist-prev"@, "weak"@],
        MpvCommand::SetVideo(enabled) => seq!["set_property"@, "vid"@, video_track_text(enabled)],
        MpvCommand::GetProperty(name) => seq!["get_property"@, name@],
        MpvCommand::Stop => seq!["stop"@],
    }
}

/// A `loadfile` command is the word `loadfile`, the URL, then the flag of
/// its own mode: `replace` to play now, `append-play` to queue; the two
/// modes send different commands.
pub proof fn lemma_loadfile_words(url: String, mode: LoadMode)
    ensures
        command_words_text(MpvCommand::LoadFile(url, mode)).len() == 3,
        command_words_text(MpvCommand::LoadFile(url, mode))[0] == "loadfile"@,
        command_words_text(MpvCommand::LoadFile(url, mode))[1] == url@,
        mode == LoadMode::Replace ==> command_words_text(MpvCommand::LoadFile(url, mode))[2]
            == "replace"@,
        mode == LoadMode::AppendPlay ==> command_words_text(MpvCommand::LoadFile(url, mode))[2]
            == "append-play"@,
        command_words_text(MpvCommand::LoadFile(url, LoadMode::Replace)) != command_words_text(
            MpvCommand::LoadFile(url, LoadMode::AppendPlay),
        ),
{
    reveal_strlit("replace");
    reveal_strlit("append-play");
    let r = command_words_text(MpvCommand::LoadFile(url, LoadMode::Replace));
    let q = command_words_text(MpvCommand::LoadFile(url, LoadMode::AppendPlay));
    assert("replace"@.len() != "append-play"@.len());
    assert(r[2] != q[2]);
}

impl MpvCommand {
    /// The command's words, to be sent as a JSON array of strings.
    pub fn words(&self) -> (r: Vec<String>)
        ensures
            r@.map_values(|w: String| w@) == command_words_text(*self),
    {
        let mut v: Vec<String> = Vec::new();
        match self {
            MpvCommand::LoadFile(url, mode) => {
                v.push(String::from_str("loadfile"));
                v.push(url.clone());
                v.push(String::from_str(mode.as_str()));
            },
            MpvCommand::CyclePause => {
                v.push(String::from_str("cycle"));
                v.push(String::from_str("pause"));
            },
            MpvCommand::PlaylistNext => {
                v.push(String::from_str("playlist-next"));
                v.push(String::from_str("weak"));
            },
            MpvCommand::PlaylistPrev => {
                v.push(String::from_str("playlist-prev"));
                v.push(String::from_str("weak"));
            },
            MpvCommand::SetVideo(enabled) => {
                v.push(String::from_str("set_property"));
                v.push(String::from_str("vid"));
                v.push(String::from_str(video_track(*enabled)));
            },
            MpvCommand::GetProperty(name) => {
                v.push(String::from_str("get_property"));
                v.push(name.clone());
            },
            MpvCommand::Stop => {
                v.push(String::from_str("stop"));
            },
        }
        assert(v@.map_values(|w: String| w@) =~= command_words_text(*self));
        v
    }
}

/// `/tmp/yt-tui-mpv-{pid}.sock`: one IPC socket per process of this program.
pub open spec fn socket_path_text(pid: nat) -> Seq<char> {
    "/tmp/yt-tui-mpv-"@ + decimal(pid) + ".sock"@
}

/// The IPC socket path for the process with id `pid`.
pub fn socket_path(pid: u32) -> (r: String)
    ensures
        r@ == socket_path_text(pid as nat),
{
    let mut s = String::from_str("/tmp/yt-tui-mpv-");
    push_decimal(&mut s, pid as u64);
    s.append(".sock");
    s
}

/// mpv's arguments: idle, no terminal, audio only at first (no forced
/// window, which fails without a display), IPC on `socket`.
pub open spec fn spawn_args_text(socket: Seq<char>) -> Seq<Seq<char>> {
    seq!["--idle"@, "--no-terminal"@, "--vid=no"@, "--input-ipc-server="@ + socket]
}

/// The command-line arguments mpv is started with.
pub fn spawn_args(socket: &str) -> (r: Vec<String>)
    ensures
        r@.map_values(|a: String| a@) == spawn_args_text(socket@),
{
    let mut v: Vec<String> = Vec::new();
    v.push(String::from_str("--idle"));
    v.push(String::from_str("--no-terminal"));
    v.push(String::from_str("--vid=no"));
    let mut ipc = String::from_str("--input-ipc-server=");
    ipc.append(socket);
    v.push(ipc);
    assert(v@.map_values(|a: String| a@) =~= spawn_args_text(socket@));
    v
}

/// How many times the socket is tried before giving up.
pub const STARTUP_ATTEMPTS: u32 = 150;

/// Milliseconds waited between two tries.
pub const STARTUP_POLL_MILLIS: u64 = 20;

/// The error when the socket did not come up in time.
pub open spec fn startup_timeout_text() -> Seq<char> {
    "mpv didn't open the IPC socket within "@ + decimal(3) + "s \u{2014} it's stuck somewhere (process still running)"@
}

/// The error when mpv exited before opening its socket: its exit status,
/// then what it wrote on stderr, trimmed, unless that is blank.
pub open spec fn exited_early_text(status: Seq<char>, stderr: Seq<char>) -> Seq<char> {
    "mpv exited before opening the IPC socket (status: "@ + status + ")."@ + if is_blank_text(
        stderr,
    ) {
        Seq::empty()
    } else {
        " stderr: "@ + trimmed(stderr)
    }
}

/// After a try that found no socket while mpv still runs: the number of
/// tries made so far, or the timeout error once more than
/// [`STARTUP_ATTEMPTS`] tries have failed.
pub fn next_startup_attempt(attempts: u32) -> (r: Result<u32, String>)
    requires
        attempts <= STARTUP_ATTEMPTS,
    ensures
        attempts + 1 <= STARTUP_ATTEMPTS ==> r == Ok::<u32, String>((attempts + 1) as u32),
        attempts + 1 > STARTUP_ATTEMPTS ==> (r matches Err(e) && e@ == startup_timeout_text()),
{
    let next = attempts + 1;
    if next > STARTUP_ATTEMPTS {
        let mut e = String::from_str("mpv didn't open the IPC socket within ");
        push_decimal(&mut e, STARTUP_ATTEMPTS as u64 * STARTUP_POLL_MILLIS / 1000);
        e.append("s \u{2014} it's stuck somewhere (process still running)");
        Err(e)
    } else {
        Ok(next)
    }
}

/// What one try to reach the socket found: the socket answered, or it did
/// not and mpv has exited, or it did not and mpv still runs.
#[derive(Debug, Clone, Copy, PartialEq, Eq, Structural)]
pub enum StartupProbe {
    Connected,
    Exited,
    Running,
}

/// What the start-up wait does after a try.
#[derive(Debug, PartialEq, Eq)]
pub enum StartupAction {
    /// The socket is up: mpv is ready.
    Ready,
    /// mpv died: read its stderr and fail with [`exited_early_error`].
    ReportExit,
    /// Wait [`STARTUP_POLL_MILLIS`] and try again; this many tries have
    /// failed so far.
    Wait(u32),
    /// Fail with this timeout error.
    GiveUp(String),
}

/// The failed-try count after one more try found no socket while mpv ran,
/// or `None` once more than [`STARTUP_ATTEMPTS`] tries have failed.
pub open spec fn next_wait(attempts: nat) -> Option<nat> {
    if attempts + 1 <= STARTUP_ATTEMPTS {
        Some(attempts + 1)
    } else {
        None
    }
}

/// One step of the start-up wait, after `attempts` failed tries: ready when
/// the socket answered, report the exit when mpv died, else wait for the
/// next try or give up with the timeout error.
pub fn startup_step(attempts: u32, probe: StartupProbe) -> (r: StartupAction)
    requires
        attempts <= STARTUP_ATTEMPTS,
    ensures
        match probe {
            StartupProbe::Connected => r == StartupAction::Ready,
            StartupProbe::Exited => r == StartupAction::ReportExit,
            StartupProbe::Running => match next_wait(attempts as nat) {
                Some(n) => r matches StartupAction::Wait(m) && m == n,
                None => r matches StartupAction::GiveUp(e) && e@ == startup_timeout_text(),
            },
        },
{
    match probe {
        StartupProbe::Connected => StartupAction::Ready,
        StartupProbe::Exited => StartupAction::ReportExit,
        StartupProbe::Running => match next_startup_attempt(attempts) {
            Ok(n) => StartupAction::Wait(n),
            Err(e) => StartupAction::GiveUp(e),
        },
    }
}

/// How many tries the wait makes from `attempts` failed ones, while mpv
/// runs without opening its socket, until it gives up.
pub open spec fn tries_until_give_up(attempts: nat) -> nat
    decreases STARTUP_ATTEMPTS - attempts,
{
    match next_wait(attempts) {
        Some(n) => 1 + tries_until_give_up(n),
        None => 1,
    }
}

/// With mpv running but never opening its socket, the wait gives up after
/// exactly `STARTUP_ATTEMPTS + 1 - attempts` more tries: 151 from the start,
/// some 3 seconds of 20 ms waits.
pub proof fn lemma_startup_gives_up(attempts: nat)
    requires
        attempts <= STARTUP_ATTEMPTS,
    ensures
        tries_until_give_up(attempts) == STARTUP_ATTEMPTS + 1 - attempts,
    decreases STARTUP_ATTEMPTS - attempts,
{
    if attempts + 1 <= STARTUP_ATTEMPTS {
        lemma_startup_gives_up(attempts + 1);
    }
}

/// The error for an mpv that exited with `status` (as displayed) before
/// opening its socket, having written `stderr`.
pub fn exited_early_error(status: &str, stderr: &str) -> (r: String)
    ensures
        r@ == exited_early_text(status@, stderr@),
{
    let mut e = String::from_str("mpv exited before opening the IPC socket (status: ");
    e.append(status);
    e.append(").");
    if !is_blank(stderr) {
        e.append(" stderr: ");
        let t = trim(stderr);
        e.append(t.as_str());
    }
    e
}

/// Whether a reply is one of mpv's spontaneous messages: an object with
/// an `event` member.
pub open spec fn is_event(v: JsonModel) -> bool {
    json_member(v, "event"@) is Some
}

/// What a line read from the socket after a command is: `Some` with the
/// parsed reply when it is our command's response, `None` when it must be
/// skipped (not JSON, or one of mpv's `event` messages).
pub open spec fn reply_of_line_spec(line: Seq<char>) -> Option<JsonModel> {
    match json_document(line) {
        Some(v) => if is_event(v) {
            None
        } else {
            Some(v)
        },
        None => None,
    }
}

/// One line read from the socket after a command: the reply, or `None`
/// when the line is to be skipped (see [`reply_of_line_spec`]).
pub fn reply_of_line(line: &str) -> (r: Option<JsonDoc>)
    ensures
        match reply_of_line_spec(line@) {
            Some(v) => r matches Some(d) && d@ == v,
            None => r is None,
        },
{
    match parse_json(line) {
        Some(value) => {
            if json_get(&value, "event").is_some() {
                None
            } else {
                Some(value)
            }
        },
        None => None,
    }
}

/// The `data` member of a `get_property` reply.
pub open spec fn reply_data(reply: JsonModel) -> Option<JsonModel> {
    json_member(reply, "data"@)
}

/// The `data` of a `get_property` reply read as an integer, `None` when the
/// property has no integer value.
pub fn reply_data_i64(reply: &JsonDoc) -> (r: Option<i64>)
    ensures
        r == match reply_data(reply@) {
            Some(d) => json_i64(d),
            None => None,
        },
{
    match json_get(reply, "data") {
        Some(d) => json_as_i64(&d),
        None => None,
    }
}

/// The `data` of a `get_property` reply read as a boolean, `None` when the
/// property has no boolean value.
pub fn reply_data_bool(reply: &JsonDoc) -> (r: Option<bool>)
    ensures
        r == match reply_data(reply@) {
            Some(d) => json_bool(d),
            None => None,
        },
{
    match json_get(reply, "data") {
        Some(d) => json_as_bool(&d),
        None => None,
    }
}

} // verus!
