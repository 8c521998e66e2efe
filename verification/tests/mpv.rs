use yt_tui::mpv::{
    exited_early_error, next_startup_attempt, reply_data_bool, reply_data_i64, reply_of_line,
    socket_path, spawn_args, startup_step, video_track, LoadMode, MpvCommand, StartupAction, StartupProbe, STARTUP_ATTEMPTS, STARTUP_POLL_MILLIS,
};

#[test]
fn load_mode_flags() {
    assert_eq!(LoadMode::Replace.as_str(), "replace");
    assert_eq!(LoadMode::AppendPlay.as_str(), "append-play");
}

#[test]
fn video_track_values() {
    assert_eq!(video_track(true), "auto");
    assert_eq!(video_track(false), "no");
}

#[test]
fn socket_path_per_process() {
    assert_eq!(socket_path(4242), "/tmp/yt-tui-mpv-4242.sock");
    assert_eq!(socket_path(0), "/tmp/yt-tui-mpv-0.sock");
}

#[test]
fn mpv_arguments() {
    assert_eq!(
        spawn_args("/tmp/s.sock"),
        vec!["--idle", "--no-terminal", "--vid=no", "--input-ipc-server=/tmp/s.sock"]
    );
}

#[test]
fn startup_gives_up_after_the_last_attempt() {
    assert_eq!(STARTUP_ATTEMPTS, 150);
    assert_eq!(STARTUP_POLL_MILLIS, 20);
    assert_eq!(next_startup_attempt(0), Ok(1));
    assert_eq!(next_startup_attempt(149), Ok(150));
    assert_eq!(
        next_startup_attempt(150),
        Err("mpv didn't open the IPC socket within 3s — it's stuck somewhere (process still running)"
            .to_string())
    );
}

#[test]
fn startup_waits_through_every_attempt() {
    let mut attempts = 0;
    let mut tries = 0;
    while let Ok(n) = next_startup_attempt(attempts) {
        attempts = n;
        tries += 1;
    }
    assert_eq!(tries, 150);
}

#[test]
fn exited_early_message() {
    assert_eq!(
        exited_early_error("exit status: 1", "  \n"),
        "mpv exited before opening the IPC socket (status: exit status: 1)."
    );
    assert_eq!(
        exited_early_error("exit status: 2", " Error opening display\n"),
        "mpv exited before opening the IPC socket (status: exit status: 2). stderr: Error opening display"
    );
}

#[test]
fn replies_skip_events_and_garbage() {
    assert!(reply_of_line("not json").is_none());
    assert!(reply_of_line(r#"{"event":"pause"}"#).is_none());
    let r = reply_of_line(r#"{"data":3,"error":"success","request_id":0}"#).unwrap();
    assert_eq!(reply_data_i64(&r), Some(3));
    assert_eq!(reply_data_bool(&r), None);
    let b = reply_of_line(r#"{"data":true,"error":"success"}"#).unwrap();
    assert_eq!(reply_data_bool(&b), Some(true));
    let none = reply_of_line(r#"{"error":"property unavailable"}"#).unwrap();
    assert_eq!(reply_data_i64(&none), None);
}

#[test]
fn command_words() {
    assert_eq!(
        MpvCommand::LoadFile("https://www.youtube.com/watch?v=x".to_string(), LoadMode::AppendPlay).words(),
        vec!["loadfile", "https://www.youtube.com/watch?v=x", "append-play"]
    );
    assert_eq!(MpvCommand::CyclePause.words(), vec!["cycle", "pause"]);
    assert_eq!(MpvCommand::PlaylistNext.words(), vec!["playlist-next", "weak"]);
    assert_eq!(MpvCommand::PlaylistPrev.words(), vec!["playlist-prev", "weak"]);
    assert_eq!(MpvCommand::SetVideo(false).words(), vec!["set_property", "vid", "no"]);
    assert_eq!(MpvCommand::GetProperty("time-pos".to_string()).words(), vec!["get_property", "time-pos"]);
    assert_eq!(MpvCommand::Stop.words(), vec!["stop"]);
}

#[test]
fn reply_numbers_follow_integer_ranges() {
    let big = reply_of_line(r#"{"data":18446744073709551615}"#).unwrap();
    assert_eq!(reply_data_i64(&big), None);
    let neg = reply_of_line(r#"{"data":-5}"#).unwrap();
    assert_eq!(reply_data_i64(&neg), Some(-5));
    let float = reply_of_line(r#"{"data":1.5}"#).unwrap();
    assert_eq!(reply_data_i64(&float), None);
    let not_object = reply_of_line("[1]").unwrap();
    assert_eq!(reply_data_bool(&not_object), None);
}

#[test]
fn json_documents_parse_or_not() {
    assert!(yt_tui::json::JsonDoc::parse("{\"a\":1}").is_some());
    assert!(yt_tui::json::JsonDoc::parse("{\"a\":").is_none());
    assert!(yt_tui::json::JsonDoc::parse("").is_none());
}

#[test]
fn startup_steps() {
    assert_eq!(startup_step(0, StartupProbe::Connected), StartupAction::Ready);
    assert_eq!(startup_step(3, StartupProbe::Exited), StartupAction::ReportExit);
    assert_eq!(startup_step(149, StartupProbe::Running), StartupAction::Wait(150));
    assert_eq!(
        startup_step(150, StartupProbe::Running),
        StartupAction::GiveUp(
            "mpv didn't open the IPC socket within 3s — it's stuck somewhere (process still running)"
                .to_string()
        )
    );
    let mut attempts = 0;
    let mut tries = 1;
    while let StartupAction::Wait(n) = startup_step(attempts, StartupProbe::Running) {
        attempts = n;
        tries += 1;
    }
    assert_eq!(tries, 151);
}
