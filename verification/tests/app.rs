use yt_tui::app::{key_command, App, Command, Effect, Key, ListSource, Mode, ProgressPoll};
use yt_tui::history::History;
use yt_tui::mpv::LoadMode;
use yt_tui::yt::Video;

fn video(id: &str) -> Video {
    Video {
        id: id.to_string(),
        title: format!("Title {id}"),
        duration: Some(90),
        uploader: None,
        view_count: None,
    }
}

fn app_with_results(ids: &[&str]) -> App {
    let mut app = App::new(History::default());
    app.mode = Mode::Browsing;
    app.drain_search_results(ids.iter().map(|i| video(i)).collect());
    app
}

fn type_text(app: &mut App, text: &str) {
    for c in text.chars() {
        let e = app.handle_key(Key::Char(c));
        assert!(matches!(e, Effect::Nothing));
    }
}

#[test]
fn new_app_starts_in_search_mode() {
    let app = App::new(History { entries: vec![video("h")] });
    assert_eq!(app.mode, Mode::Searching);
    assert_eq!(app.list_source, ListSource::Search);
    assert_eq!(app.status, "Type something and press Enter to search (H to view history)");
    assert_eq!(app.history.entries.len(), 1);
    assert!(app.queue.is_empty() && app.now_playing.is_none() && !app.should_quit);
}

#[test]
fn typing_and_searching() {
    let mut app = App::new(History::default());
    type_text(&mut app, "lofi");
    app.handle_key(Key::Backspace);
    assert_eq!(app.query, "lof");
    match app.handle_key(Key::Enter) {
        Effect::Search(q) => assert_eq!(q, "lof"),
        other => panic!("unexpected {other:?}"),
    }
    assert_eq!(app.mode, Mode::Browsing);
    assert_eq!(app.status, "Searching \"lof\"...");
}

#[test]
fn blank_query_does_not_search() {
    let mut app = App::new(History::default());
    type_text(&mut app, "  ");
    assert!(matches!(app.handle_key(Key::Enter), Effect::Nothing));
    assert_eq!(app.mode, Mode::Searching);
    assert!(app.start_search().is_none());
}

#[test]
fn backspace_on_empty_query() {
    let mut app = App::new(History::default());
    app.handle_key(Key::Backspace);
    assert_eq!(app.query, "");
}

#[test]
fn start_search_clears_results() {
    let mut app = app_with_results(&["a", "b"]);
    app.selected = 1;
    app.list_source = ListSource::History;
    app.query = "new".to_string();
    assert_eq!(app.start_search().as_deref(), Some("new"));
    assert!(app.results.is_empty());
    assert_eq!(app.selected, 0);
    assert_eq!(app.list_source, ListSource::Search);
}

#[test]
fn esc_quits_in_both_modes() {
    let mut app = App::new(History::default());
    app.handle_key(Key::Esc);
    assert!(app.should_quit);
    let mut app = app_with_results(&[]);
    app.handle_key(Key::Char('q'));
    assert!(app.should_quit);
}

#[test]
fn moving_is_clamped() {
    let mut app = app_with_results(&["a", "b", "c"]);
    app.handle_key(Key::Up);
    assert_eq!(app.selected, 0);
    app.handle_key(Key::Down);
    app.handle_key(Key::Char('j'));
    app.handle_key(Key::Char('j'));
    assert_eq!(app.selected, 2);
    app.move_selection(-10);
    assert_eq!(app.selected, 0);
    app.move_selection(10);
    assert_eq!(app.selected, 2);
    app.handle_key(Key::Char('k'));
    assert_eq!(app.selected, 1);
}

#[test]
fn moving_on_empty_list_does_nothing() {
    let mut app = app_with_results(&[]);
    app.selected = 4;
    app.move_selection(1);
    assert_eq!(app.selected, 4);
}

#[test]
fn toggling_history_view() {
    let mut app = app_with_results(&["a"]);
    app.history.entries = vec![video("x"), video("y")];
    app.selected = 0;
    app.handle_key(Key::Char('H'));
    assert_eq!(app.list_source, ListSource::History);
    assert_eq!(app.status, "History (2 items)");
    assert_eq!(app.active_list().len(), 2);
    app.toggle_history_view();
    assert_eq!(app.list_source, ListSource::Search);
    assert_eq!(app.status, "Showing search results");
    assert_eq!(app.selected, 0);
}

#[test]
fn enqueue_first_video_starts_playing() {
    let mut app = app_with_results(&["a", "b"]);
    match app.handle_key(Key::Enter) {
        Effect::Load(req) => {
            assert_eq!(req.url, "https://www.youtube.com/watch?v=a");
            assert_eq!(req.mode, LoadMode::AppendPlay);
            assert!(req.starts_now);
        }
        other => panic!("unexpected {other:?}"),
    }
    assert_eq!(app.queue, vec![video("a")]);
    assert_eq!(app.now_playing, Some(video("a")));
    assert_eq!(app.status, "Loading \"Title a\"...");
    assert_eq!(app.history.entries, vec![video("a")]);
}

#[test]
fn enqueue_behind_playing_video_joins_the_queue() {
    let mut app = app_with_results(&["a", "b"]);
    app.enqueue_selected();
    app.paused = true;
    app.move_selection(1);
    let req = app.enqueue_selected().unwrap();
    assert!(!req.starts_now);
    assert_eq!(app.queue, vec![video("a"), video("b")]);
    assert_eq!(app.now_playing, Some(video("a")));
    assert!(app.paused);
    assert_eq!(app.status, "Added to queue: \"Title b\"");
    assert_eq!(app.history.entries, vec![video("b"), video("a")]);
}

#[test]
fn replace_clears_queue_and_plays_now() {
    let mut app = app_with_results(&["a", "b"]);
    app.enqueue_selected();
    app.move_selection(1);
    app.enqueue_selected();
    app.paused = true;
    app.playlist_pos = Some(1);
    match app.handle_key(Key::Char('r')) {
        Effect::Load(req) => {
            assert_eq!(req.mode, LoadMode::Replace);
            assert!(req.starts_now);
        }
        other => panic!("unexpected {other:?}"),
    }
    assert_eq!(app.queue, vec![video("b")]);
    assert_eq!(app.playlist_pos, Some(0));
    assert_eq!(app.now_playing, Some(video("b")));
    assert!(!app.paused);
}

#[test]
fn selecting_nothing_does_nothing() {
    let mut app = app_with_results(&[]);
    assert!(matches!(app.handle_key(Key::Char('a')), Effect::Nothing));
    assert!(app.replace_selected().is_none());
    assert!(app.queue.is_empty());
}

#[test]
fn status_after_failures() {
    let mut app = app_with_results(&["a"]);
    app.enqueue_selected();
    app.history_not_saved("disk full");
    assert_eq!(app.status, "Loading \"Title a\"... (warning: failed to save history: disk full)");
    app.load_failed("socket closed");
    assert_eq!(app.status, "Error loading into mpv: socket closed");
    app.report_error("boom");
    assert_eq!(app.status, "Error: boom");
}

#[test]
fn mpv_keys_only_ask_mpv() {
    let mut app = app_with_results(&["a"]);
    assert!(matches!(app.handle_key(Key::Char('c')), Effect::ClearQueue));
    assert!(matches!(app.handle_key(Key::Char(' ')), Effect::TogglePause));
    assert!(matches!(app.handle_key(Key::Right), Effect::Seek(10)));
    assert!(matches!(app.handle_key(Key::Char('h')), Effect::Seek(-10)));
    assert!(matches!(app.handle_key(Key::Char('n')), Effect::NextTrack));
    assert!(matches!(app.handle_key(Key::Char('p')), Effect::PrevTrack));
    assert!(!app.paused);
}

#[test]
fn clear_queue_after_stop() {
    let mut app = app_with_results(&["a"]);
    app.enqueue_selected();
    app.clear_queue();
    assert!(app.queue.is_empty());
    assert_eq!(app.now_playing, None);
    assert_eq!(app.playlist_pos, None);
    assert_eq!(app.status, "Queue cleared");
}

#[test]
fn toggle_pause_and_video() {
    let mut app = app_with_results(&[]);
    app.toggle_pause();
    assert!(app.paused);
    app.toggle_pause();
    assert!(!app.paused);
    assert!(matches!(app.handle_key(Key::Char('v')), Effect::SetVideo(true)));
    assert!(app.video_enabled);
    app.show_video_mode();
    assert_eq!(app.status, "Video enabled");
    assert!(!app.toggle_video());
    app.show_video_mode();
    assert_eq!(app.status, "Audio-only mode");
}

#[test]
fn refresh_follows_mpv() {
    let mut app = app_with_results(&["a", "b"]);
    app.enqueue_selected();
    app.move_selection(1);
    app.enqueue_selected();
    app.refresh_progress(ProgressPoll {
        had_position: false,
        time_pos: Some(true),
        playlist_pos: Some(Some(1)),
        pause: Some(Some(true)),
    });
    assert_eq!(app.status, "Playing");
    assert_eq!(app.playlist_pos, Some(1));
    assert_eq!(app.now_playing, Some(video("b")));
    assert!(app.paused);
    app.status = "x".to_string();
    app.refresh_progress(ProgressPoll {
        had_position: true,
        time_pos: Some(true),
        playlist_pos: Some(Some(7)),
        pause: None,
    });
    assert_eq!(app.status, "x");
    assert_eq!(app.playlist_pos, Some(7));
    assert_eq!(app.now_playing, Some(video("b")));
    assert!(app.paused);
    app.refresh_progress(ProgressPoll {
        had_position: true,
        time_pos: None,
        playlist_pos: Some(Some(-1)),
        pause: Some(None),
    });
    assert_eq!(app.playlist_pos, Some(-1));
    assert_eq!(app.now_playing, Some(video("b")));
}

#[test]
fn refresh_does_nothing_while_idle() {
    let mut app = app_with_results(&["a"]);
    app.refresh_progress(ProgressPoll {
        had_position: false,
        time_pos: Some(true),
        playlist_pos: Some(Some(0)),
        pause: Some(Some(true)),
    });
    assert_eq!(app.playlist_pos, None);
    assert!(!app.paused);
    assert_ne!(app.status, "Playing");
}

#[test]
fn key_table() {
    assert_eq!(key_command(Mode::Searching, Key::Char('q')), Command::TypeChar('q'));
    assert_eq!(key_command(Mode::Searching, Key::Up), Command::Nothing);
    assert_eq!(key_command(Mode::Browsing, Key::Char('/')), Command::FocusSearch);
    assert_eq!(key_command(Mode::Browsing, Key::Char('l')), Command::Seek(10));
    assert_eq!(key_command(Mode::Browsing, Key::Left), Command::Seek(-10));
    assert_eq!(key_command(Mode::Browsing, Key::Other), Command::Nothing);
    assert_eq!(key_command(Mode::Browsing, Key::Char('z')), Command::Nothing);
}

#[test]
fn slash_focuses_search() {
    let mut app = app_with_results(&[]);
    app.handle_key(Key::Char('/'));
    assert_eq!(app.mode, Mode::Searching);
}

#[test]
fn refresh_after_clear_changes_nothing() {
    let mut app = app_with_results(&["a"]);
    app.enqueue_selected();
    app.clear_queue();
    app.refresh_progress(ProgressPoll {
        had_position: false,
        time_pos: Some(true),
        playlist_pos: Some(Some(0)),
        pause: Some(Some(true)),
    });
    assert_eq!(app.status, "Queue cleared");
    assert_eq!(app.playlist_pos, None);
    assert!(!app.paused);
}

#[test]
fn what_plays_stays_in_the_queue() {
    let mut app = app_with_results(&["a", "b", "c"]);
    let in_queue = |app: &App| app.now_playing.as_ref().map_or(true, |v| app.queue.contains(v));
    app.enqueue_selected();
    assert!(in_queue(&app));
    app.move_selection(1);
    app.enqueue_selected();
    assert!(in_queue(&app));
    app.move_selection(1);
    app.replace_selected();
    assert!(in_queue(&app));
    app.refresh_progress(ProgressPoll {
        had_position: true,
        time_pos: Some(true),
        playlist_pos: Some(Some(0)),
        pause: None,
    });
    assert!(in_queue(&app));
    assert_eq!(app.now_playing, Some(video("c")));
}

#[test]
fn down_then_up_returns_and_empty_list_moves_nothing() {
    let mut app = app_with_results(&["a", "b", "c"]);
    app.move_selection(1);
    app.move_selection(-1);
    assert_eq!(app.selected, 0);
    let mut empty = app_with_results(&[]);
    empty.selected = usize::MAX;
    empty.move_selection(1);
    assert_eq!(empty.selected, usize::MAX);
    assert!(matches!(empty.handle_key(Key::Down), Effect::Nothing));
    assert_eq!(empty.selected, usize::MAX);
}
