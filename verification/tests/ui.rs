use yt_tui::app::{App, ListSource};
use yt_tui::history::History;
use yt_tui::ui::{
    entry_duration_label, entry_uploader_label, highlighted_row, main_list_title, progress_label,
    queue_current_row, queue_row, queue_title, search_bar_title, status_line,
};
use yt_tui::yt::Video;

fn video() -> Video {
    Video {
        id: "i".to_string(),
        title: "Song".to_string(),
        duration: Some(75),
        uploader: Some("Band".to_string()),
        view_count: None,
    }
}

#[test]
fn titles() {
    assert_eq!(search_bar_title(), "Search (/ to focus, Enter to search)");
    assert_eq!(main_list_title(ListSource::Search), "Results (H: history | Enter/a: enqueue | r: play now)");
    assert_eq!(
        main_list_title(ListSource::History),
        "History (H: back to search | Enter/a: enqueue | r: play now)"
    );
    assert_eq!(queue_title(3), "Queue (3) — n/p change track, c clears");
}

#[test]
fn list_rows() {
    let mut v = video();
    assert_eq!(entry_duration_label(&v), "[01:15] ");
    assert_eq!(entry_uploader_label(&v).as_deref(), Some("  — Band"));
    v.duration = None;
    v.uploader = None;
    assert_eq!(entry_duration_label(&v), "[--:--] ");
    assert_eq!(entry_uploader_label(&v), None);
}

#[test]
fn highlighted_rows() {
    assert_eq!(highlighted_row(0, 0), None);
    assert_eq!(highlighted_row(2, 5), Some(2));
    assert_eq!(highlighted_row(9, 5), Some(4));
}

#[test]
fn queue_rows() {
    assert_eq!(queue_current_row(Some(2)), Some(2));
    assert_eq!(queue_current_row(Some(-1)), None);
    assert_eq!(queue_current_row(None), None);
    assert_eq!(queue_row(2, Some(2), "A"), (true, "▶ A".to_string()));
    assert_eq!(queue_row(1, Some(2), "B"), (false, "  B".to_string()));
    assert_eq!(queue_row(0, None, "C"), (false, "  C".to_string()));
}

#[test]
fn progress_labels() {
    assert_eq!(progress_label(0, 0), "00:00 / 00:00");
    assert_eq!(progress_label(65, 3600), "01:05 / 60:00");
}

#[test]
fn status_lines() {
    let mut app = App::new(History::default());
    app.status = "hi".to_string();
    assert_eq!(status_line(&app), "nothing playing [audio-only, v: toggle] | hi");
    app.now_playing = Some(video());
    app.video_enabled = true;
    assert_eq!(status_line(&app), "playing: Song [video, v: toggle] | hi");
    app.paused = true;
    assert_eq!(status_line(&app), "paused: Song [video, v: toggle] | hi");
}
