use yt_tui::json::JsonDoc;
use yt_tui::yt::{parse_video, search_args, search_term, Video, VideoFields, SEARCH_LIMIT};

fn video(duration: Option<u64>) -> Video {
    Video {
        id: "dQw4w9WgXcQ".to_string(),
        title: "Song".to_string(),
        duration,
        uploader: Some("Someone".to_string()),
        view_count: Some(7),
    }
}

#[test]
fn url_is_the_watch_url() {
    assert_eq!(video(None).url(), "https://www.youtube.com/watch?v=dQw4w9WgXcQ");
}

#[test]
fn duration_fmt_minutes_and_seconds() {
    assert_eq!(video(Some(0)).duration_fmt(), "00:00");
    assert_eq!(video(Some(5)).duration_fmt(), "00:05");
    assert_eq!(video(Some(212)).duration_fmt(), "03:32");
    assert_eq!(video(Some(600)).duration_fmt(), "10:00");
    assert_eq!(video(Some(3599)).duration_fmt(), "59:59");
    assert_eq!(video(Some(7384)).duration_fmt(), "123:04");
}

#[test]
fn duration_fmt_unknown() {
    assert_eq!(video(None).duration_fmt(), "--:--");
}

#[test]
fn video_equality_compares_fields() {
    assert_eq!(video(Some(1)), video(Some(1)));
    assert_ne!(video(Some(1)), video(Some(2)));
    let mut other = video(Some(1));
    other.uploader = None;
    assert_ne!(video(Some(1)), other);
}

#[test]
fn parse_video_reads_a_full_line() {
    let raw = JsonDoc::parse(
        r#"{"id":"abc","title":"T","duration":61.6,"uploader":"U","view_count":42}"#,
    )
    .unwrap();
    let v = parse_video(&raw, Some(62)).unwrap();
    assert_eq!(v.id, "abc");
    assert_eq!(v.title, "T");
    assert_eq!(v.duration, Some(62));
    assert_eq!(v.uploader.as_deref(), Some("U"));
    assert_eq!(v.view_count, Some(42));
}

#[test]
fn parse_video_untitled_and_missing_fields() {
    let raw = JsonDoc::parse(r#"{"id":"abc","title":null,"uploader":3,"view_count":-1}"#).unwrap();
    let v = parse_video(&raw, None).unwrap();
    assert_eq!(v.title, "(untitled)");
    assert_eq!(v.uploader, None);
    assert_eq!(v.view_count, None);
    assert_eq!(v.duration, None);
}

#[test]
fn parse_video_needs_string_id_and_a_title() {
    let no_id = JsonDoc::parse(r#"{"title":"T"}"#).unwrap();
    assert!(parse_video(&no_id, None).is_none());
    let numeric_id = JsonDoc::parse(r#"{"id":5,"title":"T"}"#).unwrap();
    assert!(parse_video(&numeric_id, None).is_none());
    let no_title = JsonDoc::parse(r#"{"id":"abc"}"#).unwrap();
    assert!(parse_video(&no_title, None).is_none());
    let not_object = JsonDoc::parse(r#"[1,2]"#).unwrap();
    assert!(parse_video(&not_object, None).is_none());
}

#[test]
fn video_fields_into_video() {
    let f = VideoFields {
        id: Some("i".to_string()),
        title: Some(None),
        duration: Some(3),
        uploader: None,
        view_count: Some(1),
    };
    let v = f.into_video().unwrap();
    assert_eq!(v.title, "(untitled)");
    assert_eq!(v.duration, Some(3));
    let missing = VideoFields { id: None, title: Some(Some("t".to_string())), duration: None, uploader: None, view_count: None };
    assert!(missing.into_video().is_none());
}

#[test]
fn search_term_and_args() {
    assert_eq!(SEARCH_LIMIT, 15);
    assert_eq!(search_term(SEARCH_LIMIT, "lofi beats"), "ytsearch15:lofi beats");
    assert_eq!(search_term(0, ""), "ytsearch0:");
    assert_eq!(
        search_args("ytsearch15:x"),
        vec!["--dump-json", "--flat-playlist", "--no-warnings", "--ignore-errors", "ytsearch15:x"]
    );
}
