use fetch_progress::event::ProgressEvent;
use fetch_progress::notify::{notification, Channel};
use fetch_progress::worker::{album_args, song_args};

#[test]
fn channels_by_kind() {
    let n = notification(&ProgressEvent::AlbumComplete { success: 1, failed: 0, skipped: 0, total: 1 });
    assert_eq!(n.channel, Channel::Complete);
    assert_eq!(n.channel.name(), "download-complete");
    let n = notification(&ProgressEvent::Error { message: "x".to_string() });
    assert_eq!(n.channel.name(), "download-error");
    let n = notification(&ProgressEvent::SongStart { index: 1, total: 2, title: "t".to_string() });
    assert_eq!(n.channel.name(), "download-progress");
    assert_eq!(n.members.len(), 4);
    assert_eq!(n.members[1].key, "index");
    assert_eq!(n.members[1].count, Some(1));
}

#[test]
fn album_arguments() {
    let args = album_args("http://x", "/out", Some(25), 30, 3, "0.5", true, false, true);
    let expected: Vec<&str> = vec![
        "-m", "resource_fetcher_cli", "--url", "http://x", "--output", "/out", "--timeout", "30",
        "--retries", "3", "--delay", "0.5", "--limit", "25", "--overwrite", "--verbose",
    ];
    assert_eq!(args, expected);
}

#[test]
fn song_arguments() {
    let args = song_args("u", "o", 4294967295, 0, "1", true, false);
    let expected: Vec<&str> = vec![
        "-m", "resource_fetcher_cli", "--url", "u", "--output", "o", "--timeout", "4294967295",
        "--retries", "0", "--delay", "1", "--renumber",
    ];
    assert_eq!(args, expected);
}
