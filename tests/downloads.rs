use gativideo::downloads::{
    classify_status, action_for, DownloadItem, DownloadStatus, RunAction, RunRequest, TorrentState,
    Transmission, ONE_BITS,
};
use gativideo::strings::escape_spaces_of;

fn item(id: i64, state: TorrentState, stalled: bool, done: f32) -> DownloadItem {
    DownloadItem {
        id,
        name: format!("t{id}"),
        size_bytes: 1024,
        percent_done_bits: done.to_bits(),
        peers_sending: 1,
        peers_connected: 2,
        stalled,
        state,
    }
}

#[test]
fn stalled_wins_over_finished() {
    assert_eq!(classify_status(true, 1.0f32.to_bits()), DownloadStatus::Stalled);
}

#[test]
fn complete_and_moving_is_finished() {
    assert_eq!(classify_status(false, 1.0f32.to_bits()), DownloadStatus::Finished);
    assert_eq!(ONE_BITS, 1.0f32.to_bits());
}

#[test]
fn partial_is_downloading() {
    assert_eq!(classify_status(false, 0.42f32.to_bits()), DownloadStatus::Downloading);
    assert_eq!(classify_status(false, 0.99999994f32.to_bits()), DownloadStatus::Downloading);
    assert_eq!(item(1, TorrentState::Downloading, false, 0.5).status(), DownloadStatus::Downloading);
    assert_eq!(item(1, TorrentState::Seeding, false, 1.0).status(), DownloadStatus::Finished);
}

#[test]
fn toggle_starts_only_stopped_torrents() {
    assert_eq!(action_for(TorrentState::Stopped), RunAction::Start);
    for s in [
        TorrentState::QueuedToVerify,
        TorrentState::Verifying,
        TorrentState::QueuedToDownload,
        TorrentState::Downloading,
        TorrentState::QueuedToSeed,
        TorrentState::Seeding,
    ] {
        assert_eq!(action_for(s), RunAction::Stop);
    }
}

#[test]
fn toggle_requests_by_queue_entry() {
    let mut t = Transmission::new("/dl".to_string(), 1000);
    t.scan(
        vec![
            item(7, TorrentState::Stopped, false, 0.1),
            item(8, TorrentState::Downloading, false, 0.4),
            item(9, TorrentState::Seeding, true, 1.0),
            item(10, TorrentState::Seeding, false, 1.0),
        ],
        5,
    );
    assert!(!t.scan_due(5));
    assert_eq!(t.toggle(0), Some(RunRequest { id: 7, action: RunAction::Start }));
    assert_eq!(t.toggle(1), Some(RunRequest { id: 8, action: RunAction::Stop }));
    assert_eq!(t.toggle(2), Some(RunRequest { id: 9, action: RunAction::Stop }));
    assert_eq!(t.toggle(3), Some(RunRequest { id: 10, action: RunAction::Stop }));
    assert!(t.scan_due(5));
    assert_eq!(t.toggle(4), None);
}

#[test]
fn remove_gives_the_id_and_marks_stale() {
    let mut t = Transmission::new("/dl".to_string(), 1000);
    t.scan(vec![item(3, TorrentState::Seeding, false, 1.0)], 0);
    assert_eq!(t.remove(1), None);
    assert!(!t.scan_due(10));
    assert_eq!(t.remove(0), Some(3));
    assert!(t.scan_due(10));
}

#[test]
fn scan_falls_due_once_per_interval() {
    let mut t = Transmission::new("/dl".to_string(), 1000);
    assert!(t.scan_due(0));
    assert_eq!(t.timeout_ms(0), 0);
    t.scan(Vec::new(), 200);
    assert!(!t.scan_due(200));
    assert_eq!(t.timeout_ms(200), 1000);
    assert_eq!(t.timeout_ms(700), 500);
    assert!(!t.scan_due(1199));
    assert!(t.scan_due(700 + t.timeout_ms(700)));
    assert!(t.scan_due(5000));
    assert_eq!(t.timeout_ms(5000), 0);
    assert_eq!(t.timeout_ms(100), 1000);
}

#[test]
fn add_escapes_spaces_and_refreshes_at_once() {
    let mut t = Transmission::new("/home/u/Downloads".to_string(), 1000);
    t.scan(Vec::new(), 0);
    assert!(!t.scan_due(1));
    let r = t.add("http://host/a movie file.torrent");
    assert_eq!(r.filename, "http://host/a%20movie%20file.torrent");
    assert_eq!(r.download_dir, "/home/u/Downloads");
    assert!(t.scan_due(1));
    assert_eq!(t.timeout_ms(1), 0);
    t.scan(vec![item(1, TorrentState::Downloading, false, 0.0)], 2);
    assert!(t.is_visible());
    assert_eq!(t.torrents[0].id, 1);
}

#[test]
fn escape_spaces_only_touches_spaces() {
    assert_eq!(escape_spaces_of(""), "");
    assert_eq!(escape_spaces_of(" "), "%20");
    assert_eq!(escape_spaces_of("a b  c"), "a%20b%20%20c");
    assert_eq!(escape_spaces_of("ñ%x"), "ñ%x");
}

#[test]
fn cursor_and_scroll_stay_in_bounds() {
    let mut t = Transmission::new("/dl".to_string(), 1000);
    assert_eq!(t.selected, 0);
    assert_eq!(t.scroll, 1);
    t.scroll_bar_down();
    assert_eq!(t.scroll, 1);
    t.scroll_bar_up();
    assert_eq!(t.scroll, 1);
    t.scan(
        vec![
            item(1, TorrentState::Stopped, false, 0.0),
            item(2, TorrentState::Stopped, false, 0.0),
            item(3, TorrentState::Stopped, false, 0.0),
        ],
        0,
    );
    t.select_next();
    t.select_next();
    t.select_next();
    assert_eq!(t.selected, 2);
    t.scroll_bar_down();
    t.scroll_bar_down();
    assert_eq!(t.scroll, 2);
    t.scan(vec![item(1, TorrentState::Stopped, false, 0.0)], 1);
    assert_eq!(t.selected, 0);
    t.select_previous();
    assert_eq!(t.selected, 0);
}

#[test]
fn queue_height_is_capped() {
    let mut t = Transmission::new("/dl".to_string(), 1000);
    assert_eq!(t.height(), 4);
    t.scan((0..5).map(|i| item(i, TorrentState::Stopped, false, 0.0)).collect(), 0);
    assert_eq!(t.height(), 9);
    t.scan((0..6).map(|i| item(i, TorrentState::Stopped, false, 0.0)).collect(), 0);
    assert_eq!(t.height(), 10);
}
