use gativideo::downloads::{DownloadItem, RunAction, RunRequest, TorrentState};
use gativideo::filter::{OrderKey, RatingFilter, YearFilter};
use gativideo::focus::Focus;
use gativideo::movie_table::ResultPage;
use gativideo::popup::SubtitlePage;
use gativideo::session::{Command, Key, Session};

type Plain = Session<&'static str, &'static str, &'static str>;

fn session() -> Plain {
    Session::new(OrderKey::Rating, "/dl".to_string(), 1000)
}

fn page(current: u32, of: u32, total: u32, movies: Vec<&'static str>) -> ResultPage<&'static str> {
    ResultPage { current, of, total, movies }
}

fn type_text(s: &mut Plain, text: &str) {
    for c in text.chars() {
        assert_eq!(s.handle_key(Key::Char(c)), Command::Nothing);
    }
}

fn visible(s: &Plain) -> usize {
    [s.notification.show, s.torrents.popup.show, s.subtitles.popup.show]
        .iter()
        .filter(|v| **v)
        .count()
}

fn queued(id: i64, state: TorrentState) -> DownloadItem {
    DownloadItem {
        id,
        name: "x".to_string(),
        size_bytes: 0,
        percent_done_bits: 0,
        peers_sending: 0,
        peers_connected: 0,
        stalled: false,
        state,
    }
}

#[test]
fn empty_search_with_no_results_shows_empty_page() {
    let mut s = session();
    let cmd = s.handle_key(Key::Enter);
    match cmd {
        Command::Search(req) => {
            assert_eq!(req.query.free_text, "");
            assert_eq!(req.page, 1);
        }
        other => panic!("unexpected {other:?}"),
    }
    s.search_done(Ok(page(0, 0, 0, vec![])));
    assert_eq!(s.focus, Focus::MovieTable);
    assert_eq!(s.movies.response.current, 0);
    assert_eq!(s.movies.response.of, 0);
    assert_eq!(s.movies.response.total, 0);
    assert!(s.movies.response.movies.is_empty());
    assert_eq!(s.movies.footer(), " 0 Movie/s - Page 0/0 ");
    assert_eq!(s.movies.height(), 2);
    assert_eq!(s.handle_key(Key::Char('t')), Command::Nothing);
    assert_eq!(s.handle_key(Key::Right), Command::Nothing);
    assert_eq!(s.handle_key(Key::Left), Command::Nothing);
}

#[test]
fn search_success_moves_to_results() {
    let mut s = session();
    type_text(&mut s, "Inception year:2010");
    match s.handle_key(Key::Enter) {
        Command::Search(req) => {
            assert_eq!(req.query.free_text, "Inception");
            assert_eq!(req.query.year, YearFilter::Equal(2010));
            assert_eq!(req.query.rating, RatingFilter::All);
            assert_eq!(req.query.order, OrderKey::Rating);
        }
        other => panic!("unexpected {other:?}"),
    }
    assert_eq!(s.focus, Focus::InputBox);
    s.search_done(Ok(page(1, 1, 1, vec!["Inception"])));
    assert_eq!(s.focus, Focus::MovieTable);
    assert_eq!(s.movies.response.movies, vec!["Inception"]);
    assert_eq!(s.movies.footer(), " 1 Movie/s - Page 1/1 ");
}

#[test]
fn search_failure_notifies_and_keeps_page() {
    let mut s = session();
    s.search_done(Ok(page(1, 2, 30, vec!["Old"])));
    s.handle_key(Key::Tab);
    assert_eq!(s.focus, Focus::InputBox);
    type_text(&mut s, "Inception");
    assert!(matches!(s.handle_key(Key::Enter), Command::Search(_)));
    s.search_done(Err("timeout".to_string()));
    assert_eq!(s.focus, Focus::PopupNotification);
    assert!(s.notification.show);
    assert_eq!(s.notification.text, "\u{ea87}  Error searching movies timeout");
    assert_eq!(s.movies.response.movies, vec!["Old"]);
    assert_eq!(s.movies.response.current, 1);
    assert_eq!(s.movies.response.total, 30);
}

#[test]
fn page_turns_stop_at_the_ends() {
    let mut s = session();
    type_text(&mut s, "x rating:5");
    s.search_done(Ok(page(1, 3, 55, vec!["a", "b"])));
    assert_eq!(s.handle_key(Key::Left), Command::Nothing);
    match s.handle_key(Key::Right) {
        Command::NextPage(req) => {
            assert_eq!(req.page, 2);
            assert_eq!(req.query.free_text, "x");
            assert_eq!(req.query.rating, RatingFilter::Min(5));
        }
        other => panic!("unexpected {other:?}"),
    }
    s.next_page_done(Ok(page(3, 3, 55, vec!["c"])));
    assert_eq!(s.handle_key(Key::Char('l')), Command::Nothing);
    match s.handle_key(Key::Char('h')) {
        Command::PreviousPage(req) => assert_eq!(req.page, 2),
        other => panic!("unexpected {other:?}"),
    }
    s.previous_page_done(Err("down".to_string()));
    assert_eq!(s.notification.text, "\u{ea87}  Error getting previous page down");
    assert_eq!(s.movies.response.current, 3);
    s.handle_key(Key::Esc);
    s.next_page_done(Err("gone".to_string()));
    assert_eq!(s.notification.text, "\u{ea87}  Error getting next page gone");
}

#[test]
fn tab_cycle_depends_on_queue() {
    let mut s = session();
    assert_eq!(s.handle_key(Key::Tab), Command::Nothing);
    assert_eq!(s.focus, Focus::MovieTable);
    s.handle_key(Key::Tab);
    assert_eq!(s.focus, Focus::InputBox);
    s.downloads.scan(vec![queued(4, TorrentState::Stopped)], 0);
    s.handle_key(Key::Tab);
    s.handle_key(Key::Tab);
    assert_eq!(s.focus, Focus::TorrentTable);
    s.handle_key(Key::Tab);
    assert_eq!(s.focus, Focus::InputBox);
}

#[test]
fn quit_keys_by_focus() {
    let mut s = session();
    assert_eq!(s.handle_key(Key::Char('q')), Command::Nothing);
    assert_eq!(s.input.text, "q");
    assert_eq!(s.handle_key(Key::Backspace), Command::Nothing);
    assert_eq!(s.input.text, "");
    assert_eq!(s.handle_key(Key::Backspace), Command::Nothing);
    assert_eq!(s.handle_key(Key::Esc), Command::Quit);
    s.handle_key(Key::Tab);
    assert_eq!(s.handle_key(Key::Char('q')), Command::Quit);
    assert_eq!(s.handle_key(Key::Esc), Command::Quit);
    s.downloads.scan(vec![queued(4, TorrentState::Stopped)], 0);
    s.handle_key(Key::Tab);
    assert_eq!(s.focus, Focus::TorrentTable);
    assert_eq!(s.handle_key(Key::Char('q')), Command::Quit);
}

#[test]
fn queue_keys_toggle_and_remove() {
    let mut s = session();
    s.downloads.scan(
        vec![queued(4, TorrentState::Stopped), queued(5, TorrentState::Seeding)],
        0,
    );
    s.handle_key(Key::Tab);
    s.handle_key(Key::Tab);
    assert_eq!(
        s.handle_key(Key::Char('s')),
        Command::Run(RunRequest { id: 4, action: RunAction::Start })
    );
    s.handle_key(Key::Down);
    assert_eq!(
        s.handle_key(Key::Char('s')),
        Command::Run(RunRequest { id: 5, action: RunAction::Stop })
    );
    assert_eq!(s.handle_key(Key::Char('d')), Command::Remove(5));
    assert!(s.downloads.scan_due(0));
    s.downloads.scan(Vec::new(), 1);
    assert_eq!(s.handle_key(Key::Char('d')), Command::Nothing);
    assert_eq!(s.handle_key(Key::Char('s')), Command::Nothing);
    assert_eq!(s.focus, Focus::TorrentTable);
}

#[test]
fn torrent_popup_round_trip() {
    let mut s = session();
    s.search_done(Ok(page(1, 1, 2, vec!["a", "b"])));
    s.handle_key(Key::Char('j'));
    assert_eq!(s.handle_key(Key::Char('t')), Command::FindTorrents(1));
    s.torrents_done(Ok(vec!["720p", "1080p", "2160p"]));
    assert_eq!(s.focus, Focus::PopupTorrent);
    assert_eq!(visible(&s), 1);
    s.handle_key(Key::Down);
    s.handle_key(Key::Down);
    s.handle_key(Key::Down);
    assert_eq!(s.torrents.popup.selected, 2);
    assert_eq!(s.handle_key(Key::Enter), Command::AddTorrent(2));
    assert_eq!(s.focus, Focus::MovieTable);
    assert_eq!(visible(&s), 0);
    let req = s.downloads.add(s.torrents.torrents[2]);
    assert_eq!(req.filename, "2160p");
    assert!(s.downloads.scan_due(0));
    s.handle_key(Key::Char('t'));
    s.torrents_done(Ok(vec![]));
    assert_eq!(s.handle_key(Key::Enter), Command::Nothing);
    assert_eq!(s.focus, Focus::PopupTorrent);
    assert!(s.torrents.popup.show);
    s.handle_key(Key::Esc);
    s.handle_key(Key::Char('t'));
    s.torrents_done(Ok(vec!["480p"]));
    assert_eq!(s.torrents.popup.selected, 0);
    assert_eq!(s.handle_key(Key::Char('q')), Command::Nothing);
    assert_eq!(s.focus, Focus::MovieTable);
    s.torrents_done(Err("no net".to_string()));
    assert_eq!(s.notification.text, "\u{ea87}  Error searching torrents no net");
    assert_eq!(s.torrents.torrents, vec!["480p"]);
}

#[test]
fn subtitle_popup_round_trip() {
    let mut s = session();
    s.search_done(Ok(page(1, 1, 1, vec!["The Godfather"])));
    assert_eq!(s.handle_key(Key::Char('s')), Command::FindSubtitles(0));
    let found = SubtitlePage { from: 1, to: 2, total: 40 };
    s.subtitles_done(Ok((found, vec!["es-1", "es-2"])));
    assert_eq!(s.focus, Focus::PopupSubtitle);
    assert_eq!(s.subtitles.footer(), " 40 subtitle/s - From 1 to 2 ");
    s.handle_key(Key::Char('j'));
    assert_eq!(s.handle_key(Key::Enter), Command::SaveSubtitle(1));
    assert_eq!(s.focus, Focus::PopupSubtitle);
    s.subtitle_saved(Ok("The Godfather".to_string()));
    assert_eq!(s.focus, Focus::PopupNotification);
    assert_eq!(s.notification.text, "\u{f0e1e}  Subtitle The Godfather.srt downloaded");
    assert_eq!(visible(&s), 1);
    s.handle_key(Key::Esc);
    s.handle_key(Key::Char('s'));
    s.subtitles_done(Err("blocked".to_string()));
    assert_eq!(s.notification.text, "\u{ea87}  Error searching subtitles blocked");
    assert_eq!(s.subtitles.subtitles, vec!["es-1", "es-2"]);
    assert_eq!(s.subtitles.page, found);
    assert_eq!(s.subtitles.footer(), " 40 subtitle/s - From 1 to 2 ");
    s.handle_key(Key::Esc);
    s.subtitles_done(Ok((SubtitlePage { from: 0, to: 0, total: 0 }, vec![])));
    assert_eq!(s.subtitles.footer(), " 0 subtitles ");
    assert_eq!(s.handle_key(Key::Enter), Command::Nothing);
    assert_eq!(s.focus, Focus::PopupSubtitle);
    assert!(s.subtitles.popup.show);
    assert_eq!(s.handle_key(Key::Esc), Command::Nothing);
    assert_eq!(s.focus, Focus::MovieTable);
}

#[test]
fn failed_subtitle_save_is_notified() {
    let mut s = session();
    s.subtitles_done(Ok((SubtitlePage { from: 1, to: 1, total: 1 }, vec!["en"])));
    assert_eq!(s.handle_key(Key::Enter), Command::SaveSubtitle(0));
    s.subtitle_saved(Err("bad zip".to_string()));
    assert_eq!(s.focus, Focus::PopupNotification);
    assert_eq!(s.notification.text, "\u{ea87}  Error downloading subtitle bad zip");
    assert!(!s.subtitles.popup.show);
}

#[test]
fn dismissing_a_notification_returns_to_results() {
    for origin in 0..4 {
        let mut s = session();
        s.downloads.scan(vec![queued(1, TorrentState::Stopped)], 0);
        match origin {
            0 => s.search_done(Err("e".to_string())),
            1 => {
                s.handle_key(Key::Tab);
                s.handle_key(Key::Tab);
                assert_eq!(s.focus, Focus::TorrentTable);
                s.torrents_done(Err("e".to_string()));
            }
            2 => {
                s.subtitles_done(Ok((SubtitlePage { from: 1, to: 1, total: 1 }, vec!["x"])));
                s.subtitle_saved(Ok("m".to_string()));
            }
            _ => s.next_page_done(Err("e".to_string())),
        }
        assert_eq!(s.focus, Focus::PopupNotification);
        assert_eq!(s.handle_key(Key::Enter), Command::Nothing);
        assert_eq!(s.focus, Focus::PopupNotification);
        let key = if origin % 2 == 0 { Key::Esc } else { Key::Char('q') };
        assert_eq!(s.handle_key(key), Command::Nothing);
        assert_eq!(s.focus, Focus::MovieTable);
        assert_eq!(visible(&s), 0);
    }
}

#[test]
fn at_most_one_popup_is_visible() {
    let mut s = session();
    let keys = [
        Key::Enter,
        Key::Tab,
        Key::Char('t'),
        Key::Down,
        Key::Enter,
        Key::Char('s'),
        Key::Esc,
        Key::Char('q'),
    ];
    assert_eq!(visible(&s), 0);
    s.search_done(Ok(page(1, 1, 1, vec!["m"])));
    for (i, k) in keys.iter().enumerate() {
        s.handle_key(*k);
        match i % 3 {
            0 => s.torrents_done(Ok(vec!["t"])),
            1 => s.subtitles_done(Ok((SubtitlePage { from: 1, to: 1, total: 1 }, vec!["s"]))),
            _ => s.search_done(Err("e".to_string())),
        }
        assert!(visible(&s) <= 1);
    }
}

#[test]
fn results_cursor_keys() {
    let mut s = session();
    s.search_done(Ok(page(1, 1, 3, vec!["a", "b", "c"])));
    s.handle_key(Key::Char('G'));
    assert_eq!(s.movies.selected, 2);
    s.handle_key(Key::Down);
    assert_eq!(s.movies.selected, 2);
    s.handle_key(Key::Up);
    assert_eq!(s.movies.selected, 1);
    s.handle_key(Key::Char('g'));
    assert_eq!(s.movies.selected, 0);
    s.handle_key(Key::Char('k'));
    assert_eq!(s.movies.selected, 0);
    assert_eq!(s.movies.height(), 7);
}
