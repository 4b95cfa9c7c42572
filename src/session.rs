//! The focus state machine of a session. A key press either changes the
//! state at once or yields a command for the caller to carry out; the outcome
//! of that command comes back through one of the `*_done` methods.
use vstd::prelude::*;
use crate::downloads::{toggle_action, RunRequest, Transmission};
use crate::filter::OrderKey;
use crate::focus::Focus;
use crate::input::InputBox;
use crate::movie_table::{
    next_page_number, previous_page_number, requested, MovieTable, PageRequest, ResultPage,
};
use crate::popup::{PopupNotification, PopupSubtitle, PopupTorrent, SubtitlePage};
use crate::strings::joined;

verus! {

/// A key press, as far as the session tells keys apart.
#[derive(Debug, Clone, Copy, PartialEq, Eq, Structural)]
pub enum Key {
    Tab,
    Enter,
    Esc,
    Backspace,
    Up,
    Down,
    Left,
    Right,
    Char(char),
    Other,
}

/// What the caller is to do after a key press.
#[derive(Debug, Clone, PartialEq, Eq)]
pub enum Command {
    /// Nothing beyond the change of state already made.
    Nothing,
    /// End the session.
    Quit,
    /// Search the catalog, then report through `search_done`.
    Search(PageRequest),
    /// Fetch the next page, then report through `next_page_done`.
    NextPage(PageRequest),
    /// Fetch the previous page, then report through `previous_page_done`.
    PreviousPage(PageRequest),
    /// Fetch the torrents of the movie at this index of the page, then report
    /// through `torrents_done`.
    FindTorrents(usize),
    /// Fetch the subtitles of the movie at this index of the page, then report
    /// through `subtitles_done`.
    FindSubtitles(usize),
    /// Add the torrent candidate at this index to the download queue.
    AddTorrent(usize),
    /// Start or stop a queued torrent.
    Run(RunRequest),
    /// Remove the queued torrent with this id, keeping its data.
    Remove(i64),
    /// Save the subtitle candidate at this index, then report through
    /// `subtitle_saved`.
    SaveSubtitle(usize),
}

pub open spec fn is_close_key(key: Key) -> bool {
    key == Key::Esc || key == Key::Char('q')
}

pub open spec fn is_down_key(key: Key) -> bool {
    key == Key::Down || key == Key::Char('j')
}

pub open spec fn is_up_key(key: Key) -> bool {
    key == Key::Up || key == Key::Char('k')
}

pub open spec fn is_next_page_key(key: Key) -> bool {
    key == Key::Right || key == Key::Char('l')
}

pub open spec fn is_previous_page_key(key: Key) -> bool {
    key == Key::Left || key == Key::Char('h')
}

/// A cursor over `len` entries moved one down, staying on the last.
pub open spec fn cursor_down(sel: usize, len: nat) -> usize {
    if sel + 1 < len {
        (sel + 1) as usize
    } else {
        sel
    }
}

/// A cursor moved one up, staying on the first.
pub open spec fn cursor_up(sel: usize) -> usize {
    if sel > 0 {
        (sel - 1) as usize
    } else {
        0
    }
}

pub open spec fn search_failed_text(e: Seq<char>) -> Seq<char> {
    "\u{ea87}  Error searching movies "@ + e
}

pub open spec fn next_page_failed_text(e: Seq<char>) -> Seq<char> {
    "\u{ea87}  Error getting next page "@ + e
}

pub open spec fn previous_page_failed_text(e: Seq<char>) -> Seq<char> {
    "\u{ea87}  Error getting previous page "@ + e
}

pub open spec fn torrents_failed_text(e: Seq<char>) -> Seq<char> {
    "\u{ea87}  Error searching torrents "@ + e
}

pub open spec fn subtitles_failed_text(e: Seq<char>) -> Seq<char> {
    "\u{ea87}  Error searching subtitles "@ + e
}

pub open spec fn subtitle_failed_text(e: Seq<char>) -> Seq<char> {
    "\u{ea87}  Error downloading subtitle "@ + e
}

pub open spec fn subtitle_saved_text(movie: Seq<char>) -> Seq<char> {
    "\u{f0e1e}  Subtitle "@ + movie + ".srt downloaded"@
}

/// Everything a session shows and routes keys between.
pub struct Session<M, T, S> {
    pub focus: Focus,
    pub input: InputBox,
    pub movies: MovieTable<M>,
    pub downloads: Transmission,
    pub torrents: PopupTorrent<T>,
    pub subtitles: PopupSubtitle<S>,
    pub notification: PopupNotification,
}

impl<M, T, S> Session<M, T, S> {
    /// Each part is well formed, and a popup is shown exactly when it has
    /// the focus.
    pub open spec fn wf(&self) -> bool {
        &&& self.movies.wf()
        &&& self.downloads.wf()
        &&& self.torrents.wf()
        &&& self.subtitles.wf()
        &&& self.notification.show == (self.focus == Focus::PopupNotification)
        &&& self.torrents.popup.show == (self.focus == Focus::PopupTorrent)
        &&& self.subtitles.popup.show == (self.focus == Focus::PopupSubtitle)
    }

    /// How many popups are on screen.
    pub open spec fn visible_popups(&self) -> int {
        (if self.notification.show { 1int } else { 0 }) + (if self.torrents.popup.show {
            1int
        } else {
            0
        }) + (if self.subtitles.popup.show { 1int } else { 0 })
    }

    /// The focus a key press leads to at once.
    pub open spec fn focus_after(&self, key: Key) -> Focus {
        match self.focus {
            Focus::InputBox => if key == Key::Tab {
                Focus::MovieTable
            } else {
                Focus::InputBox
            },
            Focus::MovieTable => if key == Key::Tab {
                if self.downloads.torrents@.len() > 0 {
                    Focus::TorrentTable
                } else {
                    Focus::InputBox
                }
            } else {
                Focus::MovieTable
            },
            Focus::TorrentTable => if key == Key::Tab {
                Focus::InputBox
            } else {
                Focus::TorrentTable
            },
            Focus::PopupTorrent => if is_close_key(key) || (key == Key::Enter
                && self.torrents.torrents@.len() > 0) {
                Focus::MovieTable
            } else {
                Focus::PopupTorrent
            },
            Focus::PopupSubtitle => if is_close_key(key) {
                Focus::MovieTable
            } else {
                Focus::PopupSubtitle
            },
            Focus::PopupNotification => if is_close_key(key) {
                Focus::MovieTable
            } else {
                Focus::PopupNotification
            },
        }
    }

    /// The command a key press yields.
    pub open spec fn command_fits(&self, key: Key, cmd: Command) -> bool {
        let text = self.input.text@;
        let order = self.movies.default_order;
        let page = self.movies.response;
        let queue = self.downloads.torrents@;
        let at = self.downloads.selected as int;
        match self.focus {
            Focus::InputBox => if key == Key::Enter {
                cmd is Search && requested(cmd->Search_0, text, order, 1)
            } else if key == Key::Esc {
                cmd == Command::Quit
            } else {
                cmd == Command::Nothing
            },
            Focus::MovieTable => if is_close_key(key) {
                cmd == Command::Quit
            } else if is_next_page_key(key) {
                match next_page_number(page.current, page.of) {
                    Some(p) => cmd is NextPage && requested(cmd->NextPage_0, text, order, p),
                    None => cmd == Command::Nothing,
                }
            } else if is_previous_page_key(key) {
                match previous_page_number(page.current) {
                    Some(p) => cmd is PreviousPage && requested(cmd->PreviousPage_0, text, order, p),
                    None => cmd == Command::Nothing,
                }
            } else if key == Key::Char('t') && page.movies@.len() > 0 {
                cmd == Command::FindTorrents(self.movies.selected)
            } else if key == Key::Char('s') && page.movies@.len() > 0 {
                cmd == Command::FindSubtitles(self.movies.selected)
            } else {
                cmd == Command::Nothing
            },
            Focus::TorrentTable => if is_close_key(key) {
                cmd == Command::Quit
            } else if key == Key::Char('s') && queue.len() > 0 {
                cmd == Command::Run(
                    RunRequest { id: queue[at].id, action: toggle_action(queue[at].state) },
                )
            } else if key == Key::Char('d') && queue.len() > 0 {
                cmd == Command::Remove(queue[at].id)
            } else {
                cmd == Command::Nothing
            },
            Focus::PopupTorrent => if key == Key::Enter && self.torrents.torrents@.len() > 0 {
                cmd == Command::AddTorrent(self.torrents.popup.selected)
            } else {
                cmd == Command::Nothing
            },
            Focus::PopupSubtitle => if key == Key::Enter && self.subtitles.subtitles@.len() > 0 {
                cmd == Command::SaveSubtitle(self.subtitles.popup.selected)
            } else {
                cmd == Command::Nothing
            },
            Focus::PopupNotification => cmd == Command::Nothing,
        }
    }

    /// The search text after a key press: typing and erasing work in the
    /// search box only.
    pub open spec fn text_after(&self, key: Key) -> Seq<char> {
        let text = self.input.text@;
        if self.focus == Focus::InputBox {
            match key {
                Key::Char(c) => text.push(c),
                Key::Backspace => if text.len() > 0 {
                    text.drop_last()
                } else {
                    text
                },
                _ => text,
            }
        } else {
            text
        }
    }

    /// The cursor over the results after a key press.
    pub open spec fn movie_cursor_after(&self, key: Key) -> usize {
        let sel = self.movies.selected;
        let len = self.movies.response.movies@.len();
        if self.focus != Focus::MovieTable {
            sel
        } else if is_down_key(key) {
            cursor_down(sel, len)
        } else if is_up_key(key) {
            cursor_up(sel)
        } else if key == Key::Char('g') {
            0
        } else if key == Key::Char('G') && len > 0 {
            (len - 1) as usize
        } else {
            sel
        }
    }

    /// The cursor over the download queue after a key press.
    pub open spec fn queue_cursor_after(&self, key: Key) -> usize {
        let sel = self.downloads.selected;
        if self.focus != Focus::TorrentTable {
            sel
        } else if is_down_key(key) {
            cursor_down(sel, self.downloads.torrents@.len())
        } else if is_up_key(key) {
            cursor_up(sel)
        } else {
            sel
        }
    }

    /// The cursor over the torrent candidates after a key press.
    pub open spec fn torrent_cursor_after(&self, key: Key) -> usize {
        let sel = self.torrents.popup.selected;
        if self.focus != Focus::PopupTorrent {
            sel
        } else if is_down_key(key) {
            cursor_down(sel, self.torrents.torrents@.len())
        } else if is_up_key(key) {
            cursor_up(sel)
        } else {
            sel
        }
    }

    /// The cursor over the subtitle candidates after a key press.
    pub open spec fn subtitle_cursor_after(&self, key: Key) -> usize {
        let sel = self.subtitles.popup.selected;
        if self.focus != Focus::PopupSubtitle {
            sel
        } else if is_down_key(key) {
            cursor_down(sel, self.subtitles.subtitles@.len())
        } else if is_up_key(key) {
            cursor_up(sel)
        } else {
            sel
        }
    }

    /// A session in the search box, with nothing found and nothing queued
    /// yet; its first scan is due at once.
    pub fn new(default_order: OrderKey, download_dir: String, refresh_interval_ms: u64) -> (r:
        Session<M, T, S>)
        ensures
            r.wf(),
            r.focus == Focus::InputBox,
            r.input.text@ == Seq::<char>::empty(),
            r.movies.response.current == 0,
            r.movies.response.of == 0,
            r.movies.response.total == 0,
            r.movies.response.movies@.len() == 0,
            r.movies.default_order == default_order,
            r.downloads.torrents@.len() == 0,
            r.downloads.refresh_pending,
            r.downloads.refresh_interval_ms == refresh_interval_ms,
            r.downloads.download_dir == download_dir,
            r.subtitles.download_dir == download_dir,
            r.visible_popups() == 0,
    {
        Session {
            focus: Focus::InputBox,
            input: InputBox::new(),
            movies: MovieTable::new(default_order),
            downloads: Transmission::new(download_dir.clone(), refresh_interval_ms),
            torrents: PopupTorrent::new(),
            subtitles: PopupSubtitle::new(download_dir),
            notification: PopupNotification::new(),
        }
    }

    /// Gives the focus to `f` and shows the popup that belongs to it, if
    /// any, hiding the others.
    fn focus_on(&mut self, f: Focus)
        requires
            old(self).movies.wf(),
            old(self).downloads.wf(),
            old(self).torrents.wf(),
            old(self).subtitles.wf(),
        ensures
            final(self).wf(),
            final(self).focus == f,
            final(self).input == old(self).input,
            final(self).movies == old(self).movies,
            final(self).downloads == old(self).downloads,
            final(self).torrents.torrents == old(self).torrents.torrents,
            final(self).torrents.popup.selected == old(self).torrents.popup.selected,
            final(self).subtitles.subtitles == old(self).subtitles.subtitles,
            final(self).subtitles.page == old(self).subtitles.page,
            final(self).subtitles.popup.selected == old(self).subtitles.popup.selected,
            final(self).notification.text == old(self).notification.text,
    {
        self.focus = f;
        self.notification.show = f == Focus::PopupNotification;
        self.torrents.popup.show = f == Focus::PopupTorrent;
        self.subtitles.popup.show = f == Focus::PopupSubtitle;
    }

    /// Shows `text` in the notification popup, which takes the focus.
    fn notify(&mut self, text: String)
        requires
            old(self).wf(),
        ensures
            final(self).wf(),
            final(self).focus == Focus::PopupNotification,
            final(self).notification.text == text,
            final(self).input == old(self).input,
            final(self).movies == old(self).movies,
            final(self).downloads == old(self).downloads,
            final(self).torrents.torrents == old(self).torrents.torrents,
            final(self).subtitles.subtitles == old(self).subtitles.subtitles,
            final(self).subtitles.page == old(self).subtitles.page,
    {
        self.notification.text = text;
        self.focus_on(Focus::PopupNotification);
    }

    /// Routes one key press by the focus. Esc or `q` closes a popup and, in
    /// the search box, the results or the queue, ends the session; dismissing
    /// a notification always returns to the results, whatever raised it.
    pub fn handle_key(&mut self, key: Key) -> (cmd: Command)
        requires
            old(self).wf(),
        ensures
            final(self).wf(),
            final(self).focus == old(self).focus_after(key),
            old(self).command_fits(key, cmd),
            old(self).focus == Focus::PopupNotification && is_close_key(key) ==> final(self).focus
                == Focus::MovieTable && final(self).visible_popups() == 0,
            final(self).input.text@ == old(self).text_after(key),
            final(self).movies.response == old(self).movies.response,
            final(self).movies.default_order == old(self).movies.default_order,
            final(self).movies.selected == old(self).movie_cursor_after(key),
            final(self).downloads.torrents == old(self).downloads.torrents,
            final(self).downloads.selected == old(self).queue_cursor_after(key),
            final(self).downloads.last_scan_ms == old(self).downloads.last_scan_ms,
            final(self).downloads.refresh_interval_ms == old(self).downloads.refresh_interval_ms,
            final(self).downloads.download_dir == old(self).downloads.download_dir,
            final(self).downloads.refresh_pending == (old(self).downloads.refresh_pending
                || cmd is Run || cmd is Remove),
            final(self).torrents.torrents == old(self).torrents.torrents,
            final(self).torrents.popup.selected == old(self).torrent_cursor_after(key),
            final(self).subtitles.subtitles == old(self).subtitles.subtitles,
            final(self).subtitles.page == old(self).subtitles.page,
            final(self).subtitles.popup.selected == old(self).subtitle_cursor_after(key),
            final(self).notification.text == old(self).notification.text,
    {
        match self.focus {
            Focus::InputBox => match key {
                Key::Tab => {
                    self.focus = Focus::MovieTable;
                    Command::Nothing
                },
                Key::Enter => Command::Search(self.movies.search(self.input.text.as_str())),
                Key::Char(c) => {
                    self.input.type_char(c);
                    Command::Nothing
                },
                Key::Backspace => {
                    self.input.erase();
                    Command::Nothing
                },
                Key::Esc => Command::Quit,
                _ => Command::Nothing,
            },
            Focus::MovieTable => match key {
                Key::Tab => {
                    self.focus = if self.downloads.is_visible() {
                        Focus::TorrentTable
                    } else {
                        Focus::InputBox
                    };
                    Command::Nothing
                },
                Key::Esc | Key::Char('q') => Command::Quit,
                Key::Down | Key::Char('j') => {
                    self.movies.select_next();
                    Command::Nothing
                },
                Key::Up | Key::Char('k') => {
                    self.movies.select_previous();
                    Command::Nothing
                },
                Key::Right | Key::Char('l') => match self.movies.next_page(self.input.text.as_str()) {
                    Some(req) => Command::NextPage(req),
                    None => Command::Nothing,
                },
                Key::Left | Key::Char('h') => match self.movies.previous_page(
                    self.input.text.as_str(),
                ) {
                    Some(req) => Command::PreviousPage(req),
                    None => Command::Nothing,
                },
                Key::Char('g') => {
                    self.movies.select_first();
                    Command::Nothing
                },
                Key::Char('G') => {
                    self.movies.select_last();
                    Command::Nothing
                },
                Key::Char('t') => match self.movies.selection() {
                    Some(i) => Command::FindTorrents(i),
                    None => Command::Nothing,
                },
                Key::Char('s') => match self.movies.selection() {
                    Some(i) => Command::FindSubtitles(i),
                    None => Command::Nothing,
                },
                _ => Command::Nothing,
            },
            Focus::TorrentTable => match key {
                Key::Char('s') => match self.downloads.toggle(self.downloads.selected) {
                    Some(req) => Command::Run(req),
                    None => Command::Nothing,
                },
                Key::Esc | Key::Char('q') => Command::Quit,
                Key::Tab => {
                    self.focus = Focus::InputBox;
                    Command::Nothing
                },
                Key::Down | Key::Char('j') => {
                    self.downloads.select_next();
                    self.downloads.scroll_bar_up();
                    Command::Nothing
                },
                Key::Up | Key::Char('k') => {
                    self.downloads.select_previous();
                    self.downloads.scroll_bar_down();
                    Command::Nothing
                },
                Key::Char('d') => match self.downloads.remove(self.downloads.selected) {
                    Some(id) => Command::Remove(id),
                    None => Command::Nothing,
                },
                _ => Command::Nothing,
            },
            Focus::PopupTorrent => match key {
                Key::Down | Key::Char('j') => {
                    let n = self.torrents.torrents.len();
                    self.torrents.popup.select_next(n);
                    self.torrents.popup.scroll_bar_down(n);
                    Command::Nothing
                },
                Key::Up | Key::Char('k') => {
                    self.torrents.popup.select_previous();
                    self.torrents.popup.scroll_bar_up();
                    Command::Nothing
                },
                Key::Esc | Key::Char('q') => {
                    self.focus_on(Focus::MovieTable);
                    Command::Nothing
                },
                Key::Enter => match self.torrents.selection() {
                    Some(i) => {
                        self.focus_on(Focus::MovieTable);
                        Command::AddTorrent(i)
                    },
                    None => Command::Nothing,
                },
                _ => Command::Nothing,
            },
            Focus::PopupSubtitle => match key {
                Key::Down | Key::Char('j') => {
                    let n = self.subtitles.subtitles.len();
                    self.subtitles.popup.select_next(n);
                    self.subtitles.popup.scroll_bar_down(n);
                    Command::Nothing
                },
                Key::Up | Key::Char('k') => {
                    self.subtitles.popup.select_previous();
                    self.subtitles.popup.scroll_bar_up();
                    Command::Nothing
                },
                Key::Esc | Key::Char('q') => {
                    self.focus_on(Focus::MovieTable);
                    Command::Nothing
                },
                Key::Enter => match self.subtitles.selection() {
                    Some(i) => Command::SaveSubtitle(i),
                    None => Command::Nothing,
                },
                _ => Command::Nothing,
            },
            Focus::PopupNotification => match key {
                Key::Esc | Key::Char('q') => {
                    self.focus_on(Focus::MovieTable);
                    Command::Nothing
                },
                _ => Command::Nothing,
            },
        }
    }

    /// Takes the outcome of a `Search`: the results get the focus, or a
    /// notification does and the page shown stays as it was.
    pub fn search_done(&mut self, outcome: Result<ResultPage<M>, String>)
        requires
            old(self).wf(),
        ensures
            final(self).wf(),
            match outcome {
                Ok(p) => final(self).focus == Focus::MovieTable && final(self).movies.response == p
                    && final(self).movies.selected == 0,
                Err(e) => final(self).focus == Focus::PopupNotification
                    && final(self).notification.text@ == search_failed_text(e@)
                    && final(self).movies == old(self).movies,
            },
            final(self).movies.default_order == old(self).movies.default_order,
            final(self).input == old(self).input,
            final(self).downloads == old(self).downloads,
    {
        match outcome {
            Ok(p) => {
                self.movies.show(p);
                self.focus_on(Focus::MovieTable);
            },
            Err(e) => {
                self.notify(joined("\u{ea87}  Error searching movies ", e.as_str()));
            },
        }
    }

    /// Takes the outcome of a `NextPage`: the page is shown, or a
    /// notification is and the page shown stays as it was.
    pub fn next_page_done(&mut self, outcome: Result<ResultPage<M>, String>)
        requires
            old(self).wf(),
        ensures
            final(self).wf(),
            match outcome {
                Ok(p) => final(self).focus == Focus::MovieTable && final(self).movies.response == p
                    && final(self).movies.selected == 0,
                Err(e) => final(self).focus == Focus::PopupNotification
                    && final(self).notification.text@ == next_page_failed_text(e@)
                    && final(self).movies == old(self).movies,
            },
            final(self).movies.default_order == old(self).movies.default_order,
            final(self).input == old(self).input,
            final(self).downloads == old(self).downloads,
    {
        match outcome {
            Ok(p) => {
                self.movies.show(p);
                self.focus_on(Focus::MovieTable);
            },
            Err(e) => {
                self.notify(joined("\u{ea87}  Error getting next page ", e.as_str()));
            },
        }
    }

    /// Takes the outcome of a `PreviousPage`: the page is shown, or a
    /// notification is and the page shown stays as it was.
    pub fn previous_page_done(&mut self, outcome: Result<ResultPage<M>, String>)
        requires
            old(self).wf(),
        ensures
            final(self).wf(),
            match outcome {
                Ok(p) => final(self).focus == Focus::MovieTable && final(self).movies.response == p
                    && final(self).movies.selected == 0,
                Err(e) => final(self).focus == Focus::PopupNotification
                    && final(self).notification.text@ == previous_page_failed_text(e@)
                    && final(self).movies == old(self).movies,
            },
            final(self).movies.default_order == old(self).movies.default_order,
            final(self).input == old(self).input,
            final(self).downloads == old(self).downloads,
    {
        match outcome {
            Ok(p) => {
                self.movies.show(p);
                self.focus_on(Focus::MovieTable);
            },
            Err(e) => {
                self.notify(joined("\u{ea87}  Error getting previous page ", e.as_str()));
            },
        }
    }

    /// Takes the outcome of a `FindTorrents`: the candidates replace the
    /// previous ones in a popup that gets the focus, or a notification does.
    pub fn torrents_done(&mut self, outcome: Result<Vec<T>, String>)
        requires
            old(self).wf(),
        ensures
            final(self).wf(),
            match outcome {
                Ok(list) => final(self).focus == Focus::PopupTorrent && final(self).torrents.torrents
                    == list && final(self).torrents.popup.selected == 0,
                Err(e) => final(self).focus == Focus::PopupNotification
                    && final(self).notification.text@ == torrents_failed_text(e@)
                    && final(self).torrents.torrents == old(self).torrents.torrents,
            },
            final(self).input == old(self).input,
            final(self).movies == old(self).movies,
            final(self).downloads == old(self).downloads,
    {
        match outcome {
            Ok(list) => {
                self.torrents.search_torrents(list);
                self.focus_on(Focus::PopupTorrent);
            },
            Err(e) => {
                self.notify(joined("\u{ea87}  Error searching torrents ", e.as_str()));
            },
        }
    }

    /// Takes the outcome of a `FindSubtitles`: the new subtitles replace the
    /// previous movie's in a popup that gets the focus; on failure a
    /// notification does, and the subtitles and page shown stay as they were.
    pub fn subtitles_done(&mut self, outcome: Result<(SubtitlePage, Vec<S>), String>)
        requires
            old(self).wf(),
        ensures
            final(self).wf(),
            match outcome {
                Ok(found) => final(self).focus == Focus::PopupSubtitle
                    && final(self).subtitles.subtitles == found.1 && final(self).subtitles.page
                    == found.0 && final(self).subtitles.popup.selected == 0,
                Err(e) => final(self).focus == Focus::PopupNotification
                    && final(self).notification.text@ == subtitles_failed_text(e@)
                    && final(self).subtitles.subtitles == old(self).subtitles.subtitles
                    && final(self).subtitles.page == old(self).subtitles.page,
            },
            final(self).input == old(self).input,
            final(self).movies == old(self).movies,
            final(self).downloads == old(self).downloads,
    {
        match outcome {
            Ok((page, list)) => {
                self.subtitles.search_subtitles(page, list);
                self.focus_on(Focus::PopupSubtitle);
            },
            Err(e) => {
                self.notify(joined("\u{ea87}  Error searching subtitles ", e.as_str()));
            },
        }
    }

    /// Takes the outcome of a `SaveSubtitle`, given the saved movie's name or
    /// the error: the popup closes and a notification says which.
    pub fn subtitle_saved(&mut self, outcome: Result<String, String>)
        requires
            old(self).wf(),
        ensures
            final(self).wf(),
            final(self).focus == Focus::PopupNotification,
            match outcome {
                Ok(movie) => final(self).notification.text@ == subtitle_saved_text(movie@),
                Err(e) => final(self).notification.text@ == subtitle_failed_text(e@),
            },
            final(self).input == old(self).input,
            final(self).movies == old(self).movies,
            final(self).downloads == old(self).downloads,
    {
        let text = match outcome {
            Ok(movie) => {
                let mut t = joined("\u{f0e1e}  Subtitle ", movie.as_str());
                t.append(".srt downloaded");
                t
            },
            Err(e) => joined("\u{ea87}  Error downloading subtitle ", e.as_str()),
        };
        self.notify(text);
    }
}

/// In every well-formed session, and so in every session reached from `new`
/// by key presses and outcomes, at most one popup is on screen.
pub proof fn lemma_at_most_one_popup<M, T, S>(s: Session<M, T, S>)
    requires
        s.wf(),
    ensures
        s.visible_popups() <= 1,
{
}

/// Dismissing a notification always leads to the results table, whichever
/// part of the session raised it.
pub proof fn lemma_dismissal_returns_to_results<M, T, S>(s: Session<M, T, S>, key: Key)
    requires
        s.focus == Focus::PopupNotification,
        is_close_key(key),
    ensures
        s.focus_after(key) == Focus::MovieTable,
{
}

} // verus!
