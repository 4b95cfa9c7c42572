//! The three popups: candidate torrents, candidate subtitles and the
//! notification slot.
use vstd::prelude::*;
use crate::strings::{decimal, decimal_string, joined};
use crate::text::chars_of;

verus! {

/// A popup list: whether it is shown, the cursor over its candidates and the
/// position of its scroll bar.
pub struct Popup {
    pub show: bool,
    pub selected: usize,
    pub scroll: usize,
    pub title: String,
}

impl Popup {
    /// The cursor points at one of `len` candidates, or at 0 when there are
    /// none, and the scroll bar is at position 1 or below.
    pub open spec fn wf(&self, len: nat) -> bool {
        &&& len > 0 ==> self.selected < len
        &&& len == 0 ==> self.selected == 0
        &&& self.scroll >= 1
    }

    /// A hidden popup with its cursor and scroll bar at the top.
    pub fn new(title: &str) -> (r: Popup)
        ensures
            !r.show,
            r.selected == 0,
            r.scroll == 1,
            r.title@ == title@,
    {
        Popup { show: false, selected: 0, scroll: 1, title: String::from_str(title) }
    }

    /// Moves the scroll bar one step up, not above its first position.
    pub fn scroll_bar_up(&mut self)
        ensures
            final(self).scroll == if old(self).scroll > 1 {
                (old(self).scroll - 1) as usize
            } else {
                old(self).scroll
            },
            final(self).show == old(self).show,
            final(self).selected == old(self).selected,
            final(self).title == old(self).title,
    {
        if self.scroll > 1 {
            self.scroll = self.scroll - 1;
        }
    }

    /// Moves the scroll bar one step down over a list of `len` candidates,
    /// not past the last but one.
    pub fn scroll_bar_down(&mut self, len: usize)
        ensures
            final(self).scroll == if len > 0 && old(self).scroll + 1 < len {
                (old(self).scroll + 1) as usize
            } else {
                old(self).scroll
            },
            final(self).show == old(self).show,
            final(self).selected == old(self).selected,
            final(self).title == old(self).title,
    {
        if len > 0 && self.scroll < len - 1 {
            self.scroll = self.scroll + 1;
        }
    }

    /// Moves the cursor down one of `len` candidates, staying on the last.
    pub fn select_next(&mut self, len: usize)
        requires
            old(self).wf(len as nat),
        ensures
            final(self).wf(len as nat),
            final(self).selected == if old(self).selected + 1 < len {
                (old(self).selected + 1) as usize
            } else {
                old(self).selected
            },
            final(self).show == old(self).show,
            final(self).scroll == old(self).scroll,
            final(self).title == old(self).title,
    {
        if len > 0 && self.selected < len - 1 {
            self.selected = self.selected + 1;
        }
    }

    /// Moves the cursor up one candidate, staying on the first.
    pub fn select_previous(&mut self)
        ensures
            final(self).selected == if old(self).selected > 0 {
                (old(self).selected - 1) as usize
            } else {
                0
            },
            forall|len: nat| old(self).wf(len) ==> final(self).wf(len),
            final(self).show == old(self).show,
            final(self).scroll == old(self).scroll,
            final(self).title == old(self).title,
    {
        if self.selected > 0 {
            self.selected = self.selected - 1;
        }
    }

    /// Shows the popup with its cursor and scroll bar back at the top.
    pub fn open(&mut self)
        ensures
            final(self).show,
            final(self).selected == 0,
            final(self).scroll == 1,
            final(self).title == old(self).title,
            forall|len: nat| final(self).wf(len),
    {
        self.show = true;
        self.selected = 0;
        self.scroll = 1;
    }
}

/// The single message slot for errors the session recovers from.
pub struct PopupNotification {
    pub text: String,
    pub show: bool,
}

impl PopupNotification {
    /// A hidden, empty notification.
    pub fn new() -> (r: PopupNotification)
        ensures
            r.text@ == Seq::<char>::empty(),
            !r.show,
    {
        PopupNotification { text: String::new(), show: false }
    }

    /// Shows `text`, replacing whatever was there.
    pub fn notify(&mut self, text: String)
        ensures
            final(self).text == text,
            final(self).show,
    {
        self.text = text;
        self.show = true;
    }

    /// Hides the notification.
    pub fn dismiss(&mut self)
        ensures
            final(self).text == old(self).text,
            !final(self).show,
    {
        self.show = false;
    }
}

/// The torrents of one movie to choose a download from.
pub struct PopupTorrent<T> {
    pub popup: Popup,
    pub torrents: Vec<T>,
}

impl<T> PopupTorrent<T> {
    pub open spec fn wf(&self) -> bool {
        self.popup.wf(self.torrents@.len())
    }

    /// A hidden popup with no torrents.
    pub fn new() -> (r: PopupTorrent<T>)
        ensures
            r.wf(),
            !r.popup.show,
            r.torrents@.len() == 0,
    {
        PopupTorrent { popup: Popup::new(" Torrents "), torrents: Vec::new() }
    }

    /// Shows `torrents` in place of the previous list, cursor at the top.
    pub fn search_torrents(&mut self, torrents: Vec<T>)
        ensures
            final(self).wf(),
            final(self).torrents == torrents,
            final(self).popup.show,
            final(self).popup.selected == 0,
    {
        self.torrents = torrents;
        self.popup.open();
    }

    /// The index of the torrent under the cursor, when there is any.
    pub fn selection(&self) -> (r: Option<usize>)
        requires
            self.wf(),
        ensures
            self.torrents@.len() > 0 ==> r == Some(self.popup.selected),
            self.torrents@.len() == 0 ==> r is None,
    {
        if self.torrents.len() > 0 {
            Some(self.popup.selected)
        } else {
            None
        }
    }
}

/// Which of a subtitle search's results a page holds.
#[derive(Debug, Clone, Copy, PartialEq, Eq, Structural)]
pub struct SubtitlePage {
    pub from: u32,
    pub to: u32,
    pub total: u32,
}

/// The line under the subtitle list.
pub open spec fn subtitle_footer_text(page: SubtitlePage) -> Seq<char> {
    if page.total != 0 {
        " "@ + decimal(page.total as nat) + " subtitle/s - From "@ + decimal(page.from as nat)
            + " to "@ + decimal(page.to as nat) + " "@
    } else {
        " 0 subtitles "@
    }
}

/// The subtitles of one movie to choose a caption from, and the directory
/// captions are saved in.
pub struct PopupSubtitle<S> {
    pub popup: Popup,
    pub subtitles: Vec<S>,
    pub page: SubtitlePage,
    pub download_dir: String,
}

impl<S> PopupSubtitle<S> {
    pub open spec fn wf(&self) -> bool {
        self.popup.wf(self.subtitles@.len())
    }

    /// A page that holds no subtitles.
    pub fn empty_page() -> (r: SubtitlePage)
        ensures
            r == (SubtitlePage { from: 0, to: 0, total: 0 }),
    {
        SubtitlePage { from: 0, to: 0, total: 0 }
    }

    /// A hidden popup with no subtitles, saving into `download_dir`.
    pub fn new(download_dir: String) -> (r: PopupSubtitle<S>)
        ensures
            r.wf(),
            !r.popup.show,
            r.subtitles@.len() == 0,
            r.page == PopupSubtitle::<S>::empty_page_spec(),
            r.download_dir == download_dir,
    {
        PopupSubtitle {
            popup: Popup::new(" Subtitles "),
            subtitles: Vec::new(),
            page: Self::empty_page(),
            download_dir,
        }
    }

    pub open spec fn empty_page_spec() -> SubtitlePage {
        SubtitlePage { from: 0, to: 0, total: 0 }
    }

    /// Shows `subtitles`, found on `page`, in place of the previous list.
    pub fn search_subtitles(&mut self, page: SubtitlePage, subtitles: Vec<S>)
        ensures
            final(self).wf(),
            final(self).subtitles == subtitles,
            final(self).page == page,
            final(self).popup.show,
            final(self).popup.selected == 0,
            final(self).download_dir == old(self).download_dir,
    {
        self.subtitles = subtitles;
        self.page = page;
        self.popup.open();
    }

    /// The index of the subtitle under the cursor, when there is any.
    pub fn selection(&self) -> (r: Option<usize>)
        requires
            self.wf(),
        ensures
            self.subtitles@.len() > 0 ==> r == Some(self.popup.selected),
            self.subtitles@.len() == 0 ==> r is None,
    {
        if self.subtitles.len() > 0 {
            Some(self.popup.selected)
        } else {
            None
        }
    }

    /// The line under the list: how many subtitles were found and which of
    /// them are shown.
    pub fn footer(&self) -> (r: String)
        ensures
            r@ == subtitle_footer_text(self.page),
    {
        let page = &self.page;
        if page.total != 0 {
            let mut s = String::from_str(" ");
            s.append(decimal_string(page.total as u64).as_str());
            s.append(" subtitle/s - From ");
            s.append(decimal_string(page.from as u64).as_str());
            s.append(" to ");
            s.append(decimal_string(page.to as u64).as_str());
            s.append(" ");
            s
        } else {
            String::from_str(" 0 subtitles ")
        }
    }

    /// Rows of screen the popup takes under a results table `rows` high: one
    /// per subtitle, no more than the table, and four lines of frame.
    pub fn height(&self, rows: u16) -> (r: u16)
        ensures
            ({
                let shown = if rows < self.subtitles@.len() {
                    rows as int
                } else {
                    self.subtitles@.len() as int
                };
                r == if shown + 4 <= u16::MAX {
                    shown + 4
                } else {
                    u16::MAX as int
                }
            }),
    {
        let n = self.subtitles.len();
        let shown: u16 = if (rows as usize) < n { rows } else { n as u16 };
        if shown <= u16::MAX - 4 {
            shown + 4
        } else {
            u16::MAX
        }
    }
}

/// What `str::to_lowercase` makes of a string.
pub uninterp spec fn lower_of(s: Seq<char>) -> Seq<char>;

/// Relies on `str::to_lowercase`: the lowercase form of `s`, which depends on
/// the characters of `s` alone.
#[verifier::external_body]
pub(crate) fn lowercase(s: &str) -> (r: String)
    ensures
        r@ == lower_of(s@),
{
    s.to_lowercase()
}

/// How the subtitle site titles a movie's listing, lowercased: its name and
/// its year in parentheses.
pub open spec fn listing_label(title_lower: Seq<char>, year: u32) -> Seq<char> {
    title_lower + " ("@ + decimal(year as nat) + ")"@
}

/// `i` is the first index of `items` that holds `wanted`.
pub open spec fn first_index(items: Seq<Seq<char>>, wanted: Seq<char>, i: int) -> bool {
    &&& 0 <= i < items.len()
    &&& items[i] == wanted
    &&& forall|j: int| 0 <= j < i ==> items[j] != wanted
}

/// The lowercase form of each listing name.
pub open spec fn lowered(names: Seq<String>) -> Seq<Seq<char>> {
    names.map_values(|n: String| lower_of(n@))
}

/// The characters of each string.
pub open spec fn views(items: Seq<String>) -> Seq<Seq<char>> {
    items.map_values(|n: String| n@)
}

/// The first of `listings` (names already lowercased) that is `wanted`.
pub fn find_listing(listings: &Vec<String>, wanted: &String) -> (r: Option<usize>)
    ensures
        match r {
            Some(i) => first_index(views(listings@), wanted@, i as int),
            None => forall|j: int| 0 <= j < listings@.len() ==> listings@[j]@ != wanted@,
        },
{
    let ghost items = views(listings@);
    let mut i: usize = 0;
    while i < listings.len()
        invariant
            items == views(listings@),
            i <= listings@.len(),
            forall|j: int| 0 <= j < i ==> listings@[j]@ != wanted@,
        decreases listings@.len() - i,
    {
        if listings[i] == *wanted {
            return Some(i);
        }
        i = i + 1;
    }
    None
}

/// Among the movie listings a subtitle search returned, the first whose name,
/// lowercased, is the lowercased `title` followed by ` (year)`.
pub fn pick_listing(names: &Vec<String>, title: &str, year: u32) -> (r: Option<usize>)
    ensures
        match r {
            Some(i) => first_index(lowered(names@), listing_label(lower_of(title@), year), i as int),
            None => forall|j: int|
                0 <= j < names@.len() ==> lower_of(names@[j]@) != listing_label(
                    lower_of(title@),
                    year,
                ),
        },
{
    let mut lowered_names: Vec<String> = Vec::new();
    let mut i: usize = 0;
    while i < names.len()
        invariant
            i <= names@.len(),
            lowered_names@.len() == i,
            forall|j: int| 0 <= j < i ==> lowered_names@[j]@ == lower_of(names@[j]@),
        decreases names@.len() - i,
    {
        lowered_names.push(lowercase(names[i].as_str()));
        i = i + 1;
    }
    let mut wanted = lowercase(title);
    wanted.append(" (");
    wanted.append(decimal_string(year as u64).as_str());
    wanted.append(")");
    let r = find_listing(&lowered_names, &wanted);
    assert(views(lowered_names@) =~= lowered(names@));
    proof {
        if r is None {
            assert forall|j: int| 0 <= j < names@.len() implies lower_of(names@[j]@)
                != listing_label(lower_of(title@), year) by {
                assert(lowered_names@[j]@ == lower_of(names@[j]@));
            }
        }
    }
    r
}

/// `s` ends in `.srt`.
pub open spec fn is_caption_name(s: Seq<char>) -> bool {
    s.len() >= 4 && s.subrange(s.len() - 4, s.len() as int) == seq!['.', 's', 'r', 't']
}

/// Whether a lowercased file name ends in `.srt`.
pub fn caption_name(lowered_name: &str) -> (r: bool)
    ensures
        r == is_caption_name(lowered_name@),
{
    let c = chars_of(lowered_name);
    let n = c.len();
    if n < 4 {
        return false;
    }
    let r = c[n - 4] == '.' && c[n - 3] == 's' && c[n - 2] == 'r' && c[n - 1] == 't';
    assert(r == (c@.subrange(n - 4, n as int) =~= seq!['.', 's', 'r', 't']));
    r
}

/// The file a caption for `movie` is saved as.
pub fn subtitle_file_name(movie: &str) -> (r: String)
    ensures
        r@ == movie@ + ".srt"@,
{
    joined(movie, ".srt")
}

} // verus!
