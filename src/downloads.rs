//! The local mirror of the download service's queue and the clock that keeps
//! it fresh.
use vstd::prelude::*;
use crate::strings::{escape_spaces, escape_spaces_of};

verus! {

/// Bit pattern of the single-precision float 1.0.
pub const ONE_BITS: u32 = 0x3F80_0000;

/// What the download service reports a torrent to be doing.
#[derive(Debug, Clone, Copy, PartialEq, Eq, Structural)]
pub enum TorrentState {
    Stopped,
    QueuedToVerify,
    Verifying,
    QueuedToDownload,
    Downloading,
    QueuedToSeed,
    Seeding,
}

/// How a queue entry is shown.
#[derive(Debug, Clone, Copy, PartialEq, Eq, Structural)]
pub enum DownloadStatus {
    Stalled,
    Finished,
    Downloading,
}

/// The request that starts or stops a torrent.
#[derive(Debug, Clone, Copy, PartialEq, Eq, Structural)]
pub enum RunAction {
    Start,
    Stop,
}

/// One entry of the download queue. `percent_done_bits` holds the IEEE-754
/// single-precision bit pattern of the fraction done, between 0 and 1.
#[derive(Debug, Clone, PartialEq, Eq)]
pub struct DownloadItem {
    pub id: i64,
    pub name: String,
    pub size_bytes: i64,
    pub percent_done_bits: u32,
    pub peers_sending: i64,
    pub peers_connected: i64,
    pub stalled: bool,
    pub state: TorrentState,
}

/// A stalled torrent shows as stalled whatever its progress; otherwise it is
/// finished exactly when its fraction done equals 1.0.
pub open spec fn classify(stalled: bool, percent_done_bits: u32) -> DownloadStatus {
    if stalled {
        DownloadStatus::Stalled
    } else if percent_done_bits == ONE_BITS {
        DownloadStatus::Finished
    } else {
        DownloadStatus::Downloading
    }
}

/// A stopped torrent is started; any other is stopped.
pub open spec fn toggle_action(state: TorrentState) -> RunAction {
    if state == TorrentState::Stopped {
        RunAction::Start
    } else {
        RunAction::Stop
    }
}

impl DownloadItem {
    /// How this entry is shown.
    pub fn status(&self) -> (r: DownloadStatus)
        ensures
            r == classify(self.stalled, self.percent_done_bits),
    {
        classify_status(self.stalled, self.percent_done_bits)
    }
}

/// Decides how an entry is shown from its stalled flag and the bit pattern of
/// its fraction done.
pub fn classify_status(stalled: bool, percent_done_bits: u32) -> (r: DownloadStatus)
    ensures
        r == classify(stalled, percent_done_bits),
{
    if stalled {
        DownloadStatus::Stalled
    } else if percent_done_bits == ONE_BITS {
        DownloadStatus::Finished
    } else {
        DownloadStatus::Downloading
    }
}

/// Decides which run action a toggle issues for a torrent in `state`.
pub fn action_for(state: TorrentState) -> (r: RunAction)
    ensures
        r == toggle_action(state),
{
    match state {
        TorrentState::Stopped => RunAction::Start,
        _ => RunAction::Stop,
    }
}

/// What the download service is asked to add.
#[derive(Debug, Clone, PartialEq, Eq)]
pub struct AddRequest {
    pub filename: String,
    pub download_dir: String,
}

/// What the download service is asked to start or stop.
#[derive(Debug, Clone, Copy, PartialEq, Eq, Structural)]
pub struct RunRequest {
    pub id: i64,
    pub action: RunAction,
}

/// The download queue as last fetched, the cursor over it, and when it was
/// fetched. Every change asked of the service leaves the mirror stale until
/// the next scan.
pub struct Transmission {
    pub torrents: Vec<DownloadItem>,
    pub selected: usize,
    pub scroll: usize,
    pub download_dir: String,
    pub refresh_interval_ms: u64,
    pub last_scan_ms: u64,
    pub refresh_pending: bool,
}

impl Transmission {
    pub open spec fn wf(&self) -> bool {
        &&& self.torrents@.len() > 0 ==> self.selected < self.torrents@.len()
        &&& self.torrents@.len() == 0 ==> self.selected == 0
        &&& self.scroll >= 1
    }

    /// Milliseconds since the last scan, as a clock that never runs backwards
    /// sees them.
    pub open spec fn elapsed(&self, now: int) -> int {
        if now >= self.last_scan_ms {
            now - self.last_scan_ms
        } else {
            0
        }
    }

    /// A scan is due when a change was asked for since the last one, or when
    /// the refresh interval has passed.
    pub open spec fn scan_due_at(&self, now: int) -> bool {
        self.refresh_pending || self.elapsed(now) >= self.refresh_interval_ms
    }

    /// How long to wait for a key before the next scan falls due.
    pub open spec fn timeout_at(&self, now: int) -> int {
        if self.scan_due_at(now) {
            0
        } else {
            self.refresh_interval_ms - self.elapsed(now)
        }
    }

    /// An empty mirror that asks for its first scan at once.
    pub fn new(download_dir: String, refresh_interval_ms: u64) -> (r: Transmission)
        ensures
            r.wf(),
            r.torrents@.len() == 0,
            r.selected == 0,
            r.scroll == 1,
            r.download_dir == download_dir,
            r.refresh_interval_ms == refresh_interval_ms,
            r.last_scan_ms == 0,
            r.refresh_pending,
    {
        Transmission {
            torrents: Vec::new(),
            selected: 0,
            scroll: 1,
            download_dir,
            refresh_interval_ms,
            last_scan_ms: 0,
            refresh_pending: true,
        }
    }

    /// Whether the queue has an entry to show.
    pub fn is_visible(&self) -> (r: bool)
        ensures
            r == (self.torrents@.len() > 0),
    {
        self.torrents.len() > 0
    }

    /// Whether a scan is due at `now_ms`.
    pub fn scan_due(&self, now_ms: u64) -> (r: bool)
        ensures
            r == self.scan_due_at(now_ms as int),
    {
        self.refresh_pending || now_ms.saturating_sub(self.last_scan_ms) >= self.refresh_interval_ms
    }

    /// How many milliseconds the session may wait for a key at `now_ms`
    /// before it must scan.
    pub fn timeout_ms(&self, now_ms: u64) -> (r: u64)
        ensures
            r == self.timeout_at(now_ms as int),
            r <= self.refresh_interval_ms,
    {
        if self.scan_due(now_ms) {
            0
        } else {
            self.refresh_interval_ms - now_ms.saturating_sub(self.last_scan_ms)
        }
    }

    /// Replaces the whole mirror with what the service listed at `now_ms`.
    pub fn scan(&mut self, torrents: Vec<DownloadItem>, now_ms: u64)
        requires
            old(self).wf(),
        ensures
            final(self).wf(),
            final(self).torrents@ == torrents@,
            final(self).last_scan_ms == now_ms,
            !final(self).refresh_pending,
            final(self).download_dir == old(self).download_dir,
            final(self).refresh_interval_ms == old(self).refresh_interval_ms,
            final(self).scroll == old(self).scroll,
            final(self).selected == if torrents@.len() == 0 {
                0
            } else if old(self).selected < torrents@.len() {
                old(self).selected
            } else {
                (torrents@.len() - 1) as usize
            },
    {
        let n = torrents.len();
        self.torrents = torrents;
        if n == 0 {
            self.selected = 0;
        } else if self.selected >= n {
            self.selected = n - 1;
        }
        self.last_scan_ms = now_ms;
        self.refresh_pending = false;
    }

    /// The request that adds `torrent_url`, with its spaces escaped, to the
    /// configured download directory. The mirror is stale until the next scan.
    pub fn add(&mut self, torrent_url: &str) -> (r: AddRequest)
        requires
            old(self).wf(),
        ensures
            r.filename@ == escape_spaces(torrent_url@),
            r.download_dir@ == old(self).download_dir@,
            final(self).refresh_pending,
            forall|now: int| #[trigger] final(self).scan_due_at(now),
            *final(self) == (Transmission { refresh_pending: true, ..*old(self) }),
    {
        let r = AddRequest {
            filename: escape_spaces_of(torrent_url),
            download_dir: self.download_dir.clone(),
        };
        self.refresh_pending = true;
        r
    }

    /// The request that starts the entry at `index` if it is stopped and stops
    /// it otherwise; `None` when there is no such entry.
    pub fn toggle(&mut self, index: usize) -> (r: Option<RunRequest>)
        requires
            old(self).wf(),
        ensures
            index < old(self).torrents@.len() ==> r == Some(
                RunRequest {
                    id: old(self).torrents@[index as int].id,
                    action: toggle_action(old(self).torrents@[index as int].state),
                },
            ) && *final(self) == (Transmission { refresh_pending: true, ..*old(self) }),
            index >= old(self).torrents@.len() ==> r is None && *final(self) == *old(self),
    {
        if index >= self.torrents.len() {
            return None;
        }
        let item = &self.torrents[index];
        let r = RunRequest { id: item.id, action: action_for(item.state) };
        self.refresh_pending = true;
        Some(r)
    }

    /// The id of the entry at `index`, to be removed from the queue with its
    /// downloaded data kept; `None` when there is no such entry.
    pub fn remove(&mut self, index: usize) -> (r: Option<i64>)
        requires
            old(self).wf(),
        ensures
            index < old(self).torrents@.len() ==> r == Some(old(self).torrents@[index as int].id)
                && *final(self) == (Transmission { refresh_pending: true, ..*old(self) }),
            index >= old(self).torrents@.len() ==> r is None && *final(self) == *old(self),
    {
        if index >= self.torrents.len() {
            return None;
        }
        let id = self.torrents[index].id;
        self.refresh_pending = true;
        Some(id)
    }

    /// Moves the scroll bar one step up, not above its first position.
    pub fn scroll_bar_up(&mut self)
        requires
            old(self).wf(),
        ensures
            final(self).scroll == if old(self).scroll > 1 {
                (old(self).scroll - 1) as usize
            } else {
                old(self).scroll
            },
            *final(self) == (Transmission { scroll: final(self).scroll, ..*old(self) }),
            final(self).wf(),
    {
        if self.scroll > 1 {
            self.scroll = self.scroll - 1;
        }
    }

    /// Moves the scroll bar one step down, not past the last entry but one.
    pub fn scroll_bar_down(&mut self)
        requires
            old(self).wf(),
        ensures
            final(self).scroll == if old(self).torrents@.len() > 0 && old(self).scroll + 1
                < old(self).torrents@.len() {
                (old(self).scroll + 1) as usize
            } else {
                old(self).scroll
            },
            *final(self) == (Transmission { scroll: final(self).scroll, ..*old(self) }),
            final(self).wf(),
    {
        let n = self.torrents.len();
        if n > 0 && self.scroll < n - 1 {
            self.scroll = self.scroll + 1;
        }
    }

    /// Moves the cursor to the next entry, staying on the last one.
    pub fn select_next(&mut self)
        requires
            old(self).wf(),
        ensures
            final(self).selected == if old(self).selected + 1 < old(self).torrents@.len() {
                (old(self).selected + 1) as usize
            } else {
                old(self).selected
            },
            *final(self) == (Transmission { selected: final(self).selected, ..*old(self) }),
            final(self).wf(),
    {
        let n = self.torrents.len();
        if n > 0 && self.selected < n - 1 {
            self.selected = self.selected + 1;
        }
    }

    /// Moves the cursor to the previous entry, staying on the first one.
    pub fn select_previous(&mut self)
        requires
            old(self).wf(),
        ensures
            final(self).selected == if old(self).selected > 0 {
                (old(self).selected - 1) as usize
            } else {
                old(self).selected
            },
            *final(self) == (Transmission { selected: final(self).selected, ..*old(self) }),
            final(self).wf(),
    {
        if self.selected > 0 {
            self.selected = self.selected - 1;
        }
    }

    /// Rows of screen the queue table takes: its entries and four lines of
    /// frame, at most ten.
    pub fn height(&self) -> (r: u16)
        ensures
            r == if self.torrents@.len() < 6 {
                self.torrents@.len() + 4
            } else {
                10
            },
    {
        let n = self.torrents.len();
        if n < 6 {
            n as u16 + 4
        } else {
            10
        }
    }
}

/// Left without input, the session wakes when the wait that `timeout_at`
/// grants runs out, and a scan is then due: so the queue is fetched again at
/// the latest one refresh interval after the last scan, or at once when that
/// moment has already passed.
pub proof fn lemma_scan_within_interval(t: Transmission, now: int)
    requires
        now >= t.last_scan_ms,
    ensures
        t.scan_due_at(now + t.timeout_at(now)),
        now + t.timeout_at(now) <= if now >= t.last_scan_ms + t.refresh_interval_ms {
            now
        } else {
            t.last_scan_ms + t.refresh_interval_ms
        },
{
}

/// A scan at `now` restarts the clock: the session may then wait a whole
/// refresh interval, and the next scan falls due exactly when it has passed.
/// With `lemma_scan_within_interval`, scans left to the clock follow each
/// other at most one interval apart.
pub proof fn lemma_scan_restarts_interval(after: Transmission, now: int)
    requires
        after.last_scan_ms == now,
        !after.refresh_pending,
    ensures
        after.timeout_at(now) == if after.refresh_interval_ms == 0 {
            0
        } else {
            after.refresh_interval_ms as int
        },
        after.scan_due_at(now + after.refresh_interval_ms),
        forall|t: int| now <= t < now + after.refresh_interval_ms ==> !#[trigger] after.scan_due_at(t),
{
}

/// After an add, a scan is due at once, before any further wait.
pub proof fn lemma_add_refreshes_at_once(t: Transmission, after: Transmission, now: int)
    requires
        after == (Transmission { refresh_pending: true, ..t }),
    ensures
        after.scan_due_at(now),
        after.timeout_at(now) == 0,
{
}

} // verus!
