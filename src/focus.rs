use vstd::prelude::*;

verus! {

/// Which region of the screen receives key presses.
#[derive(Debug, Clone, Copy, PartialEq, Eq, Structural)]
pub enum Focus {
    InputBox,
    MovieTable,
    TorrentTable,
    PopupNotification,
    PopupTorrent,
    PopupSubtitle,
}

impl Default for Focus {
    fn default() -> (r: Focus)
        ensures
            r == Focus::InputBox,
    {
        Focus::InputBox
    }
}

} // verus!
