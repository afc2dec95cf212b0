//! The status item of the tray menu.
use vstd::prelude::*;

verus! {

/// The status line of the tray menu: `None` until the tray is set up, then
/// the text the item shows.
pub struct TrayStatus {
    item: Option<String>,
}

impl View for TrayStatus {
    type V = Option<Seq<char>>;

    closed spec fn view(&self) -> Option<Seq<char>> {
        match self.item {
            Some(t) => Some(t@),
            None => None,
        }
    }
}

/// The status text the tray starts with.
pub open spec fn initial_status() -> Seq<char> {
    "DSH 启动中…"@
}

impl TrayStatus {
    /// No tray yet.
    pub fn new() -> (t: Self)
        ensures
            t@ is None,
    {
        TrayStatus { item: None }
    }

    /// The tray is set up with its initial status text.
    pub fn install(&mut self)
        ensures
            final(self)@ == Some(initial_status()),
    {
        self.item = Some(String::from_str("DSH 启动中…"));
    }

    /// The text shown, if the tray exists.
    pub fn text(&self) -> (r: Option<String>)
        ensures
            match r {
                Some(t) => self@ == Some(t@),
                None => self@ is None,
            },
    {
        match &self.item {
            Some(t) => Some(t.clone()),
            None => None,
        }
    }
}

/// Shows `text` as the tray's status; does nothing before the tray exists.
pub fn update_status(tray: &mut TrayStatus, text: &str)
    ensures
        final(tray)@ == match old(tray)@ {
            Some(_) => Some(text@),
            None => None,
        },
{
    if tray.item.is_some() {
        tray.item = Some(text.to_owned());
    }
}

} // verus!
