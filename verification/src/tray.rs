//! The menu-bar item's state machine.
//!
//! A timer ticks every five seconds. Once the update checker has found a
//! newer release, the next tick adds an "Update available" item at the top
//! of the menu, once. When the user confirms the install, the status bar
//! shows "Downloading…" on every tick until the process exits. Drawing the
//! menu and showing the confirmation dialog belong to the caller.

use vstd::prelude::*;
use crate::updater::UpdateInfo;

verus! {

/// Seconds between two timer ticks.
pub const TICK_INTERVAL_SECS: u64 = 5;

/// What the tray remembers between ticks.
#[derive(Debug, Clone, Copy, PartialEq, Eq, Structural)]
pub struct TrayState {
    /// The user confirmed an update; the download is under way.
    pub downloading: bool,
    /// The "Update available" item is in the menu.
    pub update_item_shown: bool,
}

/// What one tick does to the menu bar.
pub enum TrayTick {
    /// Set the status bar title to "Downloading…".
    ShowDownloading,
    /// Insert an item with this title at the top of the menu; choosing it
    /// asks whether to install.
    AddUpdateItem(String),
    /// Leave the menu bar as it is.
    Nothing,
}

/// The status bar title while an update downloads.
pub open spec fn downloading_title() -> Seq<char> {
    "Downloading\u{2026}"@
}

/// The title of the menu item that offers version `version`.
pub open spec fn spec_update_item_title(version: Seq<char>) -> Seq<char> {
    "Update available v"@ + version
}

/// The question asked before installing version `version`.
pub open spec fn spec_install_prompt(version: Seq<char>) -> Seq<char> {
    "Version "@ + version
        + " is ready to install. The app will download the update and restart automatically."@
}

/// Whether a tick adds the update item: not while downloading, not when it
/// is already there, and only once an update has been found.
pub open spec fn spec_adds_item(s: TrayState, update_found: bool) -> bool {
    !s.downloading && !s.update_item_shown && update_found
}

/// The state after a tick.
pub open spec fn spec_after_tick(s: TrayState, update_found: bool) -> TrayState {
    if spec_adds_item(s, update_found) {
        TrayState { update_item_shown: true, ..s }
    } else {
        s
    }
}

/// The title of the menu item that offers version `version`.
pub fn update_item_title(version: &str) -> (title: String)
    ensures
        title@ == spec_update_item_title(version@),
{
    let mut title = String::from_str("Update available v");
    title.append(version);
    title
}

/// The question asked before installing version `version`.
pub fn install_prompt(version: &str) -> (prompt: String)
    ensures
        prompt@ == spec_install_prompt(version@),
{
    let mut prompt = String::from_str("Version ");
    prompt.append(version);
    prompt.append(" is ready to install. The app will download the update and restart automatically.");
    prompt
}

/// The status bar title while an update downloads.
pub fn downloading_status() -> (title: &'static str)
    ensures
        title@ == downloading_title(),
{
    "Downloading\u{2026}"
}

impl TrayState {
    /// No update offered and nothing downloading.
    pub fn new() -> (s: TrayState)
        ensures
            !s.downloading,
            !s.update_item_shown,
    {
        TrayState { downloading: false, update_item_shown: false }
    }

    /// One timer tick, given the update found by the checker, if any.
    pub fn check_tray_state(&mut self, update: Option<&UpdateInfo>) -> (tick: TrayTick)
        ensures
            *final(self) == spec_after_tick(*old(self), update is Some),
            old(self).downloading <==> tick is ShowDownloading,
            spec_adds_item(*old(self), update is Some) <==> tick is AddUpdateItem,
            tick matches TrayTick::AddUpdateItem(title) ==> (update matches Some(info)
                && title@ == spec_update_item_title(info.version@)),
    {
        if self.downloading {
            return TrayTick::ShowDownloading;
        }
        if self.update_item_shown {
            return TrayTick::Nothing;
        }
        match update {
            None => TrayTick::Nothing,
            Some(info) => {
                self.update_item_shown = true;
                TrayTick::AddUpdateItem(update_item_title(info.version.as_str()))
            },
        }
    }

    /// The user answered the install question: when confirmed, the download
    /// starts, and `true` says to start installing.
    pub fn answer_install_prompt(&mut self, confirmed: bool) -> (install: bool)
        ensures
            install == confirmed,
            final(self).downloading == (old(self).downloading || confirmed),
            final(self).update_item_shown == old(self).update_item_shown,
    {
        if confirmed {
            self.downloading = true;
        }
        confirmed
    }
}

/// The state after a run of ticks; `found[i]` says whether an update had
/// been found at tick `i`.
pub open spec fn spec_run(s: TrayState, found: Seq<bool>) -> TrayState
    decreases found.len(),
{
    if found.len() == 0 {
        s
    } else {
        spec_after_tick(spec_run(s, found.drop_last()), found.last())
    }
}

/// How many ticks of a run add the update item.
pub open spec fn spec_items_added(s: TrayState, found: Seq<bool>) -> nat
    decreases found.len(),
{
    if found.len() == 0 {
        0
    } else {
        spec_items_added(s, found.drop_last()) + if spec_adds_item(
            spec_run(s, found.drop_last()),
            found.last(),
        ) {
            1nat
        } else {
            0nat
        }
    }
}

/// Over any run of ticks, the update item is added at most once, and never
/// again once it is shown.
pub proof fn lemma_update_item_added_at_most_once(s: TrayState, found: Seq<bool>)
    ensures
        spec_items_added(s, found) <= 1,
        s.update_item_shown ==> spec_items_added(s, found) == 0,
        spec_items_added(s, found) == 1 ==> spec_run(s, found).update_item_shown,
        s.update_item_shown ==> spec_run(s, found).update_item_shown,
    decreases found.len(),
{
    if found.len() > 0 {
        lemma_update_item_added_at_most_once(s, found.drop_last());
    }
}

/// Once a download is under way, every later tick shows "Downloading…" and
/// no update item is added.
pub proof fn lemma_downloading_persists(s: TrayState, found: Seq<bool>)
    requires
        s.downloading,
    ensures
        spec_run(s, found) == s,
        spec_items_added(s, found) == 0,
    decreases found.len(),
{
    if found.len() > 0 {
        lemma_downloading_persists(s, found.drop_last());
    }
}

} // verus!
