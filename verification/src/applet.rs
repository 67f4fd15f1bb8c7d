//! Panel-applet state shown to the user: events from the daemon, popup labels, tooltip
//! text and popup size.

use std::sync::mpsc::SyncSender;

use vstd::prelude::*;

use crate::item::{display_line_middle_spec, format_display_line_middle};
use crate::selection_status::{format_selection_status, selection_status_spec};
use crate::text::{chars_to_string, decimal_spec, push_decimal, push_str, str_equals};

verus! {

/// Width of the middle-truncated label of a popup row.
pub const POPUP_LABEL_LEN: usize = 72;

/// Height of one popup row.
pub const POPUP_ROW_HEIGHT: u32 = 32;

/// Above this many rows the popup scrolls.
pub const POPUP_SCROLL_THRESHOLD: usize = 10;

/// Height of the scrolling popup viewport.
pub const POPUP_SCROLL_VIEWPORT: u32 = 320;

/// Width of the popup.
pub const POPUP_WIDTH: u32 = 360;

/// What the daemon connection reports to the applet.
#[derive(Clone, Debug, PartialEq, Eq)]
pub enum DbusEvent {
    Refreshed { history: Vec<(String, String)>, active_index: u32, tracking: bool },
    ActiveIndexChanged { active_index: u32 },
    ShowHistory,
    Disconnected,
}

/// Start-up options of the applet.
#[derive(Clone, Copy, Debug, PartialEq, Eq, Structural)]
pub struct Flags {
    pub open_popup: bool,
}

/// Queues a request on a bounded channel without waiting (`SyncSender::try_send`);
/// whether it was queued depends on the receiver, so nothing is claimed.
#[verifier::external_body]
fn try_signal(tx: &SyncSender<()>) {
    let _ = tx.try_send(());
}

/// Forwards desktop activation requests (open, activate, `show-history`) to the applet.
pub struct AppletActivation {
    show_tx: SyncSender<()>,
}

impl AppletActivation {
    /// The channel on which show-history requests are forwarded.
    pub closed spec fn sender(&self) -> SyncSender<()> {
        self.show_tx
    }

    pub fn new(show_tx: SyncSender<()>) -> (a: Self)
        ensures
            a.sender() == show_tx,
    {
        Self { show_tx }
    }

    pub fn request_show_history(&self) {
        try_signal(&self.show_tx);
    }

    /// Handles `ActivateAction`: only the `show-history` action opens the popup.
    pub fn activate_action(&self, action_name: &str) -> (r: bool)
        ensures
            r == (action_name@ == "show-history"@),
    {
        let cs = crate::text::str_chars(action_name);
        let target = crate::text::str_chars("show-history");
        let r = cs.len() == target.len() && crate::text::chars_start_with(cs.as_slice(), target.as_slice());
        proof {
            if cs.len() == target.len() && r {
                assert(cs@ =~= target@.subrange(0, target@.len() as int));
                assert(target@.subrange(0, target@.len() as int) =~= target@);
            }
        }
        if r {
            self.request_show_history();
        }
        r
    }
}

/// The separator between a row number and its preview.
pub const LABEL_SEPARATOR: &'static str = " \u{b7} ";

/// A popup row: one-based number, separator, middle-truncated preview.
pub open spec fn popup_label(index: nat, display: Seq<char>) -> Seq<char> {
    decimal_spec(index + 1) + LABEL_SEPARATOR@ + display_line_middle_spec(display, POPUP_LABEL_LEN as nat)
}

pub fn popup_labels(history: &Vec<(String, String)>) -> (r: Vec<String>)
    ensures
        r@.len() == history@.len(),
        forall|i: int| 0 <= i < r@.len() ==> (#[trigger] r@[i])@ == popup_label(i as nat, history@[i].1@),
{
    let mut out: Vec<String> = Vec::new();
    let mut i: usize = 0;
    while i < history.len()
        invariant
            i <= history@.len(),
            out@.len() == i,
            forall|j: int| 0 <= j < i ==> (#[trigger] out@[j])@ == popup_label(j as nat, history@[j].1@),
        decreases history.len() - i,
    {
        let preview = format_display_line_middle(history[i].1.as_str(), POPUP_LABEL_LEN);
        let mut label: Vec<char> = Vec::new();
        push_decimal(&mut label, i as u64 + 1);
        push_str(&mut label, LABEL_SEPARATOR);
        push_str(&mut label, preview.as_str());
        assert(label@ =~= popup_label(i as nat, history@[i as int].1@));
        out.push(chars_to_string(label.as_slice()));
        i = i + 1;
    }
    out
}

/// The tooltip of the panel button.
pub open spec fn tooltip_spec(
    daemon_unreachable: bool,
    history: Seq<(String, String)>,
    active_index: u32,
    tracking: bool,
) -> Seq<char> {
    if daemon_unreachable {
        "Daemon unreachable"@
    } else if history.len() == 0 {
        "No history \u{2014} copy text to record"@
    } else if !tracking {
        "Paused \u{b7} "@ + decimal_spec(history.len()) + " items"@
    } else {
        let preview = if active_index < history.len() {
            history[active_index as int].1@
        } else {
            seq![]
        };
        selection_status_spec(active_index, history.len() as u32, preview)
    }
}

pub fn tooltip(daemon_unreachable: bool, history: &Vec<(String, String)>, active_index: u32, tracking: bool) -> (r:
    String)
    ensures
        r@ == tooltip_spec(daemon_unreachable, history@, active_index, tracking),
{
    if daemon_unreachable {
        return "Daemon unreachable".to_owned();
    }
    let count = history.len();
    if count == 0 {
        return "No history \u{2014} copy text to record".to_owned();
    }
    if !tracking {
        let mut out: Vec<char> = Vec::new();
        push_str(&mut out, "Paused \u{b7} ");
        push_decimal(&mut out, count as u64);
        push_str(&mut out, " items");
        return chars_to_string(out.as_slice());
    }
    let index = active_index as usize;
    if index < count {
        format_selection_status(active_index, count as u32, history[index].1.as_str())
    } else {
        proof {
            reveal_strlit("");
        }
        format_selection_status(active_index, count as u32, "")
    }
}

/// The popup's size for `count` rows: none when empty; the scrolling viewport (plus
/// padding) above the threshold; otherwise rows, dividers and padding.
pub open spec fn popup_size_spec(count: nat) -> Option<(u32, u32)> {
    if count == 0 {
        None
    } else if count > POPUP_SCROLL_THRESHOLD {
        Some((POPUP_WIDTH, (POPUP_SCROLL_VIEWPORT + 16) as u32))
    } else {
        Some((POPUP_WIDTH, (count * POPUP_ROW_HEIGHT + (count - 1) + 16) as u32))
    }
}

pub fn estimated_popup_size(count: usize) -> (r: Option<(u32, u32)>)
    ensures
        r == popup_size_spec(count as nat),
{
    if count == 0 {
        return None;
    }
    let height = if count > POPUP_SCROLL_THRESHOLD {
        POPUP_SCROLL_VIEWPORT + 16
    } else {
        let rows = count as u32 * POPUP_ROW_HEIGHT;
        let dividers = (count - 1) as u32;
        rows.saturating_add(dividers).saturating_add(16)
    };
    Some((POPUP_WIDTH, height))
}

} // verus!

verus! {

/// The texts of `(uuid, preview)` pairs.
pub open spec fn entries_view(h: Seq<(String, String)>) -> Seq<(Seq<char>, Seq<char>)> {
    h.map_values(|e: (String, String)| (e.0@, e.1@))
}

/// Whether two entry lists hold the same texts.
fn same_entries(a: &Vec<(String, String)>, b: &Vec<(String, String)>) -> (r: bool)
    ensures
        r == (entries_view(a@) == entries_view(b@)),
{
    if a.len() != b.len() {
        assert(entries_view(a@).len() != entries_view(b@).len());
        return false;
    }
    let mut i: usize = 0;
    while i < a.len()
        invariant
            a@.len() == b@.len(),
            i <= a@.len(),
            forall|j: int| 0 <= j < i ==> (#[trigger] a@[j]).0@ == b@[j].0@ && a@[j].1@ == b@[j].1@,
        decreases a.len() - i,
    {
        if !str_equals(a[i].0.as_str(), b[i].0.as_str()) || !str_equals(a[i].1.as_str(), b[i].1.as_str()) {
            assert(entries_view(a@)[i as int] != entries_view(b@)[i as int]);
            return false;
        }
        i = i + 1;
    }
    assert(entries_view(a@) =~= entries_view(b@));
    true
}

/// Smallest pause between two show-history requests that are both honoured, in milliseconds.
pub const SHOW_HISTORY_DEBOUNCE_MS: u64 = 300;

/// Distance between two popup rows when scrolling (row plus divider).
pub const POPUP_ROW_STRIDE: u64 = 33;

/// What the popup shows.
#[derive(Clone, Copy, Debug, PartialEq, Eq, Structural)]
pub enum PopupContent {
    /// The daemon cannot be reached.
    Unreachable,
    /// There is no history yet.
    Empty,
    /// The labelled rows, the active one highlighted; scrolling when there are many.
    Rows { active: u32, scrollable: bool },
}

/// A request from the toolkit to the applet; popups are named by identifiers the toolkit
/// glue assigns.
#[derive(Clone, Debug, PartialEq, Eq)]
pub enum AppletMessage {
    PopupClosed(u64),
    TogglePopup,
    SelectIndex(u32),
    SelectDone,
    Dbus(DbusEvent),
}

/// What the toolkit glue does in answer to a message.
#[derive(Clone, Copy, Debug, PartialEq, Eq)]
pub enum AppletAction {
    Nothing,
    /// Close the popup.
    DestroyPopup(u64),
    /// Open the popup (after closing `replace`, when set) at the given size, scrolled to
    /// `scroll_to` pixels when set.
    OpenPopup { replace: Option<u64>, size: Option<(u32, u32)>, scroll_to: Option<u64> },
    /// Ask the daemon to select entry `index` (closing the popup `close`, when set).
    Select { index: u32, close: Option<u64> },
}

/// The applet's state apart from the toolkit.
pub struct AppletModel {
    pub popup: Option<u64>,
    pub history: Vec<(String, String)>,
    pub popup_labels: Vec<String>,
    pub active_index: u32,
    pub tracking: bool,
    pub daemon_unreachable: bool,
    pub open_on_init: bool,
    pub last_show_history_ms: Option<u64>,
}

/// Where the popup scrolls to for `count` rows: to the active row (at most the last row)
/// when the popup scrolls, nowhere otherwise.
pub open spec fn scroll_spec(count: nat, active: u32) -> Option<u64> {
    if count <= POPUP_SCROLL_THRESHOLD {
        None
    } else {
        let last = (count - 1) * POPUP_ROW_STRIDE;
        let at = active * POPUP_ROW_STRIDE;
        Some((if at < last { at } else { last }) as u64)
    }
}

/// The popup to open now.
pub open spec fn open_action(m: AppletModel, replace: Option<u64>) -> AppletAction {
    AppletAction::OpenPopup {
        replace,
        size: popup_size_spec(m.popup_labels@.len()),
        scroll_to: scroll_spec(m.popup_labels@.len(), m.active_index),
    }
}

impl AppletModel {
    /// The labels are those of the history.
    pub open spec fn wf(&self) -> bool {
        &&& self.popup_labels@.len() == self.history@.len()
        &&& forall|i: int|
            0 <= i < self.history@.len() ==> (#[trigger] self.popup_labels@[i])@ == popup_label(
                i as nat,
                self.history@[i].1@,
            )
        &&& self.history@.len() <= u32::MAX
    }

    pub fn new(open_popup: bool) -> (m: Self)
        ensures
            m.wf(),
            m.popup is None,
            m.history@.len() == 0,
            m.active_index == 0,
            m.tracking,
            !m.daemon_unreachable,
            m.open_on_init == open_popup,
            m.last_show_history_ms is None,
    {
        AppletModel {
            popup: None,
            history: Vec::new(),
            popup_labels: Vec::new(),
            active_index: 0,
            tracking: true,
            daemon_unreachable: false,
            open_on_init: open_popup,
            last_show_history_ms: None,
        }
    }

    /// Takes a fresh copy of the daemon's state; says whether the history changed.
    pub fn apply_refreshed(&mut self, history: Vec<(String, String)>, active_index: u32, tracking: bool) -> (r:
        bool)
        requires
            old(self).wf(),
            history@.len() <= u32::MAX,
        ensures
            final(self).wf(),
            r == (entries_view(old(self).history@) != entries_view(history@)),
            entries_view(final(self).history@) == entries_view(history@),
            final(self).active_index == active_index,
            final(self).tracking == tracking,
            !final(self).daemon_unreachable,
            final(self).popup == old(self).popup,
            final(self).open_on_init == old(self).open_on_init,
            final(self).last_show_history_ms == old(self).last_show_history_ms,
    {
        let changed = !same_entries(&self.history, &history);
        if changed {
            self.popup_labels = popup_labels(&history);
        }
        self.history = history;
        self.active_index = active_index;
        self.tracking = tracking;
        self.daemon_unreachable = false;
        proof {
            if !changed {
                assert(entries_view(old(self).history@).len() == old(self).history@.len());
                assert(entries_view(self.history@).len() == self.history@.len());
                assert forall|i: int| 0 <= i < self.history@.len() implies old(self).history@[i].1@
                    == self.history@[i].1@ by {
                    assert(entries_view(old(self).history@)[i] == (
                        old(self).history@[i].0@,
                        old(self).history@[i].1@,
                    ));
                    assert(entries_view(self.history@)[i] == (self.history@[i].0@, self.history@[i].1@));
                }
            }
        }
        changed
    }

    /// Where the popup scrolls to.
    pub fn scroll_offset(&self) -> (r: Option<u64>)
        requires
            self.wf(),
        ensures
            r == scroll_spec(self.popup_labels@.len(), self.active_index),
    {
        let count = self.popup_labels.len();
        if count <= POPUP_SCROLL_THRESHOLD {
            return None;
        }
        let last = (count as u64 - 1) * POPUP_ROW_STRIDE;
        let at = self.active_index as u64 * POPUP_ROW_STRIDE;
        Some(if at < last { at } else { last })
    }

    /// Opens the popup, replacing an open one.
    fn open_popup(&mut self) -> (r: AppletAction)
        requires
            old(self).wf(),
        ensures
            r == open_action(*old(self), old(self).popup),
            final(self).popup is None,
            final(self).history == old(self).history,
            final(self).popup_labels == old(self).popup_labels,
            final(self).active_index == old(self).active_index,
            final(self).tracking == old(self).tracking,
            final(self).daemon_unreachable == old(self).daemon_unreachable,
            final(self).open_on_init == old(self).open_on_init,
            final(self).last_show_history_ms == old(self).last_show_history_ms,
    {
        let scroll_to = self.scroll_offset();
        let size = estimated_popup_size(self.popup_labels.len());
        let replace = self.popup.take();
        AppletAction::OpenPopup { replace, size, scroll_to }
    }

    /// Records the popup the glue opened.
    pub fn popup_opened(&mut self, id: u64)
        ensures
            final(self).popup == Some(id),
            final(self).history == old(self).history,
            final(self).popup_labels == old(self).popup_labels,
            final(self).active_index == old(self).active_index,
            final(self).tracking == old(self).tracking,
            final(self).daemon_unreachable == old(self).daemon_unreachable,
            final(self).open_on_init == old(self).open_on_init,
            final(self).last_show_history_ms == old(self).last_show_history_ms,
    {
        self.popup = Some(id);
    }

    /// Handles a message at time `now_ms` (milliseconds on a monotonic clock).
    pub fn update(&mut self, message: AppletMessage, now_ms: u64) -> (r: AppletAction)
        requires
            old(self).wf(),
            message matches AppletMessage::Dbus(DbusEvent::Refreshed { history, .. }) ==> history@.len()
                <= u32::MAX,
        ensures
            final(self).wf(),
            match message {
                AppletMessage::PopupClosed(id) => r == AppletAction::Nothing && *final(self) == (AppletModel {
                    popup: if old(self).popup == Some(id) {
                        None
                    } else {
                        old(self).popup
                    },
                    ..*old(self)
                }),
                AppletMessage::TogglePopup => *final(self) == (AppletModel { popup: None, ..*old(self) })
                    && match old(self).popup {
                    Some(id) => r == AppletAction::DestroyPopup(id),
                    None => r == open_action(*old(self), None),
                },
                AppletMessage::SelectIndex(index) => r == (AppletAction::Select {
                    index,
                    close: old(self).popup,
                }) && *final(self) == (AppletModel { active_index: index, popup: None, ..*old(self) }),
                AppletMessage::SelectDone => r == AppletAction::Nothing && *final(self) == *old(self),
                AppletMessage::Dbus(DbusEvent::Refreshed { history, active_index, tracking }) => {
                    &&& entries_view(final(self).history@) == entries_view(history@)
                    &&& final(self).active_index == active_index
                    &&& final(self).tracking == tracking
                    &&& !final(self).daemon_unreachable
                    &&& !final(self).open_on_init
                    &&& if old(self).open_on_init {
                        r == open_action(*final(self), old(self).popup) && final(self).popup is None
                    } else {
                        r == AppletAction::Nothing && final(self).popup == old(self).popup
                    }
                },
                AppletMessage::Dbus(DbusEvent::ActiveIndexChanged { active_index }) => r
                    == AppletAction::Nothing && *final(self) == (AppletModel {
                    active_index,
                    daemon_unreachable: false,
                    ..*old(self)
                }),
                AppletMessage::Dbus(DbusEvent::ShowHistory) => if old(self).last_show_history_ms matches Some(
                    t,
                ) && now_ms >= t && now_ms - t < SHOW_HISTORY_DEBOUNCE_MS {
                    r == AppletAction::Nothing && *final(self) == *old(self)
                } else {
                    r == open_action(*old(self), old(self).popup) && *final(self) == (AppletModel {
                        popup: None,
                        last_show_history_ms: Some(now_ms),
                        ..*old(self)
                    })
                },
                AppletMessage::Dbus(DbusEvent::Disconnected) => r == AppletAction::Nothing && *final(self)
                    == (AppletModel { daemon_unreachable: true, ..*old(self) }),
            },
    {
        match message {
            AppletMessage::PopupClosed(id) => {
                let matches = match self.popup {
                    Some(p) => p == id,
                    None => false,
                };
                if matches {
                    self.popup = None;
                }
                AppletAction::Nothing
            },
            AppletMessage::TogglePopup => {
                match self.popup.take() {
                    Some(id) => AppletAction::DestroyPopup(id),
                    None => self.open_popup(),
                }
            },
            AppletMessage::SelectIndex(index) => {
                self.active_index = index;
                let close = self.popup.take();
                AppletAction::Select { index, close }
            },
            AppletMessage::SelectDone => AppletAction::Nothing,
            AppletMessage::Dbus(DbusEvent::Refreshed { history, active_index, tracking }) => {
                self.apply_refreshed(history, active_index, tracking);
                if self.open_on_init {
                    self.open_on_init = false;
                    self.open_popup()
                } else {
                    AppletAction::Nothing
                }
            },
            AppletMessage::Dbus(DbusEvent::ActiveIndexChanged { active_index }) => {
                self.active_index = active_index;
                self.daemon_unreachable = false;
                AppletAction::Nothing
            },
            AppletMessage::Dbus(DbusEvent::ShowHistory) => {
                let recent = match self.last_show_history_ms {
                    Some(t) => now_ms >= t && now_ms - t < SHOW_HISTORY_DEBOUNCE_MS,
                    None => false,
                };
                if recent {
                    return AppletAction::Nothing;
                }
                self.last_show_history_ms = Some(now_ms);
                self.open_popup()
            },
            AppletMessage::Dbus(DbusEvent::Disconnected) => {
                self.daemon_unreachable = true;
                AppletAction::Nothing
            },
        }
    }

    /// What the popup shows now.
    pub fn popup_content(&self) -> (r: PopupContent)
        ensures
            self.daemon_unreachable ==> r == PopupContent::Unreachable,
            !self.daemon_unreachable && self.popup_labels@.len() == 0 ==> r == PopupContent::Empty,
            !self.daemon_unreachable && self.popup_labels@.len() > 0 ==> r == (PopupContent::Rows {
                active: self.active_index,
                scrollable: self.popup_labels@.len() > POPUP_SCROLL_THRESHOLD,
            }),
    {
        if self.daemon_unreachable {
            return PopupContent::Unreachable;
        }
        if self.popup_labels.len() == 0 {
            return PopupContent::Empty;
        }
        PopupContent::Rows {
            active: self.active_index,
            scrollable: self.popup_labels.len() > POPUP_SCROLL_THRESHOLD,
        }
    }

    /// The tooltip of the panel button.
    pub fn tooltip(&self) -> (r: String)
        ensures
            r@ == tooltip_spec(self.daemon_unreachable, self.history@, self.active_index, self.tracking),
    {
        tooltip(self.daemon_unreachable, &self.history, self.active_index, self.tracking)
    }
}

/// What the listener does with a daemon signal, by its member name.
#[derive(Clone, Copy, Debug, PartialEq, Eq, Structural)]
pub enum SignalStep {
    /// Fetch the history, active index and tracking state again.
    Refresh,
    /// Read the new active index from the signal.
    ActiveIndex,
    /// Open the popup.
    ShowHistory,
    /// Not a signal the applet follows.
    Ignore,
}

pub fn signal_step(member: Option<&str>) -> (r: SignalStep)
    ensures
        member matches Some(m) && m@ == "Update"@ ==> r == SignalStep::Refresh,
        member matches Some(m) && m@ == "ActiveIndexChanged"@ ==> r == SignalStep::ActiveIndex,
        member matches Some(m) && m@ == "ShowHistory"@ ==> r == SignalStep::ShowHistory,
        !(member matches Some(m) && (m@ == "Update"@ || m@ == "ActiveIndexChanged"@ || m@
            == "ShowHistory"@)) ==> r == SignalStep::Ignore,
{
    proof {
        reveal_strlit("Update");
        reveal_strlit("ActiveIndexChanged");
        reveal_strlit("ShowHistory");
        assert("Update"@.len() != "ActiveIndexChanged"@.len());
        assert("Update"@.len() != "ShowHistory"@.len());
        assert("ActiveIndexChanged"@.len() != "ShowHistory"@.len());
    }
    match member {
        Some(m) => {
            if str_equals(m, "Update") {
                SignalStep::Refresh
            } else if str_equals(m, "ActiveIndexChanged") {
                SignalStep::ActiveIndex
            } else if str_equals(m, "ShowHistory") {
                SignalStep::ShowHistory
            } else {
                SignalStep::Ignore
            }
        },
        None => SignalStep::Ignore,
    }
}

/// First wait before reconnecting to the bus, in milliseconds.
pub const RECONNECT_BACKOFF_MS: u64 = 500;

/// Longest wait before reconnecting, in milliseconds.
pub const RECONNECT_BACKOFF_MAX_MS: u64 = 30_000;

/// The wait after another failed connection: twice the last one, at most the maximum.
pub fn next_backoff_ms(current_ms: u64) -> (r: u64)
    ensures
        r == if current_ms * 2 < RECONNECT_BACKOFF_MAX_MS {
            current_ms * 2
        } else {
            RECONNECT_BACKOFF_MAX_MS as int
        },
{
    if current_ms < RECONNECT_BACKOFF_MAX_MS / 2 {
        current_ms * 2
    } else {
        RECONNECT_BACKOFF_MAX_MS
    }
}

} // verus!
