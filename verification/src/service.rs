//! The clipboard service's state and what each of its bus methods decides: the
//! history change, the reply, and the signals to emit.

use std::sync::mpsc::SyncSender;
use std::sync::Arc;

use vstd::prelude::*;

use crate::active_index::{after_delete, offset_arith_ok, select_at_offset_result};
use crate::dbus::{
    element_value, history_entries, is_element_value, item_kind_name, kind_name, map_error, maps_error,
    parse_uuid, uuid_parse, uuid_text, uuid_to_string, ClipboardWriteRequest, ElementValue, ServiceError,
};
use crate::error::Error;
use crate::history::{first_with_uuid, ingest_result, lemma_plain_ingest_fits, move_to_front_spec, History, IngestOutcome, default_policies};
use crate::item::HistoryItem;
use crate::persistence::{join_path, path_join, DataPaths, HistoryStore, LoadHistoryOutcome, SessionState};
use crate::session::{same_session, HistorySession};
use crate::text::{concat_str, str_equals};

verus! {

/// A signal the service emits on the bus once a call has been handled.
#[derive(Clone, Debug, PartialEq, Eq)]
pub enum BusSignal {
    Update { action: &'static str, target: String, index: u32 },
    ActiveIndexChanged { index: u32, count: u32 },
    EmptyHistory { history: String },
    ShowHistory,
}

/// Whether `e` is `Failed` with message `msg`.
pub open spec fn is_failed(e: ServiceError, msg: Seq<char>) -> bool {
    e matches ServiceError::Failed(m) && m@ == msg
}

/// Whether `e` is `InvalidArgs` with message `msg`.
pub open spec fn is_invalid(e: ServiceError, msg: Seq<char>) -> bool {
    e matches ServiceError::InvalidArgs(m) && m@ == msg
}

/// `Update(action, target, index)` followed by `ActiveIndexChanged(active, count)`.
pub open spec fn change_signals(
    sigs: Seq<BusSignal>,
    action: Seq<char>,
    target: Seq<char>,
    index: u32,
    active: u32,
    count: u32,
) -> bool {
    &&& sigs.len() == 2
    &&& sigs[0] matches BusSignal::Update { action: a, target: t, index: i } && a@ == action && t@
        == target && i == index
    &&& sigs[1] == (BusSignal::ActiveIndexChanged { index: active, count })
}

fn change_signals_of(action: &'static str, target: String, index: u32, active: u32, count: u32) -> (r: Vec<
    BusSignal,
>)
    ensures
        change_signals(r@, action@, target@, index, active, count),
{
    let mut v: Vec<BusSignal> = Vec::new();
    v.push(BusSignal::Update { action, target, index });
    v.push(BusSignal::ActiveIndexChanged { index: active, count });
    v
}

/// The entry a UUID argument names: none when the text does not parse or no entry has it.
pub open spec fn lookup(items: Seq<HistoryItem>, text: Seq<char>) -> Option<int> {
    match uuid_parse(text) {
        Some(u) => first_with_uuid(items, u),
        None => None,
    }
}

/// The answer when the UUID argument `text` names no entry.
pub open spec fn lookup_error(text: Seq<char>, e: ServiceError) -> bool {
    match uuid_parse(text) {
        None => is_invalid(e, "invalid uuid: "@ + text),
        Some(u) => maps_error(Error::NotFound(u), e),
    }
}

/// Where a history-saving failure happened; it decides the reply's message.
#[derive(Clone, Copy, Debug, PartialEq, Eq, Structural)]
pub enum PersistStep {
    History,
    SessionState,
    EmptyHistory,
    Delete,
    Select,
    Reexecute,
}

pub open spec fn persist_prefix(step: PersistStep) -> Seq<char> {
    match step {
        PersistStep::History => "failed to persist history: "@,
        PersistStep::SessionState => "failed to persist session state: "@,
        PersistStep::EmptyHistory => "failed to persist empty history: "@,
        PersistStep::Delete => "failed to persist delete: "@,
        PersistStep::Select => "failed to persist select: "@,
        PersistStep::Reexecute => "failed to flush state before reexecute: "@,
    }
}

/// The reply when saving the state after `step` failed with `detail`.
pub fn persist_error(step: PersistStep, detail: &str) -> (r: ServiceError)
    ensures
        is_failed(r, persist_prefix(step) + detail@),
{
    let prefix = match step {
        PersistStep::History => "failed to persist history: ",
        PersistStep::SessionState => "failed to persist session state: ",
        PersistStep::EmptyHistory => "failed to persist empty history: ",
        PersistStep::Delete => "failed to persist delete: ",
        PersistStep::Select => "failed to persist select: ",
        PersistStep::Reexecute => "failed to flush state before reexecute: ",
    };
    ServiceError::Failed(concat_str(prefix, detail))
}

/// A selection made by `select` or `select_at_offset`, waiting for its clipboard write:
/// the selected entry's UUID text and value, its index, the history length, and the
/// session as it was before the call (restored when the write fails).
pub struct Selection {
    pub target: String,
    pub value: ElementValue,
    pub index: u32,
    pub count: u32,
    pub snapshot: HistorySession,
}

impl Selection {
    /// The signals of a completed selection.
    pub fn signals(&self) -> (r: Vec<BusSignal>)
        ensures
            change_signals(r@, "select"@, self.target@, self.index, self.index, self.count),
    {
        change_signals_of("select", self.target.clone(), self.index, self.index, self.count)
    }
}

/// The clipboard service's state.
pub struct DaemonState {
    pub session: HistorySession,
    pub tracking: bool,
    pub applet_present: bool,
    pub portal_shortcuts_available: bool,
    pub clipboard_write: Option<Arc<SyncSender<ClipboardWriteRequest>>>,
    pub store: HistoryStore,
}

/// The reply of `add` for an ingest with `outcome` that left `items`.
pub open spec fn add_reply(
    outcome: IngestOutcome,
    items: Seq<HistoryItem>,
    r: Result<Vec<BusSignal>, ServiceError>,
) -> bool {
    if outcome is RejectedTextSize {
        r matches Err(e) && is_invalid(e, "text size out of bounds"@)
    } else if items.len() == 0 {
        r matches Err(e) && is_failed(e, "failed to read added item"@)
    } else {
        r matches Ok(s) && change_signals(s@, "add"@, uuid_text(items[0].uuid), 0, 0, items.len() as u32)
    }
}

impl DaemonState {
    /// Everything but the session: flags, clipboard writer and store.
    pub open spec fn setup(&self) -> (bool, bool, bool, Option<Arc<SyncSender<ClipboardWriteRequest>>>, HistoryStore) {
        (self.tracking, self.applet_present, self.portal_shortcuts_available, self.clipboard_write, self.store)
    }

    /// The store the state is saved to.
    pub open spec fn store_spec(&self) -> HistoryStore {
        self.store
    }

    /// Whether a clipboard writer is attached.
    pub open spec fn has_writer(&self) -> bool {
        self.clipboard_write is Some
    }

    /// An empty `history` session kept under `<temp_dir>/cosmic-paste-test`.
    pub fn new_in_memory(temp_dir: &str) -> (s: Self)
        ensures
            s.session.history.wf(),
            s.session.history@.name == "history"@,
            s.session.history@.items.len() == 0,
            s.session.history@.policies == default_policies(),
            s.session.history@.byte_total == 0,
            s.session.active_index.active() == 0,
            !s.session.active_index.wraps(),
            s.tracking,
            !s.applet_present,
            !s.portal_shortcuts_available,
            !s.has_writer(),
            s.store_spec().paths_view().base_path() == path_join(temp_dir@, "cosmic-paste-test"@),
    {
        let base = join_path(temp_dir, "cosmic-paste-test");
        Self {
            session: HistorySession::with_defaults("history"),
            tracking: true,
            applet_present: false,
            portal_shortcuts_available: false,
            clipboard_write: None,
            store: HistoryStore::new(DataPaths::new(base.as_str())),
        }
    }

    /// The state after start-up reads: the loaded history (an empty one under the same
    /// name after corruption) with the saved active index when it lies inside it.
    pub fn load_default(store: HistoryStore, saved: SessionState, outcome: LoadHistoryOutcome) -> (s: Self)
        requires
            outcome matches LoadHistoryOutcome::Loaded(h) ==> h.wf(),
            outcome matches LoadHistoryOutcome::RecoveredFromBackup(h) ==> h.wf(),
        ensures
            s.session.history.wf(),
            outcome matches LoadHistoryOutcome::Loaded(h) ==> s.session.history == h,
            outcome matches LoadHistoryOutcome::RecoveredFromBackup(h) ==> s.session.history == h,
            outcome matches LoadHistoryOutcome::EmptyAfterCorruption { name } ==> s.session.history@.name
                == name@ && s.session.history@.items.len() == 0,
            s.session.active_index.active() == if saved.active_index < s.session.history@.items.len() {
                saved.active_index
            } else {
                0
            },
            !s.session.active_index.wraps(),
            s.tracking,
            !s.applet_present,
            !s.portal_shortcuts_available,
            !s.has_writer(),
            s.store_spec() == store,
    {
        let history = match outcome {
            LoadHistoryOutcome::Loaded(h) => h,
            LoadHistoryOutcome::RecoveredFromBackup(h) => h,
            LoadHistoryOutcome::EmptyAfterCorruption { name } => History::with_defaults(name.as_str()),
        };
        let mut session = HistorySession::new(history, false);
        let len = session.history.len();
        let _ = session.active_index.set_active_index(saved.active_index, len);
        Self {
            session,
            tracking: true,
            applet_present: false,
            portal_shortcuts_available: false,
            clipboard_write: None,
            store,
        }
    }

    pub fn set_clipboard_writer(&mut self, tx: SyncSender<ClipboardWriteRequest>)
        ensures
            final(self).session == old(self).session,
            final(self).has_writer(),
            final(self).tracking == old(self).tracking,
            final(self).applet_present == old(self).applet_present,
            final(self).portal_shortcuts_available == old(self).portal_shortcuts_available,
            final(self).store_spec() == old(self).store_spec(),
    {
        self.clipboard_write = Some(Arc::new(tx));
    }

    pub fn clipboard_writer(&self) -> (r: Option<&Arc<SyncSender<ClipboardWriteRequest>>>)
        ensures
            r is Some == self.has_writer(),
    {
        self.clipboard_write.as_ref()
    }

    pub fn store(&self) -> (r: &HistoryStore)
        ensures
            *r == self.store_spec(),
    {
        &self.store
    }

    /// What is saved beside the history: the active index and the history's name.
    pub fn session_state(&self) -> (r: SessionState)
        ensures
            r.active_index == self.session.active_index.active(),
            r.current_history@ == self.session.history@.name,
    {
        SessionState {
            active_index: self.session.active_index.active_index(),
            current_history: self.session.history.name().to_owned(),
        }
    }

    pub fn history(&self) -> (r: &History)
        ensures
            *r == self.session.history,
    {
        &self.session.history
    }

    pub fn session_mut(&mut self) -> (r: &mut HistorySession)
        ensures
            *r == old(self).session,
            final(self).session == *final(r),
            final(self).setup() == old(self).setup(),
    {
        &mut self.session
    }

    /// `Add`: ingests `text` captured at `now` (Unix seconds) while tracking, and reports
    /// the newest entry. On success the state is saved (`PersistStep::History`).
    pub fn add(&mut self, text: &str, now: u64) -> (r: Result<Vec<BusSignal>, ServiceError>)
        requires
            old(self).session.history.wf(),
        ensures
            final(self).session.history.wf(),
            final(self).setup() == old(self).setup(),
            !old(self).tracking ==> final(self).session == old(self).session && (r matches Err(e)
                && is_failed(e, "clipboard tracking is disabled"@)),
            old(self).tracking ==> exists|outcome: IngestOutcome, new_uuid: u128|
                {
                    &&& ingest_result(
                        old(self).session.history@,
                        text@,
                        None,
                        now,
                        new_uuid,
                        outcome,
                        final(self).session.history@.items,
                    )
                    &&& add_reply(outcome, final(self).session.history@.items, r)
                    &&& final(self).session.active_index.active() == if outcome is RejectedTextSize {
                        old(self).session.active_index.active()
                    } else {
                        0
                    }
                },
            final(self).session.history@.name == old(self).session.history@.name,
            final(self).session.history@.policies == old(self).session.history@.policies,
            final(self).session.active_index.wraps() == old(self).session.active_index.wraps(),
    {
        if !self.tracking {
            return Err(ServiceError::Failed("clipboard tracking is disabled".to_owned()));
        }
        proof {
            lemma_plain_ingest_fits(self.session.history@, text@);
        }
        let outcome = self.session.ingest_text(text, None, now);
        let ghost items = self.session.history@.items;
        match outcome {
            IngestOutcome::RejectedTextSize => {
                return Err(ServiceError::InvalidArgs("text size out of bounds".to_owned()));
            },
            _ => {},
        }
        let target = match self.session.history.get(0) {
            Some(item) => uuid_to_string(item.uuid),
            None => {
                return Err(ServiceError::Failed("failed to read added item".to_owned()));
            },
        };
        let count = self.session.history.len() as u32;
        let r = change_signals_of("add", target, 0, 0, count);
        assert(add_reply(outcome, items, Ok::<Vec<BusSignal>, ServiceError>(r)));
        Ok(r)
    }

    /// `GetHistory`: the `(uuid, preview)` pairs, newest first.
    pub fn get_history(&self) -> (r: Vec<(String, String)>)
        ensures
            r@.len() == self.session.history@.items.len(),
            forall|i: int|
                0 <= i < r@.len() ==> (#[trigger] r@[i]).0@ == uuid_text(self.session.history@.items[i].uuid)
                    && r@[i].1@ == self.session.history@.items[i].display@,
    {
        history_entries(&self.session.history)
    }

    /// `ActiveIndex`: the active index as a 32-bit value.
    pub fn read_active_index(&self) -> (r: u32)
        ensures
            r == self.session.active_index.active() as u32,
    {
        self.session.active_index.active_index() as u32
    }

    /// `SetActiveIndex`: highlights entry `index` without touching the clipboard. On success
    /// the state is saved (`PersistStep::SessionState`).
    pub fn set_active_index(&mut self, index: u32) -> (r: Result<Vec<BusSignal>, ServiceError>)
        ensures
            final(self).session.history == old(self).session.history,
            final(self).setup() == old(self).setup(),
            final(self).session.active_index.wraps() == old(self).session.active_index.wraps(),
            ({
                let len = old(self).session.history@.items.len();
                &&& len == 0 ==> final(self).session.active_index.active() == 0 && (r matches Ok(s)
                    && s@ == seq![BusSignal::ActiveIndexChanged { index, count: 0 }])
                &&& len > 0 && index < len ==> final(self).session.active_index.active() == index && (
                r matches Ok(s) && s@ == seq![BusSignal::ActiveIndexChanged { index, count: len as u32 }])
                &&& len > 0 && index >= len ==> final(self).session.active_index.active() == old(self).session.active_index.active() && (r matches Err(e) && maps_error(
                    Error::ActiveIndexOutOfRange { index: index as usize, len: len as usize },
                    e,
                ))
            }),
    {
        let len = self.session.history.len();
        match self.session.active_index.set_active_index(index as usize, len) {
            Ok(_) => {},
            Err(e) => {
                return Err(map_error(e));
            },
        }
        let mut v: Vec<BusSignal> = Vec::new();
        v.push(BusSignal::ActiveIndexChanged { index, count: len as u32 });
        Ok(v)
    }

    /// `SelectAtOffset`, first half: moves the active index by `offset` and reports the
    /// entry to write to the clipboard. After the write, the state is saved
    /// (`PersistStep::SessionState`) and `Selection::signals` are emitted; if the write
    /// fails, `rollback` restores the session.
    pub fn begin_select_at_offset(&mut self, offset: i32) -> (r: Result<Selection, ServiceError>)
        requires
            old(self).session.history.wf(),
            offset_arith_ok(
                old(self).session.active_index.active(),
                old(self).session.active_index.wraps(),
                old(self).session.history@.items.len() as usize,
                offset,
            ),
        ensures
            final(self).session.history == old(self).session.history,
            final(self).setup() == old(self).setup(),
            final(self).session.active_index.wraps() == old(self).session.active_index.wraps(),
            ({
                let items = old(self).session.history@.items;
                let len = items.len() as usize;
                match select_at_offset_result(
                    old(self).session.active_index.active(),
                    old(self).session.active_index.wraps(),
                    len,
                    offset,
                ) {
                    Err(e) => final(self).session.active_index.active() == old(self).session.active_index.active() && (
                    r matches Err(se) && maps_error(e, se)),
                    Ok(i) => final(self).session.active_index.active() == i && if i < len {
                        r matches Ok(sel) && sel.target@ == uuid_text(items[i as int].uuid)
                            && is_element_value(items[i as int].kind, sel.value) && sel.index
                            == i as u32 && sel.count == len as u32 && same_session(
                            sel.snapshot,
                            old(self).session,
                        )
                    } else {
                        r matches Err(se) && maps_error(Error::ActiveIndexOutOfRange { index: i, len }, se)
                    },
                }
            }),
    {
        let snapshot = self.session.duplicate();
        let (index, item) = match self.session.select_at_offset(offset) {
            Ok(pair) => pair,
            Err(e) => {
                return Err(map_error(e));
            },
        };
        let target = uuid_to_string(item.uuid);
        let value = element_value(item);
        let count = self.session.history.len() as u32;
        Ok(Selection { target, value, index: index as u32, count, snapshot })
    }

    /// `Select`, first half: moves entry `uuid` to the front and makes it active. After
    /// the clipboard write, the state is saved (`PersistStep::Select`) and
    /// `Selection::signals` are emitted; if the write fails, `rollback` restores the session.
    pub fn begin_select(&mut self, uuid: &str) -> (r: Result<Selection, ServiceError>)
        requires
            old(self).session.history.wf(),
        ensures
            final(self).session.history.wf(),
            final(self).setup() == old(self).setup(),
            final(self).session.history@.name == old(self).session.history@.name,
            final(self).session.history@.policies == old(self).session.history@.policies,
            final(self).session.active_index.wraps() == old(self).session.active_index.wraps(),
            ({
                let items = old(self).session.history@.items;
                match lookup(items, uuid@) {
                    None => final(self).session.history@.items == items
                        && final(self).session.active_index.active() == old(self).session.active_index.active() && (
                    r matches Err(e) && lookup_error(uuid@, e)),
                    Some(i) => final(self).session.history@.items == move_to_front_spec(items, i)
                        && final(self).session.active_index.active() == 0 && (r matches Ok(sel)
                        && sel.target@ == uuid_text(items[i].uuid) && is_element_value(
                        items[i].kind,
                        sel.value,
                    ) && sel.index == 0 && sel.count == items.len() as u32 && same_session(
                        sel.snapshot,
                        old(self).session,
                    )),
                }
            }),
    {
        let parsed = match parse_uuid(uuid) {
            Ok(u) => u,
            Err(e) => {
                return Err(e);
            },
        };
        proof {
            crate::history::lemma_first_with_uuid(self.session.history@.items, parsed);
        }
        let snapshot = self.session.duplicate();
        let index = match self.session.select(parsed) {
            Ok(i) => i,
            Err(e) => {
                return Err(map_error(e));
            },
        };
        let item = match self.session.history.get(index) {
            Some(item) => item,
            None => {
                return Err(ServiceError::Failed("failed to read selected item".to_owned()));
            },
        };
        let target = uuid_to_string(item.uuid);
        let value = element_value(item);
        let count = self.session.history.len() as u32;
        proof {
            let items = old(self).session.history@.items;
            if let Some(i) = first_with_uuid(items, parsed) {
                assert(move_to_front_spec(items, i).len() == items.len());
            }
        }
        Ok(Selection { target, value, index: index as u32, count, snapshot })
    }

    /// Puts back the session a selection replaced (its clipboard write failed).
    pub fn rollback(&mut self, snapshot: HistorySession)
        ensures
            final(self).session == snapshot,
            final(self).setup() == old(self).setup(),
    {
        self.session = snapshot;
    }

    /// Finishes a selection once its clipboard write ended with `written`: a failed write
    /// puts the session back as it was and is answered with its error; a completed one
    /// keeps the selection and gives the selected entry's UUID text and the signals to
    /// emit (after the state is saved).
    pub fn complete_select<E>(&mut self, selection: Selection, written: Result<(), E>) -> (r: Result<
        (String, Vec<BusSignal>),
        E,
    >)
        ensures
            final(self).setup() == old(self).setup(),
            written matches Err(e) ==> r == Err::<(String, Vec<BusSignal>), E>(e) && final(self).session
                == selection.snapshot,
            written is Ok ==> final(self).session == old(self).session && (r matches Ok((t, s)) && t
                == selection.target && change_signals(
                s@,
                "select"@,
                selection.target@,
                selection.index,
                selection.index,
                selection.count,
            )),
    {
        match written {
            Err(e) => {
                self.rollback(selection.snapshot);
                Err(e)
            },
            Ok(()) => {
                let signals = selection.signals();
                Ok((selection.target, signals))
            },
        }
    }

    /// `Track`: starts or stops recording clipboard changes.
    pub fn track(&mut self, tracking_state: bool)
        ensures
            final(self).tracking == tracking_state,
            final(self).session == old(self).session,
            final(self).applet_present == old(self).applet_present,
            final(self).portal_shortcuts_available == old(self).portal_shortcuts_available,
            final(self).has_writer() == old(self).has_writer(),
            final(self).store_spec() == old(self).store_spec(),
    {
        self.tracking = tracking_state;
    }

    /// `OnAppletStateChanged`: records whether the panel applet is present.
    pub fn on_applet_state_changed(&mut self, present: bool)
        ensures
            final(self).applet_present == present,
            final(self).session == old(self).session,
            final(self).tracking == old(self).tracking,
            final(self).portal_shortcuts_available == old(self).portal_shortcuts_available,
            final(self).has_writer() == old(self).has_writer(),
            final(self).store_spec() == old(self).store_spec(),
    {
        self.applet_present = present;
    }

    /// `GetHistoryName`.
    pub fn get_history_name(&self) -> (r: String)
        ensures
            r@ == self.session.history@.name,
    {
        self.session.history.name().to_owned()
    }

    /// `ListHistories`: the one history there is.
    pub fn list_histories(&self) -> (r: Vec<String>)
        ensures
            r@.len() == 1,
            r@[0]@ == self.session.history@.name,
    {
        let mut v: Vec<String> = Vec::new();
        v.push(self.session.history.name().to_owned());
        v
    }

    /// `GetHistorySize`: the number of entries of the history `name`.
    pub fn get_history_size(&self, name: &str) -> (r: Result<u32, ServiceError>)
        ensures
            name@ == self.session.history@.name ==> r == Ok::<u32, ServiceError>(
                self.session.history@.items.len() as u32,
            ),
            name@ != self.session.history@.name ==> (r matches Err(e) && is_invalid(
                e,
                "unknown history: "@ + name@,
            )),
    {
        if !str_equals(self.session.history.name(), name) {
            return Err(ServiceError::InvalidArgs(concat_str("unknown history: ", name)));
        }
        Ok(self.session.history.len() as u32)
    }

    /// `EmptyHistory`: removes every entry of the history `name`. On success the state is
    /// saved (`PersistStep::EmptyHistory`).
    pub fn empty_history(&mut self, name: &str) -> (r: Result<Vec<BusSignal>, ServiceError>)
        requires
            old(self).session.history.wf(),
        ensures
            final(self).session.history.wf(),
            final(self).setup() == old(self).setup(),
            name@ != old(self).session.history@.name ==> final(self).session == old(self).session && (
            r matches Err(e) && is_invalid(e, "unknown history: "@ + name@)),
            name@ == old(self).session.history@.name ==> final(self).session.history@.items.len() == 0
                && final(self).session.history@.name == old(self).session.history@.name
                && final(self).session.history@.policies == old(self).session.history@.policies
                && final(self).session.active_index.active() == 0
                && final(self).session.active_index.wraps() == old(self).session.active_index.wraps()
                && (r matches Ok(s) && s@.len() == 2 && (s@[0] matches BusSignal::EmptyHistory {
                history,
            } && history@ == name@) && s@[1] == (BusSignal::ActiveIndexChanged { index: 0, count: 0 })),
    {
        if !str_equals(self.session.history.name(), name) {
            return Err(ServiceError::InvalidArgs(concat_str("unknown history: ", name)));
        }
        self.session.empty();
        let mut v: Vec<BusSignal> = Vec::new();
        v.push(BusSignal::EmptyHistory { history: self.session.history.name().to_owned() });
        v.push(BusSignal::ActiveIndexChanged { index: 0, count: 0 });
        Ok(v)
    }

    /// `Delete`: removes entry `uuid`. On success the state is saved (`PersistStep::Delete`).
    pub fn delete(&mut self, uuid: &str) -> (r: Result<Vec<BusSignal>, ServiceError>)
        requires
            old(self).session.history.wf(),
        ensures
            final(self).session.history.wf(),
            final(self).setup() == old(self).setup(),
            final(self).session.history@.name == old(self).session.history@.name,
            final(self).session.history@.policies == old(self).session.history@.policies,
            final(self).session.active_index.wraps() == old(self).session.active_index.wraps(),
            ({
                let items = old(self).session.history@.items;
                match lookup(items, uuid@) {
                    None => final(self).session.history@.items == items
                        && final(self).session.active_index.active() == old(self).session.active_index.active() && (
                    r matches Err(e) && lookup_error(uuid@, e)),
                    Some(i) => {
                        let active = after_delete(
                            old(self).session.active_index.active(),
                            i as usize,
                            (items.len() - 1) as usize,
                        );
                        &&& final(self).session.history@.items == items.remove(i)
                        &&& final(self).session.active_index.active() == active
                        &&& r matches Ok(s) && change_signals(
                            s@,
                            "remove"@,
                            uuid_text(items[i].uuid),
                            i as u32,
                            active as u32,
                            (items.len() - 1) as u32,
                        )
                    },
                }
            }),
    {
        let parsed = match parse_uuid(uuid) {
            Ok(u) => u,
            Err(e) => {
                return Err(e);
            },
        };
        proof {
            crate::history::lemma_first_with_uuid(self.session.history@.items, parsed);
        }
        let deleted_index = match self.session.history.find_index(parsed) {
            Some(i) => i,
            None => {
                return Err(map_error(Error::NotFound(parsed)));
            },
        };
        let item = match self.session.delete(parsed) {
            Ok(item) => item,
            Err(e) => {
                return Err(map_error(e));
            },
        };
        let count = self.session.history.len() as u32;
        let active = self.session.active_index.active_index() as u32;
        Ok(change_signals_of("remove", uuid_to_string(item.uuid), deleted_index as u32, active, count))
    }

    /// `GetElement`: the value of entry `uuid`.
    pub fn get_element(&self, uuid: &str) -> (r: Result<ElementValue, ServiceError>)
        ensures
            match lookup(self.session.history@.items, uuid@) {
                Some(i) => r matches Ok(v) && is_element_value(self.session.history@.items[i].kind, v),
                None => r matches Err(e) && lookup_error(uuid@, e),
            },
    {
        let parsed = match parse_uuid(uuid) {
            Ok(u) => u,
            Err(e) => {
                return Err(e);
            },
        };
        proof {
            crate::history::lemma_first_with_uuid(self.session.history@.items, parsed);
        }
        match self.session.history.find_index(parsed) {
            Some(i) => Ok(element_value(&self.session.history.items()[i])),
            None => Err(map_error(Error::NotFound(parsed))),
        }
    }

    /// `GetElementKind`: the kind name of entry `uuid`.
    pub fn get_element_kind(&self, uuid: &str) -> (r: Result<&'static str, ServiceError>)
        ensures
            match lookup(self.session.history@.items, uuid@) {
                Some(i) => r matches Ok(k) && k@ == kind_name(self.session.history@.items[i].kind),
                None => r matches Err(e) && lookup_error(uuid@, e),
            },
    {
        let parsed = match parse_uuid(uuid) {
            Ok(u) => u,
            Err(e) => {
                return Err(e);
            },
        };
        proof {
            crate::history::lemma_first_with_uuid(self.session.history@.items, parsed);
        }
        match self.session.history.find_index(parsed) {
            Some(i) => Ok(item_kind_name(&self.session.history.items()[i].kind)),
            None => Err(map_error(Error::NotFound(parsed))),
        }
    }

    /// `GetElementAtIndex`: the UUID text and value of entry `index`.
    pub fn get_element_at_index(&self, index: u32) -> (r: Result<(String, ElementValue), ServiceError>)
        ensures
            index < self.session.history@.items.len() ==> (r matches Ok(p) && p.0@ == uuid_text(
                self.session.history@.items[index as int].uuid,
            ) && is_element_value(self.session.history@.items[index as int].kind, p.1)),
            index >= self.session.history@.items.len() ==> (r matches Err(e) && is_invalid(
                e,
                "index "@ + crate::text::decimal_spec(index as nat) + " out of range"@,
            )),
    {
        match self.session.history.get(index as usize) {
            Some(item) => Ok((uuid_to_string(item.uuid), element_value(item))),
            None => {
                let mut out: Vec<char> = Vec::new();
                crate::text::push_str(&mut out, "index ");
                crate::text::push_decimal(&mut out, index as u64);
                crate::text::push_str(&mut out, " out of range");
                Err(ServiceError::InvalidArgs(crate::text::chars_to_string(out.as_slice())))
            },
        }
    }

    /// `GetElements`: the values of several entries, in order; the first UUID that names
    /// no entry decides the error.
    pub fn get_elements(&self, uuids: &Vec<String>) -> (r: Result<Vec<(String, ElementValue)>, ServiceError>)
        ensures
            ({
                let items = self.session.history@.items;
                &&& (forall|k: int| 0 <= k < uuids@.len() ==> lookup(items, #[trigger] uuids@[k]@) is Some)
                    ==> (r matches Ok(v) && v@.len() == uuids@.len() && forall|k: int|
                    0 <= k < uuids@.len() ==> (#[trigger] v@[k]).0 == uuids@[k] && is_element_value(
                        items[lookup(items, uuids@[k]@)->0].kind,
                        v@[k].1,
                    ))
                &&& r is Err ==> exists|k: int|
                    0 <= k < uuids@.len() && lookup(items, #[trigger] uuids@[k]@) is None && (forall|j: int|
                        0 <= j < k ==> lookup(items, #[trigger] uuids@[j]@) is Some) && (r matches Err(e)
                        && lookup_error(uuids@[k]@, e))
                &&& (exists|k: int| 0 <= k < uuids@.len() && lookup(items, #[trigger] uuids@[k]@) is None)
                    ==> r is Err
            }),
    {
        let ghost items = self.session.history@.items;
        let mut out: Vec<(String, ElementValue)> = Vec::new();
        let mut i: usize = 0;
        while i < uuids.len()
            invariant
                items == self.session.history@.items,
                i <= uuids@.len(),
                out@.len() == i,
                forall|j: int| 0 <= j < i ==> lookup(items, #[trigger] uuids@[j]@) is Some,
                forall|j: int|
                    0 <= j < i ==> (#[trigger] out@[j]).0 == uuids@[j] && is_element_value(
                        items[lookup(items, uuids@[j]@)->0].kind,
                        out@[j].1,
                    ),
            decreases uuids.len() - i,
        {
            let value = match self.get_element(uuids[i].as_str()) {
                Ok(v) => v,
                Err(e) => {
                    assert(lookup(items, uuids@[i as int]@) is None);
                    return Err(e);
                },
            };
            out.push((uuids[i].clone(), value));
            i = i + 1;
        }
        Ok(out)
    }

    /// `ShowHistory`: asks the panel applet to open its popup.
    pub fn show_history(&self) -> (r: Result<Vec<BusSignal>, ServiceError>)
        ensures
            self.applet_present ==> (r matches Ok(s) && s@ == seq![BusSignal::ShowHistory]),
            !self.applet_present ==> (r matches Err(e) && is_failed(
                e,
                "applet not in panel \u{2014} add COSMIC Paste to the panel, or use `cosmic-paste history`"@,
            )),
    {
        if !self.applet_present {
            return Err(
                ServiceError::Failed(
                    "applet not in panel \u{2014} add COSMIC Paste to the panel, or use `cosmic-paste history`".to_owned(),
                ),
            );
        }
        let mut v: Vec<BusSignal> = Vec::new();
        v.push(BusSignal::ShowHistory);
        Ok(v)
    }
}

} // verus!

verus! {

/// What `Add` reports can be read back: after a successful `Add` the history is not empty,
/// its `Update` signal names entry 0, and entry 0 holds the added text (trimmed when the
/// policy asks for it) — or, when an entry with the same fingerprint was moved to the front
/// instead, a text with that fingerprint.
pub proof fn lemma_add_reads_back(
    h: crate::history::HistoryView,
    text: Seq<char>,
    now: u64,
    new_uuid: u128,
    outcome: IngestOutcome,
    items: Seq<HistoryItem>,
    r: Result<Vec<BusSignal>, ServiceError>,
)
    requires
        ingest_result(h, text, None, now, new_uuid, outcome, items),
        add_reply(outcome, items, r),
        r is Ok,
    ensures
        items.len() > 0,
        r->Ok_0@[0] matches BusSignal::Update { target, .. } && target@ == uuid_text(items[0].uuid),
        outcome is MovedExisting ==> crate::history::has_fingerprint(
            items[0],
            crate::item::text_fingerprint(crate::history::prepare_spec(h.policies, text)),
        ),
        !(outcome is MovedExisting) ==> crate::dbus::element_value_spec(items[0].kind) == Some(
            crate::history::prepare_spec(h.policies, text),
        ),
{
    let prepared = crate::history::prepare_spec(h.policies, text);
    match outcome {
        IngestOutcome::Added => {
            crate::history::lemma_added_entry_is_newest(h, text, None, now, new_uuid, items);
        },
        IngestOutcome::MovedExisting { uuid } => {
            let digest = crate::item::text_fingerprint(prepared);
            crate::history::lemma_first_with_fingerprint(h.items, digest);
            let i = crate::history::first_with_fingerprint(h.items, digest)->0;
            assert(items[0] == h.items[i]);
        },
        _ => {},
    }
}

/// A selection whose clipboard write failed and was rolled back leaves the session
/// holding what it held before the call.
pub proof fn lemma_rollback_restores(before: HistorySession, sel: Selection, after: HistorySession)
    requires
        same_session(sel.snapshot, before),
        after == sel.snapshot,
    ensures
        same_session(after, before),
{
}

} // verus!
