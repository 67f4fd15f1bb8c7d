//! Clipboard-monitor types, MIME selection, the monitor's self-copy guard, and the
//! decision the ingest loop takes for each clipboard event.

use std::sync::{Arc, Mutex};
use std::time::Instant;

use vstd::prelude::*;

use crate::dbus::{elapsed_nanos, instant_now, is_within_window, within_window, uuid_text, uuid_to_string, SelfCopyGuard};
use crate::history::{ingest_result, lemma_plain_ingest_fits, IngestOutcome};
use crate::item::{text_checksum, text_fingerprint};
use crate::session::HistorySession;
use crate::text::{chars_start_with, str_chars, str_equals, utf8_decode};

verus! {

#[verifier::external_type_specification]
#[verifier::external_body]
#[verifier::reject_recursive_types(T)]
pub struct ExMutex<T: ?Sized>(Mutex<T>);

/// A mutex holding `value` (`Mutex::new`); its content is not modelled.
#[verifier::external_body]
fn new_mutex<T>(value: T) -> Mutex<T> {
    Mutex::new(value)
}

/// Another handle to the same shared value (`Arc::clone`).
///
/// Claims: the new handle points to the same value.
#[verifier::external_body]
fn share<T>(a: &Arc<T>) -> (r: Arc<T>)
    ensures
        r == *a,
{
    Arc::clone(a)
}

/// Default debounce between a selection change and reading it.
pub const DEFAULT_DEBOUNCE_MS: u64 = 75;

/// How long the monitor's guard ignores its own write.
pub const MONITOR_GUARD_WINDOW_MS: u64 = 500;

/// Which Wayland selection produced the payload.
#[derive(Clone, Copy, Debug, PartialEq, Eq, Structural)]
pub enum SelectionSource {
    Clipboard,
    Primary,
}

/// Normalized clipboard change delivered to the ingest loop.
#[derive(Clone, Debug)]
pub struct ClipboardEvent {
    pub source: SelectionSource,
    pub mime_type: String,
    pub payload: Vec<u8>,
    pub observed_at: u64,
}

/// Monitor settings: debounce in milliseconds and whether the primary selection is watched.
#[derive(Clone, Copy, Debug, PartialEq, Eq, Structural)]
pub struct MonitorConfig {
    pub debounce_ms: u64,
    pub watch_primary: bool,
}

impl Default for MonitorConfig {
    fn default() -> (c: Self)
        ensures
            c.debounce_ms == DEFAULT_DEBOUNCE_MS,
            !c.watch_primary,
    {
        Self { debounce_ms: DEFAULT_DEBOUNCE_MS, watch_primary: false }
    }
}

/// The monitor configuration after the settings keys in `changed` were reloaded: the
/// primary selection is watched as `primary_to_history` says when that key changed.
pub fn reload_monitor_config(config: MonitorConfig, changed: &Vec<String>, primary_to_history: bool) -> (r:
    MonitorConfig)
    ensures
        r.debounce_ms == config.debounce_ms,
        r.watch_primary == if exists|i: int|
            0 <= i < changed@.len() && (#[trigger] changed@[i])@ == "primary_to_history"@ {
            primary_to_history
        } else {
            config.watch_primary
        },
{
    if contains_str(changed.as_slice(), "primary_to_history") {
        MonitorConfig { watch_primary: primary_to_history, ..config }
    } else {
        config
    }
}

/// Shared handle to the monitor's configuration.
pub type SharedMonitorConfig = Arc<Mutex<MonitorConfig>>;

/// Shared handle to the bus side's self-copy guard.
pub type SharedSelfCopyGuard = Arc<Mutex<SelfCopyGuard>>;

/// Handle to the background monitor: the guard it consults and its configuration.
pub struct ClipboardMonitor {
    guard: SharedSelfCopyGuard,
    config: SharedMonitorConfig,
}

impl ClipboardMonitor {
    pub closed spec fn config_handle(&self) -> SharedMonitorConfig {
        self.config
    }

    pub closed spec fn guard_handle(&self) -> SharedSelfCopyGuard {
        self.guard
    }

    pub fn new(config: MonitorConfig, guard: SharedSelfCopyGuard) -> (m: Self)
        ensures
            m.guard_handle() == guard,
    {
        Self { guard, config: Arc::new(new_mutex(config)) }
    }

    pub fn shared_config(&self) -> (r: SharedMonitorConfig)
        ensures
            r == self.config_handle(),
    {
        share(&self.config)
    }

    /// The guard and configuration handles, for the thread that runs the monitor.
    pub fn into_parts(self) -> (r: (SharedSelfCopyGuard, SharedMonitorConfig))
        ensures
            r.0 == self.guard_handle(),
            r.1 == self.config_handle(),
    {
        (self.guard, self.config)
    }
}

/// MIME types under which text is offered to other clients, in order.
pub open spec fn write_mimes() -> Seq<Seq<char>> {
    seq!["text/plain;charset=utf-8"@, "text/plain"@, "UTF8_STRING"@, "STRING"@, "TEXT"@]
}

/// MIME types accepted for reading text, in order of preference.
pub open spec fn read_mime_candidates() -> Seq<Seq<char>> {
    seq!["text/plain;charset=utf-8"@, "text/plain"@, "TEXT"@, "STRING"@, "UTF8_STRING"@]
}

/// Whether a transfer of `mime` carries text the monitor can write.
pub open spec fn text_transfer_mime(mime: Seq<char>) -> bool {
    ||| "text/plain"@.is_prefix_of(mime)
    ||| mime == "UTF8_STRING"@
    ||| mime == "STRING"@
    ||| mime == "TEXT"@
}

fn has_prefix(s: &str, prefix: &str) -> (r: bool)
    ensures
        r == prefix@.is_prefix_of(s@),
{
    let sc = str_chars(s);
    let pc = str_chars(prefix);
    chars_start_with(sc.as_slice(), pc.as_slice())
}

pub fn is_text_transfer_mime(mime_type: &str) -> (r: bool)
    ensures
        r == text_transfer_mime(mime_type@),
{
    proof {
        reveal_strlit("text/plain");
    }
    str_equals(mime_type, "text/plain") || has_prefix(mime_type, "text/plain") || str_equals(
        mime_type,
        "UTF8_STRING",
    ) || str_equals(mime_type, "STRING") || str_equals(mime_type, "TEXT")
}

pub(crate) fn contains_str(types: &[String], candidate: &str) -> (r: bool)
    ensures
        r == exists|i: int| 0 <= i < types@.len() && (#[trigger] types@[i])@ == candidate@,
{
    let mut i: usize = 0;
    while i < types.len()
        invariant
            i <= types@.len(),
            forall|j: int| 0 <= j < i ==> (#[trigger] types@[j])@ != candidate@,
        decreases types.len() - i,
    {
        if str_equals(types[i].as_str(), candidate) {
            return true;
        }
        i = i + 1;
    }
    false
}

/// Whether the offered MIME types include `m`.
pub open spec fn offers(types: Seq<String>, m: Seq<char>) -> bool {
    exists|i: int| 0 <= i < types.len() && (#[trigger] types[i])@ == m
}

/// Whether the offered MIME types include one the monitor reads text from.
pub open spec fn offers_text(types: Seq<String>) -> bool {
    ||| exists|k: int| 0 <= k < 5 && offers(types, #[trigger] read_mime_candidates()[k])
    ||| exists|i: int| 0 <= i < types.len() && "text/plain"@.is_prefix_of((#[trigger] types[i])@)
}

/// Whether `r` is the text MIME type to read from an offer of `types`: the first
/// preferred candidate the offer lists, else an offered type starting with `text/plain`,
/// else none.
pub open spec fn text_mime_choice(types: Seq<String>, r: Option<String>) -> bool {
    &&& forall|k: int|
        #![trigger offers(types, read_mime_candidates()[k])]
        0 <= k < 5 && offers(types, read_mime_candidates()[k]) && (forall|j: int|
            0 <= j < k ==> !offers(types, #[trigger] read_mime_candidates()[j])) ==> (r matches Some(m)
            && m@ == read_mime_candidates()[k])
    &&& (forall|k: int| 0 <= k < 5 ==> !offers(types, #[trigger] read_mime_candidates()[k])) ==> (
    r matches Some(m) ==> offers(types, m@) && "text/plain"@.is_prefix_of(m@))
    &&& r is Some == offers_text(types)
}

/// The text MIME type to read from an offer: the first preferred candidate the offer
/// lists, else some offered type starting with `text/plain`, else none.
pub fn text_plain_mime(types: &[String]) -> (r: Option<String>)
    ensures
        text_mime_choice(types@, r),
        forall|k: int|
            #![trigger offers(types@, read_mime_candidates()[k])]
            0 <= k < 5 && offers(types@, read_mime_candidates()[k]) && (forall|j: int|
                0 <= j < k ==> !offers(types@, #[trigger] read_mime_candidates()[j])) ==> (r matches Some(
                m,
            ) && m@ == read_mime_candidates()[k]),
        (forall|k: int| 0 <= k < 5 ==> !offers(types@, #[trigger] read_mime_candidates()[k])) ==> (
        r matches Some(m) ==> offers(types@, m@) && "text/plain"@.is_prefix_of(m@)),
        (forall|k: int| 0 <= k < 5 ==> !offers(types@, #[trigger] read_mime_candidates()[k])) && (
        forall|i: int| 0 <= i < types@.len() ==> !"text/plain"@.is_prefix_of((#[trigger] types@[i])@))
            ==> r is None,
        r is Some == offers_text(types@),
{
    let candidates: [&str; 5] = ["text/plain;charset=utf-8", "text/plain", "TEXT", "STRING", "UTF8_STRING"];
    let ghost cands = read_mime_candidates();
    assert(candidates@.len() == 5);
    assert(forall|k: int| 0 <= k < 5 ==> (#[trigger] candidates@[k])@ == cands[k]);
    let mut k: usize = 0;
    while k < 5
        invariant
            k <= 5,
            cands == read_mime_candidates(),
            forall|kk: int| 0 <= kk < 5 ==> (#[trigger] candidates@[kk])@ == cands[kk],
            forall|j: int| 0 <= j < k ==> !offers(types@, #[trigger] cands[j]),
        decreases 5 - k,
    {
        if contains_str(types, candidates[k]) {
            return Some(candidates[k].to_owned());
        }
        k = k + 1;
    }
    let mut i: usize = 0;
    while i < types.len()
        invariant
            i <= types@.len(),
            cands == read_mime_candidates(),
            forall|j: int| 0 <= j < 5 ==> !offers(types@, #[trigger] cands[j]),
            forall|j: int| 0 <= j < i ==> !"text/plain"@.is_prefix_of((#[trigger] types@[j])@),
        decreases types.len() - i,
    {
        if has_prefix(types[i].as_str(), "text/plain") {
            return Some(types[i].clone());
        }
        i = i + 1;
    }
    None
}

/// Ignores monitor notifications matching a recent daemon-initiated copy.
pub struct MonitorGuard {
    window_ms: u64,
    last_fingerprint: Option<[u8; 32]>,
    last_set: Option<Instant>,
}

impl Default for MonitorGuard {
    fn default() -> (g: Self)
        ensures
            g.armed_with() is None,
            g.window() == MONITOR_GUARD_WINDOW_MS,
    {
        Self::new()
    }
}

impl MonitorGuard {
    /// Every guard keeps the window it was made with.
    #[verifier::type_invariant]
    spec fn window_fixed(&self) -> bool {
        self.window_ms == MONITOR_GUARD_WINDOW_MS
    }

    pub closed spec fn armed_with(&self) -> Option<Seq<u8>> {
        match self.last_fingerprint {
            Some(f) => if self.last_set is Some {
                Some(f@)
            } else {
                None
            },
            None => None,
        }
    }

    /// How long after arming a copy is recognised, in milliseconds.
    pub closed spec fn window(&self) -> u64 {
        self.window_ms
    }

    pub fn new() -> (g: Self)
        ensures
            g.armed_with() is None,
            g.window() == MONITOR_GUARD_WINDOW_MS,
    {
        Self { window_ms: MONITOR_GUARD_WINDOW_MS, last_fingerprint: None, last_set: None }
    }

    pub fn arm(&mut self, fingerprint: [u8; 32])
        ensures
            final(self).armed_with() == Some(fingerprint@),
            final(self).window() == old(self).window(),
    {
        proof {
            use_type_invariant(&*self);
        }
        self.last_fingerprint = Some(fingerprint);
        self.last_set = Some(instant_now());
    }

    /// The rule for a clock reading `elapsed_ns` nanoseconds after arming: ignore exactly
    /// the armed fingerprint while its window has not run out.
    pub fn ignores(&self, fingerprint: [u8; 32], elapsed_ns: u128) -> (r: bool)
        ensures
            r == (self.armed_with() == Some(fingerprint@) && within_window(elapsed_ns, self.window())),
            self.window() == MONITOR_GUARD_WINDOW_MS,
            r == (self.armed_with() == Some(fingerprint@) && within_window(
                elapsed_ns,
                MONITOR_GUARD_WINDOW_MS,
            )),
    {
        proof {
            use_type_invariant(self);
        }
        match (&self.last_fingerprint, &self.last_set) {
            (Some(armed), Some(_)) => crate::item::same_digest(armed, &fingerprint) && is_within_window(
                elapsed_ns,
                self.window_ms,
            ),
            _ => false,
        }
    }

    /// Whether the notification with this fingerprint is our own recent copy.
    pub fn should_ignore(&self, fingerprint: [u8; 32]) -> (r: bool)
        ensures
            r ==> self.armed_with() == Some(fingerprint@),
    {
        let elapsed_ns: u128 = match &self.last_set {
            Some(set_at) => elapsed_nanos(set_at),
            None => 0,
        };
        self.ignores(fingerprint, elapsed_ns)
    }
}

/// Bus signals queued by the daemon's loops.
#[derive(Clone, Debug, PartialEq, Eq)]
pub enum DaemonSignal {
    Update { action: &'static str, target: String, index: u32 },
    ActiveIndexChanged { index: u32, count: u32 },
    ShowHistory,
}

} // verus!

verus! {

/// What the ingest loop does with one clipboard event.
#[derive(Clone, Debug, PartialEq, Eq)]
pub enum IngestDecision {
    /// The event is ignored; nothing changed.
    Skip,
    /// The text entered the history; these are the `Update` action, its target entry and
    /// the new history length to signal.
    Ingested { action: &'static str, target: String, count: u32 },
}

/// The signal data for an accepted ingest, given the outcome and the entries after it.
pub open spec fn ingest_signal(outcome: IngestOutcome, items: Seq<crate::item::HistoryItem>, r: IngestDecision) -> bool {
    match r {
        IngestDecision::Skip => false,
        IngestDecision::Ingested { action, target, count } => {
            &&& count == items.len() as u32
            &&& match outcome {
                IngestOutcome::Added => action@ == "add"@ && if items.len() > 0 {
                    target@ == uuid_text(items[0].uuid)
                } else {
                    target@.len() == 0
                },
                IngestOutcome::MovedExisting { uuid } => action@ == "add"@ && target@ == uuid_text(uuid),
                IngestOutcome::ReplacedGrowingLine { uuid } => action@ == "replace"@ && target@ == uuid_text(
                    uuid,
                ),
                IngestOutcome::RejectedTextSize => false,
            }
        },
    }
}

/// Ingests clipboard text captured at `now` (Unix seconds) into the session and says
/// what to signal: nothing when the size rules reject it.
pub fn ingest_clipboard_text(session: &mut HistorySession, text: &str, now: u64) -> (r: IngestDecision)
    requires
        old(session).history.wf(),
    ensures
        final(session).history.wf(),
        final(session).history@.name == old(session).history@.name,
        final(session).history@.policies == old(session).history@.policies,
        exists|outcome: IngestOutcome, new_uuid: u128|
            ingest_result(
                old(session).history@,
                text@,
                None,
                now,
                new_uuid,
                outcome,
                final(session).history@.items,
            ) && if outcome is RejectedTextSize {
                r is Skip
            } else {
                ingest_signal(outcome, final(session).history@.items, r)
            },
        r is Skip ==> final(session).active_index.active() == old(session).active_index.active(),
        r is Ingested ==> final(session).active_index.active() == 0,
{
    proof {
        lemma_plain_ingest_fits(session.history@, text@);
    }
    let outcome = session.ingest_text(text, None, now);
    let count = session.history.len() as u32;
    match outcome {
        IngestOutcome::RejectedTextSize => IngestDecision::Skip,
        IngestOutcome::Added => {
            let target = match session.history.get(0) {
                Some(item) => uuid_to_string(item.uuid),
                None => String::new(),
            };
            IngestDecision::Ingested { action: "add", target, count }
        },
        IngestOutcome::MovedExisting { uuid } => {
            IngestDecision::Ingested { action: "add", target: uuid_to_string(uuid), count }
        },
        IngestOutcome::ReplacedGrowingLine { uuid } => {
            IngestDecision::Ingested { action: "replace", target: uuid_to_string(uuid), count }
        },
    }
}

/// The decision for one clipboard event: only `text/plain` payloads that are valid UTF-8
/// are considered, only while tracking, and not while the self-copy guard suppresses
/// events (a suppressed event clears the guard when it is the awaited copy).
pub fn ingest_clipboard_event(
    session: &mut HistorySession,
    tracking: bool,
    guard: &mut SelfCopyGuard,
    mime_type: &str,
    payload: &[u8],
    now: u64,
) -> (r: IngestDecision)
    requires
        old(session).history.wf(),
    ensures
        r is Ingested ==> *final(guard) == *old(guard),
        *final(guard) == *old(guard) || (r is Skip && mime_type@ == "text/plain"@ && vstd::utf8::valid_utf8(
            payload@,
        ) && tracking && old(guard).armed() && old(guard).armed_fingerprint() == crate::item::text_fingerprint(
            vstd::utf8::decode_utf8(payload@),
        ) && *final(guard) == old(guard).cleared()),
        final(session).history.wf(),
        final(session).history@.name == old(session).history@.name,
        final(session).history@.policies == old(session).history@.policies,
        mime_type@ != "text/plain"@ || !vstd::utf8::valid_utf8(payload@) || !tracking ==> r is Skip
            && *final(session) == *old(session) && *final(guard) == *old(guard),
        r is Skip ==> final(session).history@.items == old(session).history@.items
            && final(session).active_index.active() == old(session).active_index.active(),
        r is Ingested ==> mime_type@ == "text/plain"@ && vstd::utf8::valid_utf8(payload@) && tracking
            && exists|outcome: IngestOutcome, new_uuid: u128|
            ingest_result(
                old(session).history@,
                vstd::utf8::decode_utf8(payload@),
                None,
                now,
                new_uuid,
                outcome,
                final(session).history@.items,
            ) && ingest_signal(outcome, final(session).history@.items, r),
        mime_type@ == "text/plain"@ && vstd::utf8::valid_utf8(payload@) && tracking && !old(
            guard,
        ).armed() ==> exists|outcome: IngestOutcome, new_uuid: u128|
            ingest_result(
                old(session).history@,
                vstd::utf8::decode_utf8(payload@),
                None,
                now,
                new_uuid,
                outcome,
                final(session).history@.items,
            ) && if outcome is RejectedTextSize {
                r is Skip
            } else {
                ingest_signal(outcome, final(session).history@.items, r)
            },
{
    if !str_equals(mime_type, "text/plain") {
        return IngestDecision::Skip;
    }
    let text = match utf8_decode(payload) {
        Ok(t) => t,
        Err(_) => {
            return IngestDecision::Skip;
        },
    };
    if !tracking {
        return IngestDecision::Skip;
    }
    let fingerprint = text_checksum(text.as_str());
    if guard.should_suppress_ingest(fingerprint) {
        guard.clear_if_matched(fingerprint);
        return IngestDecision::Skip;
    }
    ingest_clipboard_text(session, text.as_str(), now)
}

} // verus!
