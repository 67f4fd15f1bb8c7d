//! Bus names, the values the service reports for history entries, error mapping,
//! the self-copy guard and clipboard write requests.

use std::sync::mpsc::{Receiver, SyncSender};
use std::time::Instant;

use vstd::prelude::*;

use crate::error::Error;
use crate::history::History;
use crate::item::{text_checksum, text_fingerprint, HistoryItem, ItemKind};
use crate::persistence::checksum_hex;
use crate::text::{chars_to_string, concat_str, decimal_spec, hex_digit_char, hex_spec, push_decimal, push_str};

verus! {

pub const BUS_NAME: &'static str = "org.system76.CosmicPaste";

pub const OBJECT_PATH: &'static str = "/org/system76/CosmicPaste";

pub const INTERFACE_NAME: &'static str = "org.system76.CosmicPaste2";

pub const APPLET_BUS_NAME: &'static str = "com.system76.CosmicPaste.Applet";

pub const APPLET_OBJECT_PATH: &'static str = "/com/system76/CosmicPaste/Applet";

/// How long a clipboard write may take before it is given up.
pub const WRITE_TIMEOUT_MS: u64 = 5000;

/// Depth of the clipboard write queue.
pub const WRITE_QUEUE_DEPTH: usize = 8;

/// How long the self-copy guard stays armed: the write timeout plus 250 ms.
pub const GUARD_WINDOW_MS: u64 = 5250;

#[verifier::external_type_specification]
#[verifier::external_body]
pub struct ExInstant(Instant);

#[verifier::external_type_specification]
#[verifier::external_body]
#[verifier::reject_recursive_types(T)]
pub struct ExSyncSender<T>(SyncSender<T>);

#[verifier::external_type_specification]
#[verifier::external_body]
#[verifier::reject_recursive_types(T)]
pub struct ExReceiver<T>(Receiver<T>);

/// The current instant (`Instant::now`); nothing is claimed of it.
#[verifier::external_body]
pub(crate) fn instant_now() -> Instant {
    Instant::now()
}

/// Nanoseconds passed since `at` (`Instant::elapsed`, read as whole nanoseconds).
/// It depends on the clock, so nothing is claimed of the result.
#[verifier::external_body]
pub(crate) fn elapsed_nanos(at: &Instant) -> u128 {
    at.elapsed().as_nanos()
}

/// Whether a time of `elapsed_ns` nanoseconds is still inside a window of `window_ms`
/// milliseconds (a window runs out once strictly more time has passed).
pub open spec fn within_window(elapsed_ns: u128, window_ms: u64) -> bool {
    elapsed_ns <= window_ms as nat * 1_000_000
}

/// `within_window`, computed.
pub fn is_within_window(elapsed_ns: u128, window_ms: u64) -> (r: bool)
    ensures
        r == within_window(elapsed_ns, window_ms),
{
    let limit: u128 = (window_ms as u128) * 1_000_000;
    elapsed_ns <= limit
}

/// A bounded channel of capacity one for a write's reply (`std::sync::mpsc::sync_channel`).
#[verifier::external_body]
fn reply_channel() -> (SyncSender<Result<(), String>>, Receiver<Result<(), String>>) {
    std::sync::mpsc::sync_channel(1)
}

/// The error kinds the bus service answers with.
#[derive(Clone, Debug, PartialEq, Eq)]
pub enum ServiceError {
    Failed(String),
    InvalidArgs(String),
    NotSupported(String),
}

/// Name of an item's kind as the bus reports it.
pub open spec fn kind_name(kind: ItemKind) -> Seq<char> {
    match kind {
        ItemKind::Text { .. } => "text"@,
        ItemKind::UriList(_) => "uri"@,
        ItemKind::Image { .. } => "image"@,
        ItemKind::Color { .. } => "color"@,
        ItemKind::Password { .. } => "password"@,
    }
}

pub fn item_kind_name(kind: &ItemKind) -> (r: &'static str)
    ensures
        r@ == kind_name(*kind),
{
    match kind {
        ItemKind::Text { .. } => "text",
        ItemKind::UriList(_) => "uri",
        ItemKind::Image { .. } => "image",
        ItemKind::Color { .. } => "color",
        ItemKind::Password { .. } => "password",
    }
}

/// `parts` joined with newlines.
pub open spec fn join_lines(parts: Seq<Seq<char>>) -> Seq<char>
    decreases parts.len(),
{
    if parts.len() == 0 {
        seq![]
    } else if parts.len() == 1 {
        parts[0]
    } else {
        join_lines(parts.drop_last()) + seq!['\n'] + parts.last()
    }
}

/// The value the bus reports for an entry; colours have none here (their `#rrggbbaa`
/// text is computed from floating-point channels by the caller).
pub open spec fn element_value_spec(kind: ItemKind) -> Option<Seq<char>> {
    match kind {
        ItemKind::Text { plain, .. } => Some(plain@),
        ItemKind::UriList(uris) => Some(join_lines(uris@.map_values(|u: String| u@))),
        ItemKind::Image { checksum, .. } => Some(hex_spec(checksum@)),
        ItemKind::Color { .. } => None,
        ItemKind::Password { name } => Some(name@),
    }
}

fn join_with_newlines(parts: &Vec<String>) -> (r: String)
    ensures
        r@ == join_lines(parts@.map_values(|u: String| u@)),
{
    let ghost views = parts@.map_values(|u: String| u@);
    let mut out: Vec<char> = Vec::new();
    let mut i: usize = 0;
    while i < parts.len()
        invariant
            i <= parts.len(),
            views == parts@.map_values(|u: String| u@),
            out@ == join_lines(views.take(i as int)),
        decreases parts.len() - i,
    {
        if i > 0 {
            out.push('\n');
        }
        push_str(&mut out, parts[i].as_str());
        assert(views.take(i + 1).drop_last() =~= views.take(i as int));
        assert(out@ =~= join_lines(views.take(i + 1)));
        i = i + 1;
    }
    assert(views.take(parts.len() as int) =~= views);
    chars_to_string(out.as_slice())
}

/// What the bus reports as an entry's value: its text, or the channels of a colour
/// (IEEE-754 `f32` bit patterns), whose `#rrggbbaa` text is computed from floating-point
/// values outside this library.
#[derive(Clone, Debug, PartialEq, Eq)]
pub enum ElementValue {
    Text(String),
    Color { rgba: [u32; 4] },
}

/// Whether `v` is the value reported for an entry of kind `kind`.
pub open spec fn is_element_value(kind: ItemKind, v: ElementValue) -> bool {
    match element_value_spec(kind) {
        Some(t) => v matches ElementValue::Text(s) && s@ == t,
        None => kind matches ItemKind::Color { rgba } && v == (ElementValue::Color { rgba }),
    }
}

pub fn element_value(item: &HistoryItem) -> (r: ElementValue)
    ensures
        is_element_value(item.kind, r),
{
    match &item.kind {
        ItemKind::Text { plain, .. } => ElementValue::Text(plain.clone()),
        ItemKind::UriList(uris) => ElementValue::Text(join_with_newlines(uris)),
        ItemKind::Image { checksum, .. } => ElementValue::Text(checksum_hex(checksum)),
        ItemKind::Color { rgba } => ElementValue::Color { rgba: *rgba },
        ItemKind::Password { name } => ElementValue::Text(name.clone()),
    }
}

/// Lower-case hex digit `i` (0 = most significant) of a 128-bit value.
pub open spec fn u128_hex_digit(u: u128, i: int) -> char {
    hex_digit_char(((u as int / vstd::arithmetic::power::pow(16, (31 - i) as nat)) % 16) as nat)
}

/// The 32 lower-case hex digits of a 128-bit value.
pub open spec fn u128_hex(u: u128) -> Seq<char> {
    Seq::new(32, |i: int| u128_hex_digit(u, i))
}

/// The hyphenated lower-case text of a UUID (`8-4-4-4-12` hex digits).
pub open spec fn uuid_text(u: u128) -> Seq<char> {
    let h = u128_hex(u);
    h.subrange(0, 8) + seq!['-'] + h.subrange(8, 12) + seq!['-'] + h.subrange(12, 16) + seq!['-']
        + h.subrange(16, 20) + seq!['-'] + h.subrange(20, 32)
}

/// Text of a UUID (`uuid::Uuid::from_u128` then its `Display`).
///
/// Claims the hyphenated lower-case form: the big-endian bytes in hex with hyphens after
/// the 8th, 12th, 16th and 20th digit.
#[verifier::external_body]
pub(crate) fn uuid_to_string(u: u128) -> (r: String)
    ensures
        r@ == uuid_text(u),
{
    uuid::Uuid::from_u128(u).to_string()
}

/// The UUID that `uuid::Uuid`'s `FromStr` parses from a text, if any.
pub uninterp spec fn uuid_parse(text: Seq<char>) -> Option<u128>;

/// Parses a UUID (`str::parse::<uuid::Uuid>`), giving its 128-bit value.
///
/// Claims: the result is `uuid_parse` of the text; which texts parse is left to the
/// `uuid` crate.
#[verifier::external_body]
fn parse_uuid_value(text: &str) -> (r: Option<u128>)
    ensures
        r == uuid_parse(text@),
{
    match text.parse::<uuid::Uuid>() {
        Ok(u) => Some(u.as_u128()),
        Err(_) => None,
    }
}

pub fn parse_uuid(uuid: &str) -> (r: Result<u128, ServiceError>)
    ensures
        match uuid_parse(uuid@) {
            Some(v) => r == Ok::<u128, ServiceError>(v),
            None => r matches Err(ServiceError::InvalidArgs(m)) && m@ == "invalid uuid: "@ + uuid@,
        },
{
    match parse_uuid_value(uuid) {
        Some(v) => Ok(v),
        None => Err(ServiceError::InvalidArgs(concat_str("invalid uuid: ", uuid))),
    }
}

/// The `NotSupported` answer for a method that is not implemented.
pub fn not_supported(method: &str) -> (r: ServiceError)
    ensures
        r matches ServiceError::NotSupported(m) && m@ == method@ + " is not implemented yet"@,
{
    ServiceError::NotSupported(concat_str(method, " is not implemented yet"))
}

/// The message texts of history errors as the bus reports them.
pub open spec fn error_message(err: Error) -> Seq<char> {
    match err {
        Error::NotFound(uuid) => "not found: "@ + uuid_text(uuid),
        Error::EmptyHistory => "history is empty"@,
        Error::NavigationBoundary { index, len } => "navigation boundary (index "@ + decimal_spec(
            index as nat,
        ) + ", len "@ + decimal_spec(len as nat) + ")"@,
        Error::ActiveIndexOutOfRange { index, len } => "index "@ + decimal_spec(index as nat)
            + " out of range for len "@ + decimal_spec(len as nat),
        Error::TextSizeOutOfBounds { len, min, max } => "text length "@ + decimal_spec(len as nat)
            + " is outside allowed bounds ("@ + decimal_spec(min as nat) + "..="@ + decimal_spec(
            max as nat,
        ) + ")"@,
    }
}

/// Whether the error is answered as `InvalidArgs` (otherwise `Failed`).
pub open spec fn is_invalid_args(err: Error) -> bool {
    err is NotFound || err is ActiveIndexOutOfRange || err is TextSizeOutOfBounds
}

/// Whether `e` is the bus answer for the history error `err`: `InvalidArgs` for unknown
/// entries, bad indices and refused sizes, `Failed` otherwise, with `error_message(err)`.
pub open spec fn maps_error(err: Error, e: ServiceError) -> bool {
    if is_invalid_args(err) {
        e matches ServiceError::InvalidArgs(m) && m@ == error_message(err)
    } else {
        e matches ServiceError::Failed(m) && m@ == error_message(err)
    }
}

pub fn map_error(err: Error) -> (r: ServiceError)
    ensures
        maps_error(err, r),
{
    let mut out: Vec<char> = Vec::new();
    match err {
        Error::NotFound(uuid) => {
            push_str(&mut out, "not found: ");
            let text = uuid_to_string(uuid);
            push_str(&mut out, text.as_str());
            ServiceError::InvalidArgs(chars_to_string(out.as_slice()))
        },
        Error::EmptyHistory => ServiceError::Failed("history is empty".to_owned()),
        Error::NavigationBoundary { index, len } => {
            push_str(&mut out, "navigation boundary (index ");
            push_decimal(&mut out, index as u64);
            push_str(&mut out, ", len ");
            push_decimal(&mut out, len as u64);
            push_str(&mut out, ")");
            ServiceError::Failed(chars_to_string(out.as_slice()))
        },
        Error::ActiveIndexOutOfRange { index, len } => {
            push_str(&mut out, "index ");
            push_decimal(&mut out, index as u64);
            push_str(&mut out, " out of range for len ");
            push_decimal(&mut out, len as u64);
            ServiceError::InvalidArgs(chars_to_string(out.as_slice()))
        },
        Error::TextSizeOutOfBounds { len, min, max } => {
            push_str(&mut out, "text length ");
            push_decimal(&mut out, len as u64);
            push_str(&mut out, " is outside allowed bounds (");
            push_decimal(&mut out, min as u64);
            push_str(&mut out, "..=");
            push_decimal(&mut out, max as u64);
            push_str(&mut out, ")");
            ServiceError::InvalidArgs(chars_to_string(out.as_slice()))
        },
    }
}

/// The `(uuid, preview)` pairs the bus lists for a history, newest first.
pub fn history_entries(history: &History) -> (r: Vec<(String, String)>)
    ensures
        r@.len() == history@.items.len(),
        forall|i: int|
            0 <= i < r@.len() ==> (#[trigger] r@[i]).0@ == uuid_text(history@.items[i].uuid)
                && r@[i].1@ == history@.items[i].display@,
{
    let items = history.items();
    let mut out: Vec<(String, String)> = Vec::new();
    let mut i: usize = 0;
    while i < items.len()
        invariant
            i <= items@.len(),
            items@ == history@.items,
            out@.len() == i,
            forall|j: int|
                0 <= j < i ==> (#[trigger] out@[j]).0@ == uuid_text(items@[j].uuid) && out@[j].1@
                    == items@[j].display@,
        decreases items.len() - i,
    {
        let uuid = uuid_to_string(items[i].uuid);
        let display = items[i].display.clone();
        out.push((uuid, display));
        i = i + 1;
    }
    out
}

/// Daemon shutdown requests surfaced over the bus (`Reexecute`) or handled at start-up.
#[derive(Clone, Copy, Debug, Default, PartialEq, Eq, Structural)]
pub enum ShutdownReason {
    /// No shutdown has been requested.
    #[default]
    NotRequested,
    Reexecute,
}

/// A request to write plain text to the clipboard selection, with its fingerprint and
/// the channel for the writer's reply.
pub struct ClipboardWriteRequest {
    pub text: String,
    pub fingerprint: [u8; 32],
    pub reply: SyncSender<Result<(), String>>,
}

impl ClipboardWriteRequest {
    pub fn new(text: String) -> (r: (Self, Receiver<Result<(), String>>))
        ensures
            r.0.text == text,
            r.0.fingerprint@ == text_fingerprint(text@),
    {
        let (reply_tx, reply_rx) = reply_channel();
        let fingerprint = text_checksum(text.as_str());
        (Self { text, fingerprint, reply: reply_tx }, reply_rx)
    }
}

/// Refuses to write empty text to the clipboard.
pub fn check_write_text(text: &str) -> (r: Result<(), ServiceError>)
    ensures
        text@.len() == 0 ==> (r matches Err(ServiceError::Failed(m)) && m@
            == "refusing to write empty clipboard text"@),
        text@.len() > 0 ==> r is Ok,
{
    if text.is_empty() {
        return Err(ServiceError::Failed("refusing to write empty clipboard text".to_owned()));
    }
    Ok(())
}

/// What handing a write request to the clipboard writer's queue gave.
#[derive(Clone, Copy, Debug, PartialEq, Eq, Structural)]
pub enum SendOutcome {
    Sent,
    QueueFull,
    Disconnected,
}

/// Queues a request without waiting (`SyncSender::try_send`). The outcome depends on the
/// writer thread, so nothing is claimed of it.
#[verifier::external_body]
fn try_send_request(tx: &SyncSender<ClipboardWriteRequest>, request: ClipboardWriteRequest) -> SendOutcome {
    match tx.try_send(request) {
        Ok(()) => SendOutcome::Sent,
        Err(std::sync::mpsc::TrySendError::Full(_)) => SendOutcome::QueueFull,
        Err(std::sync::mpsc::TrySendError::Disconnected(_)) => SendOutcome::Disconnected,
    }
}

/// The reply for a queueing outcome.
pub fn send_result(outcome: SendOutcome) -> (r: Result<(), ServiceError>)
    ensures
        outcome == SendOutcome::Sent ==> r is Ok,
        outcome == SendOutcome::QueueFull ==> (r matches Err(ServiceError::Failed(m)) && m@
            == "clipboard write queue is full"@),
        outcome == SendOutcome::Disconnected ==> (r matches Err(ServiceError::Failed(m)) && m@
            == "clipboard writer unavailable"@),
{
    match outcome {
        SendOutcome::Sent => Ok(()),
        SendOutcome::QueueFull => Err(ServiceError::Failed("clipboard write queue is full".to_owned())),
        SendOutcome::Disconnected => Err(ServiceError::Failed("clipboard writer unavailable".to_owned())),
    }
}

/// Queues a write of `text` for the clipboard writer and returns the channel its reply
/// arrives on. Whether the queue takes it depends on the writer; the refusal is one of
/// the two `send_result` answers.
pub fn send_clipboard_write(tx: &SyncSender<ClipboardWriteRequest>, text: String) -> (r: Result<
    Receiver<Result<(), String>>,
    ServiceError,
>)
    ensures
        r matches Err(e) ==> (e matches ServiceError::Failed(m) && (m@ == "clipboard write queue is full"@
            || m@ == "clipboard writer unavailable"@)),
{
    let (request, reply_rx) = ClipboardWriteRequest::new(text);
    let outcome = try_send_request(tx, request);
    match send_result(outcome) {
        Ok(()) => Ok(reply_rx),
        Err(e) => Err(e),
    }
}

/// How waiting for the writer's reply ended.
#[derive(Clone, Debug, PartialEq, Eq)]
pub enum WriteReply {
    Done,
    Failed(String),
    TimedOut,
    Disconnected,
}

/// The reply of a clipboard write for how waiting for the writer ended.
pub fn write_reply_result(reply: WriteReply) -> (r: Result<(), ServiceError>)
    ensures
        reply == WriteReply::Done ==> r is Ok,
        reply matches WriteReply::Failed(err) ==> (r matches Err(ServiceError::Failed(m)) && m@
            == "clipboard write failed: "@ + err@),
        reply == WriteReply::TimedOut ==> (r matches Err(ServiceError::Failed(m)) && m@
            == "clipboard write timed out"@),
        reply == WriteReply::Disconnected ==> (r matches Err(ServiceError::Failed(m)) && m@
            == "clipboard writer disconnected"@),
{
    match reply {
        WriteReply::Done => Ok(()),
        WriteReply::Failed(err) => Err(ServiceError::Failed(concat_str("clipboard write failed: ", err.as_str()))),
        WriteReply::TimedOut => Err(ServiceError::Failed("clipboard write timed out".to_owned())),
        WriteReply::Disconnected => Err(ServiceError::Failed("clipboard writer disconnected".to_owned())),
    }
}

struct PendingCopy {
    fingerprint: [u8; 32],
    armed_at: Instant,
}

/// Ignores monitor notifications while a daemon-initiated clipboard write is pending.
pub struct SelfCopyGuard {
    window_ms: u64,
    pending: Option<PendingCopy>,
}

impl Default for SelfCopyGuard {
    fn default() -> (g: Self)
        ensures
            !g.armed(),
            g.window() == GUARD_WINDOW_MS,
    {
        Self::new()
    }
}

impl SelfCopyGuard {
    /// Every guard keeps the window it was made with.
    #[verifier::type_invariant]
    spec fn window_fixed(&self) -> bool {
        self.window_ms == GUARD_WINDOW_MS
    }

    /// Whether a write is pending.
    pub closed spec fn armed(&self) -> bool {
        self.pending is Some
    }

    /// The fingerprint of the pending write.
    pub closed spec fn armed_fingerprint(&self) -> Seq<u8> {
        self.pending->0.fingerprint@
    }

    /// How long the guard stays armed, in milliseconds.
    pub closed spec fn window(&self) -> u64 {
        self.window_ms
    }

    /// This guard with its pending write dropped.
    pub closed spec fn cleared(&self) -> Self {
        SelfCopyGuard { window_ms: self.window_ms, pending: None }
    }

    pub fn new() -> (g: Self)
        ensures
            !g.armed(),
            g.window() == GUARD_WINDOW_MS,
    {
        Self { window_ms: GUARD_WINDOW_MS, pending: None }
    }

    pub fn arm(&mut self, fingerprint: [u8; 32])
        ensures
            final(self).armed(),
            final(self).armed_fingerprint() == fingerprint@,
            final(self).window() == old(self).window(),
    {
        proof {
            use_type_invariant(&*self);
        }
        self.pending = Some(PendingCopy { fingerprint, armed_at: instant_now() });
    }

    /// The suppression rule for a clock reading: `elapsed_ns` nanoseconds after arming,
    /// every clipboard event is suppressed while a write is pending and its window has not
    /// run out.
    pub fn suppresses(&self, elapsed_ns: u128) -> (r: bool)
        ensures
            r == (self.armed() && within_window(elapsed_ns, self.window())),
            self.window() == GUARD_WINDOW_MS,
            r == (self.armed() && within_window(elapsed_ns, GUARD_WINDOW_MS)),
    {
        proof {
            use_type_invariant(self);
        }
        match &self.pending {
            Some(_) => is_within_window(elapsed_ns, self.window_ms),
            None => false,
        }
    }

    /// True when ingest should ignore this clipboard payload (whatever its fingerprint):
    /// never when unarmed; otherwise the rule of `suppresses` for the time passed since
    /// the guard was armed, as the clock reads it.
    pub fn should_suppress_ingest(&self, fingerprint: [u8; 32]) -> (r: bool)
        ensures
            !self.armed() ==> !r,
    {
        let elapsed_ns: u128 = match &self.pending {
            Some(pending) => elapsed_nanos(&pending.armed_at),
            None => 0,
        };
        self.suppresses(elapsed_ns)
    }

    /// Clear the pending write once our selection is observed on the clipboard.
    pub fn clear_if_matched(&mut self, fingerprint: [u8; 32])
        ensures
            final(self).window() == old(self).window(),
            old(self).armed() && old(self).armed_fingerprint() == fingerprint@
                ==> !final(self).armed() && *final(self) == old(self).cleared(),
            !(old(self).armed() && old(self).armed_fingerprint() == fingerprint@)
                ==> *final(self) == *old(self),
    {
        proof {
            use_type_invariant(&*self);
        }
        let matched = match &self.pending {
            Some(pending) => crate::item::same_digest(&pending.fingerprint, &fingerprint),
            None => false,
        };
        if matched {
            self.pending = None;
        }
    }
}

} // verus!
