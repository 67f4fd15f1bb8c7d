//! What the wlr-data-control monitor decides, apart from the protocol objects: which
//! offers carry text, when a changed selection is read, what a read payload becomes, and
//! how the clipboard writes it posts are answered. Offers and sources are named by keys
//! the protocol glue assigns; times are milliseconds on a monotonic clock.

use std::collections::HashMap;
use std::sync::mpsc::SyncSender;

use vstd::prelude::*;

use crate::dbus::{ClipboardWriteRequest, SelfCopyGuard, WRITE_TIMEOUT_MS};
use crate::item::{text_checksum, text_fingerprint};
use crate::monitor::{
    contains_str, is_text_transfer_mime, offers, offers_text, text_mime_choice, text_plain_mime, text_transfer_mime, ClipboardEvent,
    SelectionSource,
};
use crate::text::{concat_str, utf8_decode};

verus! {

broadcast use vstd::std_specs::hash::group_hash_axioms;

/// How long a posted write waits for the compositor's first transfer request.
pub const TRANSFER_WAIT_MS: u64 = 400;

/// How long the monitor tries to read an offer's text.
pub const READ_DEADLINE_MS: u64 = 500;

/// A selection change waiting for its debounce to pass before it is read.
#[derive(Clone, Copy, Debug, PartialEq, Eq, Structural)]
pub struct PendingSelection {
    pub source: SelectionSource,
    pub offer: u64,
    pub changed_at_ms: u64,
    pub has_text_mime: bool,
}

/// A clipboard write posted as a data source: its bytes, when it was posted, and the
/// channel its requester waits on (taken once answered).
pub struct PendingWrite {
    pub source: u64,
    pub data: Vec<u8>,
    pub posted_at_ms: u64,
    pub reply: Option<SyncSender<Result<(), String>>>,
}

/// Answers a write's requester (`SyncSender::send`); whether the requester still waits is
/// not known, so nothing is claimed.
#[verifier::external_body]
fn send_reply(reply: SyncSender<Result<(), String>>, result: Result<(), String>) {
    let _ = reply.send(result);
}

/// The MIME types offer `id` announced, if the offer is known.
pub open spec fn types_of(offers: Map<u64, Vec<String>>, id: u64) -> Option<Seq<String>> {
    if offers.contains_key(id) {
        Some(offers[id]@)
    } else {
        None
    }
}

/// No MIME type is listed twice.
pub open spec fn mimes_distinct(types: Seq<String>) -> bool {
    forall|i: int, j: int|
        #![trigger types[i], types[j]]
        0 <= i < j < types.len() ==> types[i]@ != types[j]@
}

/// No offer lists a MIME type twice (each offer's types form a set).
pub open spec fn mime_lists_distinct(offers: Map<u64, Vec<String>>) -> bool {
    forall|id: u64| #[trigger] offers.contains_key(id) ==> mimes_distinct(offers[id]@)
}

/// Whether an offer with these types carries text the monitor reads.
pub open spec fn has_text(types: Option<Seq<String>>) -> bool {
    match types {
        Some(t) => offers_text(t),
        None => false,
    }
}

/// What the monitor does after the event loop ran: nothing, or read a pending selection
/// (with the MIME type to ask for, if the offer announced a text type).
#[derive(Clone, Debug, PartialEq, Eq)]
pub enum FlushStep {
    Idle,
    Read { pending: PendingSelection, mime: Option<String> },
}

/// What a posted write's transfer request is answered with.
#[derive(Clone, Debug, PartialEq, Eq)]
pub enum SendStep {
    /// The source is not (or no longer) a pending write.
    Ignore,
    /// The requested type is not text: the write failed and its requester was answered.
    Refused,
    /// Write these bytes to the requester's descriptor.
    Write(Vec<u8>),
}

/// The monitor's selection and write bookkeeping: the announced MIME types of each offer
/// and the pending write of each data source, keyed by the protocol objects' keys.
pub struct SelectionTracker {
    pub offers: HashMap<u64, Vec<String>>,
    pub pending: Option<PendingSelection>,
    pub writes: HashMap<u64, PendingWrite>,
    pub answered: Ghost<Seq<(u64, Result<(), Seq<char>>)>>,
}

/// The answers log after the write for `source` is answered with `answer`: a write still
/// holding its requester's channel is answered; otherwise nothing is sent.
pub open spec fn answer_write(
    log: Seq<(u64, Result<(), Seq<char>>)>,
    writes: Map<u64, PendingWrite>,
    source: u64,
    answer: Result<(), Seq<char>>,
) -> Seq<(u64, Result<(), Seq<char>>)> {
    if writes.contains_key(source) && writes[source].reply is Some {
        log.push((source, answer))
    } else {
        log
    }
}

/// The view of an answer handed to a requester.
pub open spec fn answer_view(answer: Result<(), String>) -> Result<(), Seq<char>> {
    match answer {
        Ok(()) => Ok(()),
        Err(m) => Err(m@),
    }
}

/// Whether a write posted at `w.posted_at_ms` has waited longer than `WRITE_TIMEOUT_MS` at `now_ms`.
pub open spec fn is_stale(w: PendingWrite, now_ms: u64) -> bool {
    now_ms >= w.posted_at_ms && now_ms - w.posted_at_ms > WRITE_TIMEOUT_MS
}

/// The sources whose writes are stale at `now_ms`.
pub open spec fn stale_sources(writes: Map<u64, PendingWrite>, now_ms: u64) -> Set<u64> {
    writes.dom().filter(|s: u64| is_stale(writes[s], now_ms))
}

fn write_is_stale(w: &PendingWrite, now_ms: u64) -> (r: bool)
    ensures
        r == is_stale(*w, now_ms),
{
    now_ms >= w.posted_at_ms && now_ms - w.posted_at_ms > WRITE_TIMEOUT_MS
}

spec fn keys_seen(s: Seq<&u64>, n: int) -> Seq<u64> {
    s.take(n).unref()
}

/// The sources of `writes` that are stale at `now_ms`, each once, in the map's order.
fn stale_sources_of(writes: &HashMap<u64, PendingWrite>, now_ms: u64) -> (r: Vec<u64>)
    ensures
        r@.no_duplicates(),
        r@.to_set() == stale_sources(writes@, now_ms),
{
    let mut out: Vec<u64> = Vec::new();
    let ghost mut seen: Seq<u64> = Seq::empty();
    for key in it: writes.keys()
        invariant
            it.seq().unref().to_set() == writes@.dom(),
            it.seq().no_duplicates(),
            seen == keys_seen(it.seq(), it.index() as int),
            it.index() == it.seq().len() ==> seen.to_set() == writes@.dom(),
            out@.no_duplicates(),
            out@.to_set() == seen.to_set().filter(|k: u64| is_stale(writes@[k], now_ms)),
    {
        let ghost idx = it.index() as int;
        let ghost sq = it.seq();
        assert(sq[idx] == key);
        assert(keys_seen(sq, idx + 1) =~= keys_seen(sq, idx).push(*key));
        assert(!keys_seen(sq, idx).contains(*key)) by {
            if keys_seen(sq, idx).contains(*key) {
                let j = choose|j: int| 0 <= j < idx && keys_seen(sq, idx)[j] == *key;
                assert(sq[j] == sq[idx]);
            }
        }
        assert(!out@.contains(*key)) by {
            if out@.contains(*key) {
                assert(out@.to_set().contains(*key));
                assert(seen.contains(*key));
            }
        }
        assert(sq.unref().contains(*key)) by {
            assert(sq.unref()[idx] == *key);
        }
        let ghost out_before = out@;
        let ghost seen_before = seen;
        let stale = match writes.get(key) {
            Some(w) => write_is_stale(w, now_ms),
            None => false,
        };
        assert(stale == is_stale(writes@[*key], now_ms));
        if stale {
            out.push(*key);
            assert(out@.to_set() =~= out_before.to_set().insert(*key)) by {
                assert(out_before + seq![*key] =~= out@);
                Seq::lemma_to_set_insert_commutes(out_before, *key);
            }
        }
        proof {
            seen = seen.push(*key);
        }
        assert(seen.to_set() =~= seen_before.to_set().insert(*key)) by {
            assert(seen_before + seq![*key] =~= seen);
            Seq::lemma_to_set_insert_commutes(seen_before, *key);
        }
        assert(idx + 1 == sq.len() ==> keys_seen(sq, idx + 1) =~= sq.unref());
        assert(out@.to_set() =~= seen.to_set().filter(|k: u64| is_stale(writes@[k], now_ms)));
    }
    assert(out@.to_set() =~= stale_sources(writes@, now_ms));
    out
}

impl SelectionTracker {
    /// The answers sent to write requesters so far, in order: the write's source and the
    /// result handed over (`Ok`, or `Err` with its message).
    pub open spec fn answered(&self) -> Seq<(u64, Result<(), Seq<char>>)> {
        self.answered@
    }

    /// Well-formed: each offer's MIME types are listed once.
    pub open spec fn wf(&self) -> bool {
        mime_lists_distinct(self.offers@)
    }

    pub fn new() -> (t: Self)
        ensures
            t.wf(),
            t.answered() == Seq::<(u64, Result<(), Seq<char>>)>::empty(),
            t.offers@ == Map::<u64, Vec<String>>::empty(),
            t.pending is None,
            t.writes@ == Map::<u64, PendingWrite>::empty(),
    {
        SelectionTracker {
            offers: HashMap::new(),
            pending: None,
            writes: HashMap::new(),
            answered: Ghost(Seq::empty()),
        }
    }

    /// Whether the offer `id` is known and announced a text type.
    pub fn offer_has_text(&self, id: u64) -> (r: bool)
        ensures
            r == has_text(types_of(self.offers@, id)),
    {
        match self.offers.get(&id) {
            Some(types) => text_plain_mime(types.as_slice()).is_some(),
            None => false,
        }
    }

    /// The text type to read from offer `id`.
    pub fn offer_text_mime(&self, id: u64) -> (r: Option<String>)
        ensures
            match types_of(self.offers@, id) {
                Some(t) => text_mime_choice(t, r),
                None => r is None,
            },
            !has_text(types_of(self.offers@, id)) ==> r is None,
            has_text(types_of(self.offers@, id)) ==> r is Some,
            r matches Some(m) ==> offers(types_of(self.offers@, id)->0, m@),
    {
        match self.offers.get(&id) {
            Some(types) => text_plain_mime(types.as_slice()),
            None => None,
        }
    }

    /// Offer `id` announced `mime`; a pending read of that offer learns whether it has text.
    pub fn on_offer_mime(&mut self, id: u64, mime: String)
        ensures
            old(self).wf() ==> final(self).wf(),
            final(self).answered() == old(self).answered(),
            final(self).writes@ == old(self).writes@,
            forall|o: u64| o != id ==> types_of(final(self).offers@, o) == types_of(old(self).offers@, o),
            final(self).offers@.dom() == old(self).offers@.dom(),
            match types_of(old(self).offers@, id) {
                None => final(self).offers@ == old(self).offers@ && final(self).pending == old(self).pending,
                Some(t) => {
                    &&& types_of(final(self).offers@, id) == Some(
                        if exists|j: int| 0 <= j < t.len() && (#[trigger] t[j])@ == mime@ {
                            t
                        } else {
                            t.push(mime)
                        },
                    )
                    &&& final(self).pending == match old(self).pending {
                        Some(p) => if p.offer == id && has_text(types_of(final(self).offers@, id)) {
                            Some(PendingSelection { has_text_mime: true, ..p })
                        } else {
                            old(self).pending
                        },
                        None => None,
                    }
                },
            },
    {
        let mut types = match self.offers.remove(&id) {
            Some(t) => t,
            None => {
                assert(self.offers@ =~= old(self).offers@);
                return;
            },
        };
        let ghost before = types@;
        if !contains_str(types.as_slice(), mime.as_str()) {
            types.push(mime);
            proof {
                if mimes_distinct(before) {
                    assert forall|i: int, j: int| 0 <= i < j < types@.len() implies types@[i]@ != types@[j]@ by {
                        assert(types@[i] == before[i]);
                        if j < before.len() {
                            assert(types@[j] == before[j]);
                        }
                    }
                }
            }
        }
        let text = text_plain_mime(types.as_slice()).is_some();
        self.offers.insert(id, types);
        assert(self.offers@.dom() =~= old(self).offers@.dom());
        assert(old(self).wf() ==> old(self).offers@.contains_key(id) && mimes_distinct(before));
        match self.pending {
            Some(p) => {
                if p.offer == id && text {
                    self.pending = Some(PendingSelection { has_text_mime: true, ..p });
                }
            },
            None => {},
        }
    }

    /// Starts the debounce for a new selection from `source` offered by `offer`.
    fn schedule_selection(&mut self, source: SelectionSource, offer: u64, now_ms: u64)
        ensures
            final(self).answered() == old(self).answered(),
            final(self).pending == Some(
                PendingSelection {
                    source,
                    offer,
                    changed_at_ms: now_ms,
                    has_text_mime: has_text(types_of(old(self).offers@, offer)),
                },
            ),
            final(self).offers@ == old(self).offers@,
            final(self).writes@ == old(self).writes@,
    {
        let has_text_mime = self.offer_has_text(offer);
        self.pending = Some(PendingSelection { source, offer, changed_at_ms: now_ms, has_text_mime });
    }

    /// The clipboard selection changed to `id` (none when cleared). A change to the offer
    /// already pending keeps its debounce; any other change replaces it.
    pub fn on_selection(&mut self, id: Option<u64>, now_ms: u64)
        ensures
            final(self).answered() == old(self).answered(),
            final(self).offers@ == old(self).offers@,
            final(self).writes@ == old(self).writes@,
            final(self).pending == match id {
                None => None,
                Some(o) => if old(self).pending matches Some(p) && p.offer == o {
                    old(self).pending
                } else {
                    Some(
                        PendingSelection {
                            source: SelectionSource::Clipboard,
                            offer: o,
                            changed_at_ms: now_ms,
                            has_text_mime: has_text(types_of(old(self).offers@, o)),
                        },
                    )
                },
            },
    {
        let same_offer = match (self.pending, id) {
            (Some(p), Some(o)) => p.offer == o,
            _ => false,
        };
        if !same_offer {
            self.pending = None;
        }
        match id {
            Some(offer) => {
                if !same_offer {
                    self.schedule_selection(SelectionSource::Clipboard, offer, now_ms);
                }
            },
            None => {},
        }
    }

    /// The primary selection changed to `id`; it is read only when watched.
    pub fn on_primary_selection(&mut self, id: Option<u64>, watch_primary: bool, now_ms: u64)
        ensures
            final(self).answered() == old(self).answered(),
            final(self).offers@ == old(self).offers@,
            final(self).writes@ == old(self).writes@,
            final(self).pending == if watch_primary && id is Some {
                Some(
                    PendingSelection {
                        source: SelectionSource::Primary,
                        offer: id->0,
                        changed_at_ms: now_ms,
                        has_text_mime: has_text(types_of(old(self).offers@, id->0)),
                    },
                )
            } else {
                old(self).pending
            },
    {
        if watch_primary {
            match id {
                Some(offer) => self.schedule_selection(SelectionSource::Primary, offer, now_ms),
                None => {},
            }
        }
    }

    /// After the event loop ran at `now_ms`: reads the pending selection once its debounce
    /// has passed and it is known to carry text; otherwise waits.
    pub fn flush(&mut self, now_ms: u64, debounce_ms: u64) -> (r: FlushStep)
        ensures
            final(self).answered() == old(self).answered(),
            final(self).offers@ == old(self).offers@,
            final(self).writes@ == old(self).writes@,
            match old(self).pending {
                None => r == FlushStep::Idle && final(self).pending is None,
                Some(p) => if (now_ms >= p.changed_at_ms && now_ms - p.changed_at_ms >= debounce_ms
                    || now_ms < p.changed_at_ms && debounce_ms == 0) && (p.has_text_mime || has_text(
                    types_of(old(self).offers@, p.offer),
                )) {
                    &&& final(self).pending is None
                    &&& r matches FlushStep::Read { pending, mime } && pending == p && (has_text(
                        types_of(old(self).offers@, p.offer),
                    ) <==> mime is Some) && (mime matches Some(m) ==> offers(
                        types_of(old(self).offers@, p.offer)->0,
                        m@,
                    )) && match types_of(old(self).offers@, p.offer) {
                        Some(t) => text_mime_choice(t, mime),
                        None => mime is None,
                    }
                } else {
                    r == FlushStep::Idle && final(self).pending == old(self).pending
                },
            },
    {
        let p = match self.pending {
            Some(p) => p,
            None => {
                return FlushStep::Idle;
            },
        };
        let elapsed = now_ms.saturating_sub(p.changed_at_ms);
        if elapsed < debounce_ms {
            return FlushStep::Idle;
        }
        let has_text_mime = p.has_text_mime || self.offer_has_text(p.offer);
        if !has_text_mime {
            return FlushStep::Idle;
        }
        self.pending = None;
        let mime = self.offer_text_mime(p.offer);
        FlushStep::Read { pending: p, mime }
    }

    /// What a read of `pending`'s offer gave: nothing (it stays pending, known to carry
    /// text), or a payload that becomes a clipboard event unless it is not UTF-8 text, is
    /// empty, or arrives while the guard suppresses events (the awaited copy clears it).
    pub fn after_read(
        &mut self,
        pending: PendingSelection,
        payload: Option<Vec<u8>>,
        guard: &mut SelfCopyGuard,
        observed_at: u64,
    ) -> (r: Option<ClipboardEvent>)
        ensures
            final(self).answered() == old(self).answered(),
            final(self).offers@ == old(self).offers@,
            final(self).writes@ == old(self).writes@,
            payload is None ==> r is None && final(self).pending == Some(
                PendingSelection { has_text_mime: true, ..pending },
            ) && *final(guard) == *old(guard),
            payload is Some ==> final(self).pending == old(self).pending,
            payload matches Some(b) && (!vstd::utf8::valid_utf8(b@) || vstd::utf8::decode_utf8(b@).len()
                == 0) ==> r is None && *final(guard) == *old(guard),
            r matches Some(ev) ==> payload matches Some(b) && vstd::utf8::valid_utf8(b@)
                && vstd::utf8::decode_utf8(b@).len() > 0 && ev.source == pending.source
                && ev.mime_type@ == "text/plain"@ && ev.payload@ == b@ && ev.observed_at == observed_at
                && *final(guard) == *old(guard),
            payload matches Some(b) && vstd::utf8::valid_utf8(b@) && vstd::utf8::decode_utf8(b@).len() > 0
                && !old(guard).armed() ==> r is Some && *final(guard) == *old(guard),
            r is None && payload is Some && old(guard).armed() ==> final(guard).window() == old(
                guard,
            ).window() && (old(guard).armed_fingerprint() == text_fingerprint(
                vstd::utf8::decode_utf8(payload->0@),
            ) && vstd::utf8::valid_utf8(payload->0@) && vstd::utf8::decode_utf8(payload->0@).len() > 0
                ==> !final(guard).armed()),
            *final(guard) == *old(guard) || (r is None && payload is Some && vstd::utf8::valid_utf8(
                payload->0@,
            ) && old(guard).armed() && old(guard).armed_fingerprint() == text_fingerprint(
                vstd::utf8::decode_utf8(payload->0@),
            ) && *final(guard) == old(guard).cleared()),
    {
        let bytes = match payload {
            Some(b) => b,
            None => {
                self.pending = Some(PendingSelection { has_text_mime: true, ..pending });
                return None;
            },
        };
        let text = match utf8_decode(bytes.as_slice()) {
            Ok(t) => t,
            Err(_) => {
                return None;
            },
        };
        if text.as_str().is_empty() {
            return None;
        }
        let fingerprint = text_checksum(text.as_str());
        if guard.should_suppress_ingest(fingerprint) {
            guard.clear_if_matched(fingerprint);
            return None;
        }
        Some(
            ClipboardEvent {
                source: pending.source,
                mime_type: "text/plain".to_owned(),
                payload: bytes,
                observed_at,
            },
        )
    }

    /// Whether `source` is still a pending write.
    pub fn has_write(&self, source: u64) -> (r: bool)
        ensures
            r == self.writes@.contains_key(source),
    {
        self.writes.contains_key(&source)
    }

    /// Forgets the write `source` without answering it.
    pub fn drop_write(&mut self, source: u64)
        ensures
            final(self).answered() == old(self).answered(),
            final(self).writes@ == old(self).writes@.remove(source),
            final(self).offers@ == old(self).offers@,
            final(self).pending == old(self).pending,
    {
        self.writes.remove(&source);
    }

    /// The write `source` failed: it is forgotten and its requester, if still waiting,
    /// is answered with `message`.
    pub fn fail_write(&mut self, source: u64, message: &str)
        ensures
            final(self).answered() == answer_write(old(self).answered(), old(self).writes@, source, Err(message@)),
            final(self).writes@ == old(self).writes@.remove(source),
            final(self).offers@ == old(self).offers@,
            final(self).pending == old(self).pending,
    {
        match self.writes.remove(&source) {
            Some(write) => match write.reply {
                Some(reply) => {
                    let answer: Result<(), String> = Err(message.to_owned());
                    proof {
                        self.answered@ = self.answered@.push((source, answer_view(answer)));
                    }
                    send_reply(reply, answer)
                },
                None => {},
            },
            None => {},
        }
    }

    /// A write request arrived and was posted as data source `source` at `now_ms`: the
    /// guard is armed with its fingerprint and the write waits for transfers, taking the
    /// place of any write still held for `source`. Without a data-control device the write
    /// fails at once (no seat, or none with a device). Returns whether the selection should
    /// be set to the source.
    pub fn on_write_request(
        &mut self,
        request: ClipboardWriteRequest,
        source: u64,
        now_ms: u64,
        device_available: bool,
        seats_empty: bool,
        guard: &mut SelfCopyGuard,
    ) -> (r: bool)
        ensures
            final(guard).armed(),
            final(guard).armed_fingerprint() == request.fingerprint@,
            final(guard).window() == old(guard).window(),
            final(self).offers@ == old(self).offers@,
            final(self).pending == old(self).pending,
            r == device_available,
            device_available ==> final(self).answered() == old(self).answered() && final(self).writes@
                == old(self).writes@.insert(source, final(self).writes@[source]) && final(self).writes@[source].data@
                == vstd::utf8::encode_utf8(request.text@) && final(self).writes@[source].posted_at_ms == now_ms
                && final(self).writes@[source].reply == Some(request.reply),
            !device_available ==> final(self).writes@ == old(self).writes@.remove(source)
                && final(self).answered() == old(self).answered().push(
                (
                    source,
                    Err(
                        if seats_empty {
                            "no Wayland seat available"@
                        } else {
                            "data-control device unavailable"@
                        },
                    ),
                ),
            ),
    {
        guard.arm(request.fingerprint);
        let data = vstd::slice::slice_to_vec(request.text.as_str().as_bytes());
        self.writes.insert(source, PendingWrite { source, data, posted_at_ms: now_ms, reply: Some(request.reply) });
        if !device_available {
            let message = if seats_empty {
                "no Wayland seat available"
            } else {
                "data-control device unavailable"
            };
            self.fail_write(source, message);
            assert(self.writes@ =~= old(self).writes@.remove(source));
            return false;
        }
        assert(self.writes@ =~= old(self).writes@.insert(source, self.writes@[source]));
        true
    }

    /// The write `source` was posted and the transfer wait is over: its requester, if
    /// still waiting, is told it succeeded.
    pub fn acknowledge(&mut self, source: u64)
        ensures
            final(self).answered() == answer_write(old(self).answered(), old(self).writes@, source, Ok(())),
            final(self).offers@ == old(self).offers@,
            final(self).pending == old(self).pending,
            old(self).writes@.contains_key(source) ==> final(self).writes@ == old(self).writes@.insert(
                source,
                PendingWrite { reply: None, ..old(self).writes@[source] },
            ),
            !old(self).writes@.contains_key(source) ==> final(self).writes@ == old(self).writes@,
    {
        match self.writes.remove(&source) {
            Some(mut write) => {
                let reply = write.reply.take();
                self.writes.insert(source, write);
                assert(self.writes@ =~= old(self).writes@.insert(
                    source,
                    PendingWrite { reply: None, ..old(self).writes@[source] },
                ));
                match reply {
                    Some(tx) => {
                        let answer: Result<(), String> = Ok(());
                        proof {
                            self.answered@ = self.answered@.push((source, answer_view(answer)));
                        }
                        send_reply(tx, answer)
                    },
                    None => {},
                }
            },
            None => {
                assert(self.writes@ =~= old(self).writes@);
            },
        }
    }

    /// The compositor asks the write `source` for its bytes as `mime`: only text types are
    /// served; any other fails the write.
    pub fn on_send(&mut self, source: u64, mime: &str) -> (r: SendStep)
        ensures
            final(self).offers@ == old(self).offers@,
            final(self).pending == old(self).pending,
            !text_transfer_mime(mime@) ==> r == SendStep::Refused && final(self).writes@ == old(
                self,
            ).writes@.remove(source) && final(self).answered() == answer_write(
                old(self).answered(),
                old(self).writes@,
                source,
                Err("unexpected clipboard mime type: "@ + mime@),
            ),
            text_transfer_mime(mime@) ==> final(self).writes@ == old(self).writes@ && final(self).answered()
                == old(self).answered() && if old(self).writes@.contains_key(source) {
                r matches SendStep::Write(d) && d@ == old(self).writes@[source].data@
            } else {
                r == SendStep::Ignore
            },
    {
        if !is_text_transfer_mime(mime) {
            let message = concat_str("unexpected clipboard mime type: ", mime);
            self.fail_write(source, message.as_str());
            return SendStep::Refused;
        }
        match self.writes.get(&source) {
            Some(w) => SendStep::Write(w.data.clone()),
            None => SendStep::Ignore,
        }
    }

    /// The bytes of write `source` were handed over (`Ok`) or could not be (`Err`): either
    /// way the write is done; a failure answers its requester.
    pub fn after_transfer(&mut self, source: u64, result: Result<(), String>)
        ensures
            result is Ok ==> final(self).answered() == old(self).answered(),
            result matches Err(e) ==> final(self).answered() == answer_write(
                old(self).answered(),
                old(self).writes@,
                source,
                Err(e@),
            ),
            final(self).writes@ == old(self).writes@.remove(source),
            final(self).offers@ == old(self).offers@,
            final(self).pending == old(self).pending,
    {
        match result {
            Ok(()) => self.drop_write(source),
            Err(err) => self.fail_write(source, err.as_str()),
        }
    }

    /// The compositor cancelled write `source`.
    pub fn on_cancelled(&mut self, source: u64)
        ensures
            final(self).answered() == answer_write(
                old(self).answered(),
                old(self).writes@,
                source,
                Err("clipboard transfer cancelled"@),
            ),
            final(self).writes@ == old(self).writes@.remove(source),
            final(self).offers@ == old(self).offers@,
            final(self).pending == old(self).pending,
    {
        self.fail_write(source, "clipboard transfer cancelled");
    }

    /// Forgets the writes posted more than `WRITE_TIMEOUT_MS` before `now_ms` and returns
    /// their sources, each once.
    pub fn expire_stale(&mut self, now_ms: u64) -> (r: Vec<u64>)
        ensures
            final(self).answered() == old(self).answered(),
            final(self).offers@ == old(self).offers@,
            final(self).pending == old(self).pending,
            final(self).writes@ == old(self).writes@.remove_keys(stale_sources(old(self).writes@, now_ms)),
            r@.no_duplicates(),
            r@.to_set() == stale_sources(old(self).writes@, now_ms),
    {
        let expired = stale_sources_of(&self.writes, now_ms);
        let mut i: usize = 0;
        while i < expired.len()
            invariant
                i <= expired@.len(),
                self.writes@ == old(self).writes@.remove_keys(expired@.take(i as int).to_set()),
                self.offers@ == old(self).offers@,
                self.pending == old(self).pending,
                self.answered == old(self).answered,
            decreases expired.len() - i,
        {
            let ghost before = self.writes@;
            self.writes.remove(&expired[i]);
            proof {
                assert(expired@.take(i + 1) =~= expired@.take(i as int) + seq![expired@[i as int]]);
                Seq::lemma_to_set_insert_commutes(expired@.take(i as int), expired@[i as int]);
            }
            assert(self.writes@ =~= old(self).writes@.remove_keys(expired@.take(i + 1).to_set()));
            i = i + 1;
        }
        assert(expired@.take(expired.len() as int) =~= expired@);
        expired
    }

    /// A new offer `id` was introduced; it has announced no type yet.
    pub fn on_data_offer(&mut self, id: u64)
        ensures
            old(self).wf() ==> final(self).wf(),
            final(self).answered() == old(self).answered(),
            types_of(final(self).offers@, id) == Some(Seq::<String>::empty()),
            forall|o: u64| o != id ==> types_of(final(self).offers@, o) == types_of(old(self).offers@, o),
            final(self).offers@.dom() == old(self).offers@.dom().insert(id),
            final(self).pending == old(self).pending,
            final(self).writes@ == old(self).writes@,
    {
        self.offers.insert(id, Vec::new());
        assert(self.offers@.dom() =~= old(self).offers@.dom().insert(id));
    }
}

} // verus!
