//! In-memory clipboard history: newest entry at index 0, de-duplication by text
//! fingerprint, optional "growing lines" replacement, and count and memory limits.

use vstd::prelude::*;

use crate::error::Error;
use crate::item::{
    new_uuid_v4, plain_of, rich_byte_len, same_digest, text_checksum, text_fingerprint,
    same_item, text_item_size, truncate_display, utf8_len, HistoryItem, ItemKind, RichPayload,
};
use crate::text::{chars_start_with, chars_to_string, str_chars, trim_chars, trim_spec, truncate_end_spec};

verus! {

/// Limits and text handling rules of one history.
#[derive(Clone, Copy, Debug, PartialEq, Eq, Structural)]
pub struct HistoryPolicies {
    pub max_history_size: usize,
    pub max_memory_usage_bytes: u64,
    pub max_text_item_size: usize,
    pub min_text_item_size: usize,
    pub growing_lines: bool,
    pub trim_items: bool,
    pub element_display_size: usize,
}

/// The default policies: 100 entries, 30 MiB, texts of 1 to 1 048 575 bytes,
/// no growing lines, no trimming, 60-character previews.
pub open spec fn default_policies() -> HistoryPolicies {
    HistoryPolicies {
        max_history_size: 100,
        max_memory_usage_bytes: 31_457_280,
        max_text_item_size: 1_048_575,
        min_text_item_size: 1,
        growing_lines: false,
        trim_items: false,
        element_display_size: 60,
    }
}

impl Default for HistoryPolicies {
    fn default() -> (p: Self)
        ensures
            p == default_policies(),
    {
        Self {
            max_history_size: 100,
            max_memory_usage_bytes: 30 * 1024 * 1024,
            max_text_item_size: 1_048_575,
            min_text_item_size: 1,
            growing_lines: false,
            trim_items: false,
            element_display_size: 60,
        }
    }
}

/// What `ingest_text` did. Identifiers are 128-bit UUID values.
#[derive(Clone, Copy, Debug, PartialEq, Eq, Structural)]
pub enum IngestOutcome {
    Added,
    MovedExisting { uuid: u128 },
    ReplacedGrowingLine { uuid: u128 },
    RejectedTextSize,
}

/// A named, ordered clipboard history (index 0 is the newest entry).
#[derive(Clone, Debug)]
pub struct History {
    name: String,
    items: Vec<HistoryItem>,
    policies: HistoryPolicies,
    byte_total: u64,
}

/// The abstract state of a history.
pub struct HistoryView {
    pub name: Seq<char>,
    pub items: Seq<HistoryItem>,
    pub policies: HistoryPolicies,
    pub byte_total: u64,
}

impl View for History {
    type V = HistoryView;

    closed spec fn view(&self) -> HistoryView {
        HistoryView {
            name: self.name@,
            items: self.items@,
            policies: self.policies,
            byte_total: self.byte_total,
        }
    }
}

/// The sum of the items' byte sizes.
pub open spec fn total_size(items: Seq<HistoryItem>) -> nat
    decreases items.len(),
{
    if items.len() == 0 {
        0
    } else {
        total_size(items.drop_last()) + items.last().byte_size as nat
    }
}

pub proof fn lemma_total_concat(a: Seq<HistoryItem>, b: Seq<HistoryItem>)
    ensures
        total_size(a + b) == total_size(a) + total_size(b),
    decreases b.len(),
{
    if b.len() == 0 {
        assert(a + b =~= a);
    } else {
        lemma_total_concat(a, b.drop_last());
        assert((a + b).drop_last() =~= a + b.drop_last());
    }
}

pub proof fn lemma_total_remove(s: Seq<HistoryItem>, i: int)
    requires
        0 <= i < s.len(),
    ensures
        total_size(s.remove(i)) + s[i].byte_size == total_size(s),
{
    lemma_total_concat(s.take(i), s.skip(i + 1));
    lemma_total_concat(s.take(i), seq![s[i]]);
    lemma_total_concat(s.take(i) + seq![s[i]], s.skip(i + 1));
    assert(s.remove(i) =~= s.take(i) + s.skip(i + 1));
    assert(s =~= s.take(i) + seq![s[i]] + s.skip(i + 1));
    lemma_total_single(s[i]);
}

pub proof fn lemma_total_prefix(s: Seq<HistoryItem>, k: int)
    requires
        0 <= k <= s.len(),
    ensures
        total_size(s.take(k)) <= total_size(s),
{
    lemma_total_concat(s.take(k), s.skip(k));
    assert(s =~= s.take(k) + s.skip(k));
}

proof fn lemma_total_single(x: HistoryItem)
    ensures
        total_size(seq![x]) == x.byte_size,
{
    let s = seq![x];
    assert(s.len() == 1);
    assert(s.last() == x);
    assert(s.drop_last() =~= Seq::<HistoryItem>::empty());
    assert(total_size(s.drop_last()) == 0);
}

/// `n` saturated at `u64::MAX`.
pub open spec fn saturate(n: nat) -> u64 {
    if n <= u64::MAX {
        n as u64
    } else {
        u64::MAX
    }
}

/// The byte total a history keeps for `items`: the sum of their sizes, saturated at
/// `u64::MAX` (sizes are added with `saturating_add`).
pub open spec fn clamped_total(items: Seq<HistoryItem>) -> u64 {
    saturate(total_size(items))
}

/// The saturated byte total of `items`, counted afresh.
fn count_bytes(items: &Vec<HistoryItem>) -> (r: u64)
    ensures
        r == clamped_total(items@),
{
    let mut acc: u64 = 0;
    let mut i: usize = 0;
    while i < items.len()
        invariant
            i <= items@.len(),
            acc == clamped_total(items@.take(i as int)),
        decreases items.len() - i,
    {
        proof {
            assert(items@.take(i + 1).drop_last() =~= items@.take(i as int));
        }
        acc = acc.saturating_add(items[i].byte_size);
        i = i + 1;
    }
    assert(items@.take(items.len() as int) =~= items@);
    acc
}

/// The byte total once an entry of `removed` bytes has been taken out, leaving `items`:
/// an exact subtraction below the saturation point, a fresh count at it.
fn total_after_removal(total: u64, removed: u64, items: &Vec<HistoryItem>) -> (r: u64)
    requires
        total == saturate(total_size(items@) + removed as nat),
    ensures
        r == clamped_total(items@),
{
    if total == u64::MAX {
        count_bytes(items)
    } else {
        total - removed
    }
}

/// Two histories hold the same name, policies, byte total and entries.
pub open spec fn same_history(a: HistoryView, b: HistoryView) -> bool {
    &&& a.name == b.name
    &&& a.policies == b.policies
    &&& a.byte_total == b.byte_total
    &&& a.items.len() == b.items.len()
    &&& forall|i: int| 0 <= i < a.items.len() ==> same_item(#[trigger] a.items[i], b.items[i])
}

proof fn lemma_total_same_items(a: Seq<HistoryItem>, b: Seq<HistoryItem>)
    requires
        a.len() == b.len(),
        forall|i: int| 0 <= i < a.len() ==> same_item(#[trigger] a[i], b[i]),
    ensures
        total_size(a) == total_size(b),
    decreases a.len(),
{
    if a.len() > 0 {
        assert(same_item(a[a.len() - 1], b[b.len() - 1]));
        lemma_total_same_items(a.drop_last(), b.drop_last());
    }
}

/// `s` with its oldest entries dropped until the (saturated) byte total fits in `budget`.
pub open spec fn trim_to_budget(s: Seq<HistoryItem>, budget: u64) -> Seq<HistoryItem>
    decreases s.len(),
{
    if clamped_total(s) <= budget || s.len() == 0 {
        s
    } else {
        trim_to_budget(s.drop_last(), budget)
    }
}

/// `s` after the count limit and then the memory budget of `p` have been applied,
/// each by dropping the oldest entries.
pub open spec fn enforce_limits_spec(s: Seq<HistoryItem>, p: HistoryPolicies) -> Seq<HistoryItem> {
    let counted = if s.len() > p.max_history_size {
        s.take(p.max_history_size as int)
    } else {
        s
    };
    trim_to_budget(counted, p.max_memory_usage_bytes)
}

/// The text a history stores for `text`: trimmed when the policy asks for it.
pub open spec fn prepare_spec(p: HistoryPolicies, text: Seq<char>) -> Seq<char> {
    if p.trim_items {
        trim_spec(text)
    } else {
        text
    }
}

/// Whether prepared text passes the size rules (non-empty, byte length within bounds).
pub open spec fn size_accepted(p: HistoryPolicies, prepared: Seq<char>) -> bool {
    &&& prepared.len() > 0
    &&& p.min_text_item_size <= utf8_len(prepared)
    &&& utf8_len(prepared) <= p.max_text_item_size
}

/// Whether `prepared` extends the newest entry's text (the growing-lines rule).
pub open spec fn grows_newest(items: Seq<HistoryItem>, prepared: Seq<char>) -> bool {
    &&& items.len() > 0
    &&& plain_of(items[0].kind) is Some
    &&& plain_of(items[0].kind)->0.is_prefix_of(prepared)
    &&& utf8_len(prepared) > utf8_len(plain_of(items[0].kind)->0)
}

/// Whether `item` is a text item whose fingerprint is `digest`.
pub open spec fn has_fingerprint(item: HistoryItem, digest: Seq<u8>) -> bool {
    plain_of(item.kind) is Some && text_fingerprint(plain_of(item.kind)->0) == digest
}

/// The first index whose item is text with fingerprint `digest`.
pub open spec fn first_with_fingerprint(items: Seq<HistoryItem>, digest: Seq<u8>) -> Option<int>
    decreases items.len(),
{
    if items.len() == 0 {
        None
    } else if has_fingerprint(items[0], digest) {
        Some(0)
    } else {
        match first_with_fingerprint(items.drop_first(), digest) {
            Some(i) => Some(i + 1),
            None => None,
        }
    }
}

pub proof fn lemma_first_with_fingerprint(items: Seq<HistoryItem>, digest: Seq<u8>)
    ensures
        match first_with_fingerprint(items, digest) {
            Some(i) => 0 <= i < items.len() && has_fingerprint(items[i], digest) && forall|j: int|
                0 <= j < i ==> !has_fingerprint(#[trigger] items[j], digest),
            None => forall|j: int| 0 <= j < items.len() ==> !has_fingerprint(#[trigger] items[j], digest),
        },
    decreases items.len(),
{
    if items.len() > 0 && !has_fingerprint(items[0], digest) {
        lemma_first_with_fingerprint(items.drop_first(), digest);
        assert forall|j: int| 1 <= j < items.len() implies items[j] == items.drop_first()[j - 1] by {}
    }
}

proof fn lemma_first_with_fingerprint_at(items: Seq<HistoryItem>, digest: Seq<u8>, i: int)
    requires
        0 <= i < items.len(),
        has_fingerprint(items[i], digest),
        forall|j: int| 0 <= j < i ==> !has_fingerprint(#[trigger] items[j], digest),
    ensures
        first_with_fingerprint(items, digest) == Some(i),
{
    lemma_first_with_fingerprint(items, digest);
    match first_with_fingerprint(items, digest) {
        Some(k) => {
            if k < i {
                assert(!has_fingerprint(items[k], digest));
            } else if k > i {
                assert(!has_fingerprint(items[i], digest));
            }
        },
        None => {
            assert(!has_fingerprint(items[i], digest));
        },
    }
}

/// `s` with the entry at `i` moved to the front.
pub open spec fn move_to_front_spec(s: Seq<HistoryItem>, i: int) -> Seq<HistoryItem> {
    seq![s[i]] + s.remove(i)
}

/// The first index holding the item `uuid`.
pub open spec fn first_with_uuid(items: Seq<HistoryItem>, uuid: u128) -> Option<int>
    decreases items.len(),
{
    if items.len() == 0 {
        None
    } else if items[0].uuid == uuid {
        Some(0)
    } else {
        match first_with_uuid(items.drop_first(), uuid) {
            Some(i) => Some(i + 1),
            None => None,
        }
    }
}

pub proof fn lemma_first_with_uuid(items: Seq<HistoryItem>, uuid: u128)
    ensures
        match first_with_uuid(items, uuid) {
            Some(i) => 0 <= i < items.len() && items[i].uuid == uuid && forall|j: int|
                0 <= j < i ==> (#[trigger] items[j]).uuid != uuid,
            None => forall|j: int| 0 <= j < items.len() ==> (#[trigger] items[j]).uuid != uuid,
        },
    decreases items.len(),
{
    if items.len() > 0 && items[0].uuid != uuid {
        lemma_first_with_uuid(items.drop_first(), uuid);
        assert forall|j: int| 1 <= j < items.len() implies items[j] == items.drop_first()[j - 1] by {}
    }
}

proof fn lemma_first_with_uuid_at(items: Seq<HistoryItem>, uuid: u128, i: int)
    requires
        0 <= i < items.len(),
        items[i].uuid == uuid,
        forall|j: int| 0 <= j < i ==> (#[trigger] items[j]).uuid != uuid,
    ensures
        first_with_uuid(items, uuid) == Some(i),
{
    lemma_first_with_uuid(items, uuid);
    match first_with_uuid(items, uuid) {
        Some(k) => {
            if k < i {
                assert(items[k].uuid != uuid);
            } else if k > i {
                assert(items[i].uuid != uuid);
            }
        },
        None => {
            assert(items[i].uuid != uuid);
        },
    }
}

/// Whether `item` is the text entry that ingest builds: identifier `uuid`, text `prepared`
/// with `rich` alternatives, a preview of `display_len` characters, its byte size, no password.
pub open spec fn is_ingested_item(
    item: HistoryItem,
    uuid: u128,
    prepared: Seq<char>,
    rich: Option<RichPayload>,
    created_at: u64,
    display_len: nat,
) -> bool {
    &&& item.uuid == uuid
    &&& item.kind matches ItemKind::Text { plain, rich: r } && plain@ == prepared && r == rich
    &&& item.display@ == truncate_end_spec(prepared, display_len)
    &&& item.created_at == created_at
    &&& item.byte_size == text_item_size(prepared, rich)
    &&& item.password_name is None
}

/// Machine limits of a new entry's size: the rich alternatives' lengths add up within
/// `usize`, and the text's length plus theirs within `u64` (the byte size is a plain
/// sum of lengths). Without rich alternatives this always holds
/// (`lemma_plain_ingest_fits`).
pub open spec fn ingest_fits(h: HistoryView, text: Seq<char>, rich: Option<RichPayload>) -> bool {
    &&& rich_byte_len(rich) <= usize::MAX
    &&& text_item_size(prepare_spec(h.policies, text), rich) <= u64::MAX
}

/// Plain text (no rich alternatives) always meets the size limits of `ingest_fits`.
pub proof fn lemma_plain_ingest_fits(h: HistoryView, text: Seq<char>)
    ensures
        ingest_fits(h, text, None),
{
    let prepared = prepare_spec(h.policies, text);
    let n = vstd::utf8::encode_utf8(prepared).len() as usize;
    assert(n <= usize::MAX);
    assert(usize::MAX <= u64::MAX);
}

/// The outcome and resulting entries of ingesting `text`, where a newly added entry
/// is identified by `new_uuid`.
pub open spec fn ingest_result(
    h: HistoryView,
    text: Seq<char>,
    rich: Option<RichPayload>,
    created_at: u64,
    new_uuid: u128,
    outcome: IngestOutcome,
    items: Seq<HistoryItem>,
) -> bool {
    let p = h.policies;
    let prepared = prepare_spec(p, text);
    let old_items = h.items;
    let dup = first_with_fingerprint(old_items, text_fingerprint(prepared));
    if !size_accepted(p, prepared) {
        outcome == IngestOutcome::RejectedTextSize && items == old_items
    } else if p.growing_lines && grows_newest(old_items, prepared) {
        &&& outcome == (IngestOutcome::ReplacedGrowingLine { uuid: old_items[0].uuid })
        &&& items.len() == old_items.len()
        &&& is_ingested_item(
            items[0],
            old_items[0].uuid,
            prepared,
            rich,
            created_at,
            p.element_display_size as nat,
        )
        &&& items.skip(1) == old_items.skip(1)
    } else if dup is Some {
        &&& outcome == (IngestOutcome::MovedExisting { uuid: old_items[dup->0].uuid })
        &&& items == move_to_front_spec(old_items, dup->0)
    } else {
        &&& outcome == IngestOutcome::Added
        &&& exists|item: HistoryItem|
            is_ingested_item(item, new_uuid, prepared, rich, created_at, p.element_display_size as nat)
                && items == enforce_limits_spec(seq![item] + old_items, p)
    }
}

impl History {
    /// Internal consistency: the byte total is the sum of the items' sizes (saturated at
    /// `u64::MAX`).
    pub open spec fn wf(&self) -> bool {
        self@.byte_total == clamped_total(self@.items)
    }

    pub fn new(name: &str, policies: HistoryPolicies) -> (h: Self)
        ensures
            h.wf(),
            h@.name == name@,
            h@.items == Seq::<HistoryItem>::empty(),
            h@.policies == policies,
            h@.byte_total == 0,
    {
        Self { name: name.to_owned(), items: Vec::new(), policies, byte_total: 0 }
    }

    pub fn with_defaults(name: &str) -> (h: Self)
        ensures
            h.wf(),
            h@.name == name@,
            h@.items == Seq::<HistoryItem>::empty(),
            h@.policies == default_policies(),
            h@.byte_total == 0,
    {
        Self::new(name, HistoryPolicies::default())
    }

    /// Rebuild history from persisted items (recalculates `byte_total`).
    pub fn from_persisted(name: &str, policies: HistoryPolicies, items: Vec<HistoryItem>) -> (h: Self)
        requires
            total_size(items@) <= u64::MAX,
        ensures
            h.wf(),
            h@.name == name@,
            h@.items == items@,
            h@.policies == policies,
            h@.byte_total == total_size(items@),
    {
        let mut byte_total: u64 = 0;
        let mut i: usize = 0;
        while i < items.len()
            invariant
                i <= items.len(),
                total_size(items@) <= u64::MAX,
                byte_total == total_size(items@.take(i as int)),
            decreases items.len() - i,
        {
            proof {
                assert(items@.take(i + 1).drop_last() =~= items@.take(i as int));
                lemma_total_prefix(items@, i + 1);
            }
            byte_total = byte_total + items[i].byte_size;
            i = i + 1;
        }
        assert(items@.take(items.len() as int) =~= items@);
        Self { name: name.to_owned(), items, policies, byte_total }
    }

    pub fn name(&self) -> (r: &str)
        ensures
            r@ == self@.name,
    {
        self.name.as_str()
    }

    pub fn len(&self) -> (r: usize)
        ensures
            r == self@.items.len(),
    {
        self.items.len()
    }

    pub fn is_empty(&self) -> (r: bool)
        ensures
            r == (self@.items.len() == 0),
    {
        self.items.len() == 0
    }

    pub fn items(&self) -> (r: &[HistoryItem])
        ensures
            r@ == self@.items,
    {
        self.items.as_slice()
    }

    pub fn get(&self, index: usize) -> (r: Option<&HistoryItem>)
        ensures
            index < self@.items.len() ==> r == Some(&self@.items[index as int]),
            index >= self@.items.len() ==> r is None,
    {
        if index < self.items.len() {
            Some(&self.items[index])
        } else {
            None
        }
    }

    pub fn byte_total(&self) -> (r: u64)
        ensures
            r == self@.byte_total,
    {
        self.byte_total
    }

    pub fn policies(&self) -> (r: &HistoryPolicies)
        ensures
            *r == self@.policies,
    {
        &self.policies
    }

    pub fn set_policies(&mut self, policies: HistoryPolicies)
        requires
            old(self).wf(),
        ensures
            final(self).wf(),
            final(self)@.name == old(self)@.name,
            final(self)@.policies == policies,
            final(self)@.items == enforce_limits_spec(old(self)@.items, policies),
    {
        self.policies = policies;
        self.enforce_limits();
    }

    pub fn find_index(&self, uuid: u128) -> (r: Option<usize>)
        ensures
            r matches Some(i) ==> first_with_uuid(self@.items, uuid) == Some(i as int),
            r is None ==> first_with_uuid(self@.items, uuid) is None,
    {
        proof {
            lemma_first_with_uuid(self@.items, uuid);
        }
        let mut i: usize = 0;
        while i < self.items.len()
            invariant
                i <= self.items@.len(),
                forall|j: int| 0 <= j < i ==> (#[trigger] self.items@[j]).uuid != uuid,
            decreases self.items.len() - i,
        {
            if self.items[i].uuid == uuid {
                proof {
                    lemma_first_with_uuid_at(self@.items, uuid, i as int);
                }
                return Some(i);
            }
            i = i + 1;
        }
        None
    }

    /// Adds clipboard text (see `ingest_result` for what happens), with a random identifier
    /// for a newly added entry.
    pub fn ingest_text(&mut self, text: &str, rich: Option<RichPayload>, created_at: u64) -> (r:
        IngestOutcome)
        requires
            old(self).wf(),
            ingest_fits(old(self)@, text@, rich),
        ensures
            final(self).wf(),
            final(self)@.name == old(self)@.name,
            final(self)@.policies == old(self)@.policies,
            exists|new_uuid: u128|
                ingest_result(old(self)@, text@, rich, created_at, new_uuid, r, final(self)@.items),
    {
        let new_uuid = new_uuid_v4();
        self.ingest_text_with_id(text, rich, created_at, new_uuid)
    }

    /// `ingest_text` with the identifier a newly added entry receives given by the caller.
    pub fn ingest_text_with_id(
        &mut self,
        text: &str,
        rich: Option<RichPayload>,
        created_at: u64,
        new_uuid: u128,
    ) -> (r: IngestOutcome)
        requires
            old(self).wf(),
            ingest_fits(old(self)@, text@, rich),
        ensures
            final(self).wf(),
            final(self)@.name == old(self)@.name,
            final(self)@.policies == old(self)@.policies,
            ingest_result(old(self)@, text@, rich, created_at, new_uuid, r, final(self)@.items),
    {
        let prepared = self.prepare_text(text);
        if prepared.as_str().is_empty() {
            return IngestOutcome::RejectedTextSize;
        }
        let prepared_bytes = prepared.as_str().len();
        if prepared_bytes < self.policies.min_text_item_size
            || prepared_bytes > self.policies.max_text_item_size {
            return IngestOutcome::RejectedTextSize;
        }
        assert(size_accepted(self.policies, prepared@));
        if self.policies.growing_lines && self.grows_front(&prepared) {
            let uuid = self.replace_front(prepared, rich, created_at);
            return IngestOutcome::ReplacedGrowingLine { uuid };
        }
        let checksum = text_checksum(prepared.as_str());
        proof {
            lemma_first_with_fingerprint(self@.items, checksum@);
        }
        match self.find_text_by_checksum(&checksum) {
            Some(index) => {
                let uuid = self.items[index].uuid;
                self.move_to_front(index);
                IngestOutcome::MovedExisting { uuid }
            },
            None => {
                let mut item = HistoryItem::new_text_with_id(new_uuid, prepared, rich, created_at);
                let display = match item.plain_text() {
                    Some(plain) => truncate_display(plain, self.policies.element_display_size),
                    None => truncate_display("", self.policies.element_display_size),
                };
                item.display = display;
                let ghost new_item = item;
                self.push_front(item);
                assert(is_ingested_item(
                    new_item,
                    new_uuid,
                    prepare_spec(old(self)@.policies, text@),
                    rich,
                    created_at,
                    old(self)@.policies.element_display_size as nat,
                ));
                IngestOutcome::Added
            },
        }
    }

    pub fn select(&mut self, uuid: u128) -> (r: Result<usize, Error>)
        requires
            old(self).wf(),
        ensures
            final(self).wf(),
            final(self)@.name == old(self)@.name,
            final(self)@.policies == old(self)@.policies,
            match first_with_uuid(old(self)@.items, uuid) {
                Some(i) => r == Ok::<usize, Error>(0) && final(self)@.items == move_to_front_spec(
                    old(self)@.items,
                    i,
                ),
                None => r == Err::<usize, Error>(Error::NotFound(uuid)) && final(self)@.items == old(
                    self,
                )@.items,
            },
    {
        proof {
            lemma_first_with_uuid(self@.items, uuid);
        }
        match self.find_index(uuid) {
            Some(index) => {
                self.move_to_front(index);
                Ok(0)
            },
            None => Err(Error::NotFound(uuid)),
        }
    }

    /// GPaste-compatible: always removes the newest entry (index 0).
    pub fn pop(&mut self) -> (r: Option<HistoryItem>)
        requires
            old(self).wf(),
        ensures
            final(self).wf(),
            final(self)@.name == old(self)@.name,
            final(self)@.policies == old(self)@.policies,
            old(self)@.items.len() == 0 ==> r is None && final(self)@.items == old(self)@.items,
            old(self)@.items.len() > 0 ==> r == Some(old(self)@.items[0]) && final(self)@.items
                == old(self)@.items.drop_first(),
    {
        if self.items.len() == 0 {
            return None;
        }
        let item = self.items.remove(0);
        proof {
            lemma_total_remove(old(self)@.items, 0);
            assert(old(self)@.items.remove(0) =~= old(self)@.items.drop_first());
        }
        self.byte_total = total_after_removal(self.byte_total, item.byte_size, &self.items);
        Some(item)
    }

    pub fn delete(&mut self, uuid: u128) -> (r: Result<(HistoryItem, usize), Error>)
        requires
            old(self).wf(),
        ensures
            final(self).wf(),
            final(self)@.name == old(self)@.name,
            final(self)@.policies == old(self)@.policies,
            match first_with_uuid(old(self)@.items, uuid) {
                Some(i) => r == Ok::<(HistoryItem, usize), Error>((old(self)@.items[i], i as usize))
                    && final(self)@.items == old(self)@.items.remove(i),
                None => r == Err::<(HistoryItem, usize), Error>(Error::NotFound(uuid))
                    && final(self)@.items == old(self)@.items,
            },
    {
        proof {
            lemma_first_with_uuid(self@.items, uuid);
        }
        match self.find_index(uuid) {
            Some(index) => {
                let item = self.items.remove(index);
                proof {
                    lemma_total_remove(old(self)@.items, index as int);
                }
                self.byte_total = total_after_removal(self.byte_total, item.byte_size, &self.items);
                Ok((item, index))
            },
            None => Err(Error::NotFound(uuid)),
        }
    }

    /// A copy holding the same name, policies, byte total and entries.
    pub fn duplicate(&self) -> (r: Self)
        ensures
            same_history(r@, self@),
            self.wf() ==> r.wf(),
    {
        let mut items: Vec<HistoryItem> = Vec::new();
        let mut i: usize = 0;
        while i < self.items.len()
            invariant
                i <= self.items@.len(),
                items@.len() == i,
                forall|j: int| 0 <= j < i ==> same_item(#[trigger] items@[j], self.items@[j]),
            decreases self.items.len() - i,
        {
            items.push(self.items[i].duplicate());
            i = i + 1;
        }
        proof {
            lemma_total_same_items(items@, self.items@);
        }
        History { name: self.name.clone(), items, policies: self.policies, byte_total: self.byte_total }
    }

    pub fn empty(&mut self)
        ensures
            final(self).wf(),
            final(self)@.name == old(self)@.name,
            final(self)@.policies == old(self)@.policies,
            final(self)@.items == Seq::<HistoryItem>::empty(),
            final(self)@.byte_total == 0,
    {
        self.items.clear();
        self.byte_total = 0;
    }

    fn prepare_text(&self, text: &str) -> (r: String)
        ensures
            r@ == prepare_spec(self.policies, text@),
    {
        if self.policies.trim_items {
            let chars = str_chars(text);
            let trimmed = trim_chars(chars.as_slice());
            chars_to_string(trimmed.as_slice())
        } else {
            text.to_owned()
        }
    }

    /// Whether `new_text` extends the newest entry's text.
    fn grows_front(&self, new_text: &String) -> (r: bool)
        ensures
            r == grows_newest(self@.items, new_text@),
    {
        if self.items.len() == 0 {
            return false;
        }
        match self.items[0].plain_text() {
            None => false,
            Some(previous) => {
                let new_chars = str_chars(new_text.as_str());
                let prev_chars = str_chars(previous);
                if !chars_start_with(new_chars.as_slice(), prev_chars.as_slice()) {
                    return false;
                }
                new_text.as_str().len() > previous.len()
            },
        }
    }

    fn find_text_by_checksum(&self, checksum: &[u8; 32]) -> (r: Option<usize>)
        ensures
            r matches Some(i) ==> first_with_fingerprint(self@.items, checksum@) == Some(i as int),
            r is None ==> first_with_fingerprint(self@.items, checksum@) is None,
    {
        proof {
            lemma_first_with_fingerprint(self@.items, checksum@);
        }
        let mut i: usize = 0;
        while i < self.items.len()
            invariant
                i <= self.items@.len(),
                forall|j: int| 0 <= j < i ==> !has_fingerprint(#[trigger] self.items@[j], checksum@),
            decreases self.items.len() - i,
        {
            match self.items[i].plain_text() {
                Some(plain) => {
                    let sum = text_checksum(plain);
                    if same_digest(&sum, checksum) {
                        proof {
                            lemma_first_with_fingerprint_at(self@.items, checksum@, i as int);
                        }
                        return Some(i);
                    }
                },
                None => {},
            }
            i = i + 1;
        }
        None
    }

    /// Replaces the newest entry by the grown text, keeping its identifier.
    fn replace_front(&mut self, new_text: String, rich: Option<RichPayload>, created_at: u64) -> (r:
        u128)
        requires
            old(self).wf(),
            old(self)@.items.len() > 0,
            rich_byte_len(rich) <= usize::MAX,
            text_item_size(new_text@, rich) <= u64::MAX,
        ensures
            final(self).wf(),
            final(self)@.name == old(self)@.name,
            final(self)@.policies == old(self)@.policies,
            r == old(self)@.items[0].uuid,
            final(self)@.items.len() == old(self)@.items.len(),
            is_ingested_item(
                final(self)@.items[0],
                r,
                new_text@,
                rich,
                created_at,
                old(self)@.policies.element_display_size as nat,
            ),
            final(self)@.items.skip(1) == old(self)@.items.skip(1),
    {
        let uuid = self.items[0].uuid;
        let mut item = HistoryItem::new_text_with_id(uuid, new_text, rich, created_at);
        let display = match item.plain_text() {
            Some(plain) => truncate_display(plain, self.policies.element_display_size),
            None => truncate_display("", self.policies.element_display_size),
        };
        item.display = display;
        let new_size = item.byte_size;
        let old_size = self.items[0].byte_size;
        proof {
            lemma_total_remove(old(self)@.items, 0);
            lemma_total_concat(seq![item], old(self)@.items.remove(0));
            lemma_total_single(item);
            assert(old(self)@.items.update(0, item) =~= seq![item] + old(self)@.items.remove(0));
        }
        self.items.set(0, item);
        self.byte_total = if self.byte_total == u64::MAX {
            count_bytes(&self.items)
        } else {
            (self.byte_total - old_size).saturating_add(new_size)
        };
        assert(final(self)@.items.skip(1) =~= old(self)@.items.skip(1));
        uuid
    }

    fn push_front(&mut self, item: HistoryItem)
        requires
            old(self).wf(),
        ensures
            final(self).wf(),
            final(self)@.name == old(self)@.name,
            final(self)@.policies == old(self)@.policies,
            final(self)@.items == enforce_limits_spec(seq![item] + old(self)@.items, old(self)@.policies),
    {
        proof {
            lemma_total_concat(seq![item], self@.items);
            lemma_total_single(item);
        }
        self.byte_total = self.byte_total.saturating_add(item.byte_size);
        self.items.insert(0, item);
        assert(self.items@ =~= seq![item] + old(self)@.items);
        self.enforce_limits();
    }

    fn move_to_front(&mut self, index: usize)
        requires
            old(self).wf(),
            index < old(self)@.items.len(),
        ensures
            final(self).wf(),
            final(self)@.name == old(self)@.name,
            final(self)@.policies == old(self)@.policies,
            final(self)@.items == move_to_front_spec(old(self)@.items, index as int),
    {
        if index == 0 {
            assert(move_to_front_spec(self@.items, 0) =~= self@.items);
            return;
        }
        let item = self.items.remove(index);
        self.items.insert(0, item);
        proof {
            lemma_total_remove(old(self)@.items, index as int);
            lemma_total_concat(seq![item], old(self)@.items.remove(index as int));
            lemma_total_single(item);
            assert(self.items@ =~= move_to_front_spec(old(self)@.items, index as int));
        }
    }

    fn enforce_limits(&mut self)
        requires
            old(self).wf(),
        ensures
            final(self).wf(),
            final(self)@.name == old(self)@.name,
            final(self)@.policies == old(self)@.policies,
            final(self)@.items == enforce_limits_spec(old(self)@.items, old(self)@.policies),
    {
        while self.items.len() > self.policies.max_history_size
            invariant
                self.wf(),
                self.name == old(self).name,
                self.policies == old(self).policies,
                self.items@.len() >= old(self).items@.len() ==> self.items@ == old(self).items@,
                self.items@.len() < old(self).items@.len() ==> self.items@.len()
                    >= self.policies.max_history_size,
                self.items@ == old(self).items@.take(self.items@.len() as int),
            decreases self.items.len(),
        {
            let ghost before = self.items@;
            match self.items.pop() {
                Some(item) => {
                    proof {
                        lemma_total_remove(before, before.len() - 1);
                        assert(before.remove(before.len() - 1) =~= before.drop_last());
                    }
                    self.byte_total = total_after_removal(self.byte_total, item.byte_size, &self.items);
                    assert(self.items@ =~= old(self).items@.take(self.items@.len() as int));
                },
                None => {},
            }
        }
        let ghost counted = self.items@;
        assert(counted == if old(self).items@.len() > old(self).policies.max_history_size {
            old(self).items@.take(old(self).policies.max_history_size as int)
        } else {
            old(self).items@
        });
        while self.byte_total > self.policies.max_memory_usage_bytes
            invariant
                self.wf(),
                self.name == old(self).name,
                self.policies == old(self).policies,
                trim_to_budget(self.items@, self.policies.max_memory_usage_bytes) == trim_to_budget(
                    counted,
                    self.policies.max_memory_usage_bytes,
                ),
            ensures
                self.byte_total <= self.policies.max_memory_usage_bytes || self.items@.len() == 0,
            decreases self.items.len(),
        {
            let ghost before = self.items@;
            match self.items.pop() {
                Some(item) => {
                    proof {
                        lemma_total_remove(before, before.len() - 1);
                        assert(before.remove(before.len() - 1) =~= before.drop_last());
                        assert(trim_to_budget(before, self.policies.max_memory_usage_bytes)
                            == trim_to_budget(before.drop_last(), self.policies.max_memory_usage_bytes));
                    }
                    self.byte_total = total_after_removal(self.byte_total, item.byte_size, &self.items);
                },
                None => {
                    break;
                },
            }
        }
        assert(trim_to_budget(self.items@, self.policies.max_memory_usage_bytes) == self.items@);
    }
}

} // verus!

verus! {

proof fn lemma_trim_to_budget(s: Seq<HistoryItem>, budget: u64)
    ensures
        clamped_total(trim_to_budget(s, budget)) <= budget,
        trim_to_budget(s, budget).len() <= s.len(),
        trim_to_budget(s, budget) == s.take(trim_to_budget(s, budget).len() as int),
    decreases s.len(),
{
    if clamped_total(s) <= budget || s.len() == 0 {
        assert(s.take(s.len() as int) =~= s);
    } else {
        lemma_trim_to_budget(s.drop_last(), budget);
        let r = trim_to_budget(s.drop_last(), budget);
        assert(s.drop_last().take(r.len() as int) =~= s.take(r.len() as int));
    }
}

/// After the limits are applied, the history holds at most `max_history_size` entries,
/// their sizes add up to at most `max_memory_usage_bytes` (a budget of `u64::MAX` only
/// bounds the saturated total), and they are the newest entries of the input, in order.
pub proof fn lemma_limits_hold(s: Seq<HistoryItem>, p: HistoryPolicies)
    ensures
        enforce_limits_spec(s, p).len() <= p.max_history_size,
        enforce_limits_spec(s, p).len() <= s.len(),
        clamped_total(enforce_limits_spec(s, p)) <= p.max_memory_usage_bytes,
        p.max_memory_usage_bytes < u64::MAX ==> total_size(enforce_limits_spec(s, p))
            <= p.max_memory_usage_bytes,
        enforce_limits_spec(s, p) == s.take(enforce_limits_spec(s, p).len() as int),
{
    let counted = if s.len() > p.max_history_size {
        s.take(p.max_history_size as int)
    } else {
        s
    };
    lemma_trim_to_budget(counted, p.max_memory_usage_bytes);
    let r = trim_to_budget(counted, p.max_memory_usage_bytes);
    assert(counted.take(r.len() as int) =~= s.take(r.len() as int));
}

/// An added entry becomes the newest entry, unless the limits evicted it at once.
pub proof fn lemma_added_entry_is_newest(
    h: HistoryView,
    text: Seq<char>,
    rich: Option<RichPayload>,
    created_at: u64,
    new_uuid: u128,
    items: Seq<HistoryItem>,
)
    requires
        ingest_result(h, text, rich, created_at, new_uuid, IngestOutcome::Added, items),
        items.len() > 0,
    ensures
        is_ingested_item(
            items[0],
            new_uuid,
            prepare_spec(h.policies, text),
            rich,
            created_at,
            h.policies.element_display_size as nat,
        ),
        items.skip(1) == h.items.take(items.len() - 1),
{
    let p = h.policies;
    let prepared = prepare_spec(p, text);
    assert(size_accepted(p, prepared));
    assert(!(p.growing_lines && grows_newest(h.items, prepared)));
    assert(first_with_fingerprint(h.items, text_fingerprint(prepared)) is None);
    assert(exists|item: HistoryItem|
        is_ingested_item(item, new_uuid, prepared, rich, created_at, p.element_display_size as nat)
            && items == enforce_limits_spec(seq![item] + h.items, p));
    let item = choose|item: HistoryItem|
        is_ingested_item(item, new_uuid, prepared, rich, created_at, p.element_display_size as nat)
            && items == enforce_limits_spec(seq![item] + h.items, p);
    let full = seq![item] + h.items;
    lemma_limits_hold(full, p);
    assert(items == full.take(items.len() as int));
    assert(items[0] == full[0]);
    assert(items.skip(1) =~= h.items.take(items.len() - 1));
}

/// Copying the same text again right after it was added does not add a second entry:
/// the existing entry is reported and the history is left as it was.
pub proof fn lemma_reingest_is_idempotent(
    h: HistoryView,
    text: Seq<char>,
    rich: Option<RichPayload>,
    created_at: u64,
    new_uuid: u128,
    items: Seq<HistoryItem>,
    rich2: Option<RichPayload>,
    created_at2: u64,
    new_uuid2: u128,
    outcome2: IngestOutcome,
    items2: Seq<HistoryItem>,
)
    requires
        ingest_result(h, text, rich, created_at, new_uuid, IngestOutcome::Added, items),
        items.len() > 0,
        ingest_result(
            HistoryView { items, byte_total: clamped_total(items), ..h },
            text,
            rich2,
            created_at2,
            new_uuid2,
            outcome2,
            items2,
        ),
    ensures
        outcome2 == (IngestOutcome::MovedExisting { uuid: new_uuid }),
        items2 == items,
{
    lemma_added_entry_is_newest(h, text, rich, created_at, new_uuid, items);
    let p = h.policies;
    let prepared = prepare_spec(p, text);
    let h2 = HistoryView { items, byte_total: clamped_total(items), ..h };
    assert(h2.policies == p);
    assert(size_accepted(p, prepared)) by {
        assert(size_accepted(p, prepared) || !size_accepted(p, prepared));
    }
    assert(plain_of(items[0].kind) == Some(prepared));
    assert(!grows_newest(items, prepared));
    assert(has_fingerprint(items[0], text_fingerprint(prepared)));
    assert(first_with_fingerprint(items, text_fingerprint(prepared)) == Some(0int));
    assert(move_to_front_spec(items, 0) =~= items);
}

} // verus!

verus! {

/// No text is held by two entries.
pub open spec fn texts_distinct(items: Seq<HistoryItem>) -> bool {
    forall|i: int, j: int|
        #![trigger items[i], items[j]]
        0 <= i < j < items.len() && plain_of(items[i].kind) is Some ==> plain_of(items[j].kind)
            != plain_of(items[i].kind)
}

proof fn lemma_distinct_prefix(s: Seq<HistoryItem>, k: int)
    requires
        texts_distinct(s),
        0 <= k <= s.len(),
    ensures
        texts_distinct(s.take(k)),
{
    let t = s.take(k);
    assert forall|i: int, j: int|
        0 <= i < j < t.len() && plain_of(t[i].kind) is Some implies plain_of(t[j].kind) != plain_of(
            t[i].kind,
        ) by {
        assert(t[i] == s[i] && t[j] == s[j]);
    }
}

/// Without growing lines, ingest never leaves one text in two entries, and when the count
/// and memory limits held before, they hold after (the byte total stays the sum of the
/// sizes by `History::wf`).
pub proof fn lemma_ingest_keeps_entries_distinct(
    h: HistoryView,
    text: Seq<char>,
    rich: Option<RichPayload>,
    created_at: u64,
    new_uuid: u128,
    outcome: IngestOutcome,
    items: Seq<HistoryItem>,
)
    requires
        ingest_result(h, text, rich, created_at, new_uuid, outcome, items),
        !h.policies.growing_lines,
        texts_distinct(h.items),
    ensures
        texts_distinct(items),
        h.items.len() <= h.policies.max_history_size && clamped_total(h.items)
            <= h.policies.max_memory_usage_bytes ==> items.len() <= h.policies.max_history_size
            && clamped_total(items) <= h.policies.max_memory_usage_bytes,
{
    let p = h.policies;
    let old_items = h.items;
    let prepared = prepare_spec(p, text);
    let digest = text_fingerprint(prepared);
    lemma_first_with_fingerprint(old_items, digest);
    if !size_accepted(p, prepared) {
    } else if let Some(d) = first_with_fingerprint(old_items, digest) {
        let rest = old_items.remove(d);
        assert(items == seq![old_items[d]] + rest);
        assert forall|i: int, j: int|
            0 <= i < j < items.len() && plain_of(items[i].kind) is Some implies plain_of(items[j].kind)
                != plain_of(items[i].kind) by {
            let j2 = if j - 1 < d { j - 1 } else { j };
            assert(items[j] == old_items[j2]);
            if i == 0 {
                assert(items[0] == old_items[d]);
            } else {
                let i2 = if i - 1 < d { i - 1 } else { i };
                assert(items[i] == old_items[i2]);
            }
        }
        lemma_total_remove(old_items, d);
        lemma_total_concat(seq![old_items[d]], rest);
        lemma_total_single(old_items[d]);
    } else {
        let item = choose|item: HistoryItem|
            is_ingested_item(item, new_uuid, prepared, rich, created_at, p.element_display_size as nat)
                && items == enforce_limits_spec(seq![item] + old_items, p);
        let full = seq![item] + old_items;
        assert forall|i: int, j: int|
            0 <= i < j < full.len() && plain_of(full[i].kind) is Some implies plain_of(full[j].kind)
                != plain_of(full[i].kind) by {
            assert(full[j] == old_items[j - 1]);
            if i == 0 {
                assert(plain_of(full[0].kind) == Some(prepared));
                assert(!has_fingerprint(old_items[j - 1], digest));
            } else {
                assert(full[i] == old_items[i - 1]);
            }
        }
        lemma_limits_hold(full, p);
        lemma_distinct_prefix(full, items.len() as int);
    }
}

} // verus!
