//! A history together with its active-index state, kept consistent across mutations.

use vstd::prelude::*;

use crate::active_index::{after_delete, offset_arith_ok, select_at_offset_result, ActiveIndexState};
use crate::error::Error;
use crate::history::{
    first_with_uuid, ingest_fits, ingest_result, same_history, History, IngestOutcome, default_policies,
};
use crate::item::{HistoryItem, RichPayload};

verus! {

/// Coordinates history mutations with active-index transitions.
#[derive(Clone, Debug)]
pub struct HistorySession {
    pub history: History,
    pub active_index: ActiveIndexState,
}

impl HistorySession {
    pub fn new(history: History, navigation_wrap: bool) -> (s: Self)
        ensures
            s.history == history,
            s.active_index.active() == 0,
            s.active_index.wraps() == navigation_wrap,
    {
        Self { history, active_index: ActiveIndexState::new(navigation_wrap) }
    }

    pub fn with_defaults(name: &str) -> (s: Self)
        ensures
            s.history.wf(),
            s.history@.name == name@,
            s.history@.items.len() == 0,
            s.history@.policies == default_policies(),
            s.history@.byte_total == 0,
            s.active_index.active() == 0,
            !s.active_index.wraps(),
    {
        Self::new(History::with_defaults(name), false)
    }

    pub fn ingest_text(&mut self, text: &str, rich: Option<RichPayload>, created_at: u64) -> (r:
        IngestOutcome)
        requires
            old(self).history.wf(),
            ingest_fits(old(self).history@, text@, rich),
        ensures
            final(self).history.wf(),
            final(self).history@.name == old(self).history@.name,
            final(self).history@.policies == old(self).history@.policies,
            exists|new_uuid: u128|
                ingest_result(
                    old(self).history@,
                    text@,
                    rich,
                    created_at,
                    new_uuid,
                    r,
                    final(self).history@.items,
                ),
            final(self).active_index.wraps() == old(self).active_index.wraps(),
            r is RejectedTextSize ==> final(self).active_index.active() == old(self).active_index.active(),
            !(r is RejectedTextSize) ==> final(self).active_index.active() == 0,
    {
        let outcome = self.history.ingest_text(text, rich, created_at);
        match outcome {
            IngestOutcome::Added
            | IngestOutcome::MovedExisting { .. }
            | IngestOutcome::ReplacedGrowingLine { .. } => {
                self.active_index.on_external_ingest();
            },
            IngestOutcome::RejectedTextSize => {},
        }
        outcome
    }

    pub fn select(&mut self, uuid: u128) -> (r: Result<usize, Error>)
        requires
            old(self).history.wf(),
        ensures
            final(self).history.wf(),
            final(self).history@.name == old(self).history@.name,
            final(self).history@.policies == old(self).history@.policies,
            final(self).active_index.wraps() == old(self).active_index.wraps(),
            match first_with_uuid(old(self).history@.items, uuid) {
                Some(i) => r == Ok::<usize, Error>(0) && final(self).history@.items
                    == crate::history::move_to_front_spec(old(self).history@.items, i)
                    && final(self).active_index.active() == 0,
                None => r == Err::<usize, Error>(Error::NotFound(uuid)) && final(self).history@.items
                    == old(self).history@.items && final(self).active_index.active() == old(
                    self,
                ).active_index.active(),
            },
    {
        let index = match self.history.select(uuid) {
            Ok(i) => i,
            Err(e) => {
                return Err(e);
            },
        };
        self.active_index.on_select();
        Ok(index)
    }

    /// Global prev/next navigation; returns the new active index and its entry.
    pub fn select_at_offset(&mut self, offset: i32) -> (r: Result<(usize, &HistoryItem), Error>)
        requires
            offset_arith_ok(
                old(self).active_index.active(),
                old(self).active_index.wraps(),
                old(self).history@.items.len() as usize,
                offset,
            ),
        ensures
            final(self).history == old(self).history,
            final(self).active_index.wraps() == old(self).active_index.wraps(),
            match select_at_offset_result(
                old(self).active_index.active(),
                old(self).active_index.wraps(),
                old(self).history@.items.len() as usize,
                offset,
            ) {
                Err(e) => r == Err::<(usize, &HistoryItem), Error>(e) && final(self).active_index.active()
                    == old(self).active_index.active(),
                Ok(i) => final(self).active_index.active() == i && if i < old(
                    self,
                ).history@.items.len() {
                    r == Ok::<(usize, &HistoryItem), Error>((i, &old(self).history@.items[i as int]))
                } else {
                    r == Err::<(usize, &HistoryItem), Error>(
                        Error::ActiveIndexOutOfRange {
                            index: i,
                            len: old(self).history@.items.len() as usize,
                        },
                    )
                },
            },
    {
        let len = self.history.len();
        let index = match self.active_index.select_at_offset(len, offset) {
            Ok(i) => i,
            Err(e) => {
                return Err(e);
            },
        };
        match self.history.get(index) {
            Some(item) => Ok((index, item)),
            None => Err(Error::ActiveIndexOutOfRange { index, len: self.history.len() }),
        }
    }

    pub fn pop(&mut self) -> (r: Option<HistoryItem>)
        requires
            old(self).history.wf(),
        ensures
            final(self).history.wf(),
            final(self).history@.name == old(self).history@.name,
            final(self).history@.policies == old(self).history@.policies,
            final(self).active_index.wraps() == old(self).active_index.wraps(),
            old(self).history@.items.len() == 0 ==> r is None && final(self).history@.items == old(
                self,
            ).history@.items && final(self).active_index.active() == old(self).active_index.active(),
            old(self).history@.items.len() > 0 ==> r == Some(old(self).history@.items[0])
                && final(self).history@.items == old(self).history@.items.drop_first()
                && final(self).active_index.active() == 0,
    {
        let item = self.history.pop();
        if item.is_some() {
            self.active_index.on_pop();
        }
        item
    }

    pub fn delete(&mut self, uuid: u128) -> (r: Result<HistoryItem, Error>)
        requires
            old(self).history.wf(),
        ensures
            final(self).history.wf(),
            final(self).history@.name == old(self).history@.name,
            final(self).history@.policies == old(self).history@.policies,
            final(self).active_index.wraps() == old(self).active_index.wraps(),
            match first_with_uuid(old(self).history@.items, uuid) {
                Some(i) => r == Ok::<HistoryItem, Error>(old(self).history@.items[i])
                    && final(self).history@.items == old(self).history@.items.remove(i)
                    && final(self).active_index.active() == after_delete(
                    old(self).active_index.active(),
                    i as usize,
                    (old(self).history@.items.len() - 1) as usize,
                ) && (i != old(self).active_index.active() && old(self).active_index.active()
                    < old(self).history@.items.len() ==> final(self).history@.items[final(self).active_index.active() as int]
                    == old(self).history@.items[old(self).active_index.active() as int]),
                None => r == Err::<HistoryItem, Error>(Error::NotFound(uuid))
                    && final(self).history@.items == old(self).history@.items
                    && final(self).active_index.active() == old(self).active_index.active(),
            },
    {
        proof {
            crate::history::lemma_first_with_uuid(old(self).history@.items, uuid);
        }
        let len_before = self.history.len();
        let (item, deleted_index) = match self.history.delete(uuid) {
            Ok(pair) => pair,
            Err(e) => {
                return Err(e);
            },
        };
        let len = self.history.len();
        self.active_index.on_delete(deleted_index, len);
        proof {
            if deleted_index != old(self).active_index.active() && old(self).active_index.active()
                < old(self).history@.items.len() {
                lemma_delete_keeps_active_entry(
                    old(self).history@.items,
                    old(self).active_index.active(),
                    deleted_index as int,
                );
            }
        }
        Ok(item)
    }

    pub fn empty(&mut self)
        ensures
            final(self).history.wf(),
            final(self).history@.name == old(self).history@.name,
            final(self).history@.policies == old(self).history@.policies,
            final(self).history@.items.len() == 0,
            final(self).active_index.active() == 0,
            final(self).active_index.wraps() == old(self).active_index.wraps(),
    {
        self.history.empty();
        self.active_index.on_empty_history();
    }

    /// A copy holding the same history and active index.
    pub fn duplicate(&self) -> (r: Self)
        ensures
            same_session(r, *self),
            self.history.wf() ==> r.history.wf(),
    {
        HistorySession { history: self.history.duplicate(), active_index: self.active_index }
    }

    pub fn history(&self) -> (r: &History)
        ensures
            *r == self.history,
    {
        &self.history
    }

    pub fn active_index(&self) -> (r: &ActiveIndexState)
        ensures
            *r == self.active_index,
    {
        &self.active_index
    }
}

/// Two sessions hold the same history and the same active-index state.
pub open spec fn same_session(a: HistorySession, b: HistorySession) -> bool {
    same_history(a.history@, b.history@) && a.active_index == b.active_index
}

/// Deleting any entry other than the active one keeps the same entry active (an older
/// deletion leaves the index alone, a newer one moves it down by one), and after any
/// deletion the active index still points inside the history (or is 0 when it is empty).
pub proof fn lemma_delete_keeps_active_entry(items: Seq<HistoryItem>, active: usize, deleted: int)
    requires
        0 <= deleted < items.len() <= usize::MAX,
        active < items.len(),
    ensures
        items.len() - 1 == 0 ==> after_delete(active, deleted as usize, (items.len() - 1) as usize)
            == 0,
        items.len() - 1 > 0 ==> after_delete(active, deleted as usize, (items.len() - 1) as usize)
            < items.len() - 1,
        deleted != active ==> items.remove(deleted)[after_delete(
            active,
            deleted as usize,
            (items.len() - 1) as usize,
        ) as int] == items[active as int],
        deleted > active ==> after_delete(active, deleted as usize, (items.len() - 1) as usize)
            == active,
        deleted < active ==> after_delete(active, deleted as usize, (items.len() - 1) as usize)
            == active - 1,
{
    assert(((items.len() - 1) as usize) as int == items.len() - 1);
    if deleted < active {
        assert(items.remove(deleted)[active - 1] == items[active as int]);
    } else if deleted > active {
        assert(items.remove(deleted)[active as int] == items[active as int]);
    }
}

} // verus!
