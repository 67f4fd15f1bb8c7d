//! Which history entry is "active" for prev/next navigation and panel status.

use vstd::prelude::*;

use crate::error::Error;

verus! {

/// Tracks the active entry (0 = newest) and whether navigation wraps at the ends.
#[derive(Clone, Copy, Debug, PartialEq, Eq, Structural)]
pub struct ActiveIndexState {
    active_index: usize,
    navigation_wrap: bool,
}

/// Where wrapping navigation from `active` by `offset` lands in a history of `len` entries:
/// the Euclidean remainder of the 32-bit sum by the 32-bit length, as navigation's
/// `i32` arithmetic computes it.
pub open spec fn wrapped_target(active: usize, len: usize, offset: i32) -> int {
    ((active as i32) + offset) % ((len as i32) as int)
}

/// Where clamped navigation from `active` by `offset` would land (may lie outside the history).
pub open spec fn clamped_target(active: usize, offset: i32) -> int {
    (active as i32) + offset
}

/// Whether the `i32` arithmetic of `select_at_offset` stays in range (it would overflow
/// otherwise).
pub open spec fn offset_arith_ok(active: usize, wrap: bool, len: usize, offset: i32) -> bool {
    &&& i32::MIN <= (active as i32) + offset <= i32::MAX
    &&& wrap && len > 0 ==> (len as i32) != 0
    &&& wrap && len > 0 ==> !((active as i32) + offset == i32::MIN && (len as i32) == -1)
}

/// The outcome of `select_at_offset`: the new active index, or the error.
pub open spec fn select_at_offset_result(active: usize, wrap: bool, len: usize, offset: i32) -> Result<
    usize,
    Error,
> {
    if len == 0 {
        Err(Error::EmptyHistory)
    } else if wrap {
        Ok(wrapped_target(active, len, offset) as usize)
    } else if clamped_target(active, offset) < 0 || clamped_target(active, offset) >= (len as i32) {
        Err(Error::NavigationBoundary { index: active, len })
    } else {
        Ok(clamped_target(active, offset) as usize)
    }
}

/// The active index after the entry at `deleted` was removed, leaving `len_after` entries.
pub open spec fn after_delete(active: usize, deleted: usize, len_after: usize) -> usize {
    if len_after == 0 {
        0
    } else if deleted < active {
        (active - 1) as usize
    } else if deleted == active {
        if active <= len_after - 1 {
            active
        } else {
            (len_after - 1) as usize
        }
    } else {
        active
    }
}

/// With wrapping on, navigation from anywhere in a non-empty history lands inside it.
pub proof fn lemma_wrapping_navigation_stays_in_range(active: usize, len: usize, offset: i32)
    requires
        0 < len <= i32::MAX,
        active <= i32::MAX,
        offset_arith_ok(active, true, len, offset),
    ensures
        select_at_offset_result(active, true, len, offset) matches Ok(i) && i < len,
{
    assert((len as i32) as int == len);
    let t = wrapped_target(active, len, offset);
    assert(0 <= t < len) by (nonlinear_arith)
        requires
            t == ((active as i32) + offset) % (len as int),
            len > 0,
    ;
}

/// Moving by `offset` and then by `-offset` comes back to the entry one started from,
/// with or without wrapping, whenever the first move succeeded inside the history.
pub proof fn lemma_navigation_round_trip(active: usize, wrap: bool, len: usize, offset: i32)
    requires
        active < len <= i32::MAX,
        offset > i32::MIN,
        offset_arith_ok(active, wrap, len, offset),
        select_at_offset_result(active, wrap, len, offset) is Ok,
        offset_arith_ok(
            select_at_offset_result(active, wrap, len, offset)->Ok_0,
            wrap,
            len,
            (-offset) as i32,
        ),
    ensures
        select_at_offset_result(
            select_at_offset_result(active, wrap, len, offset)->Ok_0,
            wrap,
            len,
            (-offset) as i32,
        ) == Ok::<usize, Error>(active),
{
    assert((len as i32) as int == len);
    assert((active as i32) as int == active);
    let t = select_at_offset_result(active, wrap, len, offset)->Ok_0;
    if wrap {
        let s = active + offset;
        let n = len as int;
        let m = s % n;
        assert(0 <= m < n) by (nonlinear_arith)
            requires
                m == s % n,
                n > 0,
        ;
        assert(t as int == m);
        assert((t as i32) as int == m);
        vstd::arithmetic::div_mod::lemma_fundamental_div_mod(s, n);
        let q = s / n;
        assert(m - offset == (-q) * n + active) by (nonlinear_arith)
            requires
                s == n * q + m,
                s == active + offset,
        ;
        vstd::arithmetic::div_mod::lemma_fundamental_div_mod_converse(m - offset, n, -q, active as int);
    } else {
        assert((t as i32) as int == active + offset);
    }
}

impl ActiveIndexState {
    /// The active index.
    pub closed spec fn active(&self) -> usize {
        self.active_index
    }

    /// Whether navigation wraps around at the ends.
    pub closed spec fn wraps(&self) -> bool {
        self.navigation_wrap
    }

    pub fn new(navigation_wrap: bool) -> (s: Self)
        ensures
            s.active() == 0,
            s.wraps() == navigation_wrap,
    {
        Self { active_index: 0, navigation_wrap }
    }

    pub fn active_index(&self) -> (r: usize)
        ensures
            r == self.active(),
    {
        self.active_index
    }

    pub fn set_navigation_wrap(&mut self, wrap: bool)
        ensures
            final(self).wraps() == wrap,
            final(self).active() == old(self).active(),
    {
        self.navigation_wrap = wrap;
    }

    pub fn on_external_ingest(&mut self)
        ensures
            final(self).active() == 0,
            final(self).wraps() == old(self).wraps(),
    {
        self.active_index = 0;
    }

    pub fn on_select(&mut self)
        ensures
            final(self).active() == 0,
            final(self).wraps() == old(self).wraps(),
    {
        self.active_index = 0;
    }

    pub fn on_pop(&mut self)
        ensures
            final(self).active() == 0,
            final(self).wraps() == old(self).wraps(),
    {
        self.active_index = 0;
    }

    pub fn on_switch_history(&mut self)
        ensures
            final(self).active() == 0,
            final(self).wraps() == old(self).wraps(),
    {
        self.active_index = 0;
    }

    pub fn on_empty_history(&mut self)
        ensures
            final(self).active() == 0,
            final(self).wraps() == old(self).wraps(),
    {
        self.active_index = 0;
    }

    /// Growing-lines replace keeps the entry at the front; active index stays at 0.
    pub fn on_growing_lines_replace(&mut self)
        ensures
            final(self).active() == 0,
            final(self).wraps() == old(self).wraps(),
    {
        self.active_index = 0;
    }

    /// Preview-only highlight; does not write clipboard.
    pub fn set_active_index(&mut self, index: usize, history_len: usize) -> (r: Result<usize, Error>)
        ensures
            final(self).wraps() == old(self).wraps(),
            history_len == 0 ==> r == Ok::<usize, Error>(0) && final(self).active() == 0,
            history_len > 0 && index < history_len ==> r == Ok::<usize, Error>(index)
                && final(self).active() == index,
            history_len > 0 && index >= history_len ==> r == Err::<usize, Error>(
                Error::ActiveIndexOutOfRange { index, len: history_len },
            ) && final(self).active() == old(self).active(),
    {
        if history_len == 0 {
            self.active_index = 0;
            return Ok(0);
        }
        if index >= history_len {
            return Err(Error::ActiveIndexOutOfRange { index, len: history_len });
        }
        self.active_index = index;
        Ok(self.active_index)
    }

    /// Whether `select_at_offset` can move by `offset` in a history of `history_len`
    /// entries without leaving 32-bit arithmetic.
    pub fn offset_in_range(&self, history_len: usize, offset: i32) -> (r: bool)
        ensures
            r == offset_arith_ok(self.active(), self.wraps(), history_len, offset),
    {
        let current = self.active_index as i32;
        let sum = current as i64 + offset as i64;
        if sum < -2147483648i64 || sum > 2147483647i64 {
            return false;
        }
        if self.navigation_wrap && history_len > 0 {
            let len = history_len as i32;
            if len == 0 {
                return false;
            }
            if sum == -2147483648i64 && len == -1 {
                return false;
            }
        }
        true
    }

    /// Global prev/next shortcuts: offset -1 = newer, +1 = older.
    pub fn select_at_offset(&mut self, history_len: usize, offset: i32) -> (r: Result<usize, Error>)
        requires
            offset_arith_ok(old(self).active(), old(self).wraps(), history_len, offset),
        ensures
            r == select_at_offset_result(old(self).active(), old(self).wraps(), history_len, offset),
            final(self).wraps() == old(self).wraps(),
            final(self).active() == match r {
                Ok(i) => i,
                Err(_) => old(self).active(),
            },
    {
        if history_len == 0 {
            return Err(Error::EmptyHistory);
        }
        let current = self.active_index as i32;
        let target: usize = if self.navigation_wrap {
            let len = history_len as i32;
            match (current + offset).checked_rem_euclid(len) {
                Some(t) => t as usize,
                None => {
                    return Err(Error::EmptyHistory);
                },
            }
        } else {
            let t = current + offset;
            if t < 0 || t >= history_len as i32 {
                return Err(Error::NavigationBoundary { index: self.active_index, len: history_len });
            }
            t as usize
        };
        self.active_index = target;
        Ok(self.active_index)
    }

    pub fn on_delete(&mut self, deleted_index: usize, history_len_after: usize)
        ensures
            final(self).active() == after_delete(
                old(self).active(),
                deleted_index,
                history_len_after,
            ),
            final(self).wraps() == old(self).wraps(),
    {
        if history_len_after == 0 {
            self.active_index = 0;
            return;
        }
        if deleted_index < self.active_index {
            self.active_index = self.active_index - 1;
        } else if deleted_index == self.active_index {
            self.active_index = if self.active_index <= history_len_after - 1 {
                self.active_index
            } else {
                history_len_after - 1
            };
        }
    }
}

impl Default for ActiveIndexState {
    fn default() -> (s: Self)
        ensures
            s.active() == 0,
            !s.wraps(),
    {
        Self::new(false)
    }
}

} // verus!
