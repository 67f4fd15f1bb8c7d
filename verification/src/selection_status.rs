//! Active-item status line (`N/count| preview`) for tooltip and navigation toasts,
//! the notification-reply parser, and the toast hide timer.

use std::sync::mpsc::Sender;

use vstd::prelude::*;

use crate::item::{display_line_middle_spec, display_line_spec, format_display_line, format_display_line_middle};
use crate::text::{
    chars_to_string, decimal_spec, digits_value, is_ascii_digit_char, is_control, is_control_char,
    leading_digits, pad_chars, pad_spec, push_decimal, str_chars, utf8_decode,
};

verus! {

/// Width of the tooltip preview line.
pub const PREVIEW_LEN: usize = 72;

/// Fixed width for the tooltip progress line (`18/59|`).
pub const TOOLTIP_PROGRESS_LEN: usize = 10;

/// Toast line 1: `18/59` progress (notification summary field).
pub const TOAST_PROGRESS_LEN: usize = 10;

/// Toast line 2: middle-truncated preview (notification body field).
pub const TOAST_PREVIEW_LEN: usize = 80;

/// No-break space: COSMIC strips trailing ASCII spaces from notification text.
pub const NBSP: char = '\u{a0}';

/// Keep the toast visible while navigating; hide only after this idle period.
pub const HIDE_DEBOUNCE_MS: u64 = 2500;

/// Shortest wait between timer checks while a hide is pending.
pub const MIN_WAIT_MS: u64 = 50;

/// Wait between timer checks when nothing is pending.
pub const IDLE_WAIT_MS: u64 = 3_600_000;

/// On cosmic-notifications, Notify `expire_timeout: 0` means never expire.
pub const NOTIFY_EXPIRE_MS: i32 = 0;

/// `text` with control characters (newlines and tabs among them) replaced by spaces.
pub open spec fn sanitize_spec(text: Seq<char>) -> Seq<char> {
    Seq::new(text.len(), |i: int| if is_control_char(text[i]) { ' ' } else { text[i] })
}

/// The one-based position of `active_index`, saturating at `u32::MAX`.
pub open spec fn position(active_index: u32) -> nat {
    if active_index < u32::MAX {
        (active_index + 1) as nat
    } else {
        u32::MAX as nat
    }
}

/// `position/count`.
pub open spec fn progress_text(active_index: u32, count: u32) -> Seq<char> {
    decimal_spec(position(active_index)) + seq!['/'] + decimal_spec(count as nat)
}

/// The tooltip: padded `position/count|`, a newline, then the padded one-line preview.
pub open spec fn selection_status_spec(active_index: u32, count: u32, preview: Seq<char>) -> Seq<
    char,
> {
    pad_spec(progress_text(active_index, count).push('|'), TOOLTIP_PROGRESS_LEN as nat, ' ') + seq![
        '\n',
    ] + pad_spec(display_line_spec(preview, PREVIEW_LEN as nat), PREVIEW_LEN as nat, ' ')
}

/// The toast body: the sanitised preview, middle-truncated, cut and padded to exactly
/// `TOAST_PREVIEW_LEN` characters with no-break spaces.
pub open spec fn toast_preview_spec(preview: Seq<char>) -> Seq<char> {
    let line = display_line_middle_spec(sanitize_spec(preview), TOAST_PREVIEW_LEN as nat);
    let core = if line.len() <= TOAST_PREVIEW_LEN {
        line
    } else {
        line.take(TOAST_PREVIEW_LEN as int)
    };
    pad_spec(core, TOAST_PREVIEW_LEN as nat, NBSP)
}

pub fn sanitize_notification_text(text: &str) -> (r: String)
    ensures
        r@ == sanitize_spec(text@),
{
    let cs = str_chars(text);
    let mut out: Vec<char> = Vec::new();
    let mut i: usize = 0;
    while i < cs.len()
        invariant
            i <= cs.len(),
            cs@ == text@,
            out@ == sanitize_spec(cs@.take(i as int)),
        decreases cs.len() - i,
    {
        let c = cs[i];
        if is_control(c) {
            out.push(' ');
        } else {
            out.push(c);
        }
        assert(out@ =~= sanitize_spec(cs@.take(i + 1)));
        i = i + 1;
    }
    assert(cs@.take(cs.len() as int) =~= cs@);
    chars_to_string(out.as_slice())
}

pub fn pad_display_line(line: &str, width: usize, pad: char) -> (r: String)
    ensures
        r@ == pad_spec(line@, width as nat, pad),
{
    let cs = str_chars(line);
    let out = pad_chars(cs.as_slice(), width, pad);
    chars_to_string(out.as_slice())
}

pub fn fixed_toast_preview(preview: &str) -> (r: String)
    ensures
        r@ == toast_preview_spec(preview@),
{
    let clean = sanitize_notification_text(preview);
    let line = format_display_line_middle(clean.as_str(), TOAST_PREVIEW_LEN);
    let cs = str_chars(line.as_str());
    let mut core: Vec<char> = Vec::new();
    let mut i: usize = 0;
    while i < cs.len() && i < TOAST_PREVIEW_LEN
        invariant
            i <= cs.len(),
            i <= TOAST_PREVIEW_LEN,
            core@ == cs@.take(i as int),
        decreases cs.len() - i,
    {
        core.push(cs[i]);
        assert(cs@.take(i + 1) =~= cs@.take(i as int).push(cs@[i as int]));
        i = i + 1;
    }
    if cs.len() <= TOAST_PREVIEW_LEN {
        assert(cs@.take(cs.len() as int) =~= cs@);
    }
    let out = pad_chars(core.as_slice(), TOAST_PREVIEW_LEN, NBSP);
    chars_to_string(out.as_slice())
}

fn progress_chars(active_index: u32, count: u32) -> (out: Vec<char>)
    ensures
        out@ == progress_text(active_index, count),
{
    let position = active_index.saturating_add(1);
    let mut out: Vec<char> = Vec::new();
    push_decimal(&mut out, position as u64);
    out.push('/');
    push_decimal(&mut out, count as u64);
    assert(out@ =~= progress_text(active_index, count));
    out
}

/// Two fixed-width lines for COSMIC: summary = progress, body = middle-truncated preview.
pub fn format_selection_toast_parts(active_index: u32, count: u32, preview: &str) -> (r: (
    String,
    String,
))
    ensures
        r.0@ == pad_spec(progress_text(active_index, count), TOAST_PROGRESS_LEN as nat, NBSP),
        r.1@ == toast_preview_spec(preview@),
{
    let progress = progress_chars(active_index, count);
    let summary_chars = pad_chars(progress.as_slice(), TOAST_PROGRESS_LEN, NBSP);
    let summary = chars_to_string(summary_chars.as_slice());
    let body = fixed_toast_preview(preview);
    (summary, body)
}

/// One-based index, count, ASCII pipe, single-line preview (panel tooltip).
pub fn format_selection_status(active_index: u32, count: u32, preview: &str) -> (r: String)
    ensures
        r@ == selection_status_spec(active_index, count, preview@),
{
    let line = format_display_line(preview, PREVIEW_LEN);
    let line_chars = str_chars(line.as_str());
    let padded_line = pad_chars(line_chars.as_slice(), PREVIEW_LEN, ' ');
    let mut progress = progress_chars(active_index, count);
    progress.push('|');
    let padded_progress = pad_chars(progress.as_slice(), TOOLTIP_PROGRESS_LEN, ' ');
    let mut out: Vec<char> = Vec::new();
    let mut i: usize = 0;
    while i < padded_progress.len()
        invariant
            i <= padded_progress.len(),
            out@ == padded_progress@.take(i as int),
        decreases padded_progress.len() - i,
    {
        out.push(padded_progress[i]);
        assert(padded_progress@.take(i + 1) =~= padded_progress@.take(i as int).push(
            padded_progress@[i as int],
        ));
        i = i + 1;
    }
    assert(padded_progress@.take(padded_progress.len() as int) =~= padded_progress@);
    out.push('\n');
    let ghost head = out@;
    let mut j: usize = 0;
    while j < padded_line.len()
        invariant
            j <= padded_line.len(),
            out@ == head + padded_line@.take(j as int),
        decreases padded_line.len() - j,
    {
        out.push(padded_line[j]);
        assert(padded_line@.take(j + 1) =~= padded_line@.take(j as int).push(padded_line@[j as int]));
        j = j + 1;
    }
    assert(padded_line@.take(padded_line.len() as int) =~= padded_line@);
    assert(out@ =~= selection_status_spec(active_index, count, preview@));
    chars_to_string(out.as_slice())
}

/// The marker before the notification id in a `gdbus` reply.
pub open spec fn reply_marker() -> Seq<char> {
    seq!['u', 'i', 'n', 't', '3', '2', ' ']
}

/// Whether `pat` occurs in `s` at index `i`.
pub open spec fn occurs_at(s: Seq<char>, pat: Seq<char>, i: int) -> bool {
    0 <= i && i + pat.len() <= s.len() && s.subrange(i, i + pat.len()) == pat
}

/// Whether `i` is the first index at which the reply marker occurs in `s`.
pub open spec fn first_marker_at(s: Seq<char>, i: int) -> bool {
    &&& occurs_at(s, reply_marker(), i)
    &&& forall|j: int| 0 <= j < i ==> !occurs_at(s, reply_marker(), j)
}

/// What `parse_notify_reply` returns for `stdout`: the decimal number right after the
/// first `uint32 ` of the UTF-8 text, when there is one and it fits in `u32`.
pub open spec fn notify_reply_spec(stdout: Seq<u8>, r: Option<u32>) -> bool {
    if !vstd::utf8::valid_utf8(stdout) {
        r is None
    } else {
        let s = vstd::utf8::decode_utf8(stdout);
        if forall|i: int| !occurs_at(s, reply_marker(), i) {
            r is None
        } else {
            forall|i: int|
                #![trigger first_marker_at(s, i)]
                first_marker_at(s, i) ==> {
                    let d = leading_digits(s.skip(i + 7));
                    if d.len() > 0 && digits_value(d) <= u32::MAX {
                        r == Some(digits_value(d) as u32)
                    } else {
                        r is None
                    }
                }
        }
    }
}

proof fn lemma_leading_digits(s: Seq<char>, k: int)
    requires
        0 <= k <= s.len(),
        forall|j: int| 0 <= j < k ==> is_ascii_digit_char(#[trigger] s[j]),
        k == s.len() || !is_ascii_digit_char(s[k]),
    ensures
        leading_digits(s) == s.take(k),
    decreases k,
{
    if k == 0 {
        assert(s.take(0) =~= Seq::<char>::empty());
    } else {
        let t = s.drop_first();
        assert forall|j: int| 0 <= j < k - 1 implies is_ascii_digit_char(#[trigger] t[j]) by {
            assert(t[j] == s[j + 1]);
        }
        if k < s.len() {
            assert(t[k - 1] == s[k]);
        }
        lemma_leading_digits(t, k - 1);
        assert(seq![s[0]] + t.take(k - 1) =~= s.take(k));
    }
}

proof fn lemma_digits_value_grows(d: Seq<char>, c: char)
    requires
        is_ascii_digit_char(c),
    ensures
        digits_value(d.push(c)) >= digits_value(d),
        digits_value(d.push(c)) == digits_value(d) * 10 + ((c as u32) - ('0' as u32)),
{
    assert(d.push(c).drop_last() =~= d);
}

proof fn lemma_overflow_persists(rest: Seq<char>, m: int)
    requires
        0 < m <= rest.len(),
        forall|j: int| 0 <= j < m ==> is_ascii_digit_char(#[trigger] rest[j]),
        digits_value(rest.take(m)) > u32::MAX,
    ensures
        leading_digits(rest).len() > 0,
        digits_value(leading_digits(rest)) > u32::MAX,
    decreases rest.len() - m,
{
    if m < rest.len() && is_ascii_digit_char(rest[m]) {
        assert(rest.take(m + 1) =~= rest.take(m).push(rest[m]));
        lemma_digits_value_grows(rest.take(m), rest[m]);
        lemma_overflow_persists(rest, m + 1);
    } else {
        lemma_leading_digits(rest, m);
    }
}

fn marker_at(cs: &Vec<char>, i: usize) -> (r: bool)
    requires
        i <= cs.len(),
    ensures
        r == occurs_at(cs@, reply_marker(), i as int),
{
    if cs.len() - i < 7 {
        return false;
    }
    let r = cs[i] == 'u' && cs[i + 1] == 'i' && cs[i + 2] == 'n' && cs[i + 3] == 't' && cs[i + 4]
        == '3' && cs[i + 5] == '2' && cs[i + 6] == ' ';
    assert(r == (cs@.subrange(i as int, i + 7) =~= reply_marker()));
    r
}

pub fn parse_notify_reply(stdout: &[u8]) -> (r: Option<u32>)
    ensures
        notify_reply_spec(stdout@, r),
{
    let text = match utf8_decode(stdout) {
        Ok(t) => t,
        Err(_) => {
            return None;
        },
    };
    let cs = str_chars(text.as_str());
    let ghost s = cs@;
    let mut i: usize = 0;
    let mut found = false;
    while i < cs.len()
        invariant
            i <= cs.len(),
            forall|j: int| 0 <= j < i ==> !occurs_at(s, reply_marker(), j),
            s == cs@,
            found ==> occurs_at(s, reply_marker(), i as int),
        ensures
            found ==> occurs_at(s, reply_marker(), i as int),
            !found ==> forall|j: int| 0 <= j < cs.len() ==> !occurs_at(s, reply_marker(), j),
        decreases cs.len() - i,
    {
        if marker_at(&cs, i) {
            found = true;
            break;
        }
        i = i + 1;
    }
    if !found {
        assert forall|j: int| !occurs_at(s, reply_marker(), j) by {
            if j >= cs.len() {
                assert(!(j + 7 <= s.len()));
            }
        }
        return None;
    }
    assert(first_marker_at(s, i as int));
    assert forall|i2: int| #[trigger] first_marker_at(s, i2) implies i2 == i by {
        if i2 < i {
            assert(!occurs_at(s, reply_marker(), i2));
        } else if i2 > i {
            assert(!occurs_at(s, reply_marker(), i as int));
        }
    }
    assert(!(forall|j: int| !occurs_at(s, reply_marker(), j)));
    let start = i + 7;
    let ghost rest = s.skip(start as int);
    let mut k: usize = start;
    let mut acc: u64 = 0;
    while k < cs.len() && '0' <= cs[k] && cs[k] <= '9'
        invariant
            start <= k <= cs.len(),
            s == cs@,
            rest == s.skip(start as int),
            forall|j: int| 0 <= j < k - start ==> is_ascii_digit_char(#[trigger] rest[j]),
            acc == digits_value(rest.take(k - start)),
            acc <= u32::MAX,
            vstd::utf8::valid_utf8(stdout@),
            s == vstd::utf8::decode_utf8(stdout@),
            start == i + 7,
            first_marker_at(s, i as int),
            forall|i2: int| #[trigger] first_marker_at(s, i2) ==> i2 == i,
            !(forall|j: int| !occurs_at(s, reply_marker(), j)),
        decreases cs.len() - k,
    {
        let d = (cs[k] as u32 - '0' as u32) as u64;
        proof {
            assert(rest.take(k + 1 - start) =~= rest.take(k - start).push(rest[k - start]));
            assert(rest[k - start] == cs@[k as int]);
            lemma_digits_value_grows(rest.take(k - start), cs@[k as int]);
        }
        let next = acc * 10 + d;
        if next > 0xffff_ffff {
            proof {
                lemma_overflow_persists(rest, k + 1 - start);
            }
            return None;
        }
        acc = next;
        k = k + 1;
    }
    proof {
        if k < cs.len() {
            assert(rest[k - start] == cs@[k as int]);
        }
        lemma_leading_digits(rest, k - start);
    }
    if k == start {
        return None;
    }
    Some(acc as u32)
}

#[verifier::external_type_specification]
#[verifier::external_body]
#[verifier::reject_recursive_types(T)]
pub struct ExSender<T>(Sender<T>);

/// A request to the toast worker.
#[derive(Clone, Debug, PartialEq, Eq)]
pub enum ToastCommand {
    Show { summary: String, body: String },
}

/// The toast for entry `active_index` of `count` with `preview`.
pub fn toast_command(active_index: u32, count: u32, preview: &str) -> (r: ToastCommand)
    ensures
        r matches ToastCommand::Show { summary, body } && summary@ == pad_spec(
            progress_text(active_index, count),
            TOAST_PROGRESS_LEN as nat,
            NBSP,
        ) && body@ == toast_preview_spec(preview@),
{
    let (summary, body) = format_selection_toast_parts(active_index, count, preview);
    ToastCommand::Show { summary, body }
}

/// Hands a command to the toast worker (`Sender::send`); whether the worker still runs
/// is not known, so nothing is claimed.
#[verifier::external_body]
fn send_toast(tx: &Sender<ToastCommand>, command: ToastCommand) -> bool {
    tx.send(command).is_ok()
}

/// Shows the navigation toast for entry `active_index` of `count` through the toast
/// worker listening on `tx`; returns whether the worker took it.
pub fn show_selection_toast(tx: &Sender<ToastCommand>, active_index: u32, count: u32, preview: &str) -> bool {
    send_toast(tx, toast_command(active_index, count, preview))
}

/// The hide timer of the navigation toast (times are milliseconds on a monotonic clock).
#[derive(Clone, Copy, Debug, PartialEq, Eq, Structural)]
pub struct ToastTimer {
    pub notification_id: Option<u32>,
    pub hide_at: Option<u64>,
}

impl ToastTimer {
    pub fn new() -> (t: Self)
        ensures
            t.notification_id is None,
            t.hide_at is None,
    {
        Self { notification_id: None, hide_at: None }
    }

    /// How long to wait for the next command: until the hide deadline (at least
    /// `MIN_WAIT_MS`), or `IDLE_WAIT_MS` when no hide is pending.
    pub fn wait_ms(&self, now: u64) -> (r: u64)
        ensures
            self.hide_at matches Some(d) ==> r == if d > now && d - now > MIN_WAIT_MS {
                (d - now) as u64
            } else {
                MIN_WAIT_MS
            },
            self.hide_at is None ==> r == IDLE_WAIT_MS,
    {
        match self.hide_at {
            Some(deadline) => {
                let remaining = deadline.saturating_sub(now);
                if remaining > MIN_WAIT_MS {
                    remaining
                } else {
                    MIN_WAIT_MS
                }
            },
            None => IDLE_WAIT_MS,
        }
    }

    /// A toast was shown (or replaced): remember its id and hide it `HIDE_DEBOUNCE_MS` later.
    pub fn on_shown(&mut self, new_id: Option<u32>, now: u64)
        requires
            now + HIDE_DEBOUNCE_MS <= u64::MAX,
        ensures
            final(self).notification_id == new_id,
            new_id is Some ==> final(self).hide_at == Some((now + HIDE_DEBOUNCE_MS) as u64),
            new_id is None ==> final(self).hide_at is None,
    {
        self.notification_id = new_id;
        self.hide_at = match new_id {
            Some(_) => Some(now + HIDE_DEBOUNCE_MS),
            None => None,
        };
    }

    /// The wait timed out at `now`: once the deadline has passed, returns the toast to
    /// close (if any) and clears the timer.
    pub fn on_timeout(&mut self, now: u64) -> (close: Option<u32>)
        ensures
            (old(self).hide_at matches Some(d) && now >= d) ==> close == old(self).notification_id
                && final(self).notification_id is None && final(self).hide_at is None,
            !(old(self).hide_at matches Some(d) && now >= d) ==> close is None && *final(self)
                == *old(self),
    {
        match self.hide_at {
            Some(deadline) => {
                if now >= deadline {
                    let id = self.notification_id;
                    self.notification_id = None;
                    self.hide_at = None;
                    id
                } else {
                    None
                }
            },
            None => None,
        }
    }
}

} // verus!
