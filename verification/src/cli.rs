//! Command-line client rules: exit codes, error classes, history listing layout and
//! index arguments.

use vstd::prelude::*;

use crate::selection_status::occurs_at;
use crate::text::{
    chars_start_with, chars_to_string, decimal_spec, digits_value, is_ascii_digit_char, push_decimal,
    push_str, str_chars,
};

verus! {

pub const EXIT_USAGE: u8 = 1;

pub const EXIT_DAEMON: u8 = 2;

pub const EXIT_NOT_FOUND: u8 = 3;

/// A client failure: its exit code and message.
#[derive(Clone, Debug, PartialEq, Eq)]
pub struct CliError {
    pub code: u8,
    pub message: String,
}

impl CliError {
    pub fn usage(message: String) -> (e: Self)
        ensures
            e.code == EXIT_USAGE,
            e.message == message,
    {
        Self { code: EXIT_USAGE, message }
    }

    pub fn daemon(message: String) -> (e: Self)
        ensures
            e.code == EXIT_DAEMON,
            e.message == message,
    {
        Self { code: EXIT_DAEMON, message }
    }

    pub fn not_found(message: String) -> (e: Self)
        ensures
            e.code == EXIT_NOT_FOUND,
            e.message == message,
    {
        Self { code: EXIT_NOT_FOUND, message }
    }

    pub fn code(self) -> (r: u8)
        ensures
            r == self.code,
    {
        self.code
    }
}

/// Whether `needle` occurs somewhere in `s`.
pub open spec fn contains_spec(s: Seq<char>, needle: Seq<char>) -> bool {
    exists|i: int| occurs_at(s, needle, i)
}

/// Whether `needle` occurs in `s` (`str::contains`).
pub fn str_contains(s: &str, needle: &str) -> (r: bool)
    ensures
        r == contains_spec(s@, needle@),
{
    let sc = str_chars(s);
    let nc = str_chars(needle);
    if nc.len() > sc.len() {
        assert forall|i: int| !occurs_at(s@, needle@, i) by {}
        return false;
    }
    let mut i: usize = 0;
    while i <= sc.len() - nc.len()
        invariant
            sc@ == s@,
            nc@ == needle@,
            nc.len() <= sc.len(),
            i <= sc.len() - nc.len() + 1,
            forall|j: int| 0 <= j < i ==> !occurs_at(s@, needle@, j),
        decreases sc.len() - nc.len() + 1 - i,
    {
        let mut k: usize = 0;
        let mut same = true;
        while k < nc.len()
            invariant
                i + nc.len() <= sc.len(),
                k <= nc.len(),
                same == forall|m: int| 0 <= m < k ==> sc@[i + m] == nc@[m],
            decreases nc.len() - k,
        {
            if sc[i + k] != nc[k] {
                same = false;
            }
            k = k + 1;
        }
        if same {
            assert(sc@.subrange(i as int, i + nc.len()) =~= nc@);
            assert(occurs_at(s@, needle@, i as int));
            return true;
        }
        assert(!(sc@.subrange(i as int, i + nc.len()) =~= nc@));
        i = i + 1;
    }
    assert forall|j: int| !occurs_at(s@, needle@, j) by {
        if j >= i {
            assert(!(j + needle@.len() <= s@.len()));
        }
    }
    false
}

/// The kinds of bus failure the client tells apart.
#[derive(Clone, Copy, Debug, PartialEq, Eq, Structural)]
pub enum BusErrorKind {
    /// The connection itself failed.
    InputOutput,
    /// No service owns the daemon's name.
    ServiceUnknown,
    /// The daemon's name has no owner.
    NameHasNoOwner,
    /// The daemon did not answer.
    NoReply,
    /// Any other failure: the daemon answered with an error.
    Other,
}

/// Whether a bus failure means the daemon is not running (rather than refusing the call).
pub fn is_daemon_unavailable(kind: BusErrorKind) -> (r: bool)
    ensures
        r == (kind != BusErrorKind::Other),
{
    match kind {
        BusErrorKind::Other => false,
        _ => true,
    }
}

/// Class of a failed bus call: the daemon was unreachable, or the call was refused.
pub fn method_error(daemon_unavailable: bool, message: String) -> (e: CliError)
    ensures
        e.message == message,
        e.code == if daemon_unavailable {
            EXIT_DAEMON
        } else {
            EXIT_USAGE
        },
{
    if daemon_unavailable {
        return CliError::daemon(message);
    }
    CliError::usage(message)
}

/// Class of a failed `select`: unreachable daemon, unknown entry, or usage error.
pub fn select_error(daemon_unavailable: bool, message: String) -> (e: CliError)
    ensures
        e.message == message,
        e.code == if daemon_unavailable {
            EXIT_DAEMON
        } else if contains_spec(message@, "not found"@) {
            EXIT_NOT_FOUND
        } else {
            EXIT_USAGE
        },
{
    if daemon_unavailable {
        return CliError::daemon(message);
    }
    if str_contains(message.as_str(), "not found") {
        return CliError::not_found(message);
    }
    CliError::usage(message)
}

/// Class of a failed `prev`/`next`: unreachable daemon, end of history, or usage error.
pub fn navigation_error(daemon_unavailable: bool, message: String) -> (e: CliError)
    ensures
        e.message == message,
        e.code == if daemon_unavailable {
            EXIT_DAEMON
        } else if contains_spec(message@, "boundary"@) || contains_spec(message@, "empty"@) {
            EXIT_NOT_FOUND
        } else {
            EXIT_USAGE
        },
{
    if daemon_unavailable {
        return CliError::daemon(message);
    }
    if str_contains(message.as_str(), "boundary") || str_contains(message.as_str(), "empty") {
        return CliError::not_found(message);
    }
    CliError::usage(message)
}

/// Output options of `cosmic-paste history`.
#[derive(Clone, Copy, Debug, PartialEq, Eq, Structural)]
pub struct HistoryArgs {
    pub use_index: bool,
    pub reverse: bool,
    pub oneline: bool,
    pub raw: bool,
    pub zero: bool,
}

/// One listed entry: optional `index` prefix, then the preview alone (raw, one-line or
/// NUL-separated output) or `uuid<TAB>preview`.
pub open spec fn listing_line(args: HistoryArgs, index: nat, uuid: Seq<char>, display: Seq<char>) -> Seq<char> {
    let prefix = if args.use_index {
        decimal_spec(index) + if args.oneline || args.zero {
            ": "@
        } else {
            "\t"@
        }
    } else {
        seq![]
    };
    prefix + if args.raw || args.oneline || args.zero {
        display
    } else {
        uuid + seq!['\t'] + display
    }
}

/// The entries in listing order.
pub open spec fn listing_order(args: HistoryArgs, entries: Seq<(Seq<char>, Seq<char>)>) -> Seq<(Seq<char>, Seq<char>)> {
    if args.reverse {
        entries.reverse()
    } else {
        entries
    }
}

/// The listing text: the lines for the first `n` ordered entries, separated by newlines
/// (NUL with `zero`).
pub open spec fn listing_text(args: HistoryArgs, ordered: Seq<(Seq<char>, Seq<char>)>, n: nat) -> Seq<char>
    decreases n,
{
    if n == 0 {
        seq![]
    } else {
        let prev = listing_text(args, ordered, (n - 1) as nat);
        let line = listing_line(args, (n - 1) as nat, ordered[n - 1].0, ordered[n - 1].1);
        if prev.len() == 0 {
            line
        } else {
            prev + seq![if args.zero { '\0' } else { '\n' }] + line
        }
    }
}

/// With raw, one-line or NUL-separated output, a listed line shows the preview alone: it
/// is the same whatever the entry's UUID, it ends with the preview, and without index
/// numbers it is exactly the preview.
pub proof fn lemma_plain_line_shows_preview_only(
    args: HistoryArgs,
    index: nat,
    uuid: Seq<char>,
    other_uuid: Seq<char>,
    display: Seq<char>,
)
    requires
        args.raw || args.oneline || args.zero,
    ensures
        listing_line(args, index, uuid, display) == listing_line(args, index, other_uuid, display),
        listing_line(args, index, uuid, display).len() >= display.len(),
        listing_line(args, index, uuid, display).skip(
            listing_line(args, index, uuid, display).len() - display.len(),
        ) == display,
        !args.use_index ==> listing_line(args, index, uuid, display) == display,
{
    let line = listing_line(args, index, uuid, display);
    assert(line.skip(line.len() - display.len()) =~= display);
    if !args.use_index {
        assert(line =~= display);
    }
}

/// With raw, one-line or NUL-separated output, the listing shows no UUID: two entry lists
/// with the same previews in the same order are listed identically.
pub proof fn lemma_plain_listing_ignores_uuids(
    args: HistoryArgs,
    a: Seq<(Seq<char>, Seq<char>)>,
    b: Seq<(Seq<char>, Seq<char>)>,
    n: nat,
)
    requires
        args.raw || args.oneline || args.zero,
        a.len() == b.len(),
        n <= a.len(),
        forall|i: int| 0 <= i < a.len() ==> (#[trigger] a[i]).1 == b[i].1,
    ensures
        listing_text(args, a, n) == listing_text(args, b, n),
    decreases n,
{
    if n > 0 {
        lemma_plain_listing_ignores_uuids(args, a, b, (n - 1) as nat);
        assert(a[n - 1].1 == b[n - 1].1);
        lemma_plain_line_shows_preview_only(args, (n - 1) as nat, a[n - 1].0, b[n - 1].0, a[n - 1].1);
    }
}

fn push_listing_line(out: &mut Vec<char>, args: HistoryArgs, index: usize, uuid: &str, display: &str)
    ensures
        final(out)@ == old(out)@ + listing_line(args, index as nat, uuid@, display@),
{
    if args.use_index {
        push_decimal(out, index as u64);
        if args.oneline || args.zero {
            push_str(out, ": ");
        } else {
            push_str(out, "\t");
        }
    }
    if args.raw || args.oneline || args.zero {
        push_str(out, display);
    } else {
        push_str(out, uuid);
        out.push('\t');
        push_str(out, display);
    }
    assert(final(out)@ =~= old(out)@ + listing_line(args, index as nat, uuid@, display@));
}

/// Lays out the history listing; the text is printed (with a final newline) unless it
/// is empty in NUL-separated mode.
pub fn format_history_listing(entries: &Vec<(String, String)>, args: HistoryArgs) -> (r: (String, bool))
    ensures
        ({
            let views = entries@.map_values(|e: (String, String)| (e.0@, e.1@));
            let ordered = listing_order(args, views);
            r.0@ == listing_text(args, ordered, ordered.len())
        }),
        r.1 == (r.0@.len() > 0 || !args.zero),
{
    let ghost views = entries@.map_values(|e: (String, String)| (e.0@, e.1@));
    let ghost ordered = listing_order(args, views);
    let n = entries.len();
    let separator = if args.zero {
        '\0'
    } else {
        '\n'
    };
    let mut out: Vec<char> = Vec::new();
    let mut index: usize = 0;
    while index < n
        invariant
            n == entries@.len(),
            views == entries@.map_values(|e: (String, String)| (e.0@, e.1@)),
            ordered == listing_order(args, views),
            index <= n,
            separator == if args.zero {
                '\0'
            } else {
                '\n'
            },
            out@ == listing_text(args, ordered, index as nat),
        decreases n - index,
    {
        let pos = if args.reverse {
            n - 1 - index
        } else {
            index
        };
        let uuid = &entries[pos].0;
        let display = &entries[pos].1;
        assert(ordered[index as int] == (uuid@, display@));
        if out.len() > 0 {
            out.push(separator);
        }
        push_listing_line(&mut out, args, index, uuid.as_str(), display.as_str());
        assert(out@ =~= listing_text(args, ordered, (index + 1) as nat));
        index = index + 1;
    }
    let printed = out.len() > 0 || !args.zero;
    (chars_to_string(out.as_slice()), printed)
}

/// `s` without a leading `+`.
pub open spec fn sign_stripped(s: Seq<char>) -> Seq<char> {
    if s.len() > 0 && s[0] == '+' {
        s.drop_first()
    } else {
        s
    }
}

/// Whether every character of `d` is an ASCII digit.
pub open spec fn all_digits(d: Seq<char>) -> bool {
    forall|i: int| 0 <= i < d.len() ==> is_ascii_digit_char(#[trigger] d[i])
}

/// The number an index argument denotes, when `usize::from_str` accepts it: an optional
/// `+` followed by one or more ASCII digits, with a value that fits.
pub open spec fn index_arg_value(s: Seq<char>) -> Option<nat> {
    let digits = sign_stripped(s);
    if digits.len() > 0 && all_digits(digits) && digits_value(digits) <= usize::MAX {
        Some(digits_value(digits))
    } else {
        None
    }
}

/// Parses the `--index` target of `cosmic-paste select`.
pub fn parse_index_arg(text: &str) -> (r: Option<usize>)
    ensures
        match index_arg_value(text@) {
            Some(v) => r == Some(v as usize),
            None => r is None,
        },
{
    let cs = str_chars(text);
    let start: usize = if cs.len() > 0 && cs[0] == '+' {
        1
    } else {
        0
    };
    let ghost digits = sign_stripped(text@);
    assert(digits =~= cs@.skip(start as int));
    if cs.len() == start {
        return None;
    }
    let mut acc: usize = 0;
    let mut k: usize = start;
    let mut overflow = false;
    while k < cs.len()
        invariant
            start <= k <= cs.len(),
            cs@ == text@,
            digits == cs@.skip(start as int),
            digits == sign_stripped(text@),
            forall|j: int| 0 <= j < k - start ==> is_ascii_digit_char(#[trigger] digits[j]),
            !overflow ==> acc == digits_value(digits.take(k - start)),
            overflow ==> digits_value(digits.take(k - start)) > usize::MAX,
        decreases cs.len() - k,
    {
        let c = cs[k];
        if !('0' <= c && c <= '9') {
            assert(!is_ascii_digit_char(digits[k - start]));
            assert(!all_digits(digits));
            return None;
        }
        proof {
            assert(digits.take(k + 1 - start) =~= digits.take(k - start).push(digits[k - start]));
            assert(digits.take(k + 1 - start).drop_last() =~= digits.take(k - start));
        }
        let d = (c as u32 - '0' as u32) as usize;
        if !overflow {
            if acc > (usize::MAX - d) / 10 {
                overflow = true;
                assert(acc * 10 + d > usize::MAX) by (nonlinear_arith)
                    requires
                        acc > (usize::MAX - d) / 10,
                        d < 10,
                ;
            } else {
                assert(acc * 10 + d <= usize::MAX) by (nonlinear_arith)
                    requires
                        acc <= (usize::MAX - d) / 10,
                        d < 10,
                ;
                acc = acc * 10 + d;
            }
        } else {
            assert(digits_value(digits.take(k + 1 - start)) >= digits_value(digits.take(k - start)))
                by (nonlinear_arith)
                requires
                    digits_value(digits.take(k + 1 - start)) == digits_value(digits.take(k - start)) * 10 + d,
            ;
        }
        k = k + 1;
    }
    assert(digits.take(k - start) =~= digits);
    if overflow {
        return None;
    }
    Some(acc)
}

} // verus!
