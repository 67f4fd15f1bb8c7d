//! Character-level helpers shared by the display and persistence code.

use vstd::prelude::*;
use vstd::std_specs::iter::IteratorSpec;

verus! {

broadcast use vstd::string::group_string_axioms;

/// Appends one character to a `String` (`String::push`).
#[verifier::external_body]
pub(crate) fn string_push(s: &mut String, c: char)
    ensures
        final(s)@ == old(s)@.push(c),
{
    s.push(c);
}

/// The characters of `s`, in order.
pub fn str_chars(s: &str) -> (v: Vec<char>)
    ensures
        v@ == s@,
{
    let mut out: Vec<char> = Vec::new();
    proof {
        vstd::string::axiom_spec_iter(s);
    }
    for c in iter: s.chars()
        invariant
            iter.seq() == s@,
            out@ == iter.seq().take(iter.index()),
    {
        out.push(c);
    }
    out
}

/// Whether two strings hold the same characters.
pub fn str_equals(a: &str, b: &str) -> (r: bool)
    ensures
        r == (a@ == b@),
{
    let ac = str_chars(a);
    let bc = str_chars(b);
    if ac.len() != bc.len() {
        return false;
    }
    let r = chars_start_with(ac.as_slice(), bc.as_slice());
    proof {
        if r {
            assert(ac@ =~= bc@.subrange(0, bc@.len() as int));
            assert(bc@.subrange(0, bc@.len() as int) =~= bc@);
        }
    }
    r
}

/// A `String` holding exactly the characters of `v`.
pub fn chars_to_string(v: &[char]) -> (s: String)
    ensures
        s@ == v@,
{
    let mut s = String::new();
    let mut i: usize = 0;
    while i < v.len()
        invariant
            i <= v.len(),
            s@ == v@.subrange(0, i as int),
        decreases v.len() - i,
    {
        string_push(&mut s, v[i]);
        assert(v@.subrange(0, i + 1) == v@.subrange(0, i as int).push(v@[i as int]));
        i = i + 1;
    }
    assert(v@.subrange(0, v.len() as int) == v@);
    s
}

} // verus!

verus! {

/// The Unicode `White_Space` property (the set `char::is_whitespace` tests).
pub open spec fn is_white_space(c: char) -> bool {
    let u = c as u32;
    ||| 0x09 <= u <= 0x0d
    ||| u == 0x20
    ||| u == 0x85
    ||| u == 0xa0
    ||| u == 0x1680
    ||| 0x2000 <= u <= 0x200a
    ||| u == 0x2028
    ||| u == 0x2029
    ||| u == 0x202f
    ||| u == 0x205f
    ||| u == 0x3000
}

/// The Unicode general category `Cc` (the set `char::is_control` tests).
pub open spec fn is_control_char(c: char) -> bool {
    let u = c as u32;
    u <= 0x1f || 0x7f <= u <= 0x9f
}

pub fn is_whitespace(c: char) -> (r: bool)
    ensures
        r == is_white_space(c),
{
    let u = c as u32;
    (0x09 <= u && u <= 0x0d) || u == 0x20 || u == 0x85 || u == 0xa0 || u == 0x1680 || (0x2000 <= u
        && u <= 0x200a) || u == 0x2028 || u == 0x2029 || u == 0x202f || u == 0x205f || u == 0x3000
}

pub fn is_control(c: char) -> (r: bool)
    ensures
        r == is_control_char(c),
{
    let u = c as u32;
    u <= 0x1f || (0x7f <= u && u <= 0x9f)
}

/// The maximal runs of non-white-space characters of `s`, in order.
pub open spec fn words(s: Seq<char>) -> Seq<Seq<char>>
    decreases s.len(),
{
    if s.len() == 0 {
        seq![]
    } else {
        let prev = words(s.drop_last());
        let c = s.last();
        if is_white_space(c) {
            prev
        } else if s.len() >= 2 && !is_white_space(s[s.len() - 2]) {
            prev.drop_last().push(prev.last().push(c))
        } else {
            prev.push(seq![c])
        }
    }
}

/// The words joined by single spaces.
pub open spec fn join_with_spaces(ws: Seq<Seq<char>>) -> Seq<char>
    decreases ws.len(),
{
    if ws.len() == 0 {
        seq![]
    } else if ws.len() == 1 {
        ws[0]
    } else {
        join_with_spaces(ws.drop_last()) + seq![' '] + ws.last()
    }
}

/// `s` with every run of white space collapsed to one space and the ends trimmed.
pub open spec fn collapse_spec(s: Seq<char>) -> Seq<char> {
    join_with_spaces(words(s))
}

proof fn lemma_join_extend_last(ws: Seq<Seq<char>>, c: char)
    requires
        ws.len() >= 1,
    ensures
        join_with_spaces(ws.drop_last().push(ws.last().push(c))) == join_with_spaces(ws).push(c),
{
    let w2 = ws.drop_last().push(ws.last().push(c));
    assert(w2.drop_last() =~= ws.drop_last());
    if ws.len() >= 2 {
        assert(join_with_spaces(w2) =~= join_with_spaces(ws).push(c));
    } else {
        assert(join_with_spaces(w2) =~= join_with_spaces(ws).push(c));
    }
}

proof fn lemma_join_push_word(ws: Seq<Seq<char>>, w: Seq<char>)
    ensures
        join_with_spaces(ws.push(w)) == if ws.len() == 0 {
            w
        } else {
            join_with_spaces(ws) + seq![' '] + w
        },
{
    assert(ws.push(w).drop_last() =~= ws);
}

/// A non-empty run of characters that are not white space.
pub open spec fn plain_word(w: Seq<char>) -> bool {
    w.len() > 0 && forall|i: int| 0 <= i < w.len() ==> !is_white_space(#[trigger] w[i])
}

/// Every word is a `plain_word`.
pub open spec fn plain_words(ws: Seq<Seq<char>>) -> bool {
    forall|k: int| 0 <= k < ws.len() ==> plain_word(#[trigger] ws[k])
}

proof fn lemma_words_plain(s: Seq<char>)
    ensures
        plain_words(words(s)),
        s.len() > 0 && !is_white_space(s.last()) ==> words(s).len() > 0,
    decreases s.len(),
{
    if s.len() > 0 {
        let prev = words(s.drop_last());
        let c = s.last();
        lemma_words_plain(s.drop_last());
        if is_white_space(c) {
        } else if s.len() >= 2 && !is_white_space(s[s.len() - 2]) {
            assert(s.drop_last().last() == s[s.len() - 2]);
            let w = prev.last().push(c);
            assert(plain_word(prev[prev.len() - 1]));
            assert forall|i: int| 0 <= i < w.len() implies !is_white_space(#[trigger] w[i]) by {
                if i < w.len() - 1 {
                    assert(w[i] == prev.last()[i]);
                }
            }
            let r = prev.drop_last().push(w);
            assert forall|k: int| 0 <= k < r.len() implies plain_word(#[trigger] r[k]) by {
                if k < r.len() - 1 {
                    assert(r[k] == prev[k]);
                }
            }
        } else {
            let r = prev.push(seq![c]);
            assert forall|k: int| 0 <= k < r.len() implies plain_word(#[trigger] r[k]) by {
                if k < r.len() - 1 {
                    assert(r[k] == prev[k]);
                } else {
                    assert(r[k] =~= seq![c]);
                }
            }
        }
    }
}

/// A plain word appended to an empty text, or to one ending in white space, adds exactly
/// that word.
proof fn lemma_words_append_word(x: Seq<char>, w: Seq<char>)
    requires
        plain_word(w),
        x.len() == 0 || is_white_space(x.last()),
    ensures
        words(x + w) == words(x).push(w),
    decreases w.len(),
{
    let c = w.last();
    let w1 = w.drop_last();
    assert((x + w).drop_last() =~= x + w1);
    assert((x + w).last() == c);
    if w1.len() == 0 {
        assert(x + w1 =~= x);
        if x.len() > 0 {
            assert((x + w)[(x + w).len() - 2] == x.last());
        }
        assert(w =~= seq![c]);
    } else {
        assert forall|i: int| 0 <= i < w1.len() implies !is_white_space(#[trigger] w1[i]) by {
            assert(w1[i] == w[i]);
        }
        lemma_words_append_word(x, w1);
        assert((x + w)[(x + w).len() - 2] == w1.last());
        assert(words(x + w1).last() == w1);
        assert(words(x + w1).drop_last() =~= words(x));
        assert(w1.push(c) =~= w);
    }
}

/// The words of plain words joined by spaces are those words.
proof fn lemma_words_of_join(ws: Seq<Seq<char>>)
    requires
        plain_words(ws),
    ensures
        words(join_with_spaces(ws)) == ws,
    decreases ws.len(),
{
    if ws.len() == 0 {
    } else if ws.len() == 1 {
        assert(plain_word(ws[0]));
        lemma_words_append_word(seq![], ws[0]);
        assert(Seq::<char>::empty() + ws[0] =~= ws[0]);
        assert(words(Seq::<char>::empty()).push(ws[0]) =~= ws);
    } else {
        let init = ws.drop_last();
        assert forall|k: int| 0 <= k < init.len() implies plain_word(#[trigger] init[k]) by {
            assert(init[k] == ws[k]);
        }
        lemma_words_of_join(init);
        let x = join_with_spaces(init) + seq![' '];
        assert(is_white_space(' '));
        assert(x.drop_last() =~= join_with_spaces(init));
        assert(words(x) == words(join_with_spaces(init)));
        assert(plain_word(ws[ws.len() - 1]));
        lemma_words_append_word(x, ws.last());
        assert(init.push(ws.last()) =~= ws);
    }
}

/// The characters of plain words joined by spaces: every white space character is a
/// space, and the text neither starts nor ends with white space.
proof fn lemma_join_shape(ws: Seq<Seq<char>>)
    requires
        plain_words(ws),
    ensures
        forall|i: int|
            0 <= i < join_with_spaces(ws).len() && is_white_space(#[trigger] join_with_spaces(ws)[i])
                ==> join_with_spaces(ws)[i] == ' ',
        join_with_spaces(ws).len() > 0 ==> !is_white_space(join_with_spaces(ws)[0]) && !is_white_space(
            join_with_spaces(ws).last(),
        ),
        ws.len() > 0 ==> join_with_spaces(ws).len() > 0,
    decreases ws.len(),
{
    let j = join_with_spaces(ws);
    if ws.len() == 1 {
        assert(plain_word(ws[0]));
        assert(j == ws[0]);
    } else if ws.len() >= 2 {
        let init = ws.drop_last();
        assert forall|k: int| 0 <= k < init.len() implies plain_word(#[trigger] init[k]) by {
            assert(init[k] == ws[k]);
        }
        lemma_join_shape(init);
        let a = join_with_spaces(init);
        let w = ws.last();
        assert(plain_word(ws[ws.len() - 1]));
        assert(j == a + seq![' '] + w);
        assert forall|i: int| 0 <= i < j.len() && is_white_space(#[trigger] j[i]) implies j[i] == ' ' by {
            if i < a.len() {
                assert(j[i] == a[i]);
            } else if i > a.len() {
                assert(j[i] == w[i - a.len() - 1]);
            }
        }
        assert(j[0] == a[0]);
        assert(j.last() == w.last());
    }
}

/// Collapsing white space is idempotent, and what it gives holds no white space but single
/// spaces between words: no line break, no tab, and nothing white at either end.
pub proof fn lemma_collapse_idempotent(s: Seq<char>)
    ensures
        collapse_spec(collapse_spec(s)) == collapse_spec(s),
        forall|i: int|
            0 <= i < collapse_spec(s).len() && is_white_space(#[trigger] collapse_spec(s)[i])
                ==> collapse_spec(s)[i] == ' ',
        collapse_spec(s).len() > 0 ==> !is_white_space(collapse_spec(s)[0]) && !is_white_space(
            collapse_spec(s).last(),
        ),
{
    lemma_words_plain(s);
    lemma_words_of_join(words(s));
    lemma_join_shape(words(s));
}

/// Collapses white space in a character sequence (see `collapse_spec`).
pub fn collapse_chars(s: &[char]) -> (out: Vec<char>)
    ensures
        out@ == collapse_spec(s@),
{
    let mut out: Vec<char> = Vec::new();
    let mut any_word = false;
    let mut i: usize = 0;
    while i < s.len()
        invariant
            i <= s.len(),
            out@ == collapse_spec(s@.take(i as int)),
            any_word == (words(s@.take(i as int)).len() > 0),
        decreases s.len() - i,
    {
        let c = s[i];
        let ghost pre = s@.take(i as int);
        let ghost post = s@.take(i + 1);
        assert(post.drop_last() =~= pre);
        assert(post.last() == c);
        if is_whitespace(c) {
        } else if i >= 1 && !is_whitespace(s[i - 1]) {
            assert(post[post.len() - 2] == s@[i - 1]);
            assert(pre.last() == s@[i - 1]);
            assert(pre.drop_last() =~= s@.take(i - 1));
            assert(words(pre).len() > 0);
            proof {
                lemma_join_extend_last(words(pre), c);
            }
            out.push(c);
        } else {
            if i >= 1 {
                assert(post[post.len() - 2] == s@[i - 1]);
            }
            proof {
                lemma_join_push_word(words(pre), seq![c]);
            }
            if any_word {
                out.push(' ');
            }
            out.push(c);
            any_word = true;
            assert(out@ =~= collapse_spec(post));
        }
        i = i + 1;
    }
    assert(s@.take(s.len() as int) =~= s@);
    out
}

} // verus!

verus! {

/// The ellipsis that marks truncated previews.
pub const ELLIPSIS: char = '\u{2026}';

/// At most `max_len` characters of `s`, followed by an ellipsis when characters were cut.
pub open spec fn truncate_end_spec(s: Seq<char>, max_len: nat) -> Seq<char> {
    if max_len == 0 {
        seq![]
    } else if s.len() > max_len {
        s.take(max_len as int).push(ELLIPSIS)
    } else {
        s
    }
}

/// `s` cut to `max_len` characters by replacing its middle with an ellipsis,
/// keeping the shorter half at the start and the longer half at the end.
pub open spec fn truncate_middle_spec(s: Seq<char>, max_len: nat) -> Seq<char> {
    if max_len == 0 {
        seq![]
    } else if s.len() <= max_len {
        s
    } else if max_len == 1 {
        seq![ELLIPSIS]
    } else {
        let keep = (max_len - 1) as nat;
        let head = keep / 2;
        let tail = (keep - head) as nat;
        s.take(head as int) + seq![ELLIPSIS] + s.skip(s.len() - tail)
    }
}

/// `line` extended with `pad` up to `width` characters (unchanged when already that long).
pub open spec fn pad_spec(line: Seq<char>, width: nat, pad: char) -> Seq<char> {
    if line.len() >= width {
        line
    } else {
        line + Seq::new((width - line.len()) as nat, |i: int| pad)
    }
}

pub fn truncate_end_chars(s: &[char], max_len: usize) -> (out: Vec<char>)
    ensures
        out@ == truncate_end_spec(s@, max_len as nat),
{
    let mut out: Vec<char> = Vec::new();
    if max_len == 0 {
        return out;
    }
    let n = if s.len() < max_len { s.len() } else { max_len };
    let mut i: usize = 0;
    while i < n
        invariant
            n <= s.len(),
            i <= n,
            out@ == s@.take(i as int),
        decreases n - i,
    {
        out.push(s[i]);
        assert(s@.take(i + 1) =~= s@.take(i as int).push(s@[i as int]));
        i = i + 1;
    }
    if s.len() > max_len {
        out.push(ELLIPSIS);
    } else {
        assert(s@.take(n as int) =~= s@);
    }
    out
}

pub fn truncate_middle_chars(s: &[char], max_len: usize) -> (out: Vec<char>)
    ensures
        out@ == truncate_middle_spec(s@, max_len as nat),
{
    let mut out: Vec<char> = Vec::new();
    if max_len == 0 {
        return out;
    }
    if s.len() <= max_len {
        let mut i: usize = 0;
        while i < s.len()
            invariant
                i <= s.len(),
                out@ == s@.take(i as int),
            decreases s.len() - i,
        {
            out.push(s[i]);
            assert(s@.take(i + 1) =~= s@.take(i as int).push(s@[i as int]));
            i = i + 1;
        }
        assert(s@.take(s.len() as int) =~= s@);
        return out;
    }
    if max_len == 1 {
        out.push(ELLIPSIS);
        assert(out@ =~= seq![ELLIPSIS]);
        return out;
    }
    let keep = max_len - 1;
    let head_len = keep / 2;
    let tail_len = keep - head_len;
    let tail_start = s.len() - tail_len;
    let mut i: usize = 0;
    while i < head_len
        invariant
            head_len < s.len(),
            i <= head_len,
            out@ == s@.take(i as int),
        decreases head_len - i,
    {
        out.push(s[i]);
        assert(s@.take(i + 1) =~= s@.take(i as int).push(s@[i as int]));
        i = i + 1;
    }
    out.push(ELLIPSIS);
    let ghost prefix = out@;
    let mut j: usize = tail_start;
    while j < s.len()
        invariant
            tail_start <= j <= s.len(),
            out@ == prefix + s@.subrange(tail_start as int, j as int),
        decreases s.len() - j,
    {
        out.push(s[j]);
        assert(s@.subrange(tail_start as int, j + 1) =~= s@.subrange(tail_start as int, j as int).push(
            s@[j as int],
        ));
        j = j + 1;
    }
    assert(s@.subrange(tail_start as int, s.len() as int) =~= s@.skip(tail_start as int));
    out
}

pub fn pad_chars(line: &[char], width: usize, pad: char) -> (out: Vec<char>)
    ensures
        out@ == pad_spec(line@, width as nat, pad),
{
    let mut out: Vec<char> = Vec::new();
    let mut i: usize = 0;
    while i < line.len()
        invariant
            i <= line.len(),
            out@ == line@.take(i as int),
        decreases line.len() - i,
    {
        out.push(line[i]);
        assert(line@.take(i + 1) =~= line@.take(i as int).push(line@[i as int]));
        i = i + 1;
    }
    assert(line@.take(line.len() as int) =~= line@);
    if line.len() >= width {
        return out;
    }
    let mut k: usize = line.len();
    while k < width
        invariant
            line.len() <= k <= width,
            out@ == line@ + Seq::new((k - line.len()) as nat, |i: int| pad),
        decreases width - k,
    {
        out.push(pad);
        assert(line@ + Seq::new((k + 1 - line.len()) as nat, |i: int| pad) =~= (line@ + Seq::new(
            (k - line.len()) as nat,
            |i: int| pad,
        )).push(pad));
        k = k + 1;
    }
    out
}

/// Decimal digit character for `d < 10`.
pub open spec fn digit_char(d: nat) -> char {
    if d == 0 {
        '0'
    } else if d == 1 {
        '1'
    } else if d == 2 {
        '2'
    } else if d == 3 {
        '3'
    } else if d == 4 {
        '4'
    } else if d == 5 {
        '5'
    } else if d == 6 {
        '6'
    } else if d == 7 {
        '7'
    } else if d == 8 {
        '8'
    } else {
        '9'
    }
}

/// The decimal representation of `n`, without leading zeros.
pub open spec fn decimal_spec(n: nat) -> Seq<char>
    decreases n,
{
    if n < 10 {
        seq![digit_char(n)]
    } else {
        decimal_spec(n / 10).push(digit_char(n % 10))
    }
}

fn digit(d: u64) -> (c: char)
    requires
        d < 10,
    ensures
        c == digit_char(d as nat),
{
    if d == 0 {
        '0'
    } else if d == 1 {
        '1'
    } else if d == 2 {
        '2'
    } else if d == 3 {
        '3'
    } else if d == 4 {
        '4'
    } else if d == 5 {
        '5'
    } else if d == 6 {
        '6'
    } else if d == 7 {
        '7'
    } else if d == 8 {
        '8'
    } else {
        '9'
    }
}

/// Appends the decimal representation of `n`.
pub fn push_decimal(out: &mut Vec<char>, n: u64)
    ensures
        final(out)@ == old(out)@ + decimal_spec(n as nat),
    decreases n,
{
    if n >= 10 {
        push_decimal(out, n / 10);
    }
    out.push(digit(n % 10));
    proof {
        if n >= 10 {
            assert(final(out)@ =~= old(out)@ + decimal_spec(n as nat));
        } else {
            assert(final(out)@ =~= old(out)@ + decimal_spec(n as nat));
        }
    }
}

/// Lower-case hexadecimal digit character for `d < 16`.
pub open spec fn hex_digit_char(d: nat) -> char {
    if d < 10 {
        digit_char(d)
    } else if d == 10 {
        'a'
    } else if d == 11 {
        'b'
    } else if d == 12 {
        'c'
    } else if d == 13 {
        'd'
    } else if d == 14 {
        'e'
    } else {
        'f'
    }
}

/// Two lower-case hex digits of a byte.
pub open spec fn byte_hex(b: u8) -> Seq<char> {
    seq![hex_digit_char((b / 16) as nat), hex_digit_char((b % 16) as nat)]
}

/// The bytes of `data`, each as two lower-case hex digits.
pub open spec fn hex_spec(data: Seq<u8>) -> Seq<char>
    decreases data.len(),
{
    if data.len() == 0 {
        seq![]
    } else {
        hex_spec(data.drop_last()) + byte_hex(data.last())
    }
}

fn hex_digit(d: u8) -> (c: char)
    requires
        d < 16,
    ensures
        c == hex_digit_char(d as nat),
{
    if d < 10 {
        digit(d as u64)
    } else if d == 10 {
        'a'
    } else if d == 11 {
        'b'
    } else if d == 12 {
        'c'
    } else if d == 13 {
        'd'
    } else if d == 14 {
        'e'
    } else {
        'f'
    }
}

pub fn push_hex(out: &mut Vec<char>, data: &[u8])
    ensures
        final(out)@ == old(out)@ + hex_spec(data@),
{
    let mut i: usize = 0;
    while i < data.len()
        invariant
            i <= data.len(),
            out@ == old(out)@ + hex_spec(data@.take(i as int)),
        decreases data.len() - i,
    {
        let b = data[i];
        out.push(hex_digit(b / 16));
        out.push(hex_digit(b % 16));
        assert(data@.take(i + 1).drop_last() =~= data@.take(i as int));
        assert(out@ =~= old(out)@ + hex_spec(data@.take(i + 1)));
        i = i + 1;
    }
    assert(data@.take(data.len() as int) =~= data@);
}

/// Whether `c` is one of `0`..=`9`.
pub open spec fn is_ascii_digit_char(c: char) -> bool {
    '0' <= c <= '9'
}

/// The longest prefix of `s` made of ASCII digits.
pub open spec fn leading_digits(s: Seq<char>) -> Seq<char>
    decreases s.len(),
{
    if s.len() > 0 && is_ascii_digit_char(s[0]) {
        seq![s[0]] + leading_digits(s.drop_first())
    } else {
        seq![]
    }
}

/// The number a sequence of ASCII digits denotes.
pub open spec fn digits_value(ds: Seq<char>) -> nat
    decreases ds.len(),
{
    if ds.len() == 0 {
        0
    } else {
        digits_value(ds.drop_last()) * 10 + ((ds.last() as u32) - ('0' as u32)) as nat
    }
}

/// Decodes UTF-8 bytes (`std::str::from_utf8`).
///
/// Claims: the result is `Ok` exactly when the bytes are valid UTF-8, and then holds
/// the decoded characters. The text of the error (the `Display` of `Utf8Error`) is left
/// unstated.
#[verifier::external_body]
pub(crate) fn utf8_decode(bytes: &[u8]) -> (r: Result<String, String>)
    ensures
        r is Ok <==> vstd::utf8::valid_utf8(bytes@),
        r matches Ok(s) ==> s@ == vstd::utf8::decode_utf8(bytes@),
{
    match std::str::from_utf8(bytes) {
        Ok(s) => Ok(s.to_owned()),
        Err(err) => Err(err.to_string()),
    }
}

} // verus!

verus! {

/// `s` without its leading white space.
pub open spec fn trim_start_spec(s: Seq<char>) -> Seq<char>
    decreases s.len(),
{
    if s.len() > 0 && is_white_space(s[0]) {
        trim_start_spec(s.drop_first())
    } else {
        s
    }
}

/// `s` without its trailing white space.
pub open spec fn trim_end_spec(s: Seq<char>) -> Seq<char>
    decreases s.len(),
{
    if s.len() > 0 && is_white_space(s.last()) {
        trim_end_spec(s.drop_last())
    } else {
        s
    }
}

/// `s` without leading and trailing white space (`str::trim`).
pub open spec fn trim_spec(s: Seq<char>) -> Seq<char> {
    trim_end_spec(trim_start_spec(s))
}

proof fn lemma_trim_start_skip(s: Seq<char>, i: int)
    requires
        0 <= i <= s.len(),
        forall|j: int| 0 <= j < i ==> is_white_space(#[trigger] s[j]),
    ensures
        trim_start_spec(s) == trim_start_spec(s.skip(i)),
    decreases i,
{
    if i > 0 {
        assert(s.drop_first().skip(i - 1) =~= s.skip(i));
        assert forall|j: int| 0 <= j < i - 1 implies is_white_space(#[trigger] s.drop_first()[j]) by {
            assert(s.drop_first()[j] == s[j + 1]);
        }
        lemma_trim_start_skip(s.drop_first(), i - 1);
    } else {
        assert(s.skip(0) =~= s);
    }
}

proof fn lemma_trim_end_take(s: Seq<char>, k: int)
    requires
        0 <= k <= s.len(),
        forall|j: int| k <= j < s.len() ==> is_white_space(#[trigger] s[j]),
    ensures
        trim_end_spec(s) == trim_end_spec(s.take(k)),
    decreases s.len() - k,
{
    if k < s.len() {
        assert(s.drop_last().take(k) =~= s.take(k));
        assert forall|j: int| k <= j < s.drop_last().len() implies is_white_space(
            #[trigger] s.drop_last()[j],
        ) by {
            assert(s.drop_last()[j] == s[j]);
        }
        lemma_trim_end_take(s.drop_last(), k);
    } else {
        assert(s.take(k) =~= s);
    }
}

/// Removes leading and trailing white space.
pub fn trim_chars(s: &[char]) -> (out: Vec<char>)
    ensures
        out@ == trim_spec(s@),
{
    let mut start: usize = 0;
    while start < s.len() && is_whitespace(s[start])
        invariant
            start <= s.len(),
            forall|j: int| 0 <= j < start ==> is_white_space(#[trigger] s@[j]),
        decreases s.len() - start,
    {
        start = start + 1;
    }
    proof {
        lemma_trim_start_skip(s@, start as int);
    }
    let ghost rest = s@.skip(start as int);
    assert(trim_start_spec(rest) == rest);
    let mut end: usize = s.len();
    while end > start && is_whitespace(s[end - 1])
        invariant
            start <= end <= s.len(),
            forall|j: int| end <= j < s.len() ==> is_white_space(#[trigger] s@[j]),
        decreases end - start,
    {
        end = end - 1;
    }
    proof {
        assert forall|j: int| end - start <= j < rest.len() implies is_white_space(#[trigger] rest[j]) by {
            assert(rest[j] == s@[start + j]);
        }
        lemma_trim_end_take(rest, end - start);
        let kept = rest.take(end - start);
        if kept.len() > 0 {
            assert(kept.last() == s@[end - 1]);
        }
    }
    let mut out: Vec<char> = Vec::new();
    let mut i: usize = start;
    while i < end
        invariant
            start <= i <= end <= s.len(),
            out@ == s@.subrange(start as int, i as int),
        decreases end - i,
    {
        out.push(s[i]);
        assert(s@.subrange(start as int, i + 1) =~= s@.subrange(start as int, i as int).push(s@[i as int]));
        i = i + 1;
    }
    assert(out@ =~= rest.take(end - start));
    out
}

/// Whether `p` is a prefix of `s`.
pub fn chars_start_with(s: &[char], p: &[char]) -> (r: bool)
    ensures
        r == p@.is_prefix_of(s@),
{
    if p.len() > s.len() {
        return false;
    }
    let mut i: usize = 0;
    while i < p.len()
        invariant
            i <= p.len() <= s.len(),
            forall|j: int| 0 <= j < i ==> p@[j] == s@[j],
        decreases p.len() - i,
    {
        if p[i] != s[i] {
            return false;
        }
        i = i + 1;
    }
    assert(s@.subrange(0, p.len() as int) =~= p@);
    true
}

} // verus!

verus! {

/// Appends the characters of `s`.
pub fn push_str(out: &mut Vec<char>, s: &str)
    ensures
        final(out)@ == old(out)@ + s@,
{
    let cs = str_chars(s);
    let mut i: usize = 0;
    while i < cs.len()
        invariant
            i <= cs.len(),
            cs@ == s@,
            out@ == old(out)@ + cs@.take(i as int),
        decreases cs.len() - i,
    {
        out.push(cs[i]);
        assert(cs@.take(i + 1) =~= cs@.take(i as int).push(cs@[i as int]));
        i = i + 1;
    }
    assert(cs@.take(cs.len() as int) =~= cs@);
}

/// The concatenation of two strings.
pub fn concat_str(a: &str, b: &str) -> (r: String)
    ensures
        r@ == a@ + b@,
{
    let mut out: Vec<char> = Vec::new();
    push_str(&mut out, a);
    push_str(&mut out, b);
    chars_to_string(out.as_slice())
}

} // verus!
