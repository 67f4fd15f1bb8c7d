//! History items and single-line preview formatting.

use sha2::Digest;
use vstd::prelude::*;

use crate::text::{
    chars_to_string, collapse_chars, collapse_spec, str_chars, truncate_end_chars, truncate_end_spec,
    truncate_middle_chars, truncate_middle_spec, ELLIPSIS,
};

verus! {

/// Text alternatives stored beside the plain text of a text item.
#[derive(Clone, Debug, PartialEq)]
pub struct RichPayload {
    pub html: Option<String>,
    pub xml: Option<String>,
}

/// What a history entry holds.
///
/// Identifiers are 128-bit UUID values; an image's path is its UTF-8 text; a colour's
/// channels are kept as the IEEE-754 bit patterns of their `f32` values.
#[derive(Clone, Debug, PartialEq)]
pub enum ItemKind {
    Text { plain: String, rich: Option<RichPayload> },
    UriList(Vec<String>),
    Image { checksum: [u8; 32], path: String },
    Color { rgba: [u32; 4] },
    Password { name: String },
}

/// One clipboard history entry.
#[derive(Clone, Debug, PartialEq)]
pub struct HistoryItem {
    pub uuid: u128,
    pub kind: ItemKind,
    pub display: String,
    pub created_at: u64,
    pub byte_size: u64,
    pub password_name: Option<String>,
}

/// Number of bytes in the UTF-8 encoding of `s`, as `str::len` reports it.
pub open spec fn utf8_len(s: Seq<char>) -> nat {
    (vstd::utf8::encode_utf8(s).len() as usize) as nat
}

pub open spec fn opt_utf8_len(s: Option<String>) -> nat {
    match s {
        Some(t) => utf8_len(t@),
        None => 0,
    }
}

/// Bytes held by the rich alternatives (HTML plus XML).
pub open spec fn rich_byte_len(rich: Option<RichPayload>) -> nat {
    match rich {
        Some(r) => opt_utf8_len(r.html) + opt_utf8_len(r.xml),
        None => 0,
    }
}

/// Bytes a text item accounts for: its plain text plus its rich alternatives.
pub open spec fn text_item_size(plain: Seq<char>, rich: Option<RichPayload>) -> nat {
    utf8_len(plain) + rich_byte_len(rich)
}

/// The plain text of a text item.
pub open spec fn plain_of(kind: ItemKind) -> Option<Seq<char>> {
    match kind {
        ItemKind::Text { plain, .. } => Some(plain@),
        _ => None,
    }
}

/// The one-line preview: white space collapsed, then cut to `max_len` characters.
pub open spec fn display_line_spec(text: Seq<char>, max_len: nat) -> Seq<char> {
    truncate_end_spec(collapse_spec(text), max_len)
}

/// The one-line preview that keeps both ends of long text.
pub open spec fn display_line_middle_spec(text: Seq<char>, max_len: nat) -> Seq<char> {
    truncate_middle_spec(collapse_spec(text), max_len)
}

/// Width of the preview stored with a new text item.
pub const NEW_ITEM_DISPLAY_LEN: usize = 60;

/// A fresh random (version 4) UUID, as its 128-bit value (`uuid::Uuid::new_v4`).
///
/// Nothing is claimed of the value: it is random.
#[verifier::external_body]
pub(crate) fn new_uuid_v4() -> u128 {
    uuid::Uuid::new_v4().as_u128()
}

/// The SHA-256 digest of a byte sequence (as computed by the `sha2` crate).
pub uninterp spec fn sha256_digest(data: Seq<u8>) -> Seq<u8>;

/// SHA-256 of `data` (`sha2::Sha256::digest`).
///
/// Claims: the 32 result bytes are `sha256_digest` of the input bytes.
#[verifier::external_body]
fn sha256(data: &[u8]) -> (r: [u8; 32])
    ensures
        r@ == sha256_digest(data@),
{
    sha2::Sha256::digest(data).into()
}

/// Fingerprint of a text: SHA-256 of its UTF-8 bytes.
pub open spec fn text_fingerprint(text: Seq<char>) -> Seq<u8> {
    sha256_digest(vstd::utf8::encode_utf8(text))
}

pub fn text_checksum(plain: &str) -> (r: [u8; 32])
    ensures
        r@ == text_fingerprint(plain@),
{
    sha256(plain.as_bytes())
}

/// Compares two 32-byte digests.
pub fn same_digest(a: &[u8; 32], b: &[u8; 32]) -> (r: bool)
    ensures
        r == (a@ == b@),
{
    let mut i: usize = 0;
    while i < 32
        invariant
            i <= 32,
            a@.len() == 32,
            b@.len() == 32,
            forall|j: int| 0 <= j < i ==> a@[j] == b@[j],
        decreases 32 - i,
    {
        if a[i] != b[i] {
            return false;
        }
        i = i + 1;
    }
    assert(a@ =~= b@);
    true
}

fn opt_len(s: &Option<String>) -> (r: usize)
    ensures
        r == opt_utf8_len(*s),
{
    match s {
        Some(t) => t.as_str().len(),
        None => 0,
    }
}

impl HistoryItem {
    pub fn new_text(plain: String, rich: Option<RichPayload>, created_at: u64) -> (item: Self)
        requires
            rich_byte_len(rich) <= usize::MAX,
            text_item_size(plain@, rich) <= u64::MAX,
        ensures
            item.kind == (ItemKind::Text { plain, rich }),
            item.display@ == display_line_spec(plain@, NEW_ITEM_DISPLAY_LEN as nat),
            item.created_at == created_at,
            item.byte_size == text_item_size(plain@, rich),
            item.password_name is None,
    {
        Self::new_text_with_id(new_uuid_v4(), plain, rich, created_at)
    }

    /// `new_text` with the item's identifier given by the caller.
    pub fn new_text_with_id(uuid: u128, plain: String, rich: Option<RichPayload>, created_at: u64) -> (item:
        Self)
        requires
            rich_byte_len(rich) <= usize::MAX,
            text_item_size(plain@, rich) <= u64::MAX,
        ensures
            item.uuid == uuid,
            item.kind == (ItemKind::Text { plain, rich }),
            item.display@ == display_line_spec(plain@, NEW_ITEM_DISPLAY_LEN as nat),
            item.created_at == created_at,
            item.byte_size == text_item_size(plain@, rich),
            item.password_name is None,
    {
        let rich_len: usize = match &rich {
            Some(r) => opt_len(&r.html) + opt_len(&r.xml),
            None => 0,
        };
        let byte_size = plain.as_str().len() as u64 + rich_len as u64;
        let display = format_display_line(plain.as_str(), NEW_ITEM_DISPLAY_LEN);
        HistoryItem { uuid, kind: ItemKind::Text { plain, rich }, display, created_at, byte_size, password_name: None }
    }

    pub fn plain_text(&self) -> (r: Option<&str>)
        ensures
            match plain_of(self.kind) {
                Some(p) => r matches Some(s) && s@ == p,
                None => r is None,
            },
    {
        match &self.kind {
            ItemKind::Text { plain, .. } => Some(plain.as_str()),
            _ => None,
        }
    }

    pub fn is_password(&self) -> (r: bool)
        ensures
            r == (self.kind is Password),
    {
        match self.kind {
            ItemKind::Password { .. } => true,
            _ => false,
        }
    }
}

fn copy_opt_string(s: &Option<String>) -> (r: Option<String>)
    ensures
        r == *s,
{
    match s {
        Some(t) => Some(t.clone()),
        None => None,
    }
}

fn copy_strings(v: &Vec<String>) -> (r: Vec<String>)
    ensures
        r@ == v@,
{
    let mut out: Vec<String> = Vec::new();
    let mut i: usize = 0;
    while i < v.len()
        invariant
            i <= v@.len(),
            out@ == v@.take(i as int),
        decreases v.len() - i,
    {
        out.push(v[i].clone());
        assert(v@.take(i + 1) =~= v@.take(i as int).push(v@[i as int]));
        i = i + 1;
    }
    assert(v@.take(v@.len() as int) =~= v@);
    out
}

/// Two kinds hold the same values (URI lists compared entry by entry).
pub open spec fn same_kind(a: ItemKind, b: ItemKind) -> bool {
    match (a, b) {
        (ItemKind::UriList(x), ItemKind::UriList(y)) => x@ == y@,
        _ => a == b,
    }
}

/// Two entries hold the same values.
pub open spec fn same_item(a: HistoryItem, b: HistoryItem) -> bool {
    &&& a.uuid == b.uuid
    &&& same_kind(a.kind, b.kind)
    &&& a.display == b.display
    &&& a.created_at == b.created_at
    &&& a.byte_size == b.byte_size
    &&& a.password_name == b.password_name
}

impl RichPayload {
    /// A copy holding the same alternatives.
    pub fn duplicate(&self) -> (r: Self)
        ensures
            r == *self,
    {
        RichPayload { html: copy_opt_string(&self.html), xml: copy_opt_string(&self.xml) }
    }
}

impl ItemKind {
    /// A copy holding the same values.
    pub fn duplicate(&self) -> (r: Self)
        ensures
            same_kind(r, *self),
    {
        match self {
            ItemKind::Text { plain, rich } => {
                let rich = match rich {
                    Some(p) => Some(p.duplicate()),
                    None => None,
                };
                ItemKind::Text { plain: plain.clone(), rich }
            },
            ItemKind::UriList(uris) => ItemKind::UriList(copy_strings(uris)),
            ItemKind::Image { checksum, path } => ItemKind::Image { checksum: *checksum, path: path.clone() },
            ItemKind::Color { rgba } => ItemKind::Color { rgba: *rgba },
            ItemKind::Password { name } => ItemKind::Password { name: name.clone() },
        }
    }
}

impl HistoryItem {
    /// A copy holding the same values.
    pub fn duplicate(&self) -> (r: Self)
        ensures
            same_item(r, *self),
    {
        HistoryItem {
            uuid: self.uuid,
            kind: self.kind.duplicate(),
            display: self.display.clone(),
            created_at: self.created_at,
            byte_size: self.byte_size,
            password_name: copy_opt_string(&self.password_name),
        }
    }
}

/// Collapse whitespace and newlines for single-line UI labels.
pub fn collapse_display_text(text: &str) -> (r: String)
    ensures
        r@ == collapse_spec(text@),
{
    let chars = str_chars(text);
    let out = collapse_chars(chars.as_slice());
    chars_to_string(out.as_slice())
}

pub fn truncate_display(text: &str, max_len: usize) -> (r: String)
    ensures
        r@ == truncate_end_spec(text@, max_len as nat),
{
    truncate_chars_end(text, max_len)
}

pub fn truncate_display_middle(text: &str, max_len: usize) -> (r: String)
    ensures
        r@ == truncate_middle_spec(text@, max_len as nat),
{
    truncate_chars_middle(text, max_len)
}

/// Single-line preview for lists, tooltips, and panel popups.
pub fn format_display_line(text: &str, max_len: usize) -> (r: String)
    ensures
        r@ == display_line_spec(text@, max_len as nat),
{
    let chars = str_chars(text);
    let collapsed = collapse_chars(chars.as_slice());
    let out = truncate_end_chars(collapsed.as_slice(), max_len);
    chars_to_string(out.as_slice())
}

/// Single-line preview with start and end preserved when truncated.
pub fn format_display_line_middle(text: &str, max_len: usize) -> (r: String)
    ensures
        r@ == display_line_middle_spec(text@, max_len as nat),
{
    let chars = str_chars(text);
    let collapsed = collapse_chars(chars.as_slice());
    let out = truncate_middle_chars(collapsed.as_slice(), max_len);
    chars_to_string(out.as_slice())
}

fn truncate_chars_end(text: &str, max_len: usize) -> (r: String)
    ensures
        r@ == truncate_end_spec(text@, max_len as nat),
{
    let chars = str_chars(text);
    let out = truncate_end_chars(chars.as_slice(), max_len);
    chars_to_string(out.as_slice())
}

fn truncate_chars_middle(text: &str, max_len: usize) -> (r: String)
    ensures
        r@ == truncate_middle_spec(text@, max_len as nat),
{
    let chars = str_chars(text);
    let out = truncate_middle_chars(chars.as_slice(), max_len);
    chars_to_string(out.as_slice())
}

} // verus!
