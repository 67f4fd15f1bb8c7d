//! On-disk layout, history-file framing and load decisions. File access itself is
//! done by the caller; this module decides names, bytes and outcomes.

use vstd::prelude::*;

use crate::history::{total_size, History, HistoryPolicies};
use crate::item::{utf8_len, HistoryItem};
use crate::text::{
    chars_to_string, concat_str, decimal_spec, hex_spec, push_decimal, push_hex, push_str, str_chars, utf8_decode,
};

verus! {

/// Length of the magic header that starts every history file.
pub const FORMAT_MAGIC_LEN: usize = 21;

/// `COSMIC_PASTE_HISTORY` followed by a NUL byte.
pub const FORMAT_MAGIC: [u8; 21] = [
    0x43, 0x4f, 0x53, 0x4d, 0x49, 0x43, 0x5f, 0x50, 0x41, 0x53, 0x54, 0x45, 0x5f, 0x48, 0x49, 0x53,
    0x54, 0x4f, 0x52, 0x59, 0x00,
];

/// Highest history-file format version this library reads (and the one it writes).
pub const FORMAT_VERSION: u32 = 1;

/// Why a history name, path or file was refused.
#[derive(Clone, Debug, PartialEq)]
pub enum PersistenceError {
    InvalidHistoryName(String),
    Corrupted { path: String, reason: String },
    UnsupportedVersion { found: u32, supported: u32 },
}

/// The text that describes a persistence error.
pub open spec fn persistence_error_text(e: PersistenceError) -> Seq<char> {
    match e {
        PersistenceError::InvalidHistoryName(n) => "invalid history name: "@ + n@,
        PersistenceError::Corrupted { path, reason } => "corrupted history file "@ + path@ + ": "@ + reason@,
        PersistenceError::UnsupportedVersion { found, supported } => "unsupported history format version "@
            + decimal_spec(found as nat) + " (max supported "@ + decimal_spec(supported as nat) + ")"@,
    }
}

impl PersistenceError {
    /// The text that describes the error.
    pub fn message(&self) -> (r: String)
        ensures
            r@ == persistence_error_text(*self),
    {
        let mut out: Vec<char> = Vec::new();
        match self {
            PersistenceError::InvalidHistoryName(n) => {
                push_str(&mut out, "invalid history name: ");
                push_str(&mut out, n.as_str());
            },
            PersistenceError::Corrupted { path, reason } => {
                push_str(&mut out, "corrupted history file ");
                push_str(&mut out, path.as_str());
                push_str(&mut out, ": ");
                push_str(&mut out, reason.as_str());
            },
            PersistenceError::UnsupportedVersion { found, supported } => {
                push_str(&mut out, "unsupported history format version ");
                push_decimal(&mut out, *found as u64);
                push_str(&mut out, " (max supported ");
                push_decimal(&mut out, *supported as u64);
                push_str(&mut out, ")");
            },
        }
        chars_to_string(out.as_slice())
    }
}

/// The content of a history file (after its header).
#[derive(Clone, Debug, PartialEq)]
pub struct HistoryFile {
    pub version: u32,
    pub name: String,
    pub policies: HistoryPolicies,
    pub items: Vec<HistoryItem>,
}

/// Which history is current and which of its entries is active.
#[derive(Clone, Debug, PartialEq, Eq)]
pub struct SessionState {
    pub active_index: usize,
    pub current_history: String,
}

impl Default for SessionState {
    fn default() -> (s: Self)
        ensures
            s.active_index == 0,
            s.current_history@ == "history"@,
    {
        Self { active_index: 0, current_history: "history".to_owned() }
    }
}

/// How a history was obtained from disk.
#[derive(Clone, Debug)]
pub enum LoadHistoryOutcome {
    Loaded(History),
    RecoveredFromBackup(History),
    EmptyAfterCorruption { name: String },
}

/// `comp` appended to the directory `base` as `PathBuf::join` does for a relative
/// component: no separator after an empty base or one that already ends in `/`.
pub open spec fn path_join(base: Seq<char>, comp: Seq<char>) -> Seq<char> {
    if base.len() == 0 {
        comp
    } else if base.last() == '/' {
        base + comp
    } else {
        base + seq!['/'] + comp
    }
}

/// A character allowed in a history name: ASCII letter or digit, `_` or `-`.
pub open spec fn is_name_char(c: char) -> bool {
    ||| 'a' <= c <= 'z'
    ||| 'A' <= c <= 'Z'
    ||| '0' <= c <= '9'
    ||| c == '_'
    ||| c == '-'
}

/// A history name: 1 to 64 bytes of name characters.
pub open spec fn valid_history_name(name: Seq<char>) -> bool {
    &&& name.len() > 0
    &&& utf8_len(name) <= 64
    &&& forall|i: int| 0 <= i < name.len() ==> is_name_char(#[trigger] name[i])
}

/// Joins a relative path component onto a directory path (see `path_join`).
pub fn join_path(base: &str, comp: &str) -> (r: String)
    ensures
        r@ == path_join(base@, comp@),
{
    let mut out: Vec<char> = Vec::new();
    push_str(&mut out, base);
    if out.len() > 0 && out[out.len() - 1] != '/' {
        out.push('/');
    }
    push_str(&mut out, comp);
    proof {
        if base@.len() == 0 {
            assert(out@ =~= comp@);
        } else if base@.last() == '/' {
            assert(out@ =~= base@ + comp@);
        } else {
            assert(out@ =~= base@ + seq!['/'] + comp@);
        }
    }
    chars_to_string(out.as_slice())
}

fn is_name_character(c: char) -> (r: bool)
    ensures
        r == is_name_char(c),
{
    ('a' <= c && c <= 'z') || ('A' <= c && c <= 'Z') || ('0' <= c && c <= '9') || c == '_' || c
        == '-'
}

/// Accepts names of 1 to 64 bytes made of ASCII letters, digits, `_` and `-`.
pub fn validate_history_name(name: &str) -> (r: Result<(), PersistenceError>)
    ensures
        valid_history_name(name@) ==> r is Ok,
        !valid_history_name(name@) ==> (r matches Err(PersistenceError::InvalidHistoryName(n)) && n@
            == name@),
{
    let mut valid = !name.is_empty() && name.len() <= 64;
    if valid {
        let cs = str_chars(name);
        let mut i: usize = 0;
        while i < cs.len()
            invariant
                i <= cs.len(),
                cs@ == name@,
                valid ==> forall|j: int| 0 <= j < i ==> is_name_char(#[trigger] cs@[j]),
                !valid ==> exists|j: int| 0 <= j < cs@.len() && !is_name_char(#[trigger] cs@[j]),
            decreases cs.len() - i,
        {
            if !is_name_character(cs[i]) {
                valid = false;
            }
            i = i + 1;
        }
    }
    if valid {
        Ok(())
    } else {
        Err(PersistenceError::InvalidHistoryName(name.to_owned()))
    }
}

/// Resolved on-disk locations under the cosmic-paste data root.
#[derive(Clone, Debug, PartialEq, Eq)]
pub struct DataPaths {
    base: String,
}

impl DataPaths {
    /// The data root.
    pub closed spec fn base_path(&self) -> Seq<char> {
        self.base@
    }

    pub open spec fn histories_path(&self) -> Seq<char> {
        path_join(self.base_path(), "histories"@)
    }

    pub fn new(base: &str) -> (p: Self)
        ensures
            p.base_path() == base@,
    {
        Self { base: base.to_owned() }
    }

    pub fn base(&self) -> (r: &str)
        ensures
            r@ == self.base_path(),
    {
        self.base.as_str()
    }

    pub fn histories_dir(&self) -> (r: String)
        ensures
            r@ == self.histories_path(),
    {
        join_path(self.base.as_str(), "histories")
    }

    /// `<histories>/<name>.ron`, for a valid name.
    pub fn history_file(&self, name: &str) -> (r: Result<String, PersistenceError>)
        ensures
            valid_history_name(name@) ==> (r matches Ok(p) && p@ == path_join(
                self.histories_path(),
                name@ + ".ron"@,
            )),
            !valid_history_name(name@) ==> (r matches Err(PersistenceError::InvalidHistoryName(n))
                && n@ == name@),
    {
        match validate_history_name(name) {
            Ok(()) => {},
            Err(e) => {
                return Err(e);
            },
        }
        let file = concat_str(name, ".ron");
        Ok(join_path(self.histories_dir().as_str(), file.as_str()))
    }

    /// `<histories>/<name>.ron.bak`, for a valid name.
    pub fn history_backup_file(&self, name: &str) -> (r: Result<String, PersistenceError>)
        ensures
            valid_history_name(name@) ==> (r matches Ok(p) && p@ == path_join(
                self.histories_path(),
                name@ + ".ron.bak"@,
            )),
            !valid_history_name(name@) ==> (r matches Err(PersistenceError::InvalidHistoryName(n))
                && n@ == name@),
    {
        match validate_history_name(name) {
            Ok(()) => {},
            Err(e) => {
                return Err(e);
            },
        }
        let file = concat_str(name, ".ron.bak");
        Ok(join_path(self.histories_dir().as_str(), file.as_str()))
    }

    /// `<histories>/<name>.blobs`, for a valid name.
    pub fn history_blob_dir(&self, name: &str) -> (r: Result<String, PersistenceError>)
        ensures
            valid_history_name(name@) ==> (r matches Ok(p) && p@ == path_join(
                self.histories_path(),
                name@ + ".blobs"@,
            )),
            !valid_history_name(name@) ==> (r matches Err(PersistenceError::InvalidHistoryName(n))
                && n@ == name@),
    {
        match validate_history_name(name) {
            Ok(()) => {},
            Err(e) => {
                return Err(e);
            },
        }
        let file = concat_str(name, ".blobs");
        Ok(join_path(self.histories_dir().as_str(), file.as_str()))
    }

    pub fn backups_dir(&self) -> (r: String)
        ensures
            r@ == path_join(self.base_path(), "backups"@),
    {
        join_path(self.base.as_str(), "backups")
    }

    pub fn state_file(&self) -> (r: String)
        ensures
            r@ == path_join(self.base_path(), "state.json"@),
    {
        join_path(self.base.as_str(), "state.json")
    }
}

/// Owner of the on-disk locations of histories and session state.
pub struct HistoryStore {
    paths: DataPaths,
}

impl HistoryStore {
    pub closed spec fn paths_view(&self) -> DataPaths {
        self.paths
    }

    pub fn new(paths: DataPaths) -> (s: Self)
        ensures
            s.paths_view() == paths,
    {
        Self { paths }
    }

    pub fn paths(&self) -> (r: &DataPaths)
        ensures
            *r == self.paths_view(),
    {
        &self.paths
    }
}

/// Lower-case hex of a 32-byte checksum (the blob file name).
pub fn checksum_hex(checksum: &[u8; 32]) -> (r: String)
    ensures
        r@ == hex_spec(checksum@),
{
    let mut out: Vec<char> = Vec::new();
    push_hex(&mut out, checksum);
    assert(out@ =~= hex_spec(checksum@));
    chars_to_string(out.as_slice())
}

} // verus!

verus! {

/// The magic header as a byte sequence.
pub open spec fn magic_spec() -> Seq<u8> {
    FORMAT_MAGIC@
}

/// Four little-endian bytes of `v`.
pub open spec fn le_bytes(v: u32) -> Seq<u8> {
    seq![(v % 256) as u8, ((v / 256) % 256) as u8, ((v / 65536) % 256) as u8, (v / 16777216) as u8]
}

/// The number four little-endian bytes denote.
pub open spec fn le_value(b: Seq<u8>) -> nat {
    b[0] as nat + b[1] as nat * 256 + b[2] as nat * 65536 + b[3] as nat * 16777216
}

/// The bytes of a history file: magic header, little-endian version, then the RON body
/// in UTF-8.
pub open spec fn history_file_bytes(version: u32, body: Seq<char>) -> Seq<u8> {
    magic_spec() + le_bytes(version) + vstd::utf8::encode_utf8(body)
}

/// The outcome of reading a history file's bytes: the RON body text, or why the bytes
/// are refused.
pub open spec fn unframe_ok(bytes: Seq<u8>) -> bool {
    &&& bytes.len() >= FORMAT_MAGIC_LEN + 4
    &&& bytes.take(FORMAT_MAGIC_LEN as int) == magic_spec()
    &&& le_value(bytes.subrange(FORMAT_MAGIC_LEN as int, FORMAT_MAGIC_LEN + 4)) <= FORMAT_VERSION
    &&& vstd::utf8::valid_utf8(bytes.skip(FORMAT_MAGIC_LEN + 4))
}

/// Builds the bytes of a history file around an already serialised RON body.
pub fn frame_history_file(version: u32, ron_body: &str) -> (out: Vec<u8>)
    ensures
        out@ == history_file_bytes(version, ron_body@),
{
    let mut out: Vec<u8> = Vec::new();
    let mut i: usize = 0;
    while i < FORMAT_MAGIC_LEN
        invariant
            i <= FORMAT_MAGIC_LEN,
            out@ == magic_spec().take(i as int),
        decreases FORMAT_MAGIC_LEN - i,
    {
        out.push(FORMAT_MAGIC[i]);
        assert(magic_spec().take(i + 1) =~= magic_spec().take(i as int).push(FORMAT_MAGIC@[i as int]));
        i = i + 1;
    }
    assert(magic_spec().take(FORMAT_MAGIC_LEN as int) =~= magic_spec());
    out.push((version % 256) as u8);
    out.push(((version / 256) % 256) as u8);
    out.push(((version / 65536) % 256) as u8);
    out.push((version / 16777216) as u8);
    let body = ron_body.as_bytes();
    let mut j: usize = 0;
    let ghost head = out@;
    while j < body.len()
        invariant
            j <= body@.len(),
            out@ == head + body@.take(j as int),
        decreases body.len() - j,
    {
        out.push(body[j]);
        assert(body@.take(j + 1) =~= body@.take(j as int).push(body@[j as int]));
        j = j + 1;
    }
    assert(body@.take(body@.len() as int) =~= body@);
    assert(out@ =~= history_file_bytes(version, ron_body@));
    out
}

/// Checks the header of a history file and returns its RON body text.
pub fn unframe_history_file(bytes: &[u8], path: &str) -> (r: Result<String, PersistenceError>)
    ensures
        unframe_ok(bytes@) ==> (r matches Ok(body) && body@ == vstd::utf8::decode_utf8(
            bytes@.skip(FORMAT_MAGIC_LEN + 4),
        )),
        bytes@.len() < FORMAT_MAGIC_LEN + 4 ==> (r matches Err(PersistenceError::Corrupted { path: p, reason })
            && p@ == path@ && reason@ == "file too short"@),
        bytes@.len() >= FORMAT_MAGIC_LEN + 4 && bytes@.take(FORMAT_MAGIC_LEN as int) != magic_spec()
            ==> (r matches Err(PersistenceError::Corrupted { path: p, reason }) && p@ == path@
            && reason@ == "bad magic header"@),
        bytes@.len() >= FORMAT_MAGIC_LEN + 4 && bytes@.take(FORMAT_MAGIC_LEN as int) == magic_spec()
            && le_value(bytes@.subrange(FORMAT_MAGIC_LEN as int, FORMAT_MAGIC_LEN + 4))
            > FORMAT_VERSION ==> r == Err::<String, PersistenceError>(
            PersistenceError::UnsupportedVersion {
                found: le_value(bytes@.subrange(FORMAT_MAGIC_LEN as int, FORMAT_MAGIC_LEN + 4)) as u32,
                supported: FORMAT_VERSION,
            },
        ),
        bytes@.len() >= FORMAT_MAGIC_LEN + 4 && bytes@.take(FORMAT_MAGIC_LEN as int) == magic_spec()
            && le_value(bytes@.subrange(FORMAT_MAGIC_LEN as int, FORMAT_MAGIC_LEN + 4))
            <= FORMAT_VERSION && !vstd::utf8::valid_utf8(bytes@.skip(FORMAT_MAGIC_LEN + 4)) ==> (
        r matches Err(PersistenceError::Corrupted { path: p, reason }) && p@ == path@
            && "invalid utf-8 in ron body: "@.is_prefix_of(reason@)),
{
    if bytes.len() < FORMAT_MAGIC_LEN + 4 {
        return Err(
            PersistenceError::Corrupted { path: path.to_owned(), reason: "file too short".to_owned() },
        );
    }
    let mut i: usize = 0;
    while i < FORMAT_MAGIC_LEN
        invariant
            i <= FORMAT_MAGIC_LEN,
            bytes@.len() >= FORMAT_MAGIC_LEN + 4,
            forall|k: int| 0 <= k < i ==> bytes@[k] == FORMAT_MAGIC@[k],
        decreases FORMAT_MAGIC_LEN - i,
    {
        if bytes[i] != FORMAT_MAGIC[i] {
            assert(bytes@.take(FORMAT_MAGIC_LEN as int)[i as int] != magic_spec()[i as int]);
            return Err(
                PersistenceError::Corrupted {
                    path: path.to_owned(),
                    reason: "bad magic header".to_owned(),
                },
            );
        }
        i = i + 1;
    }
    assert(bytes@.take(FORMAT_MAGIC_LEN as int) =~= magic_spec());
    let b0 = bytes[FORMAT_MAGIC_LEN] as u32;
    let b1 = bytes[FORMAT_MAGIC_LEN + 1] as u32;
    let b2 = bytes[FORMAT_MAGIC_LEN + 2] as u32;
    let b3 = bytes[FORMAT_MAGIC_LEN + 3] as u32;
    let version: u32 = b0 + b1 * 256 + b2 * 65536 + b3 * 16777216;
    assert(version == le_value(bytes@.subrange(FORMAT_MAGIC_LEN as int, FORMAT_MAGIC_LEN + 4)));
    if version > FORMAT_VERSION {
        return Err(PersistenceError::UnsupportedVersion { found: version, supported: FORMAT_VERSION });
    }
    let mut rest: Vec<u8> = Vec::new();
    let mut j: usize = FORMAT_MAGIC_LEN + 4;
    while j < bytes.len()
        invariant
            FORMAT_MAGIC_LEN + 4 <= j <= bytes@.len(),
            rest@ == bytes@.subrange(FORMAT_MAGIC_LEN + 4, j as int),
        decreases bytes.len() - j,
    {
        rest.push(bytes[j]);
        assert(bytes@.subrange(FORMAT_MAGIC_LEN + 4, j + 1) =~= bytes@.subrange(
            FORMAT_MAGIC_LEN + 4,
            j as int,
        ).push(bytes@[j as int]));
        j = j + 1;
    }
    assert(rest@ =~= bytes@.skip(FORMAT_MAGIC_LEN + 4));
    match utf8_decode(rest.as_slice()) {
        Ok(body) => Ok(body),
        Err(err) => {
            let reason = concat_str("invalid utf-8 in ron body: ", err.as_str());
            proof {
                reveal_strlit("invalid utf-8 in ron body: ");
            }
            assert(reason@.subrange(0, 27) =~= "invalid utf-8 in ron body: "@);
            Err(PersistenceError::Corrupted { path: path.to_owned(), reason })
        },
    }
}

/// Whether the items' byte sizes add up within `u64` (needed to rebuild a history).
pub open spec fn file_fits(file: Option<HistoryFile>) -> bool {
    file matches Some(f) ==> total_size(f.items@) <= u64::MAX
}

pub fn history_from_file(file: HistoryFile) -> (h: History)
    requires
        total_size(file.items@) <= u64::MAX,
    ensures
        h.wf(),
        h@.name == file.name@,
        h@.policies == file.policies,
        h@.items == file.items@,
        h@.byte_total == total_size(file.items@),
{
    History::from_persisted(file.name.as_str(), file.policies, file.items)
}

/// Decides what loading history `name` yields: an empty history when neither the file nor
/// its backup exists; otherwise the parsed primary file, else the parsed backup, else an
/// empty history marked as recovered from corruption. `primary` and `backup` are the
/// parsed files (`None` when reading or parsing failed).
pub fn resolve_load(
    name: &str,
    default_policies: HistoryPolicies,
    primary_exists: bool,
    backup_exists: bool,
    primary: Option<HistoryFile>,
    backup: Option<HistoryFile>,
) -> (r: LoadHistoryOutcome)
    requires
        file_fits(primary),
        file_fits(backup),
    ensures
        !primary_exists && !backup_exists ==> (r matches LoadHistoryOutcome::Loaded(h) && h.wf()
            && h@.name == name@ && h@.items.len() == 0 && h@.policies == default_policies
            && h@.byte_total == 0),
        (primary_exists || backup_exists) && primary is Some ==> (r matches LoadHistoryOutcome::Loaded(h)
            && h.wf() && h@.name == primary->0.name@ && h@.policies == primary->0.policies
            && h@.items == primary->0.items@ && h@.byte_total == total_size(primary->0.items@)),
        (primary_exists || backup_exists) && primary is None && backup is Some ==> (r matches LoadHistoryOutcome::RecoveredFromBackup(
            h,
        ) && h.wf() && h@.name == backup->0.name@ && h@.policies == backup->0.policies
            && h@.items == backup->0.items@ && h@.byte_total == total_size(backup->0.items@)),
        (primary_exists || backup_exists) && primary is None && backup is None ==> (r matches LoadHistoryOutcome::EmptyAfterCorruption {
            name: n,
        } && n@ == name@),
{
    if !primary_exists && !backup_exists {
        return LoadHistoryOutcome::Loaded(History::new(name, default_policies));
    }
    match primary {
        Some(file) => LoadHistoryOutcome::Loaded(history_from_file(file)),
        None => match backup {
            Some(file) => LoadHistoryOutcome::RecoveredFromBackup(history_from_file(file)),
            None => LoadHistoryOutcome::EmptyAfterCorruption { name: name.to_owned() },
        },
    }
}

/// Whether a failed load moves the primary file aside (to `*.ron.corrupt`): only when
/// both files were unreadable and the primary exists.
pub fn quarantine_primary(
    primary_exists: bool,
    backup_exists: bool,
    primary_ok: bool,
    backup_ok: bool,
) -> (r: bool)
    ensures
        r == ((primary_exists || backup_exists) && !primary_ok && !backup_ok && primary_exists),
{
    (primary_exists || backup_exists) && !primary_ok && !backup_ok && primary_exists
}

/// Reading back the bytes written for a body of version at most `FORMAT_VERSION` gives
/// that body back.
pub proof fn lemma_frame_round_trip(version: u32, body: Seq<char>)
    requires
        version <= FORMAT_VERSION,
    ensures
        unframe_ok(history_file_bytes(version, body)),
        vstd::utf8::decode_utf8(history_file_bytes(version, body).skip(FORMAT_MAGIC_LEN + 4)) == body,
{
    let bytes = history_file_bytes(version, body);
    assert(bytes.take(FORMAT_MAGIC_LEN as int) =~= magic_spec());
    assert(bytes.subrange(FORMAT_MAGIC_LEN as int, FORMAT_MAGIC_LEN + 4) =~= le_bytes(version));
    assert(bytes.skip(FORMAT_MAGIC_LEN + 4) =~= vstd::utf8::encode_utf8(body));
    vstd::utf8::encode_utf8_valid_utf8(body);
    vstd::utf8::encode_utf8_decode_utf8(body);
}

} // verus!
