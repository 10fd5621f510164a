//! Classifying DX `.machine` files and judging them against their metadata.
//!
//! A `.machine` file is either a typed cache (it starts with `DXMCACH1`) or
//! a serializer document. Each is judged against a `.machine.meta.json`
//! file beside it that records the source it was compiled from. Reading
//! files is left to the caller: the functions here take what was read (or
//! why it could not be) and decide the state of the artifact.

use vstd::prelude::*;
use crate::digest::{blake3_digest, hash_hex};
use crate::paths::{
    path_file_name, path_with_extension, path_with_file_name, resolve_recorded_path,
    resolved_path, std_path_file_name, std_path_with_extension, std_path_with_file_name,
};
use crate::text::{join_text, lower_hex};

verus! {

/// The schema name of a status report.
pub const DX_STATUS_SCHEMA: &'static str = "forge.dx_status";

/// The format version of a status report.
pub const DX_STATUS_FORMAT: u16 = 1;

/// The length of the header of a typed cache; its payload follows.
pub const TYPED_CACHE_HEADER_LEN: usize = 256;

/// Machine files above this size (64 MiB) are not read.
pub const MAX_MACHINE_INSPECTION_BYTES: u64 = 67108864;

/// What a `.machine` file holds.
#[derive(Debug, Clone, Copy, PartialEq, Eq, Structural)]
pub enum DxMachineKind {
    SerializerDocument,
    TypedCache,
    Unknown,
}

/// The state of an artifact or of its metadata.
#[derive(Debug, Clone, Copy, PartialEq, Eq, Structural)]
pub enum DxArtifactState {
    Fresh,
    Stale,
    Missing,
    MissingSource,
    MissingMetadata,
    Unchecked,
    Invalid,
    TooLarge,
}

/// Counts taken from a decoded serializer document.
#[derive(Debug, PartialEq, Eq)]
pub struct DxDocumentSummary {
    pub context_entries: usize,
    pub refs: usize,
    pub sections: usize,
    pub section_rows: usize,
    pub project_name: Option<String>,
}

/// What the metadata of a machine file records, and which of its hashes
/// matched.
#[derive(Debug, PartialEq, Eq)]
pub struct DxMachineMetadata {
    pub schema: Option<String>,
    pub cache_schema: Option<String>,
    pub cache_version: Option<u32>,
    pub cache_kind: Option<u32>,
    pub source_path: Option<String>,
    pub source_bytes: Option<u64>,
    pub source_blake3: Option<String>,
    pub source_hash_matches: Option<bool>,
    pub machine_path: Option<String>,
    pub machine_bytes: Option<u64>,
    pub machine_blake3: Option<String>,
    pub machine_hash_matches: Option<bool>,
    pub payload_bytes: Option<u64>,
    pub payload_blake3: Option<String>,
    pub payload_hash_matches: Option<bool>,
}

/// The verdict on one `.machine` file.
#[derive(Debug, PartialEq, Eq)]
pub struct DxMachineStatus {
    pub kind: DxMachineKind,
    pub state: DxArtifactState,
    pub path: String,
    pub bytes: u64,
    pub blake3: String,
    pub metadata_path: Option<String>,
    pub metadata_state: Option<DxArtifactState>,
    pub metadata: Option<DxMachineMetadata>,
    pub document_summary: Option<DxDocumentSummary>,
    pub warnings: Vec<String>,
    pub error: Option<String>,
}

/// The status of every `.machine` file of a project, by kind.
#[derive(Debug, PartialEq, Eq)]
pub struct DxStatusReport {
    pub schema: String,
    pub format: u16,
    pub generated_at_unix_ms: i64,
    pub project_root: String,
    pub forge_repository_present: bool,
    pub dx_root_present: bool,
    pub package_manifest_configured: bool,
    pub serializer_machines: Vec<DxMachineStatus>,
    pub typed_caches: Vec<DxMachineStatus>,
    pub unknown_machines: Vec<DxMachineStatus>,
    pub warnings: Vec<String>,
}

/// One file entry of serializer metadata.
#[derive(Debug, PartialEq, Eq)]
pub struct GenericMetadataFile {
    pub path: String,
    pub bytes: u64,
    pub blake3: String,
}

/// The metadata beside a serializer document.
#[derive(Debug, PartialEq, Eq)]
pub struct GenericMetadata {
    pub schema: String,
    pub source: GenericMetadataFile,
    pub machine: GenericMetadataFile,
}

/// The metadata beside a typed cache.
#[derive(Debug, PartialEq, Eq)]
pub struct TypedCacheMetadata {
    pub cache_schema: String,
    pub cache_version: u32,
    pub cache_kind: u32,
    pub source_path: String,
    pub source_len: u64,
    pub source_blake3: String,
    pub machine_path: String,
    pub machine_payload_len: u64,
    pub machine_payload_blake3: String,
}

/// What became of loading a metadata file.
#[derive(Debug, PartialEq, Eq)]
pub enum MetadataLoad<T> {
    /// There is no regular file at the metadata path.
    NotAFile,
    /// The file could not be read as text; the reason.
    ReadFailed(String),
    /// The text is not the expected JSON; the reason.
    ParseFailed(String),
    /// The parsed metadata.
    Loaded(T),
}

/// What became of reading a source file.
#[derive(Debug, PartialEq, Eq)]
pub enum SourceLoad {
    /// Its bytes.
    Read(Vec<u8>),
    /// There is no such file.
    NotFound,
    /// It could not be read for another reason; the reason.
    Failed(String),
}

/// The judgement of a machine file by its metadata.
#[derive(Debug, PartialEq, Eq)]
pub struct MetadataVerdict {
    pub metadata: Option<DxMachineMetadata>,
    pub metadata_state: DxArtifactState,
    pub state: DxArtifactState,
    pub warnings: Vec<String>,
}

/// Metadata that matched the machine bytes; the source it names is still
/// to be compared.
#[derive(Debug, PartialEq, Eq)]
pub struct PendingSource {
    pub metadata: DxMachineMetadata,
    pub source_path: String,
    pub source_blake3: String,
    pub source_len: u64,
}

/// The first step of judging a machine file by its metadata.
#[derive(Debug, PartialEq, Eq)]
pub enum MetadataCheck {
    /// The verdict needs no source.
    Decided(MetadataVerdict),
    /// The caller is to read `source_path` and finish the judgement.
    NeedSource(PendingSource),
}

/// The shape of a decoded serializer document.
#[derive(Debug, PartialEq, Eq)]
pub struct DocumentShape {
    pub context_entries: usize,
    pub refs: usize,
    /// The number of rows of each section.
    pub section_rows: Vec<usize>,
    /// The string at `project.name`, if there is one.
    pub project_name: Option<String>,
}

/// The hex BLAKE3 hash that a status records for some bytes.
pub open spec fn content_hash(bytes: Seq<u8>) -> Seq<char> {
    lower_hex(blake3_digest(bytes))
}

/// The texts of a list of strings.
pub open spec fn texts(w: Seq<String>) -> Seq<Seq<char>> {
    w.map_values(|s: String| s@)
}

/// `o` holds a string with text `t`.
pub open spec fn text_is(o: Option<String>, t: Seq<char>) -> bool {
    o matches Some(s) && s@ == t
}

/// `bytes` begins with `prefix`.
pub open spec fn has_prefix(bytes: Seq<u8>, prefix: Seq<u8>) -> bool {
    prefix.len() <= bytes.len() && bytes.take(prefix.len() as int) == prefix
}

/// `s` ends with `suffix`.
pub open spec fn has_suffix(s: Seq<char>, suffix: Seq<char>) -> bool {
    suffix.len() <= s.len() && s.skip(s.len() - suffix.len()) == suffix
}

/// The magic of a serializer document, `DXM1`.
pub open spec fn serializer_document_magic() -> Seq<u8> {
    seq![0x44u8, 0x58u8, 0x4du8, 0x31u8]
}

/// The magic of a typed cache, `DXMCACH1`.
pub open spec fn typed_cache_magic() -> Seq<u8> {
    seq![0x44u8, 0x58u8, 0x4du8, 0x43u8, 0x41u8, 0x43u8, 0x48u8, 0x31u8]
}

/// The payload of a typed cache: what follows its 256-byte header, or
/// nothing when the file is shorter than the header.
pub open spec fn typed_payload(bytes: Seq<u8>) -> Seq<u8> {
    if bytes.len() >= 256 {
        bytes.skip(256)
    } else {
        Seq::empty()
    }
}

/// The metadata path of a machine file: `<stem>.machine.meta.json` beside
/// `<stem>.machine`, or the path with its extension replaced by
/// `machine.meta.json` for any other name.
pub open spec fn metadata_path_of(machine_path: Seq<char>) -> Seq<char> {
    match std_path_file_name(machine_path) {
        Some(name) => if has_suffix(name, ".machine"@) {
            std_path_with_file_name(
                machine_path,
                name.take(name.len() - 8) + ".machine.meta.json"@,
            )
        } else {
            std_path_with_extension(machine_path, "machine.meta.json"@)
        },
        None => std_path_with_extension(machine_path, "machine.meta.json"@),
    }
}

fn starts_with_bytes(bytes: &[u8], prefix: &[u8]) -> (res: bool)
    ensures
        res == has_prefix(bytes@, prefix@),
{
    if prefix.len() > bytes.len() {
        return false;
    }
    let mut i: usize = 0;
    while i < prefix.len()
        invariant
            i <= prefix@.len(),
            prefix@.len() <= bytes@.len(),
            bytes@.take(i as int) =~= prefix@.take(i as int),
        decreases prefix.len() - i,
    {
        if bytes[i] != prefix[i] {
            assert(bytes@.take(prefix@.len() as int)[i as int] == bytes@[i as int]);
            return false;
        }
        assert(bytes@.take(i + 1) =~= bytes@.take(i as int).push(bytes@[i as int]));
        assert(prefix@.take(i + 1) =~= prefix@.take(i as int).push(prefix@[i as int]));
        i = i + 1;
    }
    assert(prefix@.take(prefix@.len() as int) =~= prefix@);
    true
}

/// Whether the bytes begin with the typed-cache magic `DXMCACH1`.
pub fn is_typed_cache(bytes: &[u8]) -> (res: bool)
    ensures
        res == has_prefix(bytes@, typed_cache_magic()),
{
    let magic: [u8; 8] = [0x44, 0x58, 0x4d, 0x43, 0x41, 0x43, 0x48, 0x31];
    assert(magic@ =~= typed_cache_magic());
    starts_with_bytes(bytes, magic.as_slice())
}

/// Whether the bytes begin with the serializer-document magic `DXM1`.
pub fn is_serializer_document(bytes: &[u8]) -> (res: bool)
    ensures
        res == has_prefix(bytes@, serializer_document_magic()),
{
    let magic: [u8; 4] = [0x44, 0x58, 0x4d, 0x31];
    assert(magic@ =~= serializer_document_magic());
    starts_with_bytes(bytes, magic.as_slice())
}

/// Whether a machine file of this size is too large to read (over 64 MiB).
pub fn exceeds_inspection_limit(bytes_len: u64) -> (res: bool)
    ensures
        res == (bytes_len > 67108864),
{
    bytes_len > MAX_MACHINE_INSPECTION_BYTES
}

/// `s` with `suffix` taken off its end, if it ends with it.
fn strip_suffix(s: &str, suffix: &str) -> (res: Option<String>)
    ensures
        res is Some <==> has_suffix(s@, suffix@),
        res matches Some(r) ==> r@ == s@.take(s@.len() - suffix@.len()),
{
    let n = s.unicode_len();
    let k = suffix.unicode_len();
    if k > n {
        return None;
    }
    let start = n - k;
    let mut i: usize = 0;
    while i < k
        invariant
            i <= k,
            k == suffix@.len(),
            n == s@.len(),
            start == n - k,
            forall|j: int| 0 <= j < i ==> s@[start + j] == suffix@[j],
        decreases k - i,
    {
        if s.get_char(start + i) != suffix.get_char(i) {
            assert(s@.skip(start as int)[i as int] == s@[start + i]);
            return None;
        }
        i = i + 1;
    }
    assert(s@.skip(start as int) =~= suffix@);
    Some(String::from_str(s.substring_char(0, start)))
}

/// Whether a file name names a machine file: it ends with `.machine`.
pub fn is_machine_file_name(name: &str) -> (res: bool)
    ensures
        res == has_suffix(name@, ".machine"@),
{
    strip_suffix(name, ".machine").is_some()
}

/// The metadata path of a machine file (see `metadata_path_of`).
pub fn metadata_path_for(machine_path: &str) -> (res: String)
    ensures
        res@ == metadata_path_of(machine_path@),
{
    proof {
        reveal_strlit(".machine");
        reveal_strlit("machine.meta.json");
    }
    match path_file_name(machine_path) {
        Some(file_name) => match strip_suffix(file_name.as_str(), ".machine") {
            Some(stem) => {
                let mut name = stem;
                name.append(".machine.meta.json");
                path_with_file_name(machine_path, name.as_str())
            },
            None => path_with_extension(machine_path, "machine.meta.json"),
        },
        None => path_with_extension(machine_path, "machine.meta.json"),
    }
}

/// The hex BLAKE3 hash of the payload of a typed cache, and the payload's
/// length.
fn payload_hash(machine_bytes: &[u8]) -> (res: (String, usize))
    ensures
        res.0@ == content_hash(typed_payload(machine_bytes@)),
        res.1 == typed_payload(machine_bytes@).len(),
{
    let cut: usize = if machine_bytes.len() >= TYPED_CACHE_HEADER_LEN {
        TYPED_CACHE_HEADER_LEN
    } else {
        machine_bytes.len()
    };
    let (_, payload) = machine_bytes.split_at(cut);
    assert(payload@ =~= typed_payload(machine_bytes@));
    (hash_hex(payload), payload.len())
}


/// A verdict with these two states and warnings of these texts.
pub open spec fn verdict_is(
    v: MetadataVerdict,
    metadata_state: DxArtifactState,
    state: DxArtifactState,
    warnings: Seq<Seq<char>>,
) -> bool {
    &&& v.metadata_state == metadata_state
    &&& v.state == state
    &&& texts(v.warnings@) == warnings
}

/// The metadata recorded for a typed cache of `machine_len` bytes whose
/// metadata file holds `meta`.
pub open spec fn typed_metadata_record(
    md: DxMachineMetadata,
    root: Seq<char>,
    meta: TypedCacheMetadata,
    machine_len: int,
    payload_hash_matches: bool,
) -> bool {
    &&& md.schema is None
    &&& md.cache_schema == Some(meta.cache_schema)
    &&& md.cache_version == Some(meta.cache_version)
    &&& md.cache_kind == Some(meta.cache_kind)
    &&& text_is(md.source_path, resolved_path(root, meta.source_path@))
    &&& md.source_bytes == Some(meta.source_len)
    &&& md.source_blake3 == Some(meta.source_blake3)
    &&& md.source_hash_matches is None
    &&& text_is(md.machine_path, resolved_path(root, meta.machine_path@))
    &&& md.machine_bytes == Some(machine_len as u64)
    &&& md.machine_blake3 is None
    &&& md.machine_hash_matches is None
    &&& md.payload_bytes == Some(meta.machine_payload_len)
    &&& md.payload_blake3 == Some(meta.machine_payload_blake3)
    &&& md.payload_hash_matches == Some(payload_hash_matches)
}

/// The metadata recorded for a serializer document whose metadata file
/// holds `meta`.
pub open spec fn generic_metadata_record(
    md: DxMachineMetadata,
    root: Seq<char>,
    meta: GenericMetadata,
    machine_hash_matches: bool,
) -> bool {
    &&& md.schema == Some(meta.schema)
    &&& md.cache_schema is None
    &&& md.cache_version is None
    &&& md.cache_kind is None
    &&& text_is(md.source_path, resolved_path(root, meta.source.path@))
    &&& md.source_bytes == Some(meta.source.bytes)
    &&& md.source_blake3 == Some(meta.source.blake3)
    &&& md.source_hash_matches is None
    &&& text_is(md.machine_path, resolved_path(root, meta.machine.path@))
    &&& md.machine_bytes == Some(meta.machine.bytes)
    &&& md.machine_blake3 == Some(meta.machine.blake3)
    &&& md.machine_hash_matches == Some(machine_hash_matches)
    &&& md.payload_bytes is None
    &&& md.payload_blake3 is None
    &&& md.payload_hash_matches is None
}

/// `md` with the outcome of the source hash comparison recorded.
pub open spec fn with_source_check(md: DxMachineMetadata, matches_source: bool) -> DxMachineMetadata {
    DxMachineMetadata { source_hash_matches: Some(matches_source), ..md }
}

/// The first step for a typed cache whose metadata parsed as `meta`: the
/// payload (the bytes after the 256-byte header) must have the recorded
/// hash and length, else the cache is invalid; when it does, the recorded
/// source is to be compared.
pub open spec fn typed_check_loaded(
    res: MetadataCheck,
    root: Seq<char>,
    metadata_path: Seq<char>,
    machine: Seq<u8>,
    meta: TypedCacheMetadata,
) -> bool {
    let payload = typed_payload(machine);
    let payload_ok = content_hash(payload) == meta.machine_payload_blake3@;
    if payload_ok && payload.len() == meta.machine_payload_len {
        &&& res matches MetadataCheck::NeedSource(p)
        &&& typed_metadata_record(p.metadata, root, meta, machine.len() as int, true)
        &&& p.source_path@ == resolved_path(root, meta.source_path@)
        &&& p.source_blake3 == meta.source_blake3
        &&& p.source_len == meta.source_len
    } else {
        &&& res matches MetadataCheck::Decided(v)
        &&& v.metadata matches Some(md)
        &&& typed_metadata_record(md, root, meta, machine.len() as int, payload_ok)
        &&& verdict_is(
            v,
            DxArtifactState::Invalid,
            DxArtifactState::Invalid,
            seq!["typed machine cache payload does not match metadata: "@ + metadata_path],
        )
    }
}

/// The first step for a serializer document whose metadata parsed as
/// `meta`: the recorded machine length and hash must match the machine
/// bytes, else the document is invalid; when they do, the recorded source
/// is to be compared.
pub open spec fn generic_check_loaded(
    res: MetadataCheck,
    root: Seq<char>,
    machine_path: Seq<char>,
    machine: Seq<u8>,
    meta: GenericMetadata,
) -> bool {
    let machine_ok = meta.machine.blake3@ == content_hash(machine);
    if machine_ok && meta.machine.bytes == machine.len() {
        &&& res matches MetadataCheck::NeedSource(p)
        &&& generic_metadata_record(p.metadata, root, meta, true)
        &&& p.source_path@ == resolved_path(root, meta.source.path@)
        &&& p.source_blake3 == meta.source.blake3
        &&& p.source_len == meta.source.bytes
    } else {
        &&& res matches MetadataCheck::Decided(v)
        &&& v.metadata matches Some(md)
        &&& generic_metadata_record(md, root, meta, machine_ok)
        &&& verdict_is(
            v,
            DxArtifactState::Invalid,
            DxArtifactState::Invalid,
            seq!["serializer machine metadata does not match machine bytes: "@ + machine_path],
        )
    }
}

/// The verdict once the source was read: `Fresh` when its hash and length
/// are the recorded ones, `Stale` otherwise (with the warning `stale`).
pub open spec fn source_compared(
    v: MetadataVerdict,
    pending: PendingSource,
    source: Seq<u8>,
    stale: Seq<char>,
) -> bool {
    let source_ok = content_hash(source) == pending.source_blake3@;
    &&& v.metadata == Some(with_source_check(pending.metadata, source_ok))
    &&& if source_ok && source.len() == pending.source_len {
        verdict_is(v, DxArtifactState::Fresh, DxArtifactState::Fresh, Seq::empty())
    } else {
        verdict_is(v, DxArtifactState::Stale, DxArtifactState::Stale, seq![stale])
    }
}

fn text_with_reason(a: &str, b: &str, reason: &str) -> (res: String)
    ensures
        res@ == a@ + b@ + " ("@ + reason@ + ")"@,
{
    let mut res = String::from_str(a);
    res.append(b);
    res.append(" (");
    res.append(reason);
    res.append(")");
    res
}

fn one_warning(w: String) -> (res: Vec<String>)
    ensures
        texts(res@) == seq![w@],
{
    let mut res = Vec::new();
    res.push(w);
    assert(texts(res@) =~= seq![w@]);
    res
}

fn no_warnings() -> (res: Vec<String>)
    ensures
        texts(res@) == Seq::<Seq<char>>::empty(),
        res@.len() == 0,
{
    let res: Vec<String> = Vec::new();
    assert(texts(res@) =~= Seq::<Seq<char>>::empty());
    res
}

/// Judges a typed cache by its metadata file, up to the point where the
/// source it names must be read.
pub fn check_typed_metadata(
    project_root: &str,
    metadata_path: &str,
    machine_bytes: &[u8],
    load: MetadataLoad<TypedCacheMetadata>,
) -> (res: MetadataCheck)
    ensures
        load is NotAFile ==> (res matches MetadataCheck::Decided(v) && v.metadata is None
            && verdict_is(
            v,
            DxArtifactState::MissingMetadata,
            DxArtifactState::Unchecked,
            seq!["typed machine metadata is missing: "@ + metadata_path@],
        )),
        load matches MetadataLoad::ReadFailed(e) ==> (res matches MetadataCheck::Decided(v)
            && v.metadata is None && verdict_is(
            v,
            DxArtifactState::Invalid,
            DxArtifactState::Invalid,
            seq![
                "typed machine metadata could not be read: "@ + metadata_path@ + " ("@ + e@
                    + ")"@,
            ],
        )),
        load matches MetadataLoad::ParseFailed(e) ==> (res matches MetadataCheck::Decided(v)
            && v.metadata is None && verdict_is(
            v,
            DxArtifactState::Invalid,
            DxArtifactState::Invalid,
            seq![
                "typed machine metadata could not be parsed: "@ + metadata_path@ + " ("@ + e@
                    + ")"@,
            ],
        )),
        load matches MetadataLoad::Loaded(meta) ==> typed_check_loaded(
            res,
            project_root@,
            metadata_path@,
            machine_bytes@,
            meta,
        ),
{
    match load {
        MetadataLoad::NotAFile => {
            let w = join_text("typed machine metadata is missing: ", metadata_path);
            MetadataCheck::Decided(
                MetadataVerdict {
                    metadata: None,
                    metadata_state: DxArtifactState::MissingMetadata,
                    state: DxArtifactState::Unchecked,
                    warnings: one_warning(w),
                },
            )
        },
        MetadataLoad::ReadFailed(e) => {
            let w = text_with_reason(
                "typed machine metadata could not be read: ",
                metadata_path,
                e.as_str(),
            );
            MetadataCheck::Decided(
                MetadataVerdict {
                    metadata: None,
                    metadata_state: DxArtifactState::Invalid,
                    state: DxArtifactState::Invalid,
                    warnings: one_warning(w),
                },
            )
        },
        MetadataLoad::ParseFailed(e) => {
            let w = text_with_reason(
                "typed machine metadata could not be parsed: ",
                metadata_path,
                e.as_str(),
            );
            MetadataCheck::Decided(
                MetadataVerdict {
                    metadata: None,
                    metadata_state: DxArtifactState::Invalid,
                    state: DxArtifactState::Invalid,
                    warnings: one_warning(w),
                },
            )
        },
        MetadataLoad::Loaded(meta) => {
            let source_path = resolve_recorded_path(project_root, meta.source_path.as_str());
            let machine_path = resolve_recorded_path(project_root, meta.machine_path.as_str());
            let (payload_hex, payload_len) = payload_hash(machine_bytes);
            let payload_ok = payload_hex == meta.machine_payload_blake3;
            let source_blake3 = meta.source_blake3.clone();
            let source_len = meta.source_len;
            let length_ok = payload_len as u64 == meta.machine_payload_len;
            let metadata = DxMachineMetadata {
                schema: None,
                cache_schema: Some(meta.cache_schema),
                cache_version: Some(meta.cache_version),
                cache_kind: Some(meta.cache_kind),
                source_path: Some(source_path.clone()),
                source_bytes: Some(meta.source_len),
                source_blake3: Some(meta.source_blake3),
                source_hash_matches: None,
                machine_path: Some(machine_path),
                machine_bytes: Some(machine_bytes.len() as u64),
                machine_blake3: None,
                machine_hash_matches: None,
                payload_bytes: Some(meta.machine_payload_len),
                payload_blake3: Some(meta.machine_payload_blake3),
                payload_hash_matches: Some(payload_ok),
            };
            if !payload_ok || !length_ok {
                let w = join_text("typed machine cache payload does not match metadata: ", metadata_path);
                MetadataCheck::Decided(
                    MetadataVerdict {
                        metadata: Some(metadata),
                        metadata_state: DxArtifactState::Invalid,
                        state: DxArtifactState::Invalid,
                        warnings: one_warning(w),
                    },
                )
            } else {
                MetadataCheck::NeedSource(
                    PendingSource { metadata, source_path, source_blake3, source_len },
                )
            }
        },
    }
}

/// Finishes judging a typed cache once its source was read (or was found
/// missing, or could not be read).
pub fn finish_typed_metadata(pending: PendingSource, source: SourceLoad) -> (v: MetadataVerdict)
    ensures
        source is NotFound ==> v.metadata == Some(pending.metadata) && verdict_is(
            v,
            DxArtifactState::MissingSource,
            DxArtifactState::MissingSource,
            seq!["typed machine cache source is missing: "@ + pending.source_path@],
        ),
        source matches SourceLoad::Failed(e) ==> v.metadata == Some(pending.metadata)
            && verdict_is(
            v,
            DxArtifactState::Invalid,
            DxArtifactState::Invalid,
            seq![
                "typed machine cache source could not be read: "@ + pending.source_path@ + " ("@
                    + e@ + ")"@,
            ],
        ),
        source matches SourceLoad::Read(bytes) ==> source_compared(
            v,
            pending,
            bytes@,
            "typed machine cache is stale for source: "@ + pending.source_path@,
        ),
{
    let PendingSource { metadata, source_path, source_blake3, source_len } = pending;
    match source {
        SourceLoad::NotFound => {
            let w = join_text("typed machine cache source is missing: ", source_path.as_str());
            MetadataVerdict {
                metadata: Some(metadata),
                metadata_state: DxArtifactState::MissingSource,
                state: DxArtifactState::MissingSource,
                warnings: one_warning(w),
            }
        },
        SourceLoad::Failed(e) => {
            let w = text_with_reason(
                "typed machine cache source could not be read: ",
                source_path.as_str(),
                e.as_str(),
            );
            MetadataVerdict {
                metadata: Some(metadata),
                metadata_state: DxArtifactState::Invalid,
                state: DxArtifactState::Invalid,
                warnings: one_warning(w),
            }
        },
        SourceLoad::Read(bytes) => {
            let source_ok = source_blake3 == hash_hex(bytes.as_slice());
            let mut metadata = metadata;
            metadata.source_hash_matches = Some(source_ok);
            if !source_ok || bytes.len() as u64 != source_len {
                let w = join_text("typed machine cache is stale for source: ", source_path.as_str());
                MetadataVerdict {
                    metadata: Some(metadata),
                    metadata_state: DxArtifactState::Stale,
                    state: DxArtifactState::Stale,
                    warnings: one_warning(w),
                }
            } else {
                MetadataVerdict {
                    metadata: Some(metadata),
                    metadata_state: DxArtifactState::Fresh,
                    state: DxArtifactState::Fresh,
                    warnings: no_warnings(),
                }
            }
        },
    }
}

/// Judges a serializer document by its metadata file, up to the point
/// where the source it names must be read. A metadata file that cannot be
/// read or parsed is an error, reported as `read <path>` or
/// `parse <path>`.
pub fn check_generic_metadata(
    project_root: &str,
    metadata_path: &str,
    machine_path: &str,
    machine_bytes: &[u8],
    load: MetadataLoad<GenericMetadata>,
) -> (res: Result<MetadataCheck, String>)
    ensures
        load is NotAFile ==> (res matches Ok(MetadataCheck::Decided(v)) && v.metadata is None
            && verdict_is(
            v,
            DxArtifactState::MissingMetadata,
            DxArtifactState::Unchecked,
            seq!["serializer machine metadata is missing: "@ + metadata_path@],
        )),
        load is ReadFailed ==> (res matches Err(e) && e@ == "read "@ + metadata_path@),
        load is ParseFailed ==> (res matches Err(e) && e@ == "parse "@ + metadata_path@),
        load matches MetadataLoad::Loaded(meta) ==> (res matches Ok(c) && generic_check_loaded(
            c,
            project_root@,
            machine_path@,
            machine_bytes@,
            meta,
        )),
{
    match load {
        MetadataLoad::NotAFile => {
            let w = join_text("serializer machine metadata is missing: ", metadata_path);
            Ok(
                MetadataCheck::Decided(
                    MetadataVerdict {
                        metadata: None,
                        metadata_state: DxArtifactState::MissingMetadata,
                        state: DxArtifactState::Unchecked,
                        warnings: one_warning(w),
                    },
                ),
            )
        },
        MetadataLoad::ReadFailed(_) => Err(join_text("read ", metadata_path)),
        MetadataLoad::ParseFailed(_) => Err(join_text("parse ", metadata_path)),
        MetadataLoad::Loaded(meta) => {
            let GenericMetadata { schema, source, machine } = meta;
            let source_path = resolve_recorded_path(project_root, source.path.as_str());
            let machine_recorded_path = resolve_recorded_path(project_root, machine.path.as_str());
            let machine_ok = machine.blake3 == hash_hex(machine_bytes);
            let length_ok = machine.bytes == machine_bytes.len() as u64;
            let source_blake3 = source.blake3.clone();
            let metadata = DxMachineMetadata {
                schema: Some(schema),
                cache_schema: None,
                cache_version: None,
                cache_kind: None,
                source_path: Some(source_path.clone()),
                source_bytes: Some(source.bytes),
                source_blake3: Some(source.blake3),
                source_hash_matches: None,
                machine_path: Some(machine_recorded_path),
                machine_bytes: Some(machine.bytes),
                machine_blake3: Some(machine.blake3),
                machine_hash_matches: Some(machine_ok),
                payload_bytes: None,
                payload_blake3: None,
                payload_hash_matches: None,
            };
            if !length_ok || !machine_ok {
                let w = join_text(
                    "serializer machine metadata does not match machine bytes: ",
                    machine_path,
                );
                Ok(
                    MetadataCheck::Decided(
                        MetadataVerdict {
                            metadata: Some(metadata),
                            metadata_state: DxArtifactState::Invalid,
                            state: DxArtifactState::Invalid,
                            warnings: one_warning(w),
                        },
                    ),
                )
            } else {
                Ok(
                    MetadataCheck::NeedSource(
                        PendingSource {
                            metadata,
                            source_path,
                            source_blake3,
                            source_len: source.bytes,
                        },
                    ),
                )
            }
        },
    }
}

/// Finishes judging a serializer document once its source was read. A
/// source that exists but cannot be read is an error, `read <path>`.
pub fn finish_generic_metadata(pending: PendingSource, source: SourceLoad) -> (res: Result<
    MetadataVerdict,
    String,
>)
    ensures
        source is NotFound ==> (res matches Ok(v) && v.metadata == Some(pending.metadata)
            && verdict_is(
            v,
            DxArtifactState::MissingSource,
            DxArtifactState::MissingSource,
            seq!["serializer machine source is missing: "@ + pending.source_path@],
        )),
        source is Failed ==> (res matches Err(e) && e@ == "read "@ + pending.source_path@),
        source matches SourceLoad::Read(bytes) ==> (res matches Ok(v) && source_compared(
            v,
            pending,
            bytes@,
            "serializer machine cache is stale for source: "@ + pending.source_path@,
        )),
{
    let PendingSource { metadata, source_path, source_blake3, source_len } = pending;
    match source {
        SourceLoad::NotFound => {
            let w = join_text("serializer machine source is missing: ", source_path.as_str());
            Ok(
                MetadataVerdict {
                    metadata: Some(metadata),
                    metadata_state: DxArtifactState::MissingSource,
                    state: DxArtifactState::MissingSource,
                    warnings: one_warning(w),
                },
            )
        },
        SourceLoad::Failed(_) => Err(join_text("read ", source_path.as_str())),
        SourceLoad::Read(bytes) => {
            let source_ok = source_blake3 == hash_hex(bytes.as_slice());
            let mut metadata = metadata;
            metadata.source_hash_matches = Some(source_ok);
            if !source_ok || source_len != bytes.len() as u64 {
                let w = join_text(
                    "serializer machine cache is stale for source: ",
                    source_path.as_str(),
                );
                Ok(
                    MetadataVerdict {
                        metadata: Some(metadata),
                        metadata_state: DxArtifactState::Stale,
                        state: DxArtifactState::Stale,
                        warnings: one_warning(w),
                    },
                )
            } else {
                Ok(
                    MetadataVerdict {
                        metadata: Some(metadata),
                        metadata_state: DxArtifactState::Fresh,
                        state: DxArtifactState::Fresh,
                        warnings: no_warnings(),
                    },
                )
            }
        },
    }
}

/// A status with nothing but its kind, state, path, size and hash (the
/// empty string when there is no hash).
pub fn base_status(
    kind: DxMachineKind,
    state: DxArtifactState,
    path: String,
    bytes: u64,
    blake3: Option<String>,
) -> (res: DxMachineStatus)
    ensures
        res.kind == kind,
        res.state == state,
        res.path == path,
        res.bytes == bytes,
        blake3 matches Some(h) ==> res.blake3 == h,
        blake3 is None ==> res.blake3@ == Seq::<char>::empty(),
        res.metadata_path is None,
        res.metadata_state is None,
        res.metadata is None,
        res.document_summary is None,
        res.warnings@.len() == 0,
        res.error is None,
{
    let blake3 = match blake3 {
        Some(h) => h,
        None => String::new(),
    };
    DxMachineStatus {
        kind,
        state,
        path,
        bytes,
        blake3,
        metadata_path: None,
        metadata_state: None,
        metadata: None,
        document_summary: None,
        warnings: Vec::new(),
        error: None,
    }
}

/// The status of a machine file too large to read: of unknown kind, with
/// no hash.
pub fn too_large_status(path: String, bytes_len: u64) -> (res: DxMachineStatus)
    ensures
        res.kind == DxMachineKind::Unknown,
        res.state == DxArtifactState::TooLarge,
        res.path == path,
        res.bytes == bytes_len,
        res.blake3@ == Seq::<char>::empty(),
        res.metadata_path is None,
        res.metadata_state is None,
        res.metadata is None,
        res.document_summary is None,
        res.warnings@.len() == 0,
        res.error is None,
{
    base_status(DxMachineKind::Unknown, DxArtifactState::TooLarge, path, bytes_len, None)
}

/// The status of a machine file that is not a typed cache and could not be
/// inspected as a serializer document (`error` says why): an invalid
/// serializer document, with a warning, when it carries the `DXM1` magic,
/// else an invalid file of unknown kind.
pub fn undecodable_machine_status(path: String, bytes_len: u64, bytes: &[u8], error: String) -> (res:
    DxMachineStatus)
    ensures
        has_prefix(bytes@, serializer_document_magic()) ==> res.kind
            == DxMachineKind::SerializerDocument,
        !has_prefix(bytes@, serializer_document_magic()) ==> res.kind == DxMachineKind::Unknown,
        res.state == DxArtifactState::Invalid,
        res.path == path,
        res.bytes == bytes_len,
        res.blake3@ == content_hash(bytes@),
        res.metadata_path is None,
        res.metadata_state is None,
        res.metadata is None,
        res.document_summary is None,
        res.error == Some(error),
        has_prefix(bytes@, serializer_document_magic()) ==> texts(res.warnings@) == seq![
            "invalid serializer machine cache: "@ + path@,
        ],
        !has_prefix(bytes@, serializer_document_magic()) ==> res.warnings@.len() == 0,
{
    let hash = hash_hex(bytes);
    if is_serializer_document(bytes) {
        let w = join_text("invalid serializer machine cache: ", path.as_str());
        let mut status = base_status(
            DxMachineKind::SerializerDocument,
            DxArtifactState::Invalid,
            path,
            bytes_len,
            Some(hash),
        );
        status.error = Some(error);
        status.warnings = one_warning(w);
        status
    } else {
        let mut status = base_status(
            DxMachineKind::Unknown,
            DxArtifactState::Invalid,
            path,
            bytes_len,
            Some(hash),
        );
        status.error = Some(error);
        status
    }
}

/// The status of a typed cache: the verdict of its metadata, plus a warning
/// when the file is shorter than the 256-byte header.
pub fn inspect_typed_cache(
    path: String,
    bytes_len: u64,
    hash: String,
    bytes: &[u8],
    verdict: MetadataVerdict,
) -> (res: DxMachineStatus)
    ensures
        res.kind == DxMachineKind::TypedCache,
        res.state == verdict.state,
        res.path == path,
        res.bytes == bytes_len,
        res.blake3 == hash,
        text_is(res.metadata_path, metadata_path_of(path@)),
        res.metadata_state == Some(verdict.metadata_state),
        res.metadata == verdict.metadata,
        res.document_summary is None,
        res.error is None,
        bytes@.len() < 256 ==> texts(res.warnings@) == texts(verdict.warnings@).push(
            "typed cache header is truncated: "@ + path@,
        ),
        bytes@.len() >= 256 ==> res.warnings@ == verdict.warnings@,
{
    let metadata_path = metadata_path_for(path.as_str());
    let MetadataVerdict { metadata, metadata_state, state, warnings } = verdict;
    let mut warnings = warnings;
    if bytes.len() < TYPED_CACHE_HEADER_LEN {
        let ghost before = warnings@;
        let w = join_text("typed cache header is truncated: ", path.as_str());
        warnings.push(w);
        assert(texts(warnings@) =~= texts(before).push("typed cache header is truncated: "@ + path@));
    }
    DxMachineStatus {
        kind: DxMachineKind::TypedCache,
        state,
        path,
        bytes: bytes_len,
        blake3: hash,
        metadata_path: Some(metadata_path),
        metadata_state: Some(metadata_state),
        metadata,
        document_summary: None,
        warnings,
        error: None,
    }
}

/// The sum of a sequence of counts.
pub open spec fn total(s: Seq<usize>) -> int
    decreases s.len(),
{
    if s.len() == 0 {
        0
    } else {
        total(s.drop_last()) + s.last()
    }
}

proof fn lemma_total_prefix_bounded(s: Seq<usize>, i: int)
    requires
        0 <= i <= s.len(),
    ensures
        0 <= total(s.take(i)) <= total(s),
    decreases s.len(),
{
    if s.len() > 0 {
        if i == s.len() {
            assert(s.take(i) =~= s);
            lemma_total_prefix_bounded(s.drop_last(), i - 1);
        } else {
            assert(s.take(i) =~= s.drop_last().take(i));
            lemma_total_prefix_bounded(s.drop_last(), i);
        }
    }
}

/// The status of a decoded serializer document: the verdict of its
/// metadata and the summary of its shape.
pub fn inspect_serializer_document(
    path: String,
    bytes_len: u64,
    hash: String,
    document: DocumentShape,
    verdict: MetadataVerdict,
) -> (res: DxMachineStatus)
    requires
        total(document.section_rows@) <= usize::MAX,
    ensures
        res.kind == DxMachineKind::SerializerDocument,
        res.state == verdict.state,
        res.path == path,
        res.bytes == bytes_len,
        res.blake3 == hash,
        text_is(res.metadata_path, metadata_path_of(path@)),
        res.metadata_state == Some(verdict.metadata_state),
        res.metadata == verdict.metadata,
        res.document_summary matches Some(summary) && summary.context_entries
            == document.context_entries && summary.refs == document.refs && summary.sections
            == document.section_rows@.len() && summary.section_rows == total(document.section_rows@)
            && summary.project_name == document.project_name,
        res.warnings@ == verdict.warnings@,
        res.error is None,
{
    let metadata_path = metadata_path_for(path.as_str());
    let DocumentShape { context_entries, refs, section_rows, project_name } = document;
    let mut rows: usize = 0;
    let mut i: usize = 0;
    while i < section_rows.len()
        invariant
            i <= section_rows@.len(),
            total(section_rows@) <= usize::MAX,
            rows == total(section_rows@.take(i as int)),
        decreases section_rows.len() - i,
    {
        proof {
            assert(section_rows@.take(i + 1).drop_last() =~= section_rows@.take(i as int));
            lemma_total_prefix_bounded(section_rows@, i + 1);
        }
        rows = rows + section_rows[i];
        i = i + 1;
    }
    assert(section_rows@.take(section_rows@.len() as int) =~= section_rows@);
    let summary = DxDocumentSummary {
        context_entries,
        refs,
        sections: section_rows.len(),
        section_rows: rows,
        project_name,
    };
    let MetadataVerdict { metadata, metadata_state, state, warnings } = verdict;
    DxMachineStatus {
        kind: DxMachineKind::SerializerDocument,
        state,
        path,
        bytes: bytes_len,
        blake3: hash,
        metadata_path: Some(metadata_path),
        metadata_state: Some(metadata_state),
        metadata,
        document_summary: Some(summary),
        warnings,
        error: None,
    }
}

/// The next step in inspecting a machine file.
#[derive(Debug, Clone, Copy, PartialEq, Eq, Structural)]
pub enum MachineRoute {
    /// Too large to read: the status is `too_large_status`.
    TooLarge,
    /// Its bytes are to be read.
    ReadBytes,
    /// A typed cache: judge it by its typed metadata.
    TypedCache,
    /// Anything else: decode it as a serializer document.
    SerializerDocument,
}

/// Routes the inspection of a machine file of `bytes_len` bytes: the size
/// limit comes first, then (once the bytes are read) the typed-cache magic;
/// every other file is taken for a serializer document.
pub fn machine_route(bytes_len: u64, bytes: Option<&[u8]>) -> (res: MachineRoute)
    ensures
        bytes_len > 67108864 ==> res == MachineRoute::TooLarge,
        bytes_len <= 67108864 && bytes is None ==> res == MachineRoute::ReadBytes,
        bytes_len <= 67108864 ==> (bytes matches Some(b) ==> (if has_prefix(
            b@,
            typed_cache_magic(),
        ) {
            res == MachineRoute::TypedCache
        } else {
            res == MachineRoute::SerializerDocument
        })),
{
    if exceeds_inspection_limit(bytes_len) {
        return MachineRoute::TooLarge;
    }
    match bytes {
        None => MachineRoute::ReadBytes,
        Some(b) => if is_typed_cache(b) {
            MachineRoute::TypedCache
        } else {
            MachineRoute::SerializerDocument
        },
    }
}

/// The status of a file routed as a serializer document: the document's
/// status when decoding it and judging its metadata succeeded, else the
/// status of an undecodable file carrying the error.
pub fn serializer_document_status(
    path: String,
    bytes_len: u64,
    hash: String,
    bytes: &[u8],
    inspected: Result<(DocumentShape, MetadataVerdict), String>,
) -> (res: DxMachineStatus)
    requires
        inspected matches Ok((document, _)) ==> total(document.section_rows@) <= usize::MAX,
    ensures
        inspected matches Ok((document, verdict)) ==> {
            &&& res.kind == DxMachineKind::SerializerDocument
            &&& res.state == verdict.state
            &&& res.path == path
            &&& res.bytes == bytes_len
            &&& res.blake3 == hash
            &&& text_is(res.metadata_path, metadata_path_of(path@))
            &&& res.metadata_state == Some(verdict.metadata_state)
            &&& res.metadata == verdict.metadata
            &&& res.document_summary matches Some(summary) && summary.context_entries
                == document.context_entries && summary.refs == document.refs && summary.sections
                == document.section_rows@.len() && summary.section_rows == total(
                document.section_rows@,
            ) && summary.project_name == document.project_name
            &&& res.warnings@ == verdict.warnings@
            &&& res.error is None
        },
        inspected matches Err(error) ==> {
            &&& has_prefix(bytes@, serializer_document_magic()) ==> res.kind
                == DxMachineKind::SerializerDocument
            &&& !has_prefix(bytes@, serializer_document_magic()) ==> res.kind
                == DxMachineKind::Unknown
            &&& res.state == DxArtifactState::Invalid
            &&& res.path == path
            &&& res.bytes == bytes_len
            &&& res.blake3@ == content_hash(bytes@)
            &&& res.metadata_path is None
            &&& res.metadata_state is None
            &&& res.metadata is None
            &&& res.document_summary is None
            &&& res.error == Some(error)
            &&& has_prefix(bytes@, serializer_document_magic()) ==> texts(res.warnings@) == seq![
                "invalid serializer machine cache: "@ + path@,
            ]
            &&& !has_prefix(bytes@, serializer_document_magic()) ==> res.warnings@.len() == 0
        },
{
    match inspected {
        Ok((document, verdict)) => inspect_serializer_document(
            path,
            bytes_len,
            hash,
            document,
            verdict,
        ),
        Err(error) => undecodable_machine_status(path, bytes_len, bytes, error),
    }
}

/// How a machine file that was read has been judged.
#[derive(Debug, PartialEq, Eq)]
pub enum MachineJudgement {
    /// A typed cache, with the verdict of its metadata.
    TypedCache(MetadataVerdict),
    /// Taken for a serializer document: its shape and the verdict of its
    /// metadata, or why decoding or judging it failed.
    SerializerDocument(Result<(DocumentShape, MetadataVerdict), String>),
}

/// The status of a machine file that was read: the hash recorded is that of
/// its bytes, and the rest follows the judgement (`inspect_typed_cache` for
/// a typed cache, `serializer_document_status` otherwise).
pub fn inspected_machine_status(
    path: String,
    bytes_len: u64,
    bytes: &[u8],
    judgement: MachineJudgement,
) -> (res: DxMachineStatus)
    requires
        judgement matches MachineJudgement::SerializerDocument(Ok((document, _))) ==> total(
            document.section_rows@,
        ) <= usize::MAX,
    ensures
        res.path == path,
        res.bytes == bytes_len,
        res.blake3@ == content_hash(bytes@),
        judgement matches MachineJudgement::TypedCache(verdict) ==> {
            &&& res.kind == DxMachineKind::TypedCache
            &&& res.state == verdict.state
            &&& text_is(res.metadata_path, metadata_path_of(path@))
            &&& res.metadata_state == Some(verdict.metadata_state)
            &&& res.metadata == verdict.metadata
            &&& res.document_summary is None
            &&& res.error is None
            &&& bytes@.len() < 256 ==> texts(res.warnings@) == texts(verdict.warnings@).push(
                "typed cache header is truncated: "@ + path@,
            )
            &&& bytes@.len() >= 256 ==> res.warnings@ == verdict.warnings@
        },
        judgement matches MachineJudgement::SerializerDocument(Ok((document, verdict))) ==> {
            &&& res.kind == DxMachineKind::SerializerDocument
            &&& res.state == verdict.state
            &&& text_is(res.metadata_path, metadata_path_of(path@))
            &&& res.metadata_state == Some(verdict.metadata_state)
            &&& res.metadata == verdict.metadata
            &&& res.document_summary matches Some(summary) && summary.context_entries
                == document.context_entries && summary.refs == document.refs && summary.sections
                == document.section_rows@.len() && summary.section_rows == total(
                document.section_rows@,
            ) && summary.project_name == document.project_name
            &&& res.warnings@ == verdict.warnings@
            &&& res.error is None
        },
        judgement matches MachineJudgement::SerializerDocument(Err(error)) ==> {
            &&& has_prefix(bytes@, serializer_document_magic()) ==> res.kind
                == DxMachineKind::SerializerDocument
            &&& !has_prefix(bytes@, serializer_document_magic()) ==> res.kind
                == DxMachineKind::Unknown
            &&& res.state == DxArtifactState::Invalid
            &&& res.metadata_path is None
            &&& res.metadata_state is None
            &&& res.metadata is None
            &&& res.document_summary is None
            &&& res.error == Some(error)
            &&& has_prefix(bytes@, serializer_document_magic()) ==> texts(res.warnings@) == seq![
                "invalid serializer machine cache: "@ + path@,
            ]
            &&& !has_prefix(bytes@, serializer_document_magic()) ==> res.warnings@.len() == 0
        },
{
    let hash = hash_hex(bytes);
    match judgement {
        MachineJudgement::TypedCache(verdict) => inspect_typed_cache(
            path,
            bytes_len,
            hash,
            bytes,
            verdict,
        ),
        MachineJudgement::SerializerDocument(inspected) => serializer_document_status(
            path,
            bytes_len,
            hash,
            bytes,
            inspected,
        ),
    }
}

} // verus!
