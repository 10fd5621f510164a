//! Properties that hold across the functions of the library.

use vstd::prelude::*;
use crate::commit::{committed_files, entries_map, path_set};
use crate::dx_status::{
    metadata_path_of, texts,
    content_hash, source_compared, typed_check_loaded, generic_check_loaded, typed_payload,
    DxArtifactState, DxMachineKind, DxMachineStatus, GenericMetadata, MetadataCheck,
    MetadataVerdict, TypedCacheMetadata,
};
use crate::paths::{
    is_absolute_path, std_path_file_name, std_path_join, std_path_with_file_name,
};
use crate::report::{all_warnings, is_kind, is_state, machine_line, reports};
use crate::text::decimal;
use crate::text::lower_hex;

verus! {

/// Every status lands in exactly one of the three groups of a report:
/// the group sizes add up to the number of statuses, and each group holds
/// only statuses of its kind.
pub proof fn lemma_report_groups_partition(statuses: Seq<DxMachineStatus>)
    ensures
        statuses.filter(is_kind(DxMachineKind::SerializerDocument)).len() + statuses.filter(
            is_kind(DxMachineKind::TypedCache),
        ).len() + statuses.filter(is_kind(DxMachineKind::Unknown)).len() == statuses.len(),
        forall|i: int|
            0 <= i < statuses.filter(is_kind(DxMachineKind::SerializerDocument)).len() ==> (
            #[trigger] statuses.filter(is_kind(DxMachineKind::SerializerDocument))[i]).kind
                == DxMachineKind::SerializerDocument,
        forall|i: int|
            0 <= i < statuses.filter(is_kind(DxMachineKind::TypedCache)).len() ==> (
            #[trigger] statuses.filter(is_kind(DxMachineKind::TypedCache))[i]).kind
                == DxMachineKind::TypedCache,
        forall|i: int|
            0 <= i < statuses.filter(is_kind(DxMachineKind::Unknown)).len() ==> (
            #[trigger] statuses.filter(is_kind(DxMachineKind::Unknown))[i]).kind
                == DxMachineKind::Unknown,
        statuses.filter(is_kind(DxMachineKind::SerializerDocument)).to_multiset().add(
            statuses.filter(is_kind(DxMachineKind::TypedCache)).to_multiset(),
        ).add(statuses.filter(is_kind(DxMachineKind::Unknown)).to_multiset())
            == statuses.to_multiset(),
    decreases statuses.len(),
{
    reveal(Seq::filter);
    broadcast use vstd::seq_lib::group_to_multiset_ensures, vstd::seq_lib::group_filter_ensures;

    let ps = is_kind(DxMachineKind::SerializerDocument);
    let pt = is_kind(DxMachineKind::TypedCache);
    let pu = is_kind(DxMachineKind::Unknown);
    if statuses.len() > 0 {
        let rest = statuses.drop_last();
        let last = statuses.last();
        lemma_report_groups_partition(rest);
        assert(statuses =~= rest.push(last));
        let ms = rest.filter(ps).to_multiset();
        let mt = rest.filter(pt).to_multiset();
        let mu = rest.filter(pu).to_multiset();
        assert(statuses.to_multiset() =~= rest.to_multiset().insert(last));
        if ps(last) {
            assert(statuses.filter(ps).to_multiset() =~= ms.insert(last));
            assert(ms.insert(last).add(mt).add(mu) =~= ms.add(mt).add(mu).insert(last));
        } else if pt(last) {
            assert(statuses.filter(pt).to_multiset() =~= mt.insert(last));
            assert(ms.add(mt.insert(last)).add(mu) =~= ms.add(mt).add(mu).insert(last));
        } else {
            assert(statuses.filter(pu).to_multiset() =~= mu.insert(last));
            assert(ms.add(mt).add(mu.insert(last)) =~= ms.add(mt).add(mu).insert(last));
        }
    } else {
        assert(statuses.to_multiset() =~= vstd::multiset::Multiset::empty());
        assert(statuses.filter(ps).to_multiset() =~= vstd::multiset::Multiset::empty());
        assert(statuses.filter(pt).to_multiset() =~= vstd::multiset::Multiset::empty());
        assert(statuses.filter(pu).to_multiset() =~= vstd::multiset::Multiset::empty());
    }
}

/// `s` is in ascending order by `lt`.
pub open spec fn ordered_by(s: Seq<DxMachineStatus>, lt: spec_fn(DxMachineStatus, DxMachineStatus) -> bool) -> bool {
    forall|i: int, j: int| 0 <= i < j < s.len() ==> lt(#[trigger] s[i], #[trigger] s[j])
}

/// A report group keeps the order of the statuses it was taken from: when
/// the statuses come in ascending order (for any order), so does each group.
pub proof fn lemma_report_group_keeps_order(
    statuses: Seq<DxMachineStatus>,
    kind: DxMachineKind,
    lt: spec_fn(DxMachineStatus, DxMachineStatus) -> bool,
)
    requires
        ordered_by(statuses, lt),
    ensures
        ordered_by(statuses.filter(is_kind(kind)), lt),
    decreases statuses.len(),
{
    reveal(Seq::filter);
    if statuses.len() > 0 {
        let rest = statuses.drop_last();
        let last = statuses.last();
        assert(ordered_by(rest, lt));
        lemma_report_group_keeps_order(rest, kind, lt);
        let g = rest.filter(is_kind(kind));
        if is_kind(kind)(last) {
            assert forall|i: int, j: int| 0 <= i < j < g.push(last).len() implies lt(
                #[trigger] g.push(last)[i],
                #[trigger] g.push(last)[j],
            ) by {
                if j == g.len() {
                    assert(g.contains(g[i]));
                    rest.lemma_filter_contains_rev(is_kind(kind), g[i]);
                    assert(rest.contains(g[i]));
                    let k = choose|k: int| 0 <= k < rest.len() && rest[k] == g[i];
                    assert(statuses[k] == g[i]);
                    assert(statuses[statuses.len() - 1] == last);
                } else {
                    assert(g.push(last)[i] == g[i]);
                    assert(g.push(last)[j] == g[j]);
                }
            }
        }
    }
}

/// The number of statuses in each of the eight states add up to the
/// number of statuses.
pub proof fn lemma_state_counts_cover(machines: Seq<DxMachineStatus>)
    ensures
        machines.filter(is_state(DxArtifactState::Fresh)).len() + machines.filter(
            is_state(DxArtifactState::Stale),
        ).len() + machines.filter(is_state(DxArtifactState::Missing)).len() + machines.filter(
            is_state(DxArtifactState::MissingSource),
        ).len() + machines.filter(is_state(DxArtifactState::MissingMetadata)).len()
            + machines.filter(is_state(DxArtifactState::Unchecked)).len() + machines.filter(
            is_state(DxArtifactState::Invalid),
        ).len() + machines.filter(is_state(DxArtifactState::TooLarge)).len() == machines.len(),
    decreases machines.len(),
{
    reveal(Seq::filter);
    if machines.len() > 0 {
        lemma_state_counts_cover(machines.drop_last());
    }
}

/// A typed cache whose metadata loaded is judged fresh exactly when its
/// payload has the recorded hash and length and its source has the
/// recorded hash and length.
pub proof fn lemma_typed_cache_fresh_iff_matching(
    root: Seq<char>,
    metadata_path: Seq<char>,
    machine: Seq<u8>,
    meta: TypedCacheMetadata,
    check: MetadataCheck,
    source: Seq<u8>,
    verdict: MetadataVerdict,
)
    requires
        typed_check_loaded(check, root, metadata_path, machine, meta),
        check matches MetadataCheck::NeedSource(p) ==> source_compared(
            verdict,
            p,
            source,
            "typed machine cache is stale for source: "@ + p.source_path@,
        ),
        check matches MetadataCheck::Decided(v) ==> verdict == v,
    ensures
        verdict.state == DxArtifactState::Fresh <==> {
            &&& content_hash(typed_payload(machine)) == meta.machine_payload_blake3@
            &&& typed_payload(machine).len() == meta.machine_payload_len
            &&& content_hash(source) == meta.source_blake3@
            &&& source.len() == meta.source_len
        },
{
}

/// A serializer document whose metadata loaded is judged fresh exactly when
/// the machine bytes have the recorded hash and length and its source has
/// the recorded hash and length.
pub proof fn lemma_serializer_document_fresh_iff_matching(
    root: Seq<char>,
    machine_path: Seq<char>,
    machine: Seq<u8>,
    meta: GenericMetadata,
    check: MetadataCheck,
    source: Seq<u8>,
    verdict: MetadataVerdict,
)
    requires
        generic_check_loaded(check, root, machine_path, machine, meta),
        check matches MetadataCheck::NeedSource(p) ==> source_compared(
            verdict,
            p,
            source,
            "serializer machine cache is stale for source: "@ + p.source_path@,
        ),
        check matches MetadataCheck::Decided(v) ==> verdict == v,
    ensures
        verdict.state == DxArtifactState::Fresh <==> {
            &&& meta.machine.blake3@ == content_hash(machine)
            &&& meta.machine.bytes == machine.len()
            &&& content_hash(source) == meta.source.blake3@
            &&& source.len() == meta.source.bytes
        },
{
}

/// A staged file is committed with its staged bytes (the last staged
/// entry for a path wins), whatever was committed or deleted before.
pub proof fn lemma_staged_file_committed(
    head: Seq<(String, Vec<u8>)>,
    deleted: Seq<String>,
    staged: Seq<(String, Vec<u8>)>,
    path: Seq<char>,
)
    requires
        entries_map(staged).contains_key(path),
    ensures
        committed_files(head, deleted, staged).contains_key(path),
        committed_files(head, deleted, staged)[path] == entries_map(staged)[path],
{
}

/// A deleted path that was not staged again is not committed.
pub proof fn lemma_deleted_file_dropped(
    head: Seq<(String, Vec<u8>)>,
    deleted: Seq<String>,
    staged: Seq<(String, Vec<u8>)>,
    i: int,
)
    requires
        0 <= i < deleted.len(),
        !entries_map(staged).contains_key(deleted[i]@),
    ensures
        !committed_files(head, deleted, staged).contains_key(deleted[i]@),
{
    assert(path_set(deleted).contains(deleted[i]@));
}

/// A committed file that was neither deleted nor staged keeps its bytes.
pub proof fn lemma_untouched_file_kept(
    head: Seq<(String, Vec<u8>)>,
    deleted: Seq<String>,
    staged: Seq<(String, Vec<u8>)>,
    path: Seq<char>,
)
    requires
        entries_map(head).contains_key(path),
        !path_set(deleted).contains(path),
        !entries_map(staged).contains_key(path),
    ensures
        committed_files(head, deleted, staged).contains_key(path),
        committed_files(head, deleted, staged)[path] == entries_map(head)[path],
{
}

/// Lowercase hex spells each byte with two digits.
pub proof fn lemma_lower_hex_len(bytes: Seq<u8>)
    ensures
        lower_hex(bytes).len() == 2 * bytes.len(),
    decreases bytes.len(),
{
    if bytes.len() > 0 {
        lemma_lower_hex_len(bytes.drop_last());
    }
}

/// The summary line of a group counts, after `fresh=`, `stale=` and
/// `invalid=`, exactly the statuses of the group in state Fresh, Stale and
/// Invalid; statuses in any other state (unchecked, missing source or
/// metadata, too large) are counted in none of the three.
pub proof fn lemma_machine_line_counts(label: Seq<char>, machines: Seq<DxMachineStatus>)
    ensures
        machine_line(label, machines) == label + decimal(machines.len()) + " fresh="@ + decimal(
            machines.filter(|s: DxMachineStatus| s.state == DxArtifactState::Fresh).len(),
        ) + " stale="@ + decimal(
            machines.filter(|s: DxMachineStatus| s.state == DxArtifactState::Stale).len(),
        ) + " invalid="@ + decimal(
            machines.filter(|s: DxMachineStatus| s.state == DxArtifactState::Invalid).len(),
        ),
{
    assert(is_state(DxArtifactState::Fresh) =~= |s: DxMachineStatus|
        s.state == DxArtifactState::Fresh);
    assert(is_state(DxArtifactState::Stale) =~= |s: DxMachineStatus|
        s.state == DxArtifactState::Stale);
    assert(is_state(DxArtifactState::Invalid) =~= |s: DxMachineStatus|
        s.state == DxArtifactState::Invalid);
}

proof fn lemma_filter_none<T>(s: Seq<T>, f: spec_fn(T) -> bool)
    requires
        forall|i: int| 0 <= i < s.len() ==> !f(#[trigger] s[i]),
    ensures
        s.filter(f).len() == 0,
    decreases s.len(),
{
    reveal(Seq::filter);
    if s.len() > 0 {
        lemma_filter_none(s.drop_last(), f);
    }
}

proof fn lemma_filter_all<T>(s: Seq<T>, f: spec_fn(T) -> bool)
    requires
        forall|i: int| 0 <= i < s.len() ==> f(#[trigger] s[i]),
    ensures
        s.filter(f).len() == s.len(),
    decreases s.len(),
{
    reveal(Seq::filter);
    if s.len() > 0 {
        lemma_filter_all(s.drop_last(), f);
    }
}

/// A group none of whose statuses is Fresh renders `fresh=0`, and a group
/// all of whose statuses are Fresh renders as many fresh as it has
/// statuses.
pub proof fn lemma_machine_line_fresh_extremes(label: Seq<char>, machines: Seq<DxMachineStatus>)
    ensures
        (forall|i: int| 0 <= i < machines.len() ==> (#[trigger] machines[i]).state
            != DxArtifactState::Fresh) ==> machine_line(label, machines).take(
            (label.len() + decimal(machines.len()).len() + 8) as int,
        ) == label + decimal(machines.len()) + " fresh=0"@,
        (forall|i: int| 0 <= i < machines.len() ==> (#[trigger] machines[i]).state
            == DxArtifactState::Fresh) ==> machine_line(label, machines).take(
            (label.len() + decimal(machines.len()).len() + 7 + decimal(machines.len()).len()) as int,
        ) == label + decimal(machines.len()) + " fresh="@ + decimal(machines.len()),
{
    reveal_strlit(" fresh=");
    reveal_strlit(" fresh=0");
    lemma_machine_line_counts(label, machines);
    let fresh = |s: DxMachineStatus| s.state == DxArtifactState::Fresh;
    let line = machine_line(label, machines);
    if forall|i: int| 0 <= i < machines.len() ==> (#[trigger] machines[i]).state
        != DxArtifactState::Fresh {
        lemma_filter_none(machines, fresh);
        assert(decimal(0) == seq!['0']);
        let head = label + decimal(machines.len()) + " fresh=0"@;
        assert(line.take(head.len() as int) =~= head);
    }
    if forall|i: int| 0 <= i < machines.len() ==> (#[trigger] machines[i]).state
        == DxArtifactState::Fresh {
        lemma_filter_all(machines, fresh);
        let head = label + decimal(machines.len()) + " fresh="@ + decimal(machines.len());
        assert(line.take(head.len() as int) =~= head);
    }
}

proof fn lemma_all_warnings_flatten(statuses: Seq<DxMachineStatus>)
    ensures
        all_warnings(statuses) == statuses.map_values(|s: DxMachineStatus| texts(s.warnings@)).flatten_alt(),
    decreases statuses.len(),
{
    if statuses.len() > 0 {
        lemma_all_warnings_flatten(statuses.drop_last());
        assert(statuses.map_values(|s: DxMachineStatus| texts(s.warnings@)).drop_last()
            =~= statuses.drop_last().map_values(|s: DxMachineStatus| texts(s.warnings@)));
    }
}

/// A report's warnings are the warnings of every status it reports, whatever
/// the status's kind, concatenated in the order of the statuses.
pub proof fn lemma_report_warnings_concatenate(
    r: crate::dx_status::DxStatusReport,
    project_root: String,
    forge_repository_present: bool,
    dx_root_present: bool,
    package_manifest_configured: bool,
    statuses: Seq<DxMachineStatus>,
)
    requires
        reports(
            r,
            project_root,
            forge_repository_present,
            dx_root_present,
            package_manifest_configured,
            statuses,
        ),
    ensures
        r.warnings@.map_values(|w: String| w@) == statuses.map_values(
            |s: DxMachineStatus| s.warnings@.map_values(|w: String| w@),
        ).flatten(),
{
    lemma_all_warnings_flatten(statuses);
    let m = statuses.map_values(|s: DxMachineStatus| texts(s.warnings@));
    m.lemma_flatten_and_flatten_alt_are_equivalent();
    assert(m =~= statuses.map_values(|s: DxMachineStatus| s.warnings@.map_values(|w: String| w@)));
    assert(texts(r.warnings@) == r.warnings@.map_values(|w: String| w@));
}

/// A typed cache whose payload hash differs from the recorded one is judged
/// Invalid, metadata and artifact alike, whatever the payload's length; so
/// is one whose payload length differs from the recorded one.
pub proof fn lemma_typed_payload_mismatch_invalid(
    res: MetadataCheck,
    root: Seq<char>,
    metadata_path: Seq<char>,
    machine: Seq<u8>,
    meta: TypedCacheMetadata,
)
    requires
        typed_check_loaded(res, root, metadata_path, machine, meta),
        content_hash(typed_payload(machine)) != meta.machine_payload_blake3@
            || typed_payload(machine).len() != meta.machine_payload_len,
    ensures
        res matches MetadataCheck::Decided(v) && v.state == DxArtifactState::Invalid
            && v.metadata_state == DxArtifactState::Invalid,
{
}

/// The source that a serializer document's judgement goes on to read is the
/// recorded source path, taken as it is when absolute and otherwise joined
/// onto the project root; where the machine file lies plays no part.
pub proof fn lemma_generic_source_resolves_against_root(
    res: MetadataCheck,
    other: MetadataCheck,
    root: Seq<char>,
    machine_path: Seq<char>,
    other_machine_path: Seq<char>,
    machine: Seq<u8>,
    meta: GenericMetadata,
)
    requires
        generic_check_loaded(res, root, machine_path, machine, meta),
        generic_check_loaded(other, root, other_machine_path, machine, meta),
    ensures
        res matches MetadataCheck::NeedSource(p) ==> {
            &&& is_absolute_path(meta.source.path@) ==> p.source_path@ == meta.source.path@
            &&& !is_absolute_path(meta.source.path@) ==> p.source_path@ == std_path_join(
                root,
                meta.source.path@,
            )
        },
        res matches MetadataCheck::NeedSource(p) ==> {
            &&& p.metadata.source_path matches Some(sp) && sp@ == p.source_path@
            &&& p.metadata.machine_path matches Some(mp) && (is_absolute_path(meta.machine.path@)
                ==> mp@ == meta.machine.path@) && (!is_absolute_path(meta.machine.path@) ==> mp@
                == std_path_join(root, meta.machine.path@))
        },
        res matches MetadataCheck::NeedSource(p) ==> (other matches MetadataCheck::NeedSource(q)
            && q.source_path@ == p.source_path@),
{
}

/// The metadata path of `<stem>.machine` is the same path with the file
/// name `<stem>.machine.meta.json`: the whole file name, `.meta.json`
/// appended.
pub proof fn lemma_metadata_path_beside_machine(machine_path: Seq<char>, name: Seq<char>)
    requires
        std_path_file_name(machine_path) == Some(name),
        name.len() >= 8,
        name.subrange(name.len() - 8, name.len() as int) == ".machine"@,
    ensures
        metadata_path_of(machine_path) == std_path_with_file_name(machine_path, name + ".meta.json"@),
{
    reveal_strlit(".machine");
    reveal_strlit(".meta.json");
    reveal_strlit(".machine.meta.json");
    assert(name.skip(name.len() - 8) =~= name.subrange(name.len() - 8, name.len() as int));
    assert(".machine.meta.json"@ =~= ".machine"@ + ".meta.json"@);
    assert(name =~= name.take(name.len() - 8) + ".machine"@);
    assert(name.take(name.len() - 8) + ".machine.meta.json"@ =~= name + ".meta.json"@);
}

} // verus!
