//! The status report of a project and its plain-text rendering.

use vstd::prelude::*;
use crate::dx_status::{
    texts, DxArtifactState, DxMachineKind, DxMachineStatus, DxStatusReport, DX_STATUS_FORMAT,
    DX_STATUS_SCHEMA,
};
use crate::text::{decimal, join_text, usize_to_decimal};

verus! {

/// Whether a status is of the given kind.
pub open spec fn is_kind(kind: DxMachineKind) -> spec_fn(DxMachineStatus) -> bool {
    |s: DxMachineStatus| s.kind == kind
}

/// Whether a status is in the given state.
pub open spec fn is_state(state: DxArtifactState) -> spec_fn(DxMachineStatus) -> bool {
    |s: DxMachineStatus| s.state == state
}

/// The warnings of all statuses, in order.
pub open spec fn all_warnings(s: Seq<DxMachineStatus>) -> Seq<Seq<char>>
    decreases s.len(),
{
    if s.len() == 0 {
        Seq::empty()
    } else {
        all_warnings(s.drop_last()) + texts(s.last().warnings@)
    }
}

proof fn lemma_filter_take_step<T>(s: Seq<T>, i: int, f: spec_fn(T) -> bool)
    requires
        0 <= i < s.len(),
    ensures
        s.take(i + 1).filter(f) == (if f(s[i]) {
            s.take(i).filter(f).push(s[i])
        } else {
            s.take(i).filter(f)
        }),
{
    reveal(Seq::filter);
    assert(s.take(i + 1).drop_last() =~= s.take(i));
    assert(s.take(i + 1).last() == s[i]);
}

proof fn lemma_texts_push(w: Seq<String>, x: String)
    ensures
        texts(w.push(x)) == texts(w).push(x@),
{
    assert(texts(w.push(x)) =~= texts(w).push(x@));
}

proof fn lemma_texts_take_step(w: Seq<String>, j: int)
    requires
        0 <= j < w.len(),
    ensures
        texts(w.take(j + 1)) == texts(w.take(j)).push(w[j]@),
{
    assert(w.take(j + 1) =~= w.take(j).push(w[j]));
    lemma_texts_push(w.take(j), w[j]);
}

/// `r` reports `statuses` for the project: each status under its kind, in
/// the order given, with the warnings of all of them gathered in order.
pub open spec fn reports(
    r: DxStatusReport,
    project_root: String,
    forge_repository_present: bool,
    dx_root_present: bool,
    package_manifest_configured: bool,
    statuses: Seq<DxMachineStatus>,
) -> bool {
    &&& r.schema@ == "forge.dx_status"@
    &&& r.format == 1
    &&& r.project_root == project_root
    &&& r.forge_repository_present == forge_repository_present
    &&& r.dx_root_present == dx_root_present
    &&& r.package_manifest_configured == package_manifest_configured
    &&& r.serializer_machines@ == statuses.filter(is_kind(DxMachineKind::SerializerDocument))
    &&& r.typed_caches@ == statuses.filter(is_kind(DxMachineKind::TypedCache))
    &&& r.unknown_machines@ == statuses.filter(is_kind(DxMachineKind::Unknown))
    &&& texts(r.warnings@) == all_warnings(statuses)
}

/// Gathers the statuses of a project's machine files into a report taken
/// at `generated_at_unix_ms`.
pub fn build_report(
    project_root: String,
    forge_repository_present: bool,
    dx_root_present: bool,
    package_manifest_configured: bool,
    statuses: Vec<DxMachineStatus>,
    generated_at_unix_ms: i64,
) -> (res: DxStatusReport)
    ensures
        reports(
            res,
            project_root,
            forge_repository_present,
            dx_root_present,
            package_manifest_configured,
            statuses@,
        ),
        res.generated_at_unix_ms == generated_at_unix_ms,
{
    let ghost all = statuses@;
    let mut rest = statuses;
    let mut serializer_machines: Vec<DxMachineStatus> = Vec::new();
    let mut typed_caches: Vec<DxMachineStatus> = Vec::new();
    let mut unknown_machines: Vec<DxMachineStatus> = Vec::new();
    let mut warnings: Vec<String> = Vec::new();
    let ghost mut i: int = 0;
    assert(all.take(0) =~= Seq::<DxMachineStatus>::empty());
    assert(texts(warnings@) =~= Seq::<Seq<char>>::empty());
    while rest.len() > 0
        invariant
            0 <= i <= all.len(),
            rest@ == all.skip(i),
            serializer_machines@ == all.take(i).filter(is_kind(DxMachineKind::SerializerDocument)),
            typed_caches@ == all.take(i).filter(is_kind(DxMachineKind::TypedCache)),
            unknown_machines@ == all.take(i).filter(is_kind(DxMachineKind::Unknown)),
            texts(warnings@) == all_warnings(all.take(i)),
        decreases rest.len(),
    {
        let status = rest.remove(0);
        assert(status == all[i]);
        proof {
            lemma_filter_take_step(all, i, is_kind(DxMachineKind::SerializerDocument));
            lemma_filter_take_step(all, i, is_kind(DxMachineKind::TypedCache));
            lemma_filter_take_step(all, i, is_kind(DxMachineKind::Unknown));
            assert(all.take(i + 1).drop_last() =~= all.take(i));
        }
        assert(rest@ =~= all.skip(i + 1));
        let ghost before = warnings@;
        let mut j: usize = 0;
        while j < status.warnings.len()
            invariant
                j <= status.warnings@.len(),
                texts(warnings@) == texts(before) + texts(status.warnings@.take(j as int)),
            decreases status.warnings.len() - j,
        {
            let w = status.warnings[j].clone();
            let ghost prev = warnings@;
            warnings.push(w);
            proof {
                lemma_texts_push(prev, w);
                lemma_texts_take_step(status.warnings@, j as int);
                assert(texts(warnings@) =~= texts(before) + texts(status.warnings@.take(j + 1)));
            }
            j = j + 1;
        }
        assert(status.warnings@.take(status.warnings@.len() as int) =~= status.warnings@);
        match status.kind {
            DxMachineKind::SerializerDocument => serializer_machines.push(status),
            DxMachineKind::TypedCache => typed_caches.push(status),
            DxMachineKind::Unknown => unknown_machines.push(status),
        }
        proof {
            i = i + 1;
        }
    }
    assert(all.take(i) =~= all);
    DxStatusReport {
        schema: String::from_str(DX_STATUS_SCHEMA),
        format: DX_STATUS_FORMAT,
        generated_at_unix_ms,
        project_root,
        forge_repository_present,
        dx_root_present,
        package_manifest_configured,
        serializer_machines,
        typed_caches,
        unknown_machines,
        warnings,
    }
}

/// How many of the statuses are in `state`.
pub fn count_state(machines: &[DxMachineStatus], state: DxArtifactState) -> (res: usize)
    ensures
        res == machines@.filter(is_state(state)).len(),
{
    let mut count: usize = 0;
    let mut i: usize = 0;
    while i < machines.len()
        invariant
            i <= machines@.len(),
            count == machines@.take(i as int).filter(is_state(state)).len(),
            count <= i,
        decreases machines.len() - i,
    {
        proof {
            lemma_filter_take_step(machines@, i as int, is_state(state));
        }
        if machines[i].state == state {
            count = count + 1;
        }
        i = i + 1;
    }
    assert(machines@.take(machines@.len() as int) =~= machines@);
    count
}

/// `true` or `false`.
pub open spec fn bool_text(b: bool) -> Seq<char> {
    if b {
        "true"@
    } else {
        "false"@
    }
}

/// The summary line of a group of machine files: how many there are, and
/// how many are fresh, stale and invalid.
pub open spec fn machine_line(label: Seq<char>, machines: Seq<DxMachineStatus>) -> Seq<char> {
    label + decimal(machines.len()) + " fresh="@ + decimal(
        machines.filter(is_state(DxArtifactState::Fresh)).len(),
    ) + " stale="@ + decimal(machines.filter(is_state(DxArtifactState::Stale)).len())
        + " invalid="@ + decimal(machines.filter(is_state(DxArtifactState::Invalid)).len())
}

/// The plain-text status of a report, line by line.
pub open spec fn status_text(r: DxStatusReport) -> Seq<Seq<char>> {
    seq![
        "Forge DX status:"@,
        "  project: "@ + r.project_root@,
        "  .dx present: "@ + bool_text(r.dx_root_present),
        "  package manifest configured: "@ + bool_text(r.package_manifest_configured),
        machine_line("  serializer machines: "@, r.serializer_machines@),
        machine_line("  typed caches: "@, r.typed_caches@),
    ] + (if r.unknown_machines@.len() > 0 {
        seq!["  unknown machine files: "@ + decimal(r.unknown_machines@.len())]
    } else {
        Seq::empty()
    }) + (if r.warnings@.len() > 0 {
        seq![""@, "Warnings:"@] + texts(r.warnings@).map_values(|w: Seq<char>| "  - "@ + w)
    } else {
        Seq::empty()
    })
}

fn bool_str(b: bool) -> (res: &'static str)
    ensures
        res@ == bool_text(b),
{
    if b {
        "true"
    } else {
        "false"
    }
}

fn machine_summary(label: &str, machines: &[DxMachineStatus]) -> (res: String)
    ensures
        res@ == machine_line(label@, machines@),
{
    let mut line = String::from_str(label);
    line.append(usize_to_decimal(machines.len()).as_str());
    line.append(" fresh=");
    line.append(usize_to_decimal(count_state(machines, DxArtifactState::Fresh)).as_str());
    line.append(" stale=");
    line.append(usize_to_decimal(count_state(machines, DxArtifactState::Stale)).as_str());
    line.append(" invalid=");
    line.append(usize_to_decimal(count_state(machines, DxArtifactState::Invalid)).as_str());
    line
}

/// The lines that the status command prints for a report.
pub fn status_lines(report: &DxStatusReport) -> (res: Vec<String>)
    ensures
        texts(res@) == status_text(*report),
{
    let mut lines: Vec<String> = Vec::new();
    lines.push(String::from_str("Forge DX status:"));
    lines.push(join_text("  project: ", report.project_root.as_str()));
    lines.push(join_text("  .dx present: ", bool_str(report.dx_root_present)));
    lines.push(join_text("  package manifest configured: ", bool_str(report.package_manifest_configured)));
    lines.push(machine_summary("  serializer machines: ", report.serializer_machines.as_slice()));
    lines.push(machine_summary("  typed caches: ", report.typed_caches.as_slice()));
    let ghost head = texts(lines@);
    if report.unknown_machines.len() > 0 {
        lines.push(join_text("  unknown machine files: ", usize_to_decimal(report.unknown_machines.len()).as_str()));
    }
    let ghost with_unknown = texts(lines@);
    assert(with_unknown =~= head + (if report.unknown_machines@.len() > 0 {
        seq!["  unknown machine files: "@ + decimal(report.unknown_machines@.len())]
    } else {
        Seq::<Seq<char>>::empty()
    }));
    if report.warnings.len() > 0 {
        let blank = String::new();
        let heading = String::from_str("Warnings:");
        let ghost prev = lines@;
        lines.push(blank);
        lines.push(heading);
        proof {
            reveal_strlit("");
            lemma_texts_push(prev, blank);
            lemma_texts_push(prev.push(blank), heading);
            assert(lines@ == prev.push(blank).push(heading));
            assert(blank@ =~= ""@);
            assert(heading@ == "Warnings:"@);
            assert(texts(prev) == with_unknown);
        }
        let ghost start = texts(lines@);
        let mut i: usize = 0;
        while i < report.warnings.len()
            invariant
                i <= report.warnings@.len(),
                texts(lines@) == start + texts(report.warnings@.take(i as int)).map_values(
                    |w: Seq<char>| "  - "@ + w,
                ),
            decreases report.warnings.len() - i,
        {
            let ghost prev = lines@;
            let line = join_text("  - ", report.warnings[i].as_str());
            lines.push(line);
            proof {
                lemma_texts_push(prev, line);
                lemma_texts_take_step(report.warnings@, i as int);
            }
            assert(texts(lines@) =~= start + texts(report.warnings@.take(i + 1)).map_values(
                |w: Seq<char>| "  - "@ + w,
            ));
            i = i + 1;
        }
        assert(report.warnings@.take(report.warnings@.len() as int) =~= report.warnings@);
        assert(start =~= with_unknown + seq![""@, "Warnings:"@]);
    }
    assert(texts(lines@) =~= status_text(*report));
    lines
}

} // verus!
