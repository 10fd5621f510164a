use forge_dx::dx_status::{base_status, DxArtifactState, DxMachineKind, DxMachineStatus};
use forge_dx::report::{build_report, count_state, status_lines};

fn status(kind: DxMachineKind, state: DxArtifactState, path: &str, warnings: &[&str]) -> DxMachineStatus {
    let mut s = base_status(kind, state, path.to_string(), 1, None);
    s.warnings = warnings.iter().map(|w| w.to_string()).collect();
    s
}

fn sample() -> Vec<DxMachineStatus> {
    vec![
        status(DxMachineKind::TypedCache, DxArtifactState::Fresh, "/p/a", &[]),
        status(DxMachineKind::SerializerDocument, DxArtifactState::Stale, "/p/b", &["b stale"]),
        status(DxMachineKind::Unknown, DxArtifactState::Invalid, "/p/c", &[]),
        status(DxMachineKind::SerializerDocument, DxArtifactState::Fresh, "/p/d", &["d1", "d2"]),
        status(DxMachineKind::TypedCache, DxArtifactState::Invalid, "/p/e", &[]),
    ]
}

#[test]
fn report_groups_statuses_by_kind_in_order() {
    let report = build_report("/p".into(), true, true, false, sample(), 1234);
    assert_eq!(report.schema, "forge.dx_status");
    assert_eq!(report.format, 1);
    assert_eq!(report.generated_at_unix_ms, 1234);
    assert_eq!(report.project_root, "/p");
    assert!(report.forge_repository_present);
    assert!(!report.package_manifest_configured);
    let paths = |v: &Vec<DxMachineStatus>| v.iter().map(|s| s.path.clone()).collect::<Vec<_>>();
    assert_eq!(paths(&report.serializer_machines), vec!["/p/b", "/p/d"]);
    assert_eq!(paths(&report.typed_caches), vec!["/p/a", "/p/e"]);
    assert_eq!(paths(&report.unknown_machines), vec!["/p/c"]);
    assert_eq!(report.warnings, vec!["b stale", "d1", "d2"]);
}

#[test]
fn counts_by_state() {
    let all = sample();
    assert_eq!(count_state(&all, DxArtifactState::Fresh), 2);
    assert_eq!(count_state(&all, DxArtifactState::Invalid), 2);
    assert_eq!(count_state(&all, DxArtifactState::Stale), 1);
    assert_eq!(count_state(&all, DxArtifactState::TooLarge), 0);
    assert_eq!(count_state(&[], DxArtifactState::Fresh), 0);
}

#[test]
fn status_text_lines() {
    let report = build_report("/p".into(), true, true, false, sample(), 0);
    let lines = status_lines(&report);
    assert_eq!(
        lines,
        vec![
            "Forge DX status:",
            "  project: /p",
            "  .dx present: true",
            "  package manifest configured: false",
            "  serializer machines: 2 fresh=1 stale=1 invalid=0",
            "  typed caches: 2 fresh=1 stale=0 invalid=1",
            "  unknown machine files: 1",
            "",
            "Warnings:",
            "  - b stale",
            "  - d1",
            "  - d2",
        ]
    );
}

#[test]
fn status_text_without_unknowns_or_warnings() {
    let report = build_report("/q".into(), false, false, true, Vec::new(), 0);
    assert_eq!(
        status_lines(&report),
        vec![
            "Forge DX status:",
            "  project: /q",
            "  .dx present: false",
            "  package manifest configured: true",
            "  serializer machines: 0 fresh=0 stale=0 invalid=0",
            "  typed caches: 0 fresh=0 stale=0 invalid=0",
        ]
    );
}

#[test]
fn state_counts_cover_every_status() {
    let all = sample();
    let states = [
        DxArtifactState::Fresh,
        DxArtifactState::Stale,
        DxArtifactState::Missing,
        DxArtifactState::MissingSource,
        DxArtifactState::MissingMetadata,
        DxArtifactState::Unchecked,
        DxArtifactState::Invalid,
        DxArtifactState::TooLarge,
    ];
    let total: usize = states.iter().map(|s| count_state(&all, *s)).sum();
    assert_eq!(total, all.len());
    let report = build_report("/p".into(), true, true, true, sample(), 0);
    assert_eq!(
        report.serializer_machines.len() + report.typed_caches.len() + report.unknown_machines.len(),
        all.len()
    );
}
