use forge_dx::digest::hash_hex;
use forge_dx::dx_status::{machine_route, serializer_document_status, MachineRoute};
use forge_dx::dx_status::{
    base_status, check_generic_metadata, check_typed_metadata, exceeds_inspection_limit,
    finish_generic_metadata, finish_typed_metadata, inspect_serializer_document,
    inspect_typed_cache, is_serializer_document, is_typed_cache, too_large_status,
    undecodable_machine_status, DocumentShape, DxArtifactState, DxMachineKind,
    DxMachineMetadata, GenericMetadata, GenericMetadataFile, MetadataCheck, MetadataLoad,
    MetadataVerdict, SourceLoad, TypedCacheMetadata, DX_STATUS_FORMAT, DX_STATUS_SCHEMA,
    MAX_MACHINE_INSPECTION_BYTES, TYPED_CACHE_HEADER_LEN,
};

fn typed_bytes(payload: &[u8]) -> Vec<u8> {
    let mut bytes = b"DXMCACH1".to_vec();
    bytes.resize(TYPED_CACHE_HEADER_LEN, 0);
    bytes.extend_from_slice(payload);
    bytes
}

fn typed_meta(payload: &[u8], source: &[u8]) -> TypedCacheMetadata {
    TypedCacheMetadata {
        cache_schema: "dx.cache".to_string(),
        cache_version: 3,
        cache_kind: 7,
        source_path: "src/app.dx".to_string(),
        source_len: source.len() as u64,
        source_blake3: hash_hex(source),
        machine_path: "/abs/app.machine".to_string(),
        machine_payload_len: payload.len() as u64,
        machine_payload_blake3: hash_hex(payload),
    }
}

fn pending(check: MetadataCheck) -> forge_dx::dx_status::PendingSource {
    match check {
        MetadataCheck::NeedSource(p) => p,
        MetadataCheck::Decided(v) => panic!("unexpected verdict {:?}", v),
    }
}

fn decided(check: MetadataCheck) -> MetadataVerdict {
    match check {
        MetadataCheck::Decided(v) => v,
        MetadataCheck::NeedSource(p) => panic!("unexpected pending {:?}", p),
    }
}

#[test]
fn constants() {
    assert_eq!(DX_STATUS_SCHEMA, "forge.dx_status");
    assert_eq!(DX_STATUS_FORMAT, 1);
    assert_eq!(MAX_MACHINE_INSPECTION_BYTES, 64 * 1024 * 1024);
}

#[test]
fn magic_and_size_checks() {
    assert!(is_typed_cache(b"DXMCACH1rest"));
    assert!(!is_typed_cache(b"DXMCACH"));
    assert!(!is_typed_cache(b"DXM1xxxxxxxx"));
    assert!(is_serializer_document(b"DXM1"));
    assert!(!is_serializer_document(b"DXMCACH1"));
    assert!(!is_serializer_document(b"DX"));
    assert!(!exceeds_inspection_limit(64 * 1024 * 1024));
    assert!(exceeds_inspection_limit(64 * 1024 * 1024 + 1));
}

#[test]
fn typed_metadata_missing_unreadable_unparsable() {
    let bytes = typed_bytes(b"p");
    let v = decided(check_typed_metadata("/p", "/p/m.meta.json", &bytes, MetadataLoad::NotAFile));
    assert_eq!(v.metadata, None);
    assert_eq!(v.metadata_state, DxArtifactState::MissingMetadata);
    assert_eq!(v.state, DxArtifactState::Unchecked);
    assert_eq!(v.warnings, vec!["typed machine metadata is missing: /p/m.meta.json".to_string()]);

    let v = decided(check_typed_metadata(
        "/p",
        "/p/m.meta.json",
        &bytes,
        MetadataLoad::ReadFailed("denied".to_string()),
    ));
    assert_eq!(v.state, DxArtifactState::Invalid);
    assert_eq!(v.metadata_state, DxArtifactState::Invalid);
    assert_eq!(
        v.warnings,
        vec!["typed machine metadata could not be read: /p/m.meta.json (denied)".to_string()]
    );

    let v = decided(check_typed_metadata(
        "/p",
        "/p/m.meta.json",
        &bytes,
        MetadataLoad::ParseFailed("bad json".to_string()),
    ));
    assert_eq!(v.state, DxArtifactState::Invalid);
    assert_eq!(
        v.warnings,
        vec!["typed machine metadata could not be parsed: /p/m.meta.json (bad json)".to_string()]
    );
}

#[test]
fn typed_cache_fresh_stale_missing_source() {
    let payload = b"payload-bytes";
    let source = b"source text";
    let bytes = typed_bytes(payload);
    let check = check_typed_metadata(
        "/p",
        "/p/m.meta.json",
        &bytes,
        MetadataLoad::Loaded(typed_meta(payload, source)),
    );
    let p = pending(check);
    assert_eq!(p.source_path, "/p/src/app.dx");
    assert_eq!(p.source_len, source.len() as u64);
    assert_eq!(p.metadata.machine_path.as_deref(), Some("/abs/app.machine"));
    assert_eq!(p.metadata.machine_bytes, Some(bytes.len() as u64));
    assert_eq!(p.metadata.payload_hash_matches, Some(true));
    assert_eq!(p.metadata.cache_version, Some(3));

    let fresh = finish_typed_metadata(p, SourceLoad::Read(source.to_vec()));
    assert_eq!(fresh.state, DxArtifactState::Fresh);
    assert_eq!(fresh.metadata_state, DxArtifactState::Fresh);
    assert!(fresh.warnings.is_empty());
    assert_eq!(fresh.metadata.unwrap().source_hash_matches, Some(true));

    let p = pending(check_typed_metadata(
        "/p",
        "/p/m.meta.json",
        &bytes,
        MetadataLoad::Loaded(typed_meta(payload, source)),
    ));
    let stale = finish_typed_metadata(p, SourceLoad::Read(b"changed".to_vec()));
    assert_eq!(stale.state, DxArtifactState::Stale);
    assert_eq!(
        stale.warnings,
        vec!["typed machine cache is stale for source: /p/src/app.dx".to_string()]
    );
    assert_eq!(stale.metadata.unwrap().source_hash_matches, Some(false));

    let p = pending(check_typed_metadata(
        "/p",
        "/p/m.meta.json",
        &bytes,
        MetadataLoad::Loaded(typed_meta(payload, source)),
    ));
    let missing = finish_typed_metadata(p, SourceLoad::NotFound);
    assert_eq!(missing.state, DxArtifactState::MissingSource);
    assert_eq!(missing.metadata_state, DxArtifactState::MissingSource);
    assert_eq!(
        missing.warnings,
        vec!["typed machine cache source is missing: /p/src/app.dx".to_string()]
    );
    assert_eq!(missing.metadata.unwrap().source_hash_matches, None);

    let p = pending(check_typed_metadata(
        "/p",
        "/p/m.meta.json",
        &bytes,
        MetadataLoad::Loaded(typed_meta(payload, source)),
    ));
    let failed = finish_typed_metadata(p, SourceLoad::Failed("is a directory".to_string()));
    assert_eq!(failed.state, DxArtifactState::Invalid);
    assert_eq!(
        failed.warnings,
        vec!["typed machine cache source could not be read: /p/src/app.dx (is a directory)"
            .to_string()]
    );
}

#[test]
fn typed_cache_payload_mismatch_is_invalid() {
    let bytes = typed_bytes(b"actual");
    let v = decided(check_typed_metadata(
        "/p",
        "/p/m.meta.json",
        &bytes,
        MetadataLoad::Loaded(typed_meta(b"expected", b"s")),
    ));
    assert_eq!(v.state, DxArtifactState::Invalid);
    assert_eq!(v.metadata.as_ref().unwrap().payload_hash_matches, Some(false));
    assert_eq!(
        v.warnings,
        vec!["typed machine cache payload does not match metadata: /p/m.meta.json".to_string()]
    );
    // A truncated cache has an empty payload.
    let short = b"DXMCACH1short".to_vec();
    let p = pending(check_typed_metadata(
        "/p",
        "/p/m.meta.json",
        &short,
        MetadataLoad::Loaded(typed_meta(b"", b"s")),
    ));
    assert_eq!(p.metadata.payload_bytes, Some(0));
}

fn generic_meta(machine: &[u8], source: &[u8]) -> GenericMetadata {
    GenericMetadata {
        schema: "dx.serializer.meta".to_string(),
        source: GenericMetadataFile {
            path: "dx.toml".to_string(),
            bytes: source.len() as u64,
            blake3: hash_hex(source),
        },
        machine: GenericMetadataFile {
            path: ".dx/serializer/dx.machine".to_string(),
            bytes: machine.len() as u64,
            blake3: hash_hex(machine),
        },
    }
}

#[test]
fn generic_metadata_errors_and_missing() {
    let machine = b"DXM1doc";
    let res = check_generic_metadata("/p", "/p/d.meta.json", "/p/d.machine", machine, MetadataLoad::ReadFailed("x".into()));
    assert_eq!(res, Err("read /p/d.meta.json".to_string()));
    let res = check_generic_metadata("/p", "/p/d.meta.json", "/p/d.machine", machine, MetadataLoad::ParseFailed("x".into()));
    assert_eq!(res, Err("parse /p/d.meta.json".to_string()));
    let v = decided(
        check_generic_metadata("/p", "/p/d.meta.json", "/p/d.machine", machine, MetadataLoad::NotAFile)
            .unwrap(),
    );
    assert_eq!(v.state, DxArtifactState::Unchecked);
    assert_eq!(v.metadata_state, DxArtifactState::MissingMetadata);
    assert_eq!(
        v.warnings,
        vec!["serializer machine metadata is missing: /p/d.meta.json".to_string()]
    );
}

#[test]
fn generic_metadata_fresh_stale_invalid() {
    let machine = b"DXM1doc";
    let source = b"name = 'x'";
    let p = pending(
        check_generic_metadata(
            "/p",
            "/p/d.meta.json",
            "/p/d.machine",
            machine,
            MetadataLoad::Loaded(generic_meta(machine, source)),
        )
        .unwrap(),
    );
    assert_eq!(p.source_path, "/p/dx.toml");
    assert_eq!(p.metadata.machine_path.as_deref(), Some("/p/.dx/serializer/dx.machine"));
    assert_eq!(p.metadata.machine_hash_matches, Some(true));
    assert_eq!(p.metadata.schema.as_deref(), Some("dx.serializer.meta"));
    let v = finish_generic_metadata(p, SourceLoad::Read(source.to_vec())).unwrap();
    assert_eq!(v.state, DxArtifactState::Fresh);
    assert!(v.warnings.is_empty());

    let p = pending(
        check_generic_metadata("/p", "/p/d.meta.json", "/p/d.machine", machine, MetadataLoad::Loaded(generic_meta(machine, source)))
            .unwrap(),
    );
    let v = finish_generic_metadata(p, SourceLoad::Read(b"other".to_vec())).unwrap();
    assert_eq!(v.state, DxArtifactState::Stale);
    assert_eq!(
        v.warnings,
        vec!["serializer machine cache is stale for source: /p/dx.toml".to_string()]
    );

    let p = pending(
        check_generic_metadata("/p", "/p/d.meta.json", "/p/d.machine", machine, MetadataLoad::Loaded(generic_meta(machine, source)))
            .unwrap(),
    );
    assert_eq!(
        finish_generic_metadata(p, SourceLoad::Failed("denied".into())),
        Err("read /p/dx.toml".to_string())
    );

    let p = pending(
        check_generic_metadata("/p", "/p/d.meta.json", "/p/d.machine", machine, MetadataLoad::Loaded(generic_meta(machine, source)))
            .unwrap(),
    );
    let v = finish_generic_metadata(p, SourceLoad::NotFound).unwrap();
    assert_eq!(v.state, DxArtifactState::MissingSource);
    assert_eq!(v.warnings, vec!["serializer machine source is missing: /p/dx.toml".to_string()]);

    let v = decided(
        check_generic_metadata("/p", "/p/d.meta.json", "/p/d.machine", b"DXM1changed", MetadataLoad::Loaded(generic_meta(machine, source)))
            .unwrap(),
    );
    assert_eq!(v.state, DxArtifactState::Invalid);
    assert_eq!(v.metadata.as_ref().unwrap().machine_hash_matches, Some(false));
    assert_eq!(
        v.warnings,
        vec!["serializer machine metadata does not match machine bytes: /p/d.machine".to_string()]
    );
}

#[test]
fn statuses_of_unreadable_files() {
    let s = too_large_status("/p/big.machine".into(), 1 << 30);
    assert_eq!(s.kind, DxMachineKind::Unknown);
    assert_eq!(s.state, DxArtifactState::TooLarge);
    assert_eq!(s.blake3, "");
    assert_eq!(s.bytes, 1 << 30);

    let s = undecodable_machine_status("/p/x.machine".into(), 6, b"DXM1zz", "bad doc".into());
    assert_eq!(s.kind, DxMachineKind::SerializerDocument);
    assert_eq!(s.state, DxArtifactState::Invalid);
    assert_eq!(s.blake3, hash_hex(b"DXM1zz"));
    assert_eq!(s.error.as_deref(), Some("bad doc"));
    assert_eq!(s.warnings, vec!["invalid serializer machine cache: /p/x.machine".to_string()]);

    let s = undecodable_machine_status("/p/y.machine".into(), 3, b"abc", "bad doc".into());
    assert_eq!(s.kind, DxMachineKind::Unknown);
    assert!(s.warnings.is_empty());

    let s = base_status(DxMachineKind::TypedCache, DxArtifactState::Fresh, "p".into(), 1, Some("h".into()));
    assert_eq!(s.blake3, "h");
    assert_eq!(s.metadata_path, None);
}

fn verdict(state: DxArtifactState, warnings: Vec<String>) -> MetadataVerdict {
    MetadataVerdict { metadata: None, metadata_state: state, state, warnings }
}

#[test]
fn typed_cache_status_warns_on_truncated_header() {
    let s = inspect_typed_cache(
        "/p/.dx/t.machine".into(),
        10,
        "hash".into(),
        b"DXMCACH1ab",
        verdict(DxArtifactState::Stale, vec!["w1".into()]),
    );
    assert_eq!(s.kind, DxMachineKind::TypedCache);
    assert_eq!(s.state, DxArtifactState::Stale);
    assert_eq!(s.metadata_path.as_deref(), Some("/p/.dx/t.machine.meta.json"));
    assert_eq!(s.metadata_state, Some(DxArtifactState::Stale));
    assert_eq!(
        s.warnings,
        vec!["w1".to_string(), "typed cache header is truncated: /p/.dx/t.machine".to_string()]
    );
    let full = typed_bytes(b"x");
    let s = inspect_typed_cache("/p/t.machine".into(), 257, "h".into(), &full, verdict(DxArtifactState::Fresh, vec![]));
    assert!(s.warnings.is_empty());
}

#[test]
fn serializer_document_status_summarises_shape() {
    let meta = DxMachineMetadata {
        schema: Some("s".into()),
        cache_schema: None,
        cache_version: None,
        cache_kind: None,
        source_path: None,
        source_bytes: None,
        source_blake3: None,
        source_hash_matches: None,
        machine_path: None,
        machine_bytes: None,
        machine_blake3: None,
        machine_hash_matches: None,
        payload_bytes: None,
        payload_blake3: None,
        payload_hash_matches: None,
    };
    let s = inspect_serializer_document(
        "/p/d.machine".into(),
        99,
        "hh".into(),
        DocumentShape {
            context_entries: 4,
            refs: 2,
            section_rows: vec![3, 0, 5],
            project_name: Some("demo".into()),
        },
        MetadataVerdict {
            metadata: Some(meta),
            metadata_state: DxArtifactState::Fresh,
            state: DxArtifactState::Fresh,
            warnings: vec![],
        },
    );
    assert_eq!(s.kind, DxMachineKind::SerializerDocument);
    let summary = s.document_summary.unwrap();
    assert_eq!(summary.context_entries, 4);
    assert_eq!(summary.refs, 2);
    assert_eq!(summary.sections, 3);
    assert_eq!(summary.section_rows, 8);
    assert_eq!(summary.project_name.as_deref(), Some("demo"));
    assert_eq!(s.metadata_path.as_deref(), Some("/p/d.machine.meta.json"));
    assert_eq!(s.metadata.unwrap().schema.as_deref(), Some("s"));
}

#[test]
fn machine_file_names() {
    assert!(forge_dx::dx_status::is_machine_file_name("app.machine"));
    assert!(forge_dx::dx_status::is_machine_file_name(".machine"));
    assert!(!forge_dx::dx_status::is_machine_file_name("app.machine.meta.json"));
    assert!(!forge_dx::dx_status::is_machine_file_name("machine"));
    assert!(forge_dx::dx_status::is_machine_file_name("é.machine"));
}

#[test]
fn machine_routing_order() {
    let limit = 64 * 1024 * 1024;
    assert_eq!(machine_route(limit + 1, None), MachineRoute::TooLarge);
    assert_eq!(machine_route(limit + 1, Some(b"DXMCACH1")), MachineRoute::TooLarge);
    assert_eq!(machine_route(limit, None), MachineRoute::ReadBytes);
    assert_eq!(machine_route(8, Some(b"DXMCACH1")), MachineRoute::TypedCache);
    assert_eq!(machine_route(4, Some(b"DXM1")), MachineRoute::SerializerDocument);
    assert_eq!(machine_route(3, Some(b"abc")), MachineRoute::SerializerDocument);
}

#[test]
fn serializer_document_status_from_outcome() {
    let ok = serializer_document_status(
        "/p/d.machine".into(),
        4,
        "h".into(),
        b"DXM1",
        Ok((
            DocumentShape { context_entries: 1, refs: 0, section_rows: vec![2, 2], project_name: None },
            verdict(DxArtifactState::Fresh, vec![]),
        )),
    );
    assert_eq!(ok.kind, DxMachineKind::SerializerDocument);
    assert_eq!(ok.state, DxArtifactState::Fresh);
    assert_eq!(ok.document_summary.unwrap().section_rows, 4);
    assert_eq!(ok.error, None);

    let bad = serializer_document_status("/p/d.machine".into(), 4, "h".into(), b"DXM1", Err("parse x".into()));
    assert_eq!(bad.kind, DxMachineKind::SerializerDocument);
    assert_eq!(bad.state, DxArtifactState::Invalid);
    assert_eq!(bad.blake3, hash_hex(b"DXM1"));
    assert_eq!(bad.error.as_deref(), Some("parse x"));
    assert_eq!(bad.warnings, vec!["invalid serializer machine cache: /p/d.machine".to_string()]);

    let other = serializer_document_status("/p/o.machine".into(), 2, "h".into(), b"zz", Err("e".into()));
    assert_eq!(other.kind, DxMachineKind::Unknown);
    assert!(other.warnings.is_empty());
}

#[test]
fn inspected_status_records_the_hash_of_the_bytes() {
    let typed = typed_bytes(b"x");
    let s = forge_dx::dx_status::inspected_machine_status(
        "/p/t.machine".into(),
        typed.len() as u64,
        &typed,
        forge_dx::dx_status::MachineJudgement::TypedCache(verdict(DxArtifactState::Fresh, vec![])),
    );
    assert_eq!(s.kind, DxMachineKind::TypedCache);
    assert_eq!(s.blake3, hash_hex(&typed));
    assert_eq!(s.metadata_path.as_deref(), Some("/p/t.machine.meta.json"));

    let d = forge_dx::dx_status::inspected_machine_status(
        "/p/d.machine".into(),
        6,
        b"DXM1ab",
        forge_dx::dx_status::MachineJudgement::SerializerDocument(Err("decode failed".into())),
    );
    assert_eq!(d.kind, DxMachineKind::SerializerDocument);
    assert_eq!(d.state, DxArtifactState::Invalid);
    assert_eq!(d.blake3, hash_hex(b"DXM1ab"));
    assert_eq!(d.error.as_deref(), Some("decode failed"));
}
