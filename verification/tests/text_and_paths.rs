use forge_dx::commit::{commit_identity, path_order, PathOrder};
use forge_dx::digest::hash_hex;
use forge_dx::dx_config::ForgeDxConfig;
use forge_dx::dx_status::metadata_path_for;
use forge_dx::paths::resolve_recorded_path;
use forge_dx::text::{i64_to_decimal, u64_to_decimal, usize_to_decimal};

#[test]
fn decimal_rendering_matches_to_string() {
    assert_eq!(u64_to_decimal(0), "0");
    assert_eq!(u64_to_decimal(7), "7");
    assert_eq!(u64_to_decimal(1234), "1234");
    assert_eq!(u64_to_decimal(u64::MAX), u64::MAX.to_string());
    assert_eq!(usize_to_decimal(42), "42");
    assert_eq!(i64_to_decimal(-42), "-42");
    assert_eq!(i64_to_decimal(0), "0");
    assert_eq!(i64_to_decimal(i64::MIN), i64::MIN.to_string());
    assert_eq!(i64_to_decimal(i64::MAX), i64::MAX.to_string());
}

#[test]
fn hash_hex_is_lowercase_blake3() {
    assert_eq!(
        hash_hex(b""),
        "af1349b9f5f9a1a6a0404dea36dcc9499bcb25c9adc112b7cc9a93cae41f3262"
    );
    assert_eq!(hash_hex(b"abc"), blake3::hash(b"abc").to_hex().to_string());
    assert_eq!(hash_hex(b"abc").len(), 64);
    assert_ne!(hash_hex(b"abc"), hash_hex(b"abd"));
}

#[test]
fn commit_identity_is_blake3_with_hex() {
    let (id, id_hex) = commit_identity(b"draft commit");
    assert_eq!(&id, blake3::hash(b"draft commit").as_bytes());
    assert_eq!(id_hex, hex::encode(id));
    assert_eq!(id_hex, hash_hex(b"draft commit"));
}

#[test]
fn recorded_paths_resolve_against_root() {
    assert_eq!(resolve_recorded_path("/proj", "src/main.dx"), "/proj/src/main.dx");
    assert_eq!(resolve_recorded_path("/proj", "/abs/file"), "/abs/file");
    assert_eq!(resolve_recorded_path("/proj/", "a"), "/proj/a");
}

#[test]
fn metadata_path_sits_beside_machine_file() {
    assert_eq!(
        metadata_path_for("/w/.dx/serializer/app.machine"),
        "/w/.dx/serializer/app.machine.meta.json"
    );
    assert_eq!(metadata_path_for("/w/data.bin"), "/w/data.machine.meta.json");
    assert_eq!(metadata_path_for("/w/plain"), "/w/plain.machine.meta.json");
    assert_eq!(metadata_path_for("x.machine"), "x.machine.meta.json");
}

#[test]
fn forge_layout_paths() {
    let config = ForgeDxConfig::from_layout(
        "/ws".to_string(),
        "/ws/.dx/cache".to_string(),
        "/home/u/.dx".to_string(),
    );
    assert_eq!(config.sr_dir, "/ws/.dx/serializer");
    assert_eq!(config.receipts_dir, "/ws/.dx/receipts/forge");
    assert_eq!(config.workspace_root, "/ws");
    assert_eq!(config.cache_dir, "/ws/.dx/cache");
    assert_eq!(config.sr_path("forge-commit"), "/ws/.dx/serializer/forge-commit.sr");
    assert_eq!(config.machine_path("forge-commit"), "/ws/.dx/serializer/forge-commit.machine");
    assert_eq!(config.receipt_path("r1"), "/ws/.dx/receipts/forge/r1");
    assert_eq!(config.global_sr_dir(), "/home/u/.dx/forge");
    assert_eq!(config.global_sr_path("status"), "/home/u/.dx/forge/status.sr");
}

#[test]
fn forge_layout_without_cache_parent() {
    let config = ForgeDxConfig::from_layout("/ws".to_string(), String::new(), "/g".to_string());
    assert_eq!(config.sr_dir, "/ws/.dx/serializer");
    let root_cache = ForgeDxConfig::from_layout("/ws".to_string(), "/".to_string(), "/g".to_string());
    assert_eq!(root_cache.sr_dir, "/ws/.dx/serializer");
    let relative = ForgeDxConfig::from_layout("ws".to_string(), "cache".to_string(), "g".to_string());
    assert_eq!(relative.sr_dir, "serializer");
    assert_eq!(relative.receipts_dir, "ws/.dx/receipts/forge");
}

#[test]
fn path_order_is_byte_order() {
    assert!(matches!(path_order("a", "b"), PathOrder::Less));
    assert!(matches!(path_order("b", "a"), PathOrder::Greater));
    assert!(matches!(path_order("same", "same"), PathOrder::Equal));
    assert!(matches!(path_order("B", "a"), PathOrder::Less));
    assert!(matches!(path_order("a.b", "a/b"), PathOrder::Less));
    assert!(matches!(path_order("ab", "a"), PathOrder::Greater));
    assert!(matches!(path_order("", "a"), PathOrder::Less));
    assert!(matches!(path_order("é", "z"), PathOrder::Greater));
}
