use desktop_node::database::{
    database_config, DatabaseSource, FULL_DIR, LIGHT_DIR, PARITYDB_DIR, ROCKSDB_DIR,
};
use desktop_node::path::NodePath;
use desktop_node::policy::Role;

fn segments(path: &NodePath) -> Vec<&str> {
    path.segments.iter().map(|s| s.as_str()).collect()
}

#[test]
fn new_path_has_no_segments() {
    let path = NodePath::new("/var/lib/node");
    assert_eq!(path.root, "/var/lib/node");
    assert!(path.segments.is_empty());
}

#[test]
fn join_appends_one_segment_and_keeps_the_receiver() {
    let base = NodePath::new("/var/lib/node");
    let chain = base.join("gemini");
    let network = chain.join("network");
    assert!(base.segments.is_empty());
    assert_eq!(segments(&chain), vec!["gemini"]);
    assert_eq!(segments(&network), vec!["gemini", "network"]);
    assert_eq!(network.root, "/var/lib/node");
}

#[test]
fn join_keeps_an_empty_root_and_odd_names() {
    let path = NodePath::new("").join("").join("a b").join("\u{fc}ber");
    assert_eq!(path.root, "");
    assert_eq!(segments(&path), vec!["", "a b", "\u{fc}ber"]);
}

#[test]
fn light_role_yields_light_paths() {
    let base = NodePath::new("/data").join("chain");
    let source = database_config(&base, 1024, &Role::Light);
    assert_eq!(source.rocksdb_path.root, "/data");
    assert_eq!(source.paritydb_path.root, "/data");
    assert_eq!(segments(&source.rocksdb_path), vec!["chain", "db", "light"]);
    assert_eq!(segments(&source.paritydb_path), vec!["chain", "paritydb", "light"]);
    assert!(source.rocksdb_path.segments.iter().any(|s| s == "light"));
    assert!(source.paritydb_path.segments.iter().any(|s| s == "light"));
    assert!(!source.rocksdb_path.segments.iter().any(|s| s == "full"));
}

#[test]
fn full_role_yields_full_paths() {
    let base = NodePath::new("/data").join("chain");
    let source = database_config(&base, 1024, &Role::Full);
    assert_eq!(segments(&source.rocksdb_path), vec!["chain", "db", "full"]);
    assert_eq!(segments(&source.paritydb_path), vec!["chain", "paritydb", "full"]);
}

#[test]
fn authority_role_yields_full_paths() {
    let base = NodePath::new("/data").join("chain");
    let source = database_config(&base, 1024, &Role::Authority);
    assert_eq!(segments(&source.rocksdb_path), vec!["chain", "db", "full"]);
    assert_eq!(segments(&source.paritydb_path), vec!["chain", "paritydb", "full"]);
    assert!(!source.paritydb_path.segments.iter().any(|s| s == "light"));
}

#[test]
fn cache_size_passes_through_unchanged() {
    let base = NodePath::new("base");
    for cache_size in [0usize, 1, 1024, 67_108_864, usize::MAX] {
        for role in [Role::Light, Role::Full, Role::Authority] {
            let DatabaseSource { cache_size: hint, .. } = database_config(&base, cache_size, &role);
            assert_eq!(hint, cache_size);
        }
    }
}

#[test]
fn database_config_leaves_the_base_path_alone() {
    let base = NodePath::new("/data").join("chain");
    let _ = database_config(&base, 8, &Role::Full);
    assert_eq!(base.root, "/data");
    assert_eq!(segments(&base), vec!["chain"]);
}

#[test]
fn database_directory_names() {
    assert_eq!(ROCKSDB_DIR, "db");
    assert_eq!(PARITYDB_DIR, "paritydb");
    assert_eq!(LIGHT_DIR, "light");
    assert_eq!(FULL_DIR, "full");
}
