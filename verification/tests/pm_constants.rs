use nexis::pm::constants::{
    calculate_workers, config_dir, files_dir, generations_dir, machines_dir, packages_dir,
    profiles_dir, store_root, workers_for, DEFAULT_PARALLEL_BUILDS, HASH_PREFIX_LENGTH,
};
use nexis::{DEFAULT_WORKERS, VERSION};
use std::path::PathBuf;

#[test]
fn test_paths() {
    assert_eq!(PathBuf::from(store_root()), PathBuf::from("/nexis-store"));
    assert_eq!(PathBuf::from(config_dir()), PathBuf::from("/etc/nexis"));
}

#[test]
fn test_workers() {
    let workers = calculate_workers();
    assert!(workers > 0);
    assert!(workers <= DEFAULT_PARALLEL_BUILDS * 2);
}

#[test]
fn test_hash_prefix_length() {
    assert_eq!(HASH_PREFIX_LENGTH, 2);
}

#[test]
fn test_version() {
    assert!(!VERSION.is_empty());
}

#[test]
fn store_directories() {
    assert_eq!(packages_dir(), "/nexis-store/packages");
    assert_eq!(files_dir(), "/nexis-store/files");
    assert_eq!(generations_dir(), "/nexis-store/generations");
    assert_eq!(profiles_dir(), "/etc/nexis/profiles");
    assert_eq!(machines_dir(), "/etc/nexis/machines");
}

#[test]
fn workers_clamped_to_range() {
    assert_eq!(workers_for(0), 1);
    assert_eq!(workers_for(1), 1);
    assert_eq!(workers_for(3), 3);
    assert_eq!(workers_for(8), 8);
    assert_eq!(workers_for(64), 8);
    assert_eq!(DEFAULT_WORKERS, 4);
}
