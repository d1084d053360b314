use nexis::pm::content_address::{hash_bytes, hash_content, to_hex};
use nexis::pm::generations::GenerationManager;
use nexis::pm::layout::StoreLayout;
use nexis::pm::security::SELinuxManager;
use nexis::pm::store::next_refcount;
use nexis::pm::version::{classify_version, resolve_latest, ResolvedVersion, VersionRequest};

const EMPTY_BLAKE3: &str = "af1349b9f5f9a1a6a0404dea36dcc9499bcb25c9adc112b7cc9a93cae41f3262";

#[test]
fn hash_of_empty_content() {
    assert_eq!(hash_content(""), EMPTY_BLAKE3);
    assert_eq!(hash_bytes(&[]), EMPTY_BLAKE3);
}

#[test]
fn hash_of_text_is_its_bytes_hash() {
    let h = hash_content("hello");
    assert_eq!(h.len(), 64);
    assert_eq!(h, hash_bytes(b"hello"));
    assert_ne!(h, EMPTY_BLAKE3);
    assert!(h.chars().all(|c| c.is_ascii_hexdigit() && !c.is_ascii_uppercase()));
}

#[test]
fn hex_encoding() {
    assert_eq!(to_hex(&[0x00, 0x0f, 0xab, 0xff]), "000fabff");
    assert_eq!(to_hex(&[]), "");
}

#[test]
fn file_and_object_paths() {
    let layout = StoreLayout::new("/nexis-store".to_string());
    let hash = "abcdef0123";
    assert_eq!(layout.file_path(hash), "/nexis-store/files/ab/cd/abcdef0123");
    assert_eq!(
        layout.object_path(hash, "nginx"),
        "/nexis-store/ab/cd/abcdef0123-nginx"
    );
}

#[test]
fn stored_content_path() {
    let layout = StoreLayout::new("/store/".to_string());
    let h = hash_content("");
    assert_eq!(layout.file_path(&h), format!("/store/files/af/13/{}", EMPTY_BLAKE3));
}

#[test]
fn generations_listed_in_order() {
    let m = GenerationManager::new("/nexis-store/generations".to_string());
    let names: Vec<String> = ["12", "current", "3", ".current.tmp", "+7", "x1", "3", "18446744073709551616"]
        .iter()
        .map(|s| s.to_string())
        .collect();
    assert_eq!(m.list_generations(&names), vec![3, 3, 7, 12]);
    assert_eq!(m.list_generations(&[]), Vec::<u64>::new());
}

#[test]
fn generation_paths() {
    let m = GenerationManager::new("/gens".to_string());
    assert_eq!(m.generation_path(42), "/gens/42");
    let plan = m.switch_generation(7);
    assert_eq!(plan.target, "/gens/7");
    assert_eq!(plan.temp_link, "/gens/.current.tmp");
    assert_eq!(plan.current_link, "/gens/current");
}

#[test]
fn new_generation_numbers() {
    assert_eq!(GenerationManager::next_generation_id(&[]), Some(1));
    assert_eq!(GenerationManager::next_generation_id(&[3, 9, 4]), Some(10));
    assert_eq!(GenerationManager::next_generation_id(&[u64::MAX]), None);
    let m = GenerationManager::new("/gens".to_string());
    let g = m.create_generation(&[1, 2]).unwrap();
    assert_eq!(g.id, 3);
    assert_eq!(g.dir, "/gens/3");
    assert_eq!(g.config_file, "/gens/3/config.toml");
    assert!(m.create_generation(&[u64::MAX]).is_none());
}

#[test]
fn created_generation_lists_back() {
    let m = GenerationManager::new("/gens".to_string());
    let g = m.create_generation(&[5]).unwrap();
    let name = g.dir.rsplit('/').next().unwrap().to_string();
    assert_eq!(m.list_generations(&[name, "5".to_string()]), vec![5, 6]);
}

#[test]
fn selinux_labels() {
    let mgr = SELinuxManager;
    let label = mgr.enforce_immutability("/nexis-store/files", true).unwrap();
    assert_eq!(label.path, "/nexis-store/files");
    assert_eq!(label.context, "system_u:object_r:immutable_dir_t:s0");
    assert!(mgr.enforce_immutability("/nexis-store/files", false).is_none());
    assert!(mgr.allow_nexispm_write("/nexis-store").is_ok());
}

#[test]
fn refcounts() {
    assert_eq!(next_refcount(None), 1);
    assert_eq!(next_refcount(Some(4)), 5);
}

#[test]
fn version_requests() {
    assert!(matches!(classify_version("latest"), VersionRequest::Latest));
    assert!(matches!(classify_version("^1.2"), VersionRequest::Range(s) if s == "^1.2"));
    assert!(matches!(classify_version("~0.3"), VersionRequest::Range(s) if s == "~0.3"));
    assert!(matches!(classify_version("1.4.0"), VersionRequest::Explicit(s) if s == "1.4.0"));
    assert!(matches!(classify_version("Latest"), VersionRequest::Explicit(_)));
    assert!(matches!(classify_version(""), VersionRequest::Explicit(s) if s.is_empty()));
}

#[test]
fn latest_prefers_tags() {
    assert!(matches!(
        resolve_latest(Some("v2.0.0".to_string()), "main".to_string()),
        ResolvedVersion::Tag(t) if t == "v2.0.0"
    ));
    assert!(matches!(
        resolve_latest(None, "main".to_string()),
        ResolvedVersion::Branch(b) if b == "main"
    ));
}

#[test]
fn different_contents_get_different_paths() {
    let layout = StoreLayout::new("/nexis-store".to_string());
    let a = hash_content("alpha");
    let b = hash_content("beta");
    assert_ne!(a, b);
    assert_ne!(layout.file_path(&a), layout.file_path(&b));
    assert!(layout.file_path(&a).ends_with(&a));
    assert!(layout.object_path(&a, "pkg").ends_with(&format!("{a}-pkg")));
}
