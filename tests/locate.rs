use vcpkg_locate::{first_existing, is_listed, join_path, layout, Config, Environment, ErrorKind};

fn empty_env() -> Environment {
    Environment {
        vcpkg_root: None,
        manifest_dir: None,
        target_triplet: None,
        default_triplet: None,
        current_dir: None,
    }
}

fn strings(items: &[&str]) -> Vec<String> {
    items.iter().map(|s| s.to_string()).collect()
}

/// Every candidate root is set and exists, each to a distinguishable value.
fn full_env() -> Environment {
    Environment {
        vcpkg_root: Some("/env/vcpkg".to_string()),
        manifest_dir: Some("/manifest".to_string()),
        target_triplet: Some("env-target".to_string()),
        default_triplet: Some("env-default".to_string()),
        current_dir: Some("/cwd".to_string()),
    }
}

fn all_dirs() -> Vec<String> {
    strings(&["/tree", "/pm/installed", "/env/vcpkg", "/cwd/vcpkg_installed", "/manifest"])
}

#[test]
fn zlib_round_trip() {
    let dirs = strings(&["/tmp/vcpkg-tree"]);
    let loc = Config::new("zlib")
        .vcpkg_tree_root("/tmp/vcpkg-tree")
        .vcpkg_target("x64-windows")
        .locate(&empty_env(), &dirs)
        .unwrap();
    assert_eq!(loc.name, "zlib");
    assert!(loc.lib_dir.ends_with("x64-windows/lib"));
    assert!(loc.header_dir.ends_with("x64-windows/include"));
    assert_eq!(
        loc.directives(),
        strings(&[
            "cargo:rustc-link-lib=zlib",
            "cargo:rustc-link-search=native=/tmp/vcpkg-tree/x64-windows/lib",
            "cargo:include=/tmp/vcpkg-tree/x64-windows/include",
        ])
    );
}

#[test]
fn missing_triplet_is_an_error() {
    let dirs = strings(&["/tmp/vcpkg-tree"]);
    let err = Config::new("zlib")
        .vcpkg_tree_root("/tmp/vcpkg-tree")
        .locate(&empty_env(), &dirs)
        .unwrap_err();
    assert_eq!(err.kind(), ErrorKind::TripletNotDetermined);
    assert_eq!(err.message(), "triplet not determined");
    assert_eq!(*err.tried(), strings(&["VCPKG_TARGET_TRIPLET", "VCPKG_DEFAULT_TRIPLET"]));
}

#[test]
fn nothing_configured_is_an_error() {
    let mut env = empty_env();
    env.current_dir = Some("/work".to_string());
    let err = Config::new("zlib").locate(&env, &Vec::new()).unwrap_err();
    assert_eq!(err.kind(), ErrorKind::RootNotFound);
    assert_eq!(err.message(), "install root not found");
    assert_eq!(*err.tried(), strings(&["/work/vcpkg_installed"]));
}

#[test]
fn root_error_comes_before_triplet_error() {
    let err = Config::new("zlib").locate(&empty_env(), &Vec::new()).unwrap_err();
    assert_eq!(err.kind(), ErrorKind::RootNotFound);
    assert!(err.tried().is_empty());
}

#[test]
fn explicit_tree_root_wins() {
    let loc = Config::new("zlib")
        .vcpkg_tree_root("/tree")
        .vcpkg_root("/pm")
        .locate(&full_env(), &all_dirs())
        .unwrap();
    assert_eq!(loc.root, "/tree");
}

#[test]
fn missing_tree_root_falls_through() {
    let dirs = strings(&["/pm/installed", "/manifest"]);
    let loc = Config::new("zlib")
        .vcpkg_tree_root("/tree")
        .vcpkg_root("/pm")
        .locate(&full_env(), &dirs)
        .unwrap();
    assert_eq!(loc.root, "/pm/installed");
}

#[test]
fn package_manager_root_wins_over_environment() {
    let loc = Config::new("zlib").vcpkg_root("/pm").locate(&full_env(), &all_dirs()).unwrap();
    assert_eq!(loc.root, "/pm/installed");
}

#[test]
fn environment_root_wins_over_current_dir() {
    let loc = Config::new("zlib").locate(&full_env(), &all_dirs()).unwrap();
    assert_eq!(loc.root, "/env/vcpkg");
}

#[test]
fn current_dir_wins_over_manifest_dir() {
    let mut env = full_env();
    env.vcpkg_root = None;
    let loc = Config::new("zlib").locate(&env, &all_dirs()).unwrap();
    assert_eq!(loc.root, "/cwd/vcpkg_installed");
}

#[test]
fn manifest_dir_is_the_last_resort() {
    let mut env = full_env();
    env.vcpkg_root = None;
    env.current_dir = None;
    let loc = Config::new("zlib").locate(&env, &all_dirs()).unwrap();
    assert_eq!(loc.root, "/manifest");
}

#[test]
fn candidates_in_priority_order() {
    let c = Config::new("zlib").vcpkg_tree_root("/tree").vcpkg_root("/pm");
    assert_eq!(
        c.root_candidates(&full_env()),
        strings(&["/tree", "/pm/installed", "/env/vcpkg", "/cwd/vcpkg_installed", "/manifest"])
    );
    assert!(Config::new("zlib").root_candidates(&empty_env()).is_empty());
}

#[test]
fn resolve_root_needs_an_existing_directory() {
    let c = Config::new("zlib").vcpkg_root("/pm");
    assert_eq!(c.resolve_root(&empty_env(), &strings(&["/pm"])), None);
    assert_eq!(
        c.resolve_root(&empty_env(), &strings(&["/pm/installed"])),
        Some("/pm/installed".to_string())
    );
}

#[test]
fn configured_triplet_wins() {
    let c = Config::new("zlib").vcpkg_target("x64-linux");
    assert_eq!(c.resolve_triplet(&full_env()), Some("x64-linux".to_string()));
    let loc = c.locate(&full_env(), &all_dirs()).unwrap();
    assert_eq!(loc.triplet, "x64-linux");
}

#[test]
fn environment_override_wins_over_default() {
    let c = Config::new("zlib");
    assert_eq!(c.resolve_triplet(&full_env()), Some("env-target".to_string()));
    let mut env = full_env();
    env.target_triplet = None;
    assert_eq!(c.resolve_triplet(&env), Some("env-default".to_string()));
    env.default_triplet = None;
    assert_eq!(c.resolve_triplet(&env), None);
}

#[test]
fn empty_triplet_counts_as_set() {
    let mut env = empty_env();
    env.target_triplet = Some(String::new());
    env.default_triplet = Some("x64-linux".to_string());
    assert_eq!(Config::new("zlib").resolve_triplet(&env), Some(String::new()));
}

#[test]
fn unrelated_settings_do_not_change_the_result() {
    let dirs = strings(&["/tree"]);
    let loc = Config::new("zlib")
        .target("x86_64-unknown-linux-gnu")
        .host("x86_64-unknown-linux-gnu")
        .out_dir("/out")
        .static_crt(true)
        .vcpkg_host("x64-linux")
        .vcpkg_tree_root("/tree")
        .vcpkg_target("x64-linux")
        .locate(&empty_env(), &dirs)
        .unwrap();
    assert_eq!(loc.lib_dir, "/tree/x64-linux/lib");
}

#[test]
fn layout_paths() {
    let loc = layout("zlib", "/r", "x64-linux");
    assert_eq!(loc.name, "zlib");
    assert_eq!(loc.root, "/r");
    assert_eq!(loc.triplet, "x64-linux");
    assert_eq!(loc.lib_dir, "/r/x64-linux/lib");
    assert_eq!(loc.bin_dir, "/r/x64-linux/bin");
    assert_eq!(loc.header_dir, "/r/x64-linux/include");
}

#[test]
fn layout_with_trailing_separator() {
    let loc = layout("zlib", "/r/", "x64-linux");
    assert_eq!(loc.lib_dir, "/r/x64-linux/lib");
}

#[test]
fn join_cases() {
    assert_eq!(join_path("a", "b"), "a/b");
    assert_eq!(join_path("a/", "b"), "a/b");
    assert_eq!(join_path("", "b"), "b");
    assert_eq!(join_path("a", "/b"), "/b");
    assert_eq!(join_path("a", ""), "a/");
    assert_eq!(join_path("dé", "ü"), "dé/ü");
}

#[test]
fn listing_and_first_existing() {
    let dirs = strings(&["/a", "/b"]);
    assert!(is_listed(&dirs, &"/b".to_string()));
    assert!(!is_listed(&dirs, &"/c".to_string()));
    let cands = strings(&["/c", "/b", "/a"]);
    assert_eq!(first_existing(&cands, &dirs), Some("/b".to_string()));
    assert_eq!(first_existing(&strings(&["/c"]), &dirs), None);
}
