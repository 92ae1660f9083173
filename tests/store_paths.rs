use git_trunk::store::{check_store_name, ref_name, resolve};

#[test]
fn resolve_main_store() {
    let p = resolve("/work/repo", "main");
    assert_eq!(p.trunk_root, "/work/repo/.trunk");
    assert_eq!(p.mirror_dir, "/work/repo/.trunk/main");
    assert_eq!(p.ref_name, "refs/trunk/main");
}

#[test]
fn resolve_differs_only_by_store_name() {
    let a = resolve("/r", "blog");
    let b = resolve("/r", "issues");
    assert_eq!(a.mirror_dir.strip_suffix("blog"), b.mirror_dir.strip_suffix("issues"));
    assert_eq!(a.ref_name.strip_suffix("blog"), b.ref_name.strip_suffix("issues"));
    assert_eq!(a.trunk_root, b.trunk_root);
    let again = resolve("/r", "blog");
    assert_eq!(a.mirror_dir, again.mirror_dir);
    assert_eq!(a.ref_name, again.ref_name);
}

#[test]
fn ref_name_prefixes_store() {
    assert_eq!(ref_name("docs"), "refs/trunk/docs");
}

#[test]
fn store_names_are_checked() {
    assert!(check_store_name("main"));
    assert!(check_store_name("blog-2024.v1"));
    assert!(!check_store_name(""));
    assert!(!check_store_name("a/b"));
    assert!(!check_store_name("a\\b"));
    assert!(!check_store_name(".."));
    assert!(!check_store_name("a..b"));
    assert!(!check_store_name("."));
}
