use next_transforms::conditions::{evaluate, ConditionNode, ReferenceKind, ResourceFact};
use next_transforms::paths::{bytes_eq, copy_bytes, path_ends_with, path_within_dir, FsPath};

fn path(s: &str) -> FsPath {
    FsPath::new(s.as_bytes().to_vec())
}

fn fact(p: &str, reference: ReferenceKind) -> ResourceFact {
    ResourceFact { path: path(p), reference }
}

fn suffix(s: &str) -> Vec<u8> {
    s.as_bytes().to_vec()
}

#[test]
fn empty_all_is_vacuously_true() {
    let c = ConditionNode::all(Vec::new());
    assert!(evaluate(&c, &fact("/anything", ReferenceKind::Module)));
}

#[test]
fn empty_any_is_vacuously_false() {
    let c = ConditionNode::any(Vec::new());
    assert!(!evaluate(&c, &fact("/anything", ReferenceKind::Module)));
}

#[test]
fn not_inverts_its_child() {
    let c = ConditionNode::not(ConditionNode::PathEquals(path("/a")));
    assert!(!evaluate(&c, &fact("/a", ReferenceKind::Module)));
    assert!(evaluate(&c, &fact("/b", ReferenceKind::Module)));
}

#[test]
fn path_equals_is_byte_exact() {
    let c = ConditionNode::PathEquals(path("/pages/about.tsx"));
    assert!(evaluate(&c, &fact("/pages/about.tsx", ReferenceKind::Module)));
    assert!(!evaluate(&c, &fact("/pages/About.tsx", ReferenceKind::Module)));
    assert!(!evaluate(&c, &fact("/pages/about.ts", ReferenceKind::Module)));
}

#[test]
fn path_ends_with_matches_suffix_only() {
    let c = ConditionNode::PathEndsWith(suffix(".ts"));
    assert!(evaluate(&c, &fact("/x/a.ts", ReferenceKind::Module)));
    assert!(evaluate(&c, &fact(".ts", ReferenceKind::Module)));
    assert!(!evaluate(&c, &fact("/x/a.tsx", ReferenceKind::Module)));
    assert!(!evaluate(&c, &fact("ts", ReferenceKind::Module)));
}

#[test]
fn within_directory_is_recursive_containment() {
    let c = ConditionNode::PathWithinDirectory(path("/pages"));
    assert!(evaluate(&c, &fact("/pages", ReferenceKind::Module)));
    assert!(evaluate(&c, &fact("/pages/a.js", ReferenceKind::Module)));
    assert!(evaluate(&c, &fact("/pages/sub/deep/a.js", ReferenceKind::Module)));
    assert!(!evaluate(&c, &fact("/pagesx/a.js", ReferenceKind::Module)));
    assert!(!evaluate(&c, &fact("/page", ReferenceKind::Module)));
    assert!(!evaluate(&c, &fact("/other/pages/a.js", ReferenceKind::Module)));
}

#[test]
fn reference_kind_condition_compares_kinds() {
    let c = ConditionNode::ReferenceKindIs(ReferenceKind::UrlUndefined);
    assert!(evaluate(&c, &fact("/a.js", ReferenceKind::UrlUndefined)));
    assert!(!evaluate(&c, &fact("/a.js", ReferenceKind::Module)));
    assert!(!evaluate(&c, &fact("/a.js", ReferenceKind::UrlOther)));
}

#[test]
fn all_and_any_combine_children() {
    let both = ConditionNode::all(vec![
        ConditionNode::PathEndsWith(suffix(".js")),
        ConditionNode::PathWithinDirectory(path("/pages")),
    ]);
    assert!(evaluate(&both, &fact("/pages/a.js", ReferenceKind::Module)));
    assert!(!evaluate(&both, &fact("/pages/a.ts", ReferenceKind::Module)));
    assert!(!evaluate(&both, &fact("/lib/a.js", ReferenceKind::Module)));

    let either = ConditionNode::any(vec![
        ConditionNode::PathEndsWith(suffix(".js")),
        ConditionNode::PathEndsWith(suffix(".ts")),
    ]);
    assert!(evaluate(&either, &fact("/a.js", ReferenceKind::Module)));
    assert!(evaluate(&either, &fact("/a.ts", ReferenceKind::Module)));
    assert!(!evaluate(&either, &fact("/a.css", ReferenceKind::Module)));
}

#[test]
fn same_tree_evaluates_many_candidates() {
    let c = ConditionNode::all(vec![
        ConditionNode::not(ConditionNode::ReferenceKindIs(ReferenceKind::UrlUndefined)),
        ConditionNode::PathEndsWith(suffix(".jsx")),
    ]);
    assert!(evaluate(&c, &fact("/a.jsx", ReferenceKind::Module)));
    assert!(!evaluate(&c, &fact("/a.jsx", ReferenceKind::UrlUndefined)));
    assert!(evaluate(&c, &fact("/b.jsx", ReferenceKind::UrlOther)));
}

#[test]
fn byte_helpers_compare_textually() {
    assert!(bytes_eq(&suffix("abc"), &suffix("abc")));
    assert!(!bytes_eq(&suffix("abc"), &suffix("abd")));
    assert!(!bytes_eq(&suffix("abc"), &suffix("ab")));
    assert!(path_ends_with(&suffix("/p/a.js"), &suffix(".js")));
    assert!(!path_ends_with(&suffix("js"), &suffix(".js")));
    assert!(path_within_dir(&suffix("/p/a"), &suffix("/p")));
    assert!(path_within_dir(&suffix("/p"), &suffix("/p")));
    assert!(!path_within_dir(&suffix("/pa"), &suffix("/p")));
    assert_eq!(copy_bytes(&suffix("xyz")), suffix("xyz"));
}

#[test]
fn fs_path_duplicate_keeps_bytes() {
    let p = path("/pages/_document.tsx");
    let q = p.duplicate();
    assert_eq!(p, q);
}
