use std::path::{Component, Path};

use know_now::layout::{
    docs_dir, generated_dir, launch_info_dir, launch_info_path, metadata_dir,
    review_state_path,
};
use know_now::path::{components, has_parent_dir, join_path, starts_with_path};

const SAMPLES: &[&str] = &[
    "", "/", "//", ".", "..", "./", "./.", "a", "a/", "a//b", "a/./b", "a/../b", "./a", "../a",
    "/a/b", "/./a", "/a/..", ".hidden", "..x", "x..", "a/.b", "a/b/.", "./..", "/..", "a/./.",
    "/tmp/p/.knownow", "docs/x.md", "/etc/passwd",
];

fn std_components(p: &str) -> Vec<String> {
    Path::new(p)
        .components()
        .map(|c| c.as_os_str().to_string_lossy().into_owned())
        .collect()
}

#[test]
fn components_agree_with_std() {
    for p in SAMPLES {
        assert_eq!(components(p), std_components(p), "components of {p:?}");
    }
}

#[test]
fn parent_dir_agrees_with_std() {
    for p in SAMPLES {
        let expected = Path::new(p).components().any(|c| c == Component::ParentDir);
        assert_eq!(has_parent_dir(p), expected, "parent step in {p:?}");
    }
}

#[test]
fn join_agrees_with_std() {
    for base in SAMPLES {
        for rel in SAMPLES {
            let expected = Path::new(base).join(rel).to_string_lossy().into_owned();
            assert_eq!(join_path(base, rel), expected, "join {base:?} {rel:?}");
        }
    }
}

#[test]
fn starts_with_agrees_with_std() {
    for p in SAMPLES {
        for base in SAMPLES {
            let expected = Path::new(p).starts_with(base);
            assert_eq!(starts_with_path(p, base), expected, "{p:?} under {base:?}");
        }
    }
}

#[test]
fn join_examples() {
    assert_eq!(join_path("/tmp", "file.bk"), "/tmp/file.bk");
    assert_eq!(join_path("/tmp/", "file.bk"), "/tmp/file.bk");
    assert_eq!(join_path("/tmp", "/etc"), "/etc");
    assert_eq!(join_path("", "a"), "a");
}

#[test]
fn components_examples() {
    assert_eq!(components("/a//b/./c/"), vec!["/", "a", "b", "c"]);
    assert_eq!(components("./x/../y"), vec![".", "x", "..", "y"]);
    assert!(components("").is_empty());
}

#[test]
fn layout_paths() {
    let root = "/tmp/p";
    assert_eq!(launch_info_dir(root), "/tmp/p/.knownow");
    assert_eq!(launch_info_path(root), "/tmp/p/.knownow/launch.json");
    assert_eq!(review_state_path(root), "/tmp/p/.knownow/review_state.json");
    assert_eq!(metadata_dir(root), "/tmp/p/metadata");
    assert_eq!(generated_dir(root), "/tmp/p/generated");
    assert_eq!(docs_dir(root), "/tmp/p/generated/docs");
}

#[test]
fn launch_info_path_is_inside_launch_info_dir() {
    for root in ["", "/", "/tmp/p", "/tmp/p/", "rel", "."] {
        assert_eq!(
            launch_info_path(root),
            join_path(&launch_info_dir(root), "launch.json"),
            "root {root:?}"
        );
        assert!(launch_info_path(root).ends_with("launch.json"));
    }
}
