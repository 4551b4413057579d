use alcom::fs_tree::FileSystemTree;
use alcom::notable_files::classify_entry;
use std::path::PathBuf;

fn file(rel: &str) -> FileSystemTree {
    FileSystemTree::new_file(rel.to_string(), PathBuf::from(format!("/project/{rel}")))
}

fn dir(rel: &str, children: Vec<FileSystemTree>) -> FileSystemTree {
    FileSystemTree::new_dir(rel.to_string(), PathBuf::from(format!("/project/{rel}")), children)
}

fn sample() -> FileSystemTree {
    dir(
        "",
        vec![
            dir(
                "Assets/",
                vec![file("Assets/a.txt"), dir("Assets/Sub/", vec![file("Assets/Sub/b.txt")])],
            ),
            dir("Empty/", vec![]),
            file("README.md"),
        ],
    )
}

#[test]
fn recursive_walks_in_preorder() {
    let tree = sample();
    let mut walk = tree.recursive();
    let mut seen = Vec::new();
    while let Some(node) = walk.next() {
        seen.push(node.relative_path().to_string());
    }
    assert_eq!(
        seen,
        vec!["Assets/", "Assets/a.txt", "Assets/Sub/", "Assets/Sub/b.txt", "Empty/", "README.md"]
    );
    assert!(walk.next().is_none());
}

#[test]
fn count_all_excludes_root() {
    let tree = sample();
    assert_eq!(tree.count_all(), 6);
    assert_eq!(dir("", vec![]).count_all(), 0);
    assert_eq!(file("a.txt").count_all(), 0);
}

#[test]
fn count_all_matches_recursive_walk() {
    let tree = sample();
    let mut walk = tree.recursive();
    let mut n = 0;
    while walk.next().is_some() {
        n += 1;
    }
    assert_eq!(tree.count_all(), n);
}

#[test]
fn iter_yields_direct_children() {
    let tree = sample();
    let mut it = tree.iter();
    let mut seen = Vec::new();
    while let Some(node) = it.next() {
        seen.push(node.relative_path().to_string());
    }
    assert_eq!(seen, vec!["Assets/", "Empty/", "README.md"]);
    assert!(it.next().is_none());
}

#[test]
fn is_dir_by_relative_path() {
    let tree = sample();
    assert!(tree.is_dir());
    assert!(dir("Assets/", vec![]).is_dir());
    assert!(!file("README.md").is_dir());
    assert!(!file("Assets/a.txt").is_dir());
}

#[test]
fn paths_are_kept() {
    let f = file("Assets/a.txt");
    assert_eq!(f.relative_path(), "Assets/a.txt");
    assert_eq!(f.absolute_path(), &PathBuf::from("/project/Assets/a.txt"));
    assert_eq!(sample().relative_path(), "");
}

#[test]
fn symlinks_are_skipped() {
    assert_eq!(classify_entry("", "Assets", true, true), None);
    assert_eq!(classify_entry("Assets/", "link.txt", true, false), None);
}

#[test]
fn generated_root_folders_are_skipped() {
    for name in ["Library", "library", "Logs", "obj", "TEMP", "Temp", "Library-Android", "libraryOld"] {
        assert_eq!(classify_entry("", name, false, true), None, "{name}");
    }
}

#[test]
fn generated_names_below_root_are_kept() {
    assert_eq!(
        classify_entry("Packages/", "Library", false, true),
        Some(("Packages/Library/".to_string(), true))
    );
    assert_eq!(
        classify_entry("Assets/", "Temp", false, true),
        Some(("Assets/Temp/".to_string(), true))
    );
}

#[test]
fn git_folders_are_skipped_everywhere() {
    assert_eq!(classify_entry("", ".git", false, true), None);
    assert_eq!(classify_entry("Packages/pkg/", ".GIT", false, true), None);
    assert_eq!(
        classify_entry("", ".git", false, false),
        Some((".git".to_string(), false))
    );
}

#[test]
fn files_and_folders_get_relative_paths() {
    assert_eq!(
        classify_entry("", "Assets", false, true),
        Some(("Assets/".to_string(), true))
    );
    assert_eq!(
        classify_entry("", "Library", false, false),
        Some(("Library".to_string(), false))
    );
    assert_eq!(
        classify_entry("Assets/Sub/", "b.txt", false, false),
        Some(("Assets/Sub/b.txt".to_string(), false))
    );
    assert_eq!(
        classify_entry("", "Objects", false, true),
        Some(("Objects/".to_string(), true))
    );
}

#[test]
fn classified_entries_build_a_tree() {
    let (sub, sub_is_dir) = classify_entry("", "Assets", false, true).unwrap();
    let (leaf, leaf_is_dir) = classify_entry(&sub, "a.txt", false, false).unwrap();
    assert!(sub_is_dir && !leaf_is_dir);
    let tree = dir("", vec![dir(&sub, vec![file(&leaf)])]);
    assert_eq!(tree.count_all(), 2);
}

#[test]
fn count_all_is_sum_over_children() {
    let tree = sample();
    let mut it = tree.iter();
    let mut sum = 0;
    while let Some(child) = it.next() {
        sum += 1 + child.count_all();
    }
    assert_eq!(tree.count_all(), sum);
    assert_eq!(dir("Empty/", vec![]).count_all(), 0);
}

#[test]
fn walk_stays_empty_after_none() {
    let tree = sample();
    let mut walk = tree.recursive();
    let mut yielded = 0;
    while walk.next().is_some() {
        yielded += 1;
    }
    assert_eq!(yielded, tree.count_all());
    for _ in 0..3 {
        assert!(walk.next().is_none());
    }
}
