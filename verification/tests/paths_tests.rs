use avatar_cli::paths::check_within;
use avatar_cli::paths::display_path;
use avatar_cli::paths::display_rel;
use avatar_cli::paths::nearest_marked_ancestor;
use avatar_cli::paths::rel_components;
use avatar_cli::paths::AbsPath;

fn path(components: &[&str]) -> AbsPath {
    AbsPath { components: components.iter().map(|c| c.as_bytes().to_vec()).collect() }
}

#[test]
fn within_accepts_root_itself() {
    assert!(check_within(&path(&["repo"]), &path(&["repo"])));
}

#[test]
fn within_accepts_descendants() {
    assert!(check_within(&path(&["repo"]), &path(&["repo", "modules", "net"])));
}

#[test]
fn within_rejects_siblings_and_unrelated() {
    assert!(!check_within(&path(&["repo"]), &path(&["other"])));
    assert!(!check_within(&path(&["home", "a"]), &path(&["home", "b", "deep"])));
    assert!(!check_within(&path(&["repo"]), &path(&["tmp"])));
}

#[test]
fn within_rejects_ancestors_of_root() {
    assert!(!check_within(&path(&["home", "user", "repo"]), &path(&["home", "user"])));
    assert!(!check_within(&path(&["repo"]), &path(&[])));
}

#[test]
fn rel_components_strips_the_root() {
    let rel = rel_components(&path(&["repo"]), &path(&["repo", "modules", "net"]));
    assert_eq!(rel, vec![b"modules".to_vec(), b"net".to_vec()]);
    let none = rel_components(&path(&["repo"]), &path(&["repo"]));
    assert!(none.is_empty());
}

#[test]
fn nearest_marked_ancestor_prefers_innermost() {
    // ancestors of /a/b/c: index 0 = /a/b/c, 1 = /a/b, 2 = /a, 3 = /
    let cwd = path(&["a", "b", "c"]);
    let marks = vec![false, true, true, false];
    let found = nearest_marked_ancestor(&cwd, &marks).expect("marked ancestor");
    assert_eq!(found.components, path(&["a", "b"]).components);
}

#[test]
fn nearest_marked_ancestor_takes_cwd_itself_first() {
    let cwd = path(&["a", "b"]);
    let marks = vec![true, true, true];
    let found = nearest_marked_ancestor(&cwd, &marks).expect("marked ancestor");
    assert_eq!(found.components, path(&["a", "b"]).components);
}

#[test]
fn nearest_marked_ancestor_none_when_unmarked() {
    let cwd = path(&["a", "b"]);
    assert!(nearest_marked_ancestor(&cwd, &vec![false, false, false]).is_none());
    // starting at the filesystem root itself
    let root = path(&[]);
    assert!(nearest_marked_ancestor(&root, &vec![false]).is_none());
}

#[test]
fn display_forms() {
    assert_eq!(display_path(&path(&["repo", "x"])), b"/repo/x".to_vec());
    assert_eq!(display_path(&path(&[])), b"/".to_vec());
    assert_eq!(
        display_rel(&vec![b"modules".to_vec(), b"net".to_vec()]),
        b"modules/net".to_vec()
    );
    assert_eq!(display_rel(&Vec::new()), Vec::<u8>::new());
}
