use fileseek::filter::Platform;
use fileseek::walker::{filename_matches, join_path, should_yield, walk, FsEntry};

fn file(name: &str) -> FsEntry {
    FsEntry::File { name: name.to_string() }
}

fn dir(name: &str, entries: Vec<FsEntry>) -> FsEntry {
    FsEntry::Dir { name: name.to_string(), entries }
}

#[test]
fn matching_is_case_insensitive() {
    assert!(filename_matches("Game.exe", "game.EXE"));
    assert!(filename_matches("D2R.exe", "d2r.EXE"));
    assert!(filename_matches("a.txt", "a.txt"));
    assert!(!filename_matches("a.txt", "b.txt"));
    assert!(!filename_matches("game.exe", "game.ex"));
}

#[test]
fn join_uses_platform_separator() {
    assert_eq!(join_path("root", Platform::Posix, "a"), "root/a");
    assert_eq!(join_path("C:\\Games", Platform::Windows, "a"), "C:\\Games\\a");
}

#[test]
fn yield_every_hundred_entries() {
    assert!(should_yield(100));
    assert!(should_yield(200));
    assert!(!should_yield(1));
    assert!(!should_yield(99));
    assert!(!should_yield(101));
}

#[test]
fn walk_finds_match_and_skips_denylisted_dir() {
    let tree = dir(
        "root",
        vec![
            dir("a", vec![file("D2R.exe")]),
            dir("node_modules", vec![file("D2R.exe")]),
        ],
    );
    let mut found: Vec<String> = Vec::new();
    walk(&tree, "root", "D2R.exe", 0, Platform::Posix, &mut found);
    assert_eq!(found, vec!["root/a/D2R.exe".to_string()]);
}

#[test]
fn walk_matches_in_encounter_order_without_dedup() {
    let tree = dir(
        "root",
        vec![
            file("game.exe"),
            dir("a", vec![file("Game.EXE"), dir("b", vec![file("GAME.exe")])]),
            file("other.txt"),
            file("game.exe"),
        ],
    );
    let mut found: Vec<String> = Vec::new();
    walk(&tree, "root", "game.exe", 0, Platform::Posix, &mut found);
    assert_eq!(
        found,
        vec![
            "root/game.exe".to_string(),
            "root/a/Game.EXE".to_string(),
            "root/a/b/GAME.exe".to_string(),
            "root/game.exe".to_string(),
        ]
    );
}

#[test]
fn walk_beyond_depth_bound_appends_nothing() {
    let tree = dir("root", vec![file("t.exe"), dir("a", vec![file("t.exe")])]);
    let mut found: Vec<String> = Vec::new();
    walk(&tree, "root", "t.exe", 9, Platform::Posix, &mut found);
    assert!(found.is_empty());
}

#[test]
fn walk_stops_below_eight_levels() {
    // A file nine directories down is out of reach; one eight down is found.
    let mut deep = dir("c9", vec![file("t.exe")]);
    for level in (2..=8).rev() {
        deep = dir(&format!("c{}", level), vec![deep]);
    }
    let shallow_chain = dir("c1", vec![deep, file("t.exe")]);
    let tree = dir("root", vec![shallow_chain]);
    let mut found: Vec<String> = Vec::new();
    walk(&tree, "root", "t.exe", 0, Platform::Posix, &mut found);
    // The file directly under c1 (depth 1) is found; the one inside c9
    // (a directory that would be entered at depth 9) is not.
    assert_eq!(found, vec!["root/c1/t.exe".to_string()]);
}

#[test]
fn walk_reaches_depth_eight_exactly() {
    let mut tree = dir("c8", vec![file("t.exe")]);
    for level in (1..=7).rev() {
        tree = dir(&format!("c{}", level), vec![tree]);
    }
    let tree = dir("root", vec![tree]);
    let mut found: Vec<String> = Vec::new();
    walk(&tree, "root", "t.exe", 0, Platform::Posix, &mut found);
    assert_eq!(found, vec!["root/c1/c2/c3/c4/c5/c6/c7/c8/t.exe".to_string()]);
}

#[test]
fn walk_prunes_windows_fragment_paths() {
    let tree = dir(
        "Drive",
        vec![
            dir("Program Files", vec![file("t.exe")]),
            dir("Games", vec![file("t.exe")]),
        ],
    );
    let mut found: Vec<String> = Vec::new();
    walk(&tree, "Drive", "t.exe", 0, Platform::Windows, &mut found);
    assert_eq!(found, vec!["Drive\\Games\\t.exe".to_string()]);
}
