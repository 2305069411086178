use fileseek::search::{
    decimal_string, dialog_outcome, get_predefined_search_paths, validate_selection,
    SearchOrchestrator,
};

#[test]
fn decimal_rendering() {
    assert_eq!(decimal_string(0), "0");
    assert_eq!(decimal_string(7), "7");
    assert_eq!(decimal_string(10), "10");
    assert_eq!(decimal_string(12345), "12345");
    assert_eq!(decimal_string(100), "100");
}

#[test]
fn predefined_paths_are_the_five_guesses_in_order() {
    let paths = get_predefined_search_paths();
    assert_eq!(
        paths,
        vec![
            "C:\\Program Files (x86)\\Diablo II Resurrected".to_string(),
            "C:\\Program Files\\Diablo II Resurrected".to_string(),
            "C:\\Games\\Diablo II Resurrected".to_string(),
            "D:\\Games\\Diablo II Resurrected".to_string(),
            "E:\\Games\\Diablo II Resurrected".to_string(),
        ]
    );
}

#[test]
fn search_with_matches_ends_at_hundred() {
    let roots = vec!["r1".to_string(), "r2".to_string(), "r3".to_string()];
    let (mut orch, first) = SearchOrchestrator::new("game.exe".to_string(), roots);
    let mut emitted = vec![first.current];
    assert_eq!(first.current, 0);
    assert_eq!(first.total, 100);
    assert_eq!(first.message, "Starting search...");

    let mut seen_roots = Vec::new();
    while orch.has_next_root() {
        let (root, progress) = orch.begin_root();
        emitted.push(progress.current);
        assert_eq!(progress.message, format!("Searching in: {}", root));
        seen_roots.push(root);
    }
    assert_eq!(seen_roots, vec!["r1", "r2", "r3"]);
    // The formula (i + 1) * 80 / 3 for i = 0, 1, 2.
    assert_eq!(&emitted[1..], &[26, 53, 80]);

    orch.record_matches(vec!["r2/a/game.exe".to_string(), "r3/game.exe".to_string()]);
    assert_eq!(orch.found_count(), 2);

    let (done, dialog, matches) = orch.finish();
    emitted.push(done.current);
    assert_eq!(done.current, 100);
    assert_eq!(done.message, "Search completed! Found 2 files");
    assert_eq!(done.found_count, 2);
    assert!(dialog.is_none());
    assert_eq!(matches, vec!["r2/a/game.exe".to_string(), "r3/game.exe".to_string()]);

    // Progress values never decrease and end at exactly 100.
    for pair in emitted.windows(2) {
        assert!(pair[0] <= pair[1]);
    }
    assert_eq!(*emitted.last().unwrap(), 100);
}

#[test]
fn search_with_single_root_reports_eighty() {
    let (mut orch, _) = SearchOrchestrator::new("f".to_string(), vec!["only".to_string()]);
    let (_, progress) = orch.begin_root();
    assert_eq!(progress.current, 80);
}

#[test]
fn empty_search_requests_manual_selection() {
    let (mut orch, first) = SearchOrchestrator::new("game.exe".to_string(), Vec::new());
    assert_eq!(first.current, 0);
    assert!(!orch.has_next_root());
    let (done, dialog, matches) = orch.finish();
    assert_eq!(done.current, 90);
    assert_eq!(
        done.message,
        "File not found in predefined paths. Please select file manually..."
    );
    assert_eq!(done.found_count, 0);
    let dialog = dialog.expect("manual-selection request should be emitted");
    assert_eq!(dialog.filename, "game.exe");
    assert_eq!(
        dialog.message,
        "File not found in predefined paths. Please select the file manually."
    );
    assert!(matches.is_empty());
}

#[test]
fn roots_without_matches_fall_back_too() {
    let (mut orch, _) = SearchOrchestrator::new("x.exe".to_string(), vec!["r".to_string()]);
    let (_, progress) = orch.begin_root();
    assert_eq!(progress.current, 80);
    let (done, dialog, matches) = orch.finish();
    assert_eq!(done.current, 90);
    assert!(dialog.is_some());
    assert!(matches.is_empty());
}

#[test]
fn validate_selection_echoes_existing_path() {
    assert_eq!(
        validate_selection("/tmp/x".to_string(), true),
        Ok("/tmp/x".to_string())
    );
}

#[test]
fn validate_selection_rejects_missing_path() {
    assert_eq!(
        validate_selection("/tmp/x".to_string(), false),
        Err("Selected file does not exist".to_string())
    );
}

#[test]
fn dialog_outcomes() {
    assert_eq!(
        dialog_outcome(true, Some("/a/b".to_string())),
        Ok("/a/b".to_string())
    );
    assert_eq!(dialog_outcome(true, None), Err("Invalid file path".to_string()));
    assert_eq!(dialog_outcome(false, None), Err("No file selected".to_string()));
}
