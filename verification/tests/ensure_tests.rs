use fileseek::ensure::{must_delete_conflict, DirectoryEnsurer};

#[test]
fn only_regular_files_conflict() {
    assert!(must_delete_conflict(true, true));
    assert!(!must_delete_conflict(true, false));
    assert!(!must_delete_conflict(false, true));
    assert!(!must_delete_conflict(false, false));
}

#[test]
fn successful_batch_echoes_inputs_in_order() {
    let paths = vec!["/data/a".to_string(), "/data/a/b".to_string()];
    let mut e = DirectoryEnsurer::new(paths.clone());
    while e.has_next() {
        let _path = e.next_path();
        let outcome = e.step(true);
        assert!(outcome.is_none());
    }
    assert_eq!(e.finish(), paths);
}

#[test]
fn creation_failure_stops_the_batch_and_names_the_path() {
    let paths = vec!["/ok".to_string(), "/bad".to_string(), "/never".to_string()];
    let mut e = DirectoryEnsurer::new(paths);
    assert!(e.has_next());
    assert_eq!(e.next_path(), "/ok");
    assert!(e.step(true).is_none());
    assert_eq!(e.next_path(), "/bad");
    let err = e.step(false);
    assert_eq!(err, Some("Failed to create directory: /bad".to_string()));
    // The batch is abandoned: the third path is never handed out.
    assert!(!e.has_next());
}

#[test]
fn empty_batch_succeeds() {
    let e = DirectoryEnsurer::new(Vec::new());
    assert!(!e.has_next());
    assert!(e.finish().is_empty());
}
