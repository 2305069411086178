use fileseek::filter::Platform;
use fileseek::remedy::{
    parent_of, Remediation, RemediationBatch, RemedyPhase,
};

#[test]
fn parent_of_takes_text_before_last_separator() {
    assert_eq!(parent_of("/tmp/readonly_file", Platform::Posix), "/tmp");
    assert_eq!(parent_of("/a/b/c", Platform::Posix), "/a/b");
    assert_eq!(parent_of("C:\\Games\\D2R", Platform::Windows), "C:\\Games");
    assert_eq!(parent_of("loose", Platform::Posix), "");
    assert_eq!(parent_of("", Platform::Windows), "");
}

#[test]
fn target_is_path_when_it_exists() {
    let r = Remediation::start("/tmp/f".to_string(), true, Platform::Posix);
    assert_eq!(r.target(), "/tmp/f");
    assert_eq!(r.phase(), RemedyPhase::Inspect);
}

#[test]
fn target_is_parent_when_path_is_missing() {
    let r = Remediation::start("/tmp/new/file".to_string(), false, Platform::Posix);
    assert_eq!(r.target(), "/tmp/new");
}

#[test]
fn readonly_file_cleared_and_probed_writable() {
    let mut r = Remediation::start("/tmp/readonly_file".to_string(), true, Platform::Posix);
    r.on_inspect(Ok(true));
    assert_eq!(r.phase(), RemedyPhase::ClearNative);
    r.on_clear_native(true);
    assert_eq!(r.phase(), RemedyPhase::Escalate);
    r.on_escalate(true);
    r.on_probe(Ok(()));
    let report = r.into_report();
    assert_eq!(report.path, "/tmp/readonly_file");
    assert!(report.is_readonly);
    assert!(report.removed_readonly);
    assert!(report.writable);
    assert!(report.error.is_none());
}

#[test]
fn non_readonly_target_skips_clearing() {
    let mut r = Remediation::start("/tmp/plain".to_string(), true, Platform::Posix);
    r.on_inspect(Ok(false));
    assert_eq!(r.phase(), RemedyPhase::Escalate);
    r.on_escalate(false);
    r.on_probe(Ok(()));
    let report = r.into_report();
    assert!(!report.is_readonly);
    assert!(!report.removed_readonly);
    assert!(!report.granted_acl);
    assert!(report.writable);
}

#[test]
fn windows_clear_failure_falls_back_to_command() {
    let mut r = Remediation::start("C:\\f".to_string(), true, Platform::Windows);
    r.on_inspect(Ok(true));
    r.on_clear_native(false);
    assert_eq!(r.phase(), RemedyPhase::ClearFallback);
    r.on_clear_fallback(true);
    assert_eq!(r.phase(), RemedyPhase::Escalate);
    r.on_escalate(true);
    r.on_probe(Ok(()));
    let report = r.into_report();
    assert!(report.removed_readonly);
}

#[test]
fn posix_clear_failure_has_no_fallback() {
    let mut r = Remediation::start("/f".to_string(), true, Platform::Posix);
    r.on_inspect(Ok(true));
    r.on_clear_native(false);
    assert_eq!(r.phase(), RemedyPhase::Escalate);
    r.on_escalate(true);
    r.on_probe(Err("open denied".to_string()));
    let report = r.into_report();
    assert!(!report.removed_readonly);
    assert!(!report.writable);
    assert_eq!(report.error, Some("open denied".to_string()));
}

#[test]
fn earlier_diagnostic_outranks_probe_failure() {
    let mut r = Remediation::start("/f".to_string(), true, Platform::Posix);
    r.on_inspect(Err("metadata unavailable".to_string()));
    assert_eq!(r.phase(), RemedyPhase::Escalate);
    r.on_escalate(false);
    r.on_probe(Err("open denied".to_string()));
    let report = r.into_report();
    assert!(!report.is_readonly);
    assert!(!report.writable);
    assert_eq!(report.error, Some("metadata unavailable".to_string()));
}

#[test]
fn probe_success_keeps_earlier_diagnostic() {
    let mut r = Remediation::start("/f".to_string(), true, Platform::Posix);
    r.on_inspect(Err("metadata unavailable".to_string()));
    r.on_escalate(true);
    r.on_probe(Ok(()));
    let report = r.into_report();
    assert!(report.writable);
    assert_eq!(report.error, Some("metadata unavailable".to_string()));
}

#[test]
fn batch_yields_one_report_per_path_in_order_despite_failures() {
    let paths = vec!["/a".to_string(), "/b".to_string(), "/c".to_string()];
    let mut batch = RemediationBatch::new(paths.clone());
    let mut step: usize = 0;
    while batch.has_next() {
        let path = batch.next_path();
        let mut r = Remediation::start(path, true, Platform::Posix);
        // The middle path fails every state; the batch keeps going.
        if step == 1 {
            r.on_inspect(Err("metadata unavailable".to_string()));
            r.on_escalate(false);
            r.on_probe(Err("open denied".to_string()));
        } else {
            r.on_inspect(Ok(false));
            r.on_escalate(true);
            r.on_probe(Ok(()));
        }
        batch.push_report(r.into_report());
        step += 1;
    }
    let reports = batch.finish();
    assert_eq!(reports.len(), 3);
    for (report, path) in reports.iter().zip(paths.iter()) {
        assert_eq!(&report.path, path);
    }
    assert!(reports[0].writable);
    assert!(!reports[1].writable);
    assert_eq!(
        reports[1].error,
        Some("metadata unavailable".to_string())
    );
    assert!(reports[2].writable);
}

#[test]
fn empty_batch_finishes_with_no_reports() {
    let batch = RemediationBatch::new(Vec::new());
    assert!(!batch.has_next());
    assert!(batch.finish().is_empty());
}
