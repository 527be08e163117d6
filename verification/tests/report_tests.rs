use snapchat_memories_downloader::report::consolidate;
use snapchat_memories_downloader::report::ThreadMessage;
use snapchat_memories_downloader::text::usize_to_decimal;

#[test]
fn no_error_carries_the_index_and_no_cause() {
    let m = ThreadMessage::no_error(7);
    assert_eq!(m.id, 7);
    assert_eq!(m.message, None);
}

#[test]
fn error_carries_the_index_and_the_cause() {
    let m = ThreadMessage::error(3, "File already exists.");
    assert_eq!(m.id, 3);
    assert_eq!(m.message, Some("File already exists."));
}

#[test]
fn decimal_rendering() {
    assert_eq!(usize_to_decimal(0), "0");
    assert_eq!(usize_to_decimal(7), "7");
    assert_eq!(usize_to_decimal(10), "10");
    assert_eq!(usize_to_decimal(907), "907");
    assert_eq!(usize_to_decimal(123456789), "123456789");
}

#[test]
fn empty_run_reports_zero_errors() {
    let report = consolidate(&Vec::new());
    assert_eq!(report.error_count, 0);
    assert_eq!(report.error_log, "");
    assert!(report.is_clean());
}

#[test]
fn single_success_reports_zero_errors() {
    let report = consolidate(&vec![ThreadMessage::no_error(0)]);
    assert_eq!(report.error_count, 0);
    assert_eq!(report.error_log, "");
}

#[test]
fn single_failure_is_logged_with_its_index() {
    let report = consolidate(&vec![ThreadMessage::error(0, "Problem with AWS response.")]);
    assert_eq!(report.error_count, 1);
    assert_eq!(report.error_log, "\n0: Problem with AWS response.");
    assert!(!report.is_clean());
}

#[test]
fn failures_are_logged_in_arrival_order() {
    let messages = vec![
        ThreadMessage::error(10, "File already exists."),
        ThreadMessage::no_error(1),
        ThreadMessage::error(2, "Problem with snapchat response."),
    ];
    let report = consolidate(&messages);
    assert_eq!(report.error_count, 2);
    assert_eq!(
        report.error_log,
        "\n10: File already exists.\n2: Problem with snapchat response."
    );
}

#[test]
fn every_outcome_is_counted_exactly_once() {
    // Batch sizes the orchestrator must cope with, drained sequentially.
    for n in [0usize, 1, 100, 10000] {
        let mut messages = Vec::new();
        for i in 0..n {
            if i % 3 == 0 {
                messages.push(ThreadMessage::error(i, "Problem with AWS response."));
            } else {
                messages.push(ThreadMessage::no_error(i));
            }
        }
        let report = consolidate(&messages);
        let expected = (0..n).filter(|i| i % 3 == 0).count();
        assert_eq!(report.error_count, expected);
    }
}
