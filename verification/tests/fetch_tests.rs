use snapchat_memories_downloader::fetch::after_persist;
use snapchat_memories_downloader::fetch::after_resolution;
use snapchat_memories_downloader::fetch::after_transfer;
use snapchat_memories_downloader::fetch::start_task;
use snapchat_memories_downloader::fetch::FetchError;
use snapchat_memories_downloader::fetch::ResolutionOutcome;
use snapchat_memories_downloader::fetch::TaskPhase;
use snapchat_memories_downloader::fetch::TransferOutcome;

#[test]
fn error_messages_name_each_cause() {
    assert_eq!(FetchError::AlreadyExists.message(), "File already exists.");
    assert_eq!(
        FetchError::RequestFailed.message(),
        "Problem with snapchat response."
    );
    assert_eq!(
        FetchError::ResolutionFailed.message(),
        "Error retrieving AWS link from snapchat."
    );
    assert_eq!(
        FetchError::TransferFailed.message(),
        "Problem with AWS response."
    );
    assert_eq!(
        FetchError::WriteFailed.message(),
        "Problem writing file to disk."
    );
}

#[test]
fn fresh_destination_heads_for_resolution() {
    let phase = start_task(0, "L1".to_string(), false);
    match phase {
        TaskPhase::Resolve { link } => assert_eq!(link, "L1"),
        _ => panic!("a fresh destination must lead to the resolution request"),
    }
}

#[test]
fn populated_destination_reports_already_exists_without_network() {
    let phase = start_task(4, "L1".to_string(), true);
    match phase {
        TaskPhase::Report { message } => {
            assert_eq!(message.id, 4);
            assert_eq!(message.message, Some("File already exists."));
        }
        _ => panic!("a populated destination must skip straight to the report"),
    }
}

#[test]
fn resolved_url_is_fetched_exactly() {
    let phase = after_resolution(1, ResolutionOutcome::Located("https://assets.test/u".to_string()));
    match phase {
        TaskPhase::Transfer { url } => assert_eq!(url, "https://assets.test/u"),
        _ => panic!("a delivered resolution body is the next stage's URL"),
    }
}

#[test]
fn resolution_send_failure_reports_request_failed() {
    let phase = after_resolution(2, ResolutionOutcome::SendFailed);
    match phase {
        TaskPhase::Report { message } => {
            assert_eq!(message.id, 2);
            assert_eq!(message.message, Some("Problem with snapchat response."));
        }
        _ => panic!("a failed resolution send must report"),
    }
}

#[test]
fn non_success_resolution_status_reports_request_failed() {
    let phase = after_resolution(11, ResolutionOutcome::NonSuccess);
    match phase {
        TaskPhase::Report { message } => {
            assert_eq!(message.id, 11);
            assert_eq!(message.message, Some("Problem with snapchat response."));
        }
        _ => panic!("a non-success resolution status must report"),
    }
}

#[test]
fn unreadable_resolution_body_reports_resolution_failed() {
    let phase = after_resolution(3, ResolutionOutcome::Unreadable);
    match phase {
        TaskPhase::Report { message } => {
            assert_eq!(message.id, 3);
            assert_eq!(
                message.message,
                Some("Error retrieving AWS link from snapchat.")
            );
        }
        _ => panic!("an unreadable resolution body must report"),
    }
}

#[test]
fn transferred_bytes_are_persisted_exactly() {
    let phase = after_transfer(5, TransferOutcome::Content(vec![1, 2, 3]));
    match phase {
        TaskPhase::Persist { content } => assert_eq!(content, vec![1, 2, 3]),
        _ => panic!("delivered asset bytes head for the disk write"),
    }
}

#[test]
fn transfer_timeout_reports_transfer_failed() {
    let phase = after_transfer(6, TransferOutcome::SendFailed);
    match phase {
        TaskPhase::Report { message } => {
            assert_eq!(message.id, 6);
            assert_eq!(message.message, Some("Problem with AWS response."));
        }
        _ => panic!("a failed asset request must report"),
    }
}

#[test]
fn non_success_transfer_status_reports_transfer_failed() {
    let phase = after_transfer(12, TransferOutcome::NonSuccess);
    match phase {
        TaskPhase::Report { message } => {
            assert_eq!(message.id, 12);
            assert_eq!(message.message, Some("Problem with AWS response."));
        }
        _ => panic!("a non-success asset status must report"),
    }
}

#[test]
fn unreadable_transfer_body_reports_with_its_own_message() {
    let phase = after_transfer(7, TransferOutcome::Unreadable);
    match phase {
        TaskPhase::Report { message } => {
            assert_eq!(message.id, 7);
            assert_eq!(message.message, Some("Error receiving image bytes."));
        }
        _ => panic!("an unreadable asset body must report"),
    }
}

#[test]
fn successful_write_reports_success() {
    let message = after_persist(8, true);
    assert_eq!(message.id, 8);
    assert_eq!(message.message, None);
}

#[test]
fn failed_write_still_reports() {
    let message = after_persist(9, false);
    assert_eq!(message.id, 9);
    assert_eq!(message.message, Some("Problem writing file to disk."));
}

#[test]
fn two_stage_fetch_returns_exactly_the_asset_bytes() {
    // Resolution endpoint returns URL `U`; the asset endpoint at `U`
    // returns bytes `B`; the task persists exactly `B` and reports success.
    let phase = start_task(0, "link".to_string(), false);
    let link = match phase {
        TaskPhase::Resolve { link } => link,
        _ => panic!("expected the resolution phase"),
    };
    assert_eq!(link, "link");
    let phase = after_resolution(0, ResolutionOutcome::Located("U".to_string()));
    let url = match phase {
        TaskPhase::Transfer { url } => url,
        _ => panic!("expected the transfer phase"),
    };
    assert_eq!(url, "U");
    let asset = vec![0xDE, 0xAD, 0xBE, 0xEF];
    let phase = after_transfer(0, TransferOutcome::Content(asset.clone()));
    let content = match phase {
        TaskPhase::Persist { content } => content,
        _ => panic!("expected the persist phase"),
    };
    assert_eq!(content, asset);
    let message = after_persist(0, true);
    assert_eq!(message.id, 0);
    assert_eq!(message.message, None);
}
