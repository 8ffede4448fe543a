use zecho::updates::{
    checking_notice, CheckOutcome, Download, UpdateInfo, UpdateState, Updates,
    CHECK_INTERVAL_SECONDS, FIRST_CHECK_SECONDS,
};

fn info() -> UpdateInfo {
    UpdateInfo {
        version: "1.2.0".to_string(),
        notes: Some("Faster".to_string()),
        date_unix: Some(1_700_000_000),
    }
}

fn is_offer(state: &UpdateState) -> bool {
    match state {
        UpdateState::Available { version, current_version, notes, date_unix } => {
            version == "1.2.0"
                && current_version == "1.1.0"
                && *notes == Some("Faster".to_string())
                && *date_unix == Some(1_700_000_000)
        }
        _ => false,
    }
}

#[test]
fn only_one_check_at_a_time() {
    let mut updates = Updates::new();
    assert!(updates.begin_check());
    assert!(!updates.begin_check());
    updates.end_check(CheckOutcome::NothingNew, "1.1.0".to_string(), false);
    assert!(updates.begin_check());
    updates.abandon_check();
    assert!(updates.begin_check());
    updates.end_check(CheckOutcome::Failed("x".to_string()), "1.1.0".to_string(), false);
    assert!(updates.begin_check());
}

#[test]
fn an_update_that_is_found_is_offered() {
    let mut updates = Updates::new();
    updates.begin_check();
    let report = updates.end_check(CheckOutcome::Found(info()), "1.1.0".to_string(), true);
    assert!(is_offer(&report.notice.unwrap()));
    assert!(report.refresh_tray);
    assert_eq!(report.log, None);
    assert_eq!(updates.tray_label(), "Install Zecho v1.2.0");
    assert_eq!(updates.tray_title(), Some("↑"));
    assert!(is_offer(&updates.open_dialog("1.1.0".to_string()).unwrap()));
}

#[test]
fn nothing_new_takes_the_offer_back() {
    let mut updates = Updates::new();
    updates.end_check(CheckOutcome::Found(info()), "1.1.0".to_string(), false);
    let report = updates.end_check(CheckOutcome::NothingNew, "1.1.0".to_string(), true);
    match report.notice {
        Some(UpdateState::UpToDate { current_version }) => assert_eq!(current_version, "1.1.0"),
        _ => panic!("expected a notice"),
    }
    assert!(report.refresh_tray);
    assert_eq!(updates.tray_label(), "Check for Updates…");
    assert_eq!(updates.tray_title(), None);
    assert!(updates.open_dialog("1.1.0".to_string()).is_none());
}

#[test]
fn a_failed_check_takes_nothing_back() {
    let mut updates = Updates::new();
    updates.end_check(CheckOutcome::Found(info()), "1.1.0".to_string(), false);
    let report = updates.end_check(CheckOutcome::Failed("offline".to_string()), "1.1.0".to_string(), true);
    match report.notice {
        Some(UpdateState::Error { message }) => assert_eq!(message, "offline"),
        _ => panic!("expected a notice"),
    }
    assert!(!report.refresh_tray);
    assert_eq!(report.log, None);
    assert_eq!(updates.tray_label(), "Install Zecho v1.2.0");
}

#[test]
fn background_checks_tell_nobody() {
    let mut updates = Updates::new();
    let report = updates.end_check(CheckOutcome::Failed("offline".to_string()), "1".to_string(), false);
    assert!(report.notice.is_none());
    assert_eq!(report.log, Some("Background update check failed: offline".to_string()));
    let report = updates.end_check(CheckOutcome::Found(info()), "1".to_string(), false);
    assert!(report.notice.is_none());
    assert_eq!(report.log, None);
    assert!(checking_notice(false).is_none());
    assert!(matches!(checking_notice(true), Some(UpdateState::Checking)));
    assert_eq!(FIRST_CHECK_SECONDS, 10);
    assert_eq!(CHECK_INTERVAL_SECONDS, 24 * 60 * 60);
}

#[test]
fn an_update_is_installed_once() {
    let mut updates = Updates::new();
    assert_eq!(updates.take_pending().unwrap_err(), "No pending update");
    updates.end_check(CheckOutcome::Found(info()), "1.1.0".to_string(), false);
    assert_eq!(updates.take_pending().unwrap().version, "1.2.0");
    assert_eq!(updates.take_pending().unwrap_err(), "No pending update");
    assert_eq!(updates.tray_label(), "Check for Updates…");
}

#[test]
fn a_download_counts_its_chunks() {
    let (mut download, notice) = Download::start("1.2.0".to_string());
    assert!(matches!(notice, UpdateState::Downloading { downloaded: 0, total: None, .. }));
    assert!(download.has_room_for(usize::MAX));
    match download.add_chunk(100, Some(250)) {
        UpdateState::Downloading { version, downloaded, total } => {
            assert_eq!(version, "1.2.0");
            assert_eq!(downloaded, 100);
            assert_eq!(total, Some(250));
        }
        _ => panic!("expected progress"),
    }
    assert!(matches!(
        download.add_chunk(150, Some(250)),
        UpdateState::Downloading { downloaded: 250, .. }
    ));
    assert!(!download.has_room_for(usize::MAX));
    match download.installing() {
        UpdateState::Installing { version } => assert_eq!(version, "1.2.0"),
        _ => panic!("expected installation"),
    }
}
