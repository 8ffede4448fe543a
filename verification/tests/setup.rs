use zecho::setup::{
    check_model, check_setup, done_message, next_action, plan_switch, progress_message,
    LanguageSwitch, Progress, SetupAction, SetupEvent,
};

#[test]
fn the_setup_status() {
    let status = check_setup(true, &vec!["qwen25-3b".to_string()]);
    assert!(status.whisper_ready && status.cleanup_ready);
    assert!(!status.whisper_downloading && !status.cleanup_downloading);
    let status = check_setup(false, &vec!["other".to_string()]);
    assert!(!status.whisper_ready && !status.cleanup_ready);
}

#[test]
fn a_setup_from_nothing() {
    let event = SetupEvent::Started { whisper_on_disk: false };
    assert_eq!(done_message(&event), None);
    let action = next_action(&event);
    assert!(matches!(action, SetupAction::DownloadWhisper));
    assert_eq!(progress_message(&action), Some("Downloading speech model..."));

    let event = SetupEvent::WhisperDownloaded(Ok(()));
    assert_eq!(done_message(&event), Some("Speech model ready"));
    let action = next_action(&event);
    assert!(matches!(action, SetupAction::SearchCleanup { load_whisper: true }));
    assert_eq!(progress_message(&action), None);

    let action = next_action(&SetupEvent::CleanupSearched { found: false, default_known: true });
    assert!(matches!(action, SetupAction::DownloadCleanup));
    assert_eq!(progress_message(&action), Some("Downloading cleanup model..."));

    let event = SetupEvent::CleanupDownloaded(Ok(()));
    assert_eq!(done_message(&event), Some("Cleanup model ready"));
    assert!(matches!(next_action(&event), SetupAction::Complete));
}

#[test]
fn a_setup_with_everything_there() {
    let action = next_action(&SetupEvent::Started { whisper_on_disk: true });
    assert!(matches!(action, SetupAction::SearchCleanup { load_whisper: false }));
    let action = next_action(&SetupEvent::CleanupSearched { found: true, default_known: true });
    assert!(matches!(action, SetupAction::Complete));
    let action = next_action(&SetupEvent::CleanupSearched { found: false, default_known: false });
    assert!(matches!(action, SetupAction::Complete));
}

#[test]
fn a_setup_that_fails() {
    match next_action(&SetupEvent::WhisperDownloaded(Err("offline".to_string()))) {
        SetupAction::Fail { message } => {
            assert_eq!(message, "Failed to download speech model: offline");
        }
        _ => panic!("expected a failure"),
    }
    match next_action(&SetupEvent::CleanupDownloaded(Err("disk full".to_string()))) {
        SetupAction::Fail { message } => {
            assert_eq!(message, "Failed to download cleanup model: disk full");
        }
        _ => panic!("expected a failure"),
    }
}

#[test]
fn progress_is_reported_once_for_each_percentage() {
    let mut progress = Progress::new();
    assert_eq!(progress.report(0, 200), None);
    assert_eq!(progress.report(1, 200), None);
    assert_eq!(progress.report(2, 200), Some(1));
    assert_eq!(progress.report(3, 200), None);
    assert_eq!(progress.report(199, 200), Some(99));
    assert_eq!(progress.report(200, 200), Some(100));
    assert_eq!(progress.report(5, 0), Some(0));
    assert!(Progress::can_report(u64::MAX / 100, 1));
    assert!(!Progress::can_report(u64::MAX / 100 + 1, 1));
    assert!(Progress::can_report(u64::MAX, 0));
}

#[test]
fn only_known_models_on_disk_are_loaded() {
    assert_eq!(check_model(Some("Qwen"), true), Ok(()));
    assert_eq!(check_model(Some("Qwen"), false), Err("Model not downloaded: Qwen".to_string()));
    assert_eq!(check_model(None, true), Err("Unknown model".to_string()));
}

#[test]
fn a_language_switches_the_model_if_it_has_to() {
    assert_eq!(plan_switch("base-en", "base-en", false, false), Ok(LanguageSwitch::Keep));
    assert_eq!(plan_switch("base-en", "base", true, true), Ok(LanguageSwitch::Switch { load: true }));
    assert_eq!(plan_switch("base-en", "base", true, false), Ok(LanguageSwitch::Switch { load: false }));
    assert_eq!(plan_switch("base-en", "base", false, true), Err("Unknown model".to_string()));
}
