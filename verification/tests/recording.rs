use zecho::recording::{check_samples, Transcript};
use zecho::settings::Settings;

#[test]
fn an_empty_recording_is_refused() {
    assert_eq!(check_samples(0), Err("No audio recorded".to_string()));
    assert_eq!(check_samples(1), Ok(()));
}

#[test]
fn a_recording_without_speech_is_refused() {
    assert_eq!(Transcript::new(Ok(String::new())).unwrap_err(), "No speech detected");
    assert_eq!(Transcript::new(Err("no model".to_string())).unwrap_err(), "no model");
    assert_eq!(Transcript::new(Ok("hi".to_string())).unwrap().as_str(), "hi");
}

#[test]
fn a_text_is_delivered_once_it_is_copied() {
    let mut settings = Settings::default();
    settings.auto_paste = false;
    let cleaned = Transcript::new(Ok("um hi".to_string())).unwrap().cleaned(Ok("Hi.".to_string()));
    assert_eq!(cleaned.as_str(), "Hi.");
    let delivery = cleaned.delivered(Ok(()), 12, 34, &settings).unwrap();
    assert_eq!(delivery.text, "Hi.");
    assert!(!delivery.paste);
    assert_eq!(delivery.entry.text, "Hi.");
    assert_eq!(delivery.entry.raw_text, "um hi");
    assert_eq!(delivery.entry.transcribe_ms, 12);
    assert_eq!(delivery.entry.cleanup_ms, 34);
    assert_eq!(delivery.entry.stt_model, "whisper-base-en");
    assert_eq!(delivery.entry.cleanup_model, "qwen25-1.5b");
}

#[test]
fn a_text_that_is_not_copied_is_not_kept() {
    let settings = Settings::default();
    let cleaned = Transcript::new(Ok("hi".to_string())).unwrap().cleaned(Ok("Hi.".to_string()));
    let result = cleaned.delivered(Err("no clipboard".to_string()), 1, 2, &settings);
    assert_eq!(result.unwrap_err(), "no clipboard");
}

#[test]
fn a_failed_cleanup_leaves_the_transcription() {
    let settings = Settings::default();
    let cleaned = Transcript::new(Ok("um hi".to_string())).unwrap().cleaned(Err("busy".to_string()));
    assert_eq!(cleaned.as_str(), "um hi");
    let delivery = cleaned.delivered(Ok(()), 1, 2, &settings).unwrap();
    assert!(delivery.paste);
    assert_eq!(delivery.text, "um hi");
}
