use std::path::PathBuf;
use zecho::models::{cleanup_models, lists_model, pick_substitute, pick_worker_model};
use zecho::settings::{default_language, default_true, CleanupLevel, Settings, StartupPlan, WritingStyle};

fn ids(list: &[&str]) -> Vec<String> {
    list.iter().map(|id| id.to_string()).collect()
}

#[test]
fn the_defaults() {
    let s = Settings::default();
    assert_eq!(s.hotkey, "ctrl+shift+r");
    assert_eq!(s.whisper_model, "base.en");
    assert!(s.auto_paste);
    assert_eq!(s.writing_style, WritingStyle::Casual);
    assert_eq!(s.cleanup_level, CleanupLevel::Light);
    assert_eq!(s.custom_prompt, None);
    assert_eq!(s.active_whisper_model, "whisper-base-en");
    assert_eq!(s.active_cleanup_model, "qwen25-1.5b");
    assert!(!s.setup_complete);
    assert_eq!(s.pill_x_pct, None);
    assert_eq!(s.pill_y_pct, None);
    assert!(s.fn_key_enabled);
    assert_eq!(s.language, "en");
    assert!(!s.autostart_initialized);
    assert_eq!(s.path, PathBuf::new());
    assert!(default_true());
    assert_eq!(default_language(), "en");
    assert_eq!(WritingStyle::default(), WritingStyle::Casual);
    assert_eq!(CleanupLevel::default(), CleanupLevel::Light);
}

#[test]
fn loading_without_a_file_gives_the_defaults() {
    let (s, changed) = Settings::load(None, PathBuf::from("/data/settings.json"), &ids(&[]));
    assert!(!changed);
    assert_eq!(s.path, PathBuf::from("/data/settings.json"));
    assert_eq!(s.active_cleanup_model, "qwen25-1.5b");
    assert_eq!(s.hotkey, "ctrl+shift+r");
    let (s, changed) = Settings::load(None, PathBuf::from("p"), &ids(&["gemma4-e4b"]));
    assert!(changed);
    assert_eq!(s.active_cleanup_model, "gemma4-e4b");
    assert!(s.auto_paste);
}

#[test]
fn loading_keeps_what_was_stored() {
    let mut stored = Settings::default();
    stored.hotkey = "f5".to_string();
    stored.active_cleanup_model = "gemma4-e2b".to_string();
    stored.setup_complete = true;
    let (s, changed) = Settings::load(Some(stored), PathBuf::from("p"), &ids(&["gemma4-e2b", "qwen25-3b"]));
    assert!(!changed);
    assert_eq!(s.hotkey, "f5");
    assert_eq!(s.active_cleanup_model, "gemma4-e2b");
    assert!(s.setup_complete);
    assert_eq!(s.path, PathBuf::from("p"));
}

#[test]
fn a_missing_model_is_replaced_in_order_of_preference() {
    let mut s = Settings::default();
    s.active_cleanup_model = "lost".to_string();
    assert!(!s.validate_active_models(&ids(&["something-else"])));
    assert_eq!(s.active_cleanup_model, "lost");
    assert!(s.validate_active_models(&ids(&["gemma4-e4b", "gemma4-e2b", "qwen25-3b"])));
    assert_eq!(s.active_cleanup_model, "qwen25-3b");
    assert!(!s.validate_active_models(&ids(&["gemma4-e4b", "gemma4-e2b", "qwen25-3b"])));
    s.active_cleanup_model = "lost".to_string();
    assert!(s.validate_active_models(&ids(&["gemma4-e4b", "gemma4-e2b"])));
    assert_eq!(s.active_cleanup_model, "gemma4-e2b");
}

#[test]
fn an_update_does_not_move_the_file() {
    let (mut s, _) = Settings::load(None, PathBuf::from("here"), &ids(&[]));
    let mut new = Settings::default();
    new.path = PathBuf::from("elsewhere");
    new.language = "de".to_string();
    new.custom_prompt = Some("Be brief".to_string());
    s.update(new);
    assert_eq!(s.path, PathBuf::from("here"));
    assert_eq!(s.language, "de");
    assert_eq!(s.custom_prompt, Some("Be brief".to_string()));
}

#[test]
fn single_settings_are_taken_over() {
    let mut s = Settings::default();
    s.set_hotkey("alt+space".to_string());
    assert_eq!(s.hotkey, "alt+space");
    s.set_pill_position(0.25_f64.to_bits(), 0.5_f64.to_bits());
    assert_eq!(s.pill_x_pct.map(f64::from_bits), Some(0.25));
    assert_eq!(s.pill_y_pct.map(f64::from_bits), Some(0.5));
    let copy = s.clone();
    assert_eq!(copy.hotkey, "alt+space");
    assert_eq!(copy.pill_x_pct, s.pill_x_pct);
    assert_eq!(copy.path, s.path);
}

#[test]
fn the_first_launch_is_the_only_one() {
    let mut s = Settings::default();
    assert_eq!(s.startup_plan(), StartupPlan { enable_autostart: true, show_setup: true });
    s.finish_autostart();
    assert_eq!(s.startup_plan(), StartupPlan { enable_autostart: false, show_setup: true });
    s.finish_setup();
    let (s, _) = Settings::load(Some(s), PathBuf::from("p"), &ids(&["qwen25-3b"]));
    assert_eq!(s.startup_plan(), StartupPlan { enable_autostart: false, show_setup: false });
}

#[test]
fn models_are_picked_in_order() {
    assert_eq!(cleanup_models(), ["gemma4-e2b", "gemma4-e4b", "qwen25-1.5b", "qwen25-3b"]);
    assert_eq!(pick_worker_model(&ids(&[])), None);
    assert_eq!(pick_substitute(&ids(&["whisper-base-en"])), None);
    let all = ids(&["qwen25-3b", "qwen25-1.5b", "gemma4-e4b", "gemma4-e2b"]);
    assert_eq!(pick_worker_model(&all), Some("gemma4-e2b"));
    assert_eq!(pick_substitute(&all), Some("qwen25-1.5b"));
    assert_eq!(pick_worker_model(&ids(&["qwen25-3b", "gemma4-e4b"])), Some("gemma4-e4b"));
    assert_eq!(pick_worker_model(&ids(&["qwen25-3b", "qwen25-1.5b"])), Some("qwen25-1.5b"));
    assert_eq!(pick_worker_model(&ids(&["qwen25-3b"])), Some("qwen25-3b"));
    assert_eq!(pick_substitute(&ids(&["gemma4-e4b"])), Some("gemma4-e4b"));
    assert!(lists_model(&all, "qwen25-3b"));
    assert!(!lists_model(&all, "qwen25"));
}

#[test]
fn the_defaults_belong_to_no_file() {
    assert_eq!(Settings::default().path, std::path::PathBuf::new());
}
