//! The user's settings.

use std::path::PathBuf;

use vstd::prelude::*;

use crate::models::{lists_model, pick_substitute};

verus! {

/// A path of the file system, carried along and never looked into.
#[verifier::external_type_specification]
#[verifier::external_body]
pub struct ExPathBuf(std::path::PathBuf);

/// What `PathBuf::new` returns is an empty path. Nothing here depends on what a
/// path holds, so nothing is claimed of it.
pub assume_specification[ std::path::PathBuf::new ]() -> (path: std::path::PathBuf)
;

/// What `PathBuf::clone` returns is the same path.
pub assume_specification[ <std::path::PathBuf as Clone>::clone ](
    path: &std::path::PathBuf,
) -> (copy: std::path::PathBuf)
    ensures
        copy == *path,
;

/// How cleaned text is written.
#[derive(Debug, Clone, Copy, PartialEq, Eq, Structural)]
pub enum WritingStyle {
    Formal,
    Casual,
    VeryCasual,
}

impl Default for WritingStyle {
    fn default() -> (r: Self)
        ensures
            r == WritingStyle::Casual,
    {
        WritingStyle::Casual
    }
}

/// How far a transcription is cleaned; `Off` leaves it as it is.
#[derive(Debug, Clone, Copy, PartialEq, Eq, Structural)]
pub enum CleanupLevel {
    Off,
    Light,
    Medium,
    High,
}

impl Default for CleanupLevel {
    fn default() -> (r: Self)
        ensures
            r == CleanupLevel::Light,
    {
        CleanupLevel::Light
    }
}

/// The settings, with the path of the file that they are kept in.
#[derive(Debug)]
pub struct Settings {
    pub hotkey: String,
    pub whisper_model: String,
    pub auto_paste: bool,
    pub writing_style: WritingStyle,
    pub cleanup_level: CleanupLevel,
    pub custom_prompt: Option<String>,
    pub active_whisper_model: String,
    pub active_cleanup_model: String,
    pub setup_complete: bool,
    /// The bits of the saved horizontal position, a fraction of the screen.
    pub pill_x_pct: Option<u64>,
    /// The bits of the saved vertical position, a fraction of the screen.
    pub pill_y_pct: Option<u64>,
    pub fn_key_enabled: bool,
    pub language: String,
    pub autostart_initialized: bool,
    pub path: PathBuf,
}

/// What is to be done at launch.
#[derive(Debug, Clone, Copy, PartialEq, Eq, Structural)]
pub struct StartupPlan {
    /// Enable autostart and remember that it was done.
    pub enable_autostart: bool,
    /// Show the setup window in place of the pill.
    pub show_setup: bool,
}

/// What is to be done at launch with the settings `s`.
pub open spec fn plan_for(s: Settings) -> StartupPlan {
    StartupPlan { enable_autostart: !s.autostart_initialized, show_setup: !s.setup_complete }
}

/// Whether `s` holds the default of every setting but the cleanup model and the
/// path.
pub open spec fn has_other_defaults(s: Settings) -> bool {
    &&& s.hotkey@ == "ctrl+shift+r"@
    &&& s.whisper_model@ == "base.en"@
    &&& s.auto_paste
    &&& s.writing_style == WritingStyle::Casual
    &&& s.cleanup_level == CleanupLevel::Light
    &&& s.custom_prompt is None
    &&& s.active_whisper_model@ == "whisper-base-en"@
    &&& !s.setup_complete
    &&& s.pill_x_pct is None
    &&& s.pill_y_pct is None
    &&& s.fn_key_enabled
    &&& s.language@ == "en"@
    &&& !s.autostart_initialized
}

/// Whether `s` holds the default of every setting but the path.
pub open spec fn has_defaults(s: Settings) -> bool {
    has_other_defaults(s) && s.active_cleanup_model@ == "qwen25-1.5b"@
}

/// The cleanup model that replaces `active`, given the ids of the models on
/// disk; none if `active` is on disk, or if no other is.
pub open spec fn replacement(active: Seq<char>, on_disk: Seq<String>) -> Option<Seq<char>> {
    if crate::models::lists(on_disk, active) {
        None
    } else {
        crate::models::substitute_model(on_disk)
    }
}

/// Whether `new` is `old` with its cleanup model checked against the models on
/// disk.
pub open spec fn revalidated(old: Settings, new: Settings, on_disk: Seq<String>) -> bool {
    match replacement(old.active_cleanup_model@, on_disk) {
        Some(id) => {
            &&& new.active_cleanup_model@ == id
            &&& new == (Settings { active_cleanup_model: new.active_cleanup_model, ..old })
        },
        None => new == old,
    }
}

/// The default of settings that are on unless stored otherwise.
pub fn default_true() -> (r: bool)
    ensures
        r,
{
    true
}

/// The default language.
pub fn default_language() -> (r: String)
    ensures
        r@ == "en"@,
{
    "en".to_string()
}

impl Default for Settings {
    fn default() -> (r: Self)
        ensures
            has_defaults(r),
            call_ensures(PathBuf::new, (), r.path),
    {
        Settings {
            hotkey: "ctrl+shift+r".to_string(),
            whisper_model: "base.en".to_string(),
            auto_paste: true,
            writing_style: WritingStyle::default(),
            cleanup_level: CleanupLevel::default(),
            custom_prompt: None,
            active_whisper_model: "whisper-base-en".to_string(),
            active_cleanup_model: "qwen25-1.5b".to_string(),
            setup_complete: false,
            pill_x_pct: None,
            pill_y_pct: None,
            fn_key_enabled: default_true(),
            language: default_language(),
            autostart_initialized: false,
            path: PathBuf::new(),
        }
    }
}

impl Clone for Settings {
    fn clone(&self) -> (r: Self)
        ensures
            r == *self,
    {
        Settings {
            hotkey: self.hotkey.clone(),
            whisper_model: self.whisper_model.clone(),
            auto_paste: self.auto_paste,
            writing_style: self.writing_style,
            cleanup_level: self.cleanup_level,
            custom_prompt: match &self.custom_prompt {
                Some(p) => Some(p.clone()),
                None => None,
            },
            active_whisper_model: self.active_whisper_model.clone(),
            active_cleanup_model: self.active_cleanup_model.clone(),
            setup_complete: self.setup_complete,
            pill_x_pct: self.pill_x_pct,
            pill_y_pct: self.pill_y_pct,
            fn_key_enabled: self.fn_key_enabled,
            language: self.language.clone(),
            autostart_initialized: self.autostart_initialized,
            path: self.path.clone(),
        }
    }
}

impl Settings {
    /// The settings to start with: those that were stored at `path`, or the
    /// defaults where none could be read, with the cleanup model checked against
    /// the models on disk. The flag says whether that changed them, so that they
    /// are to be saved.
    pub fn load(stored: Option<Settings>, path: PathBuf, on_disk: &Vec<String>) -> (r: (
        Settings,
        bool,
    ))
        ensures
            match stored {
                Some(s) => {
                    &&& revalidated(Settings { path, ..s }, r.0, on_disk@)
                    &&& r.1 == (replacement(s.active_cleanup_model@, on_disk@) is Some)
                },
                None => {
                    &&& has_other_defaults(r.0)
                    &&& r.0.path == path
                    &&& match replacement("qwen25-1.5b"@, on_disk@) {
                        Some(id) => r.1 && r.0.active_cleanup_model@ == id,
                        None => !r.1 && r.0.active_cleanup_model@ == "qwen25-1.5b"@,
                    }
                },
            },
    {
        let mut settings = match stored {
            Some(s) => s,
            None => Settings::default(),
        };
        settings.path = path;
        let changed = settings.validate_active_models(on_disk);
        (settings, changed)
    }

    /// Turns to another cleanup model if the chosen one is not on disk and
    /// another is. Says whether it did, so that the settings are to be saved.
    pub fn validate_active_models(&mut self, on_disk: &Vec<String>) -> (changed: bool)
        ensures
            changed == (replacement(old(self).active_cleanup_model@, on_disk@) is Some),
            revalidated(*old(self), *final(self), on_disk@),
    {
        if lists_model(on_disk, self.active_cleanup_model.as_str()) {
            return false;
        }
        match pick_substitute(on_disk) {
            Some(id) => {
                self.active_cleanup_model = id.to_string();
                true
            },
            None => false,
        }
    }

    /// Takes over `new` in all but the path.
    pub fn update(&mut self, new: Settings)
        ensures
            *final(self) == (Settings { path: old(self).path, ..new }),
    {
        let mut new = new;
        std::mem::swap(&mut self.path, &mut new.path);
        *self = new;
    }

    /// Takes over a hotkey.
    pub fn set_hotkey(&mut self, hotkey: String)
        ensures
            *final(self) == (Settings { hotkey, ..*old(self) }),
    {
        self.hotkey = hotkey;
    }

    /// Takes over a position of the pill, by the bits of its two fractions.
    pub fn set_pill_position(&mut self, x_pct: u64, y_pct: u64)
        ensures
            *final(self) == (Settings {
                pill_x_pct: Some(x_pct),
                pill_y_pct: Some(y_pct),
                ..*old(self)
            }),
    {
        self.pill_x_pct = Some(x_pct);
        self.pill_y_pct = Some(y_pct);
    }

    /// Notes that the setup is complete.
    pub fn finish_setup(&mut self)
        ensures
            *final(self) == (Settings { setup_complete: true, ..*old(self) }),
    {
        self.setup_complete = true;
    }

    /// Notes that autostart was set up.
    pub fn finish_autostart(&mut self)
        ensures
            *final(self) == (Settings { autostart_initialized: true, ..*old(self) }),
    {
        self.autostart_initialized = true;
    }

    /// What is to be done at launch: autostart is enabled once, and the setup
    /// window is shown until the setup is complete.
    pub fn startup_plan(&self) -> (r: StartupPlan)
        ensures
            r == plan_for(*self),
    {
        StartupPlan {
            enable_autostart: !self.autostart_initialized,
            show_setup: !self.setup_complete,
        }
    }
}

/// Checking the cleanup model settles it: settings that were checked against the
/// models on disk are left alone when checked again, and name a model on disk if
/// there is one to name.
pub proof fn law_revalidation_settles(old: Settings, new: Settings, on_disk: Seq<String>)
    requires
        revalidated(old, new, on_disk),
    ensures
        replacement(new.active_cleanup_model@, on_disk) is None,
        crate::models::substitute_model(on_disk) is Some ==> crate::models::lists(
            on_disk,
            new.active_cleanup_model@,
        ),
        new.path == old.path,
{
    crate::models::law_picks_are_on_disk(on_disk);
}

/// Autostart is enabled, and the setup window shown, on the first launch only: once
/// either is noted as done, settings that are loaded again ask for it no more, and
/// loading alone never notes it.
pub proof fn law_first_launch_only(old: Settings, new: Settings, on_disk: Seq<String>)
    requires
        revalidated(old, new, on_disk),
    ensures
        plan_for(new) == plan_for(old),
        !plan_for(Settings { autostart_initialized: true, ..old }).enable_autostart,
        !plan_for(Settings { setup_complete: true, ..old }).show_setup,
        has_other_defaults(old) ==> plan_for(old).enable_autostart && plan_for(old).show_setup,
{
}

/// A choice that is on disk stays, whatever else is on disk: settings whose cleanup model
/// is there are left as they are, and nothing is to be saved.
pub proof fn law_valid_choice_stays(old: Settings, new: Settings, on_disk: Seq<String>, i: int)
    requires
        revalidated(old, new, on_disk),
        0 <= i < on_disk.len(),
        on_disk[i]@ == old.active_cleanup_model@,
    ensures
        new == old,
        replacement(old.active_cleanup_model@, on_disk) is None,
{
    assert(crate::models::lists(on_disk, old.active_cleanup_model@));
}

/// A choice that is not on disk gives way to the first of `qwen25-1.5b`, `qwen25-3b`,
/// `gemma4-e2b` and `gemma4-e4b` that is, and the settings are to be saved exactly if
/// one is. No other setting changes.
pub proof fn law_missing_choice_gives_way(old: Settings, new: Settings, on_disk: Seq<String>)
    requires
        revalidated(old, new, on_disk),
        forall|i: int| 0 <= i < on_disk.len() ==> (#[trigger] on_disk[i])@
            != old.active_cleanup_model@,
    ensures
        replacement(old.active_cleanup_model@, on_disk) is Some <==> (crate::models::lists(
            on_disk,
            "qwen25-1.5b"@,
        ) || crate::models::lists(on_disk, "qwen25-3b"@) || crate::models::lists(
            on_disk,
            "gemma4-e2b"@,
        ) || crate::models::lists(on_disk, "gemma4-e4b"@)),
        new.active_cleanup_model@ == if crate::models::lists(on_disk, "qwen25-1.5b"@) {
            "qwen25-1.5b"@
        } else if crate::models::lists(on_disk, "qwen25-3b"@) {
            "qwen25-3b"@
        } else if crate::models::lists(on_disk, "gemma4-e2b"@) {
            "gemma4-e2b"@
        } else if crate::models::lists(on_disk, "gemma4-e4b"@) {
            "gemma4-e4b"@
        } else {
            old.active_cleanup_model@
        },
        new.hotkey == old.hotkey,
        new.whisper_model == old.whisper_model,
        new.auto_paste == old.auto_paste,
        new.writing_style == old.writing_style,
        new.cleanup_level == old.cleanup_level,
        new.custom_prompt == old.custom_prompt,
        new.active_whisper_model == old.active_whisper_model,
        new.setup_complete == old.setup_complete,
        new.pill_x_pct == old.pill_x_pct,
        new.pill_y_pct == old.pill_y_pct,
        new.fn_key_enabled == old.fn_key_enabled,
        new.language == old.language,
        new.autostart_initialized == old.autostart_initialized,
        new.path == old.path,
{
}

/// Out of the box: the hotkey is `ctrl+shift+r`, English is spoken and transcribed by the
/// base model, cleaned lightly and casually by the smaller Qwen model without a rule of
/// the user's own, and pasted; the FN key works, the pill has no place of its own, and
/// neither the setup nor autostart is done.
pub proof fn law_defaults(s: Settings)
    ensures
        has_defaults(s) <==> {
            &&& s.hotkey@ == "ctrl+shift+r"@
            &&& s.whisper_model@ == "base.en"@
            &&& s.auto_paste
            &&& s.writing_style == WritingStyle::Casual
            &&& s.cleanup_level == CleanupLevel::Light
            &&& s.custom_prompt is None
            &&& s.active_whisper_model@ == "whisper-base-en"@
            &&& s.active_cleanup_model@ == "qwen25-1.5b"@
            &&& !s.setup_complete
            &&& s.pill_x_pct is None
            &&& s.pill_y_pct is None
            &&& s.fn_key_enabled
            &&& s.language@ == "en"@
            &&& !s.autostart_initialized
        },
        has_defaults(s) ==> has_other_defaults(s),
{
}

/// Launching asks for autostart exactly until it is noted as set up, and for the setup
/// window exactly until the setup is noted as complete; neither depends on the other.
pub proof fn law_startup_plan(s: Settings)
    ensures
        plan_for(s).enable_autostart <==> !s.autostart_initialized,
        plan_for(s).show_setup <==> !s.setup_complete,
{
}

/// Loading keeps what was stored: every setting, and the choice of a cleanup model that is
/// on disk, whatever else is on disk. Nothing is to be saved then.
pub proof fn law_loading_keeps_a_valid_choice(
    stored: Settings,
    path: PathBuf,
    on_disk: &Vec<String>,
    i: int,
    r: (Settings, bool),
)
    requires
        call_ensures(Settings::load, (Some(stored), path, on_disk), r),
        0 <= i < on_disk@.len(),
        on_disk@[i]@ == stored.active_cleanup_model@,
    ensures
        !r.1,
        r.0 == (Settings { path, ..stored }),
{
    law_valid_choice_stays((Settings { path, ..stored }), r.0, on_disk@, i);
}

/// Loading without a file gives the settings as they are out of the box, at that path; only
/// the cleanup model is another one if another one is on disk and the default is not.
pub proof fn law_loading_without_a_file(
    path: PathBuf,
    on_disk: &Vec<String>,
    r: (Settings, bool),
)
    requires
        call_ensures(Settings::load, (None, path, on_disk), r),
    ensures
        has_other_defaults(r.0),
        r.0.path == path,
        crate::models::lists(on_disk@, "qwen25-1.5b"@) || crate::models::substitute_model(
            on_disk@,
        ) is None ==> has_defaults(r.0) && !r.1,
        r.1 ==> crate::models::lists(on_disk@, r.0.active_cleanup_model@),
{
}

} // verus!
