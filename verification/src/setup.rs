//! Fetching the models and loading them.

use vstd::prelude::*;

use crate::models::pick_worker_model;
use crate::text::same_text;

verus! {

/// Which parts of the setup are done.
#[derive(Debug, Clone, Copy, PartialEq, Eq, Structural)]
pub struct SetupStatus {
    pub whisper_ready: bool,
    pub cleanup_ready: bool,
    pub whisper_downloading: bool,
    pub cleanup_downloading: bool,
}

/// The state of the setup, given whether the speech model is on disk and the ids
/// of the cleanup models that are.
pub fn check_setup(whisper_on_disk: bool, on_disk: &Vec<String>) -> (r: SetupStatus)
    ensures
        r == (SetupStatus {
            whisper_ready: whisper_on_disk,
            cleanup_ready: crate::models::worker_model(on_disk@) is Some,
            whisper_downloading: false,
            cleanup_downloading: false,
        }),
{
    SetupStatus {
        whisper_ready: whisper_on_disk,
        cleanup_ready: pick_worker_model(on_disk).is_some(),
        whisper_downloading: false,
        cleanup_downloading: false,
    }
}

/// The id of the cleanup model that a setup fetches if none is on disk.
pub const SETUP_CLEANUP_MODEL: &'static str = "qwen25-1.5b";

/// What has happened in a setup.
#[derive(Debug)]
pub enum SetupEvent {
    /// It was started, with the speech model on disk or not.
    Started { whisper_on_disk: bool },
    /// The speech model was downloaded, or could not be.
    WhisperDownloaded(Result<(), String>),
    /// The cleanup models were looked for: whether one is on disk, and whether
    /// the one to fetch is known.
    CleanupSearched { found: bool, default_known: bool },
    /// The cleanup model was downloaded, or could not be.
    CleanupDownloaded(Result<(), String>),
}

/// What is to be done next in a setup.
#[derive(Debug)]
pub enum SetupAction {
    /// Download the speech model.
    DownloadWhisper,
    /// Load the speech model if it was just downloaded, then look for the cleanup
    /// models.
    SearchCleanup { load_whisper: bool },
    /// Download the model `SETUP_CLEANUP_MODEL`.
    DownloadCleanup,
    /// Start the worker with a cleanup model if there is one, and report that the
    /// setup is complete.
    Complete,
    /// Report this error and stop.
    Fail { message: String },
}

/// What is said of an event before the next action.
pub open spec fn done_text(event: SetupEvent) -> Option<Seq<char>> {
    match event {
        SetupEvent::WhisperDownloaded(Ok(_)) => Some("Speech model ready"@),
        SetupEvent::CleanupDownloaded(Ok(_)) => Some("Cleanup model ready"@),
        _ => None,
    }
}

/// What is said of an action that takes a while.
pub open spec fn progress_text(action: SetupAction) -> Option<Seq<char>> {
    match action {
        SetupAction::DownloadWhisper => Some("Downloading speech model..."@),
        SetupAction::DownloadCleanup => Some("Downloading cleanup model..."@),
        _ => None,
    }
}

/// Whether `action` is what follows `event`.
pub open spec fn follows(event: SetupEvent, action: SetupAction) -> bool {
    match event {
        SetupEvent::Started { whisper_on_disk } => if whisper_on_disk {
            action == (SetupAction::SearchCleanup { load_whisper: false })
        } else {
            action == SetupAction::DownloadWhisper
        },
        SetupEvent::WhisperDownloaded(Ok(_)) => action == (SetupAction::SearchCleanup {
            load_whisper: true,
        }),
        SetupEvent::WhisperDownloaded(Err(e)) => action matches SetupAction::Fail { message }
            && message@ == "Failed to download speech model: "@ + e@,
        SetupEvent::CleanupSearched { found, default_known } => if !found && default_known {
            action == SetupAction::DownloadCleanup
        } else {
            action == SetupAction::Complete
        },
        SetupEvent::CleanupDownloaded(Ok(_)) => action == SetupAction::Complete,
        SetupEvent::CleanupDownloaded(Err(e)) => action matches SetupAction::Fail { message }
            && message@ == "Failed to download cleanup model: "@ + e@,
    }
}

fn failure(what: &str, reason: &String) -> (r: SetupAction)
    ensures
        r matches SetupAction::Fail { message } && message@ == what@ + reason@,
{
    let mut message = what.to_string();
    message.push_str(reason.as_str());
    SetupAction::Fail { message }
}

/// Decides what is done next in a setup.
pub fn next_action(event: &SetupEvent) -> (r: SetupAction)
    ensures
        follows(*event, r),
{
    match event {
        SetupEvent::Started { whisper_on_disk } => if *whisper_on_disk {
            SetupAction::SearchCleanup { load_whisper: false }
        } else {
            SetupAction::DownloadWhisper
        },
        SetupEvent::WhisperDownloaded(Ok(_)) => SetupAction::SearchCleanup { load_whisper: true },
        SetupEvent::WhisperDownloaded(Err(e)) => failure("Failed to download speech model: ", e),
        SetupEvent::CleanupSearched { found, default_known } => if !*found && *default_known {
            SetupAction::DownloadCleanup
        } else {
            SetupAction::Complete
        },
        SetupEvent::CleanupDownloaded(Ok(_)) => SetupAction::Complete,
        SetupEvent::CleanupDownloaded(Err(e)) => failure("Failed to download cleanup model: ", e),
    }
}

/// What is said of an event before the next action.
pub fn done_message(event: &SetupEvent) -> (r: Option<&'static str>)
    ensures
        match r {
            Some(text) => done_text(*event) == Some(text@),
            None => done_text(*event) is None,
        },
{
    match event {
        SetupEvent::WhisperDownloaded(Ok(_)) => Some("Speech model ready"),
        SetupEvent::CleanupDownloaded(Ok(_)) => Some("Cleanup model ready"),
        _ => None,
    }
}

/// What is said of an action that takes a while.
pub fn progress_message(action: &SetupAction) -> (r: Option<&'static str>)
    ensures
        match r {
            Some(text) => progress_text(*action) == Some(text@),
            None => progress_text(*action) is None,
        },
{
    match action {
        SetupAction::DownloadWhisper => Some("Downloading speech model..."),
        SetupAction::DownloadCleanup => Some("Downloading cleanup model..."),
        _ => None,
    }
}

/// How many actions may still follow.
pub open spec fn remaining(action: SetupAction) -> nat {
    match action {
        SetupAction::DownloadWhisper => 3,
        SetupAction::SearchCleanup { .. } => 2,
        SetupAction::DownloadCleanup => 1,
        SetupAction::Complete | SetupAction::Fail { .. } => 0,
    }
}

/// Whether `event` is what an action comes to.
pub open spec fn comes_of(action: SetupAction, event: SetupEvent) -> bool {
    match action {
        SetupAction::DownloadWhisper => event is WhisperDownloaded,
        SetupAction::SearchCleanup { .. } => event is CleanupSearched,
        SetupAction::DownloadCleanup => event is CleanupDownloaded,
        SetupAction::Complete | SetupAction::Fail { .. } => false,
    }
}

/// A setup comes to an end: each action leads to one with fewer to follow.
pub proof fn law_setup_ends(action: SetupAction, event: SetupEvent, next: SetupAction)
    requires
        comes_of(action, event),
        follows(event, next),
    ensures
        remaining(next) < remaining(action),
{
}

/// A setup is complete only if no download failed, and the speech model is
/// downloaded only if it is not on disk.
pub proof fn law_setup_outcomes(event: SetupEvent, next: SetupAction)
    requires
        follows(event, next),
    ensures
        next is Fail <==> (event matches SetupEvent::WhisperDownloaded(Err(_)) || event matches
            SetupEvent::CleanupDownloaded(Err(_))),
        next is DownloadWhisper <==> event == (SetupEvent::Started { whisper_on_disk: false }),
{
}

/// The share of a download that has come, in percent; zero if the total is not
/// known.
pub open spec fn percent(downloaded: u64, total: u64) -> int {
    if total > 0 {
        (downloaded * 100) / (total as int)
    } else {
        0
    }
}

/// Reports the progress of a download, once for each percentage.
pub struct Progress {
    last: u64,
}

impl Progress {
    /// The percentage that was reported last.
    pub closed spec fn last(&self) -> int {
        self.last as int
    }

    /// The beginning of a download.
    pub fn new() -> (r: Self)
        ensures
            r.last() == 0,
    {
        Progress { last: 0 }
    }

    /// Whether the percentage of so many bytes can be computed.
    pub fn can_report(downloaded: u64, total: u64) -> (r: bool)
        ensures
            r == (total > 0 ==> downloaded * 100 <= u64::MAX),
    {
        total == 0 || downloaded <= u64::MAX / 100
    }

    /// The percentage to report, if it is another than was reported last.
    pub fn report(&mut self, downloaded: u64, total: u64) -> (r: Option<u64>)
        requires
            total > 0 ==> downloaded * 100 <= u64::MAX,
        ensures
            final(self).last() == percent(downloaded, total),
            match r {
                Some(p) => p == percent(downloaded, total) && p != old(self).last(),
                None => percent(downloaded, total) == old(self).last(),
            },
    {
        let now = if total > 0 {
            downloaded * 100 / total
        } else {
            0
        };
        if now != self.last {
            self.last = now;
            Some(now)
        } else {
            None
        }
    }
}

/// A download that has not gone past its total is at no more than a hundred
/// percent, and at a hundred only at its end.
pub proof fn law_percent(downloaded: u64, total: u64)
    requires
        downloaded <= total,
    ensures
        0 <= percent(downloaded, total) <= 100,
        percent(downloaded, total) == 100 ==> downloaded == total,
{
    if total > 0 {
        let q = percent(downloaded, total);
        let t = total as int;
        assert(0 <= q <= 100 && (q == 100 ==> downloaded == total)) by (nonlinear_arith)
            requires
                t > 0,
                t == total,
                0 <= downloaded <= t,
                q == (downloaded * 100) / t,
        ;
    }
}

/// Whether a model can be loaded, given its name if it is known and whether its
/// file is there.
pub fn check_model(name: Option<&str>, on_disk: bool) -> (r: Result<(), String>)
    ensures
        match name {
            None => r matches Err(e) && e@ == "Unknown model"@,
            Some(n) => if on_disk {
                r is Ok
            } else {
                r matches Err(e) && e@ == "Model not downloaded: "@ + n@
            },
        },
{
    match name {
        None => Err("Unknown model".to_string()),
        Some(n) => {
            if on_disk {
                return Ok(());
            }
            let mut message = "Model not downloaded: ".to_string();
            message.push_str(n);
            Err(message)
        },
    }
}

/// What a change of the language asks of the speech model.
#[derive(Debug, Clone, Copy, PartialEq, Eq, Structural)]
pub enum LanguageSwitch {
    /// The model in use fits.
    Keep,
    /// Another model is needed, and it is to be loaded now if it is on disk.
    Switch { load: bool },
}

/// Plans a change of the language, given the speech model in use, the one that the
/// language needs, and whether that is known and on disk.
pub fn plan_switch(current: &str, target: &str, known: bool, on_disk: bool) -> (r: Result<
    LanguageSwitch,
    String,
>)
    ensures
        if target@ == current@ {
            r == Ok::<LanguageSwitch, String>(LanguageSwitch::Keep)
        } else if known {
            r == Ok::<LanguageSwitch, String>(LanguageSwitch::Switch { load: on_disk })
        } else {
            r matches Err(e) && e@ == "Unknown model"@
        },
{
    if same_text(target, current) {
        Ok(LanguageSwitch::Keep)
    } else if known {
        Ok(LanguageSwitch::Switch { load: on_disk })
    } else {
        Err("Unknown model".to_string())
    }
}

/// What each event leads to: the speech model is fetched if it is not on disk and loaded
/// once it is fetched; the cleanup model is fetched only if none was found and it is known;
/// and a download that fails ends the setup with a message that gives the reason.
pub proof fn law_setup_steps(event: SetupEvent, action: SetupAction)
    requires
        follows(event, action),
    ensures
        event matches SetupEvent::Started { whisper_on_disk } ==> if whisper_on_disk {
            action matches SetupAction::SearchCleanup { load_whisper } && !load_whisper
        } else {
            action is DownloadWhisper
        },
        event matches SetupEvent::WhisperDownloaded(Ok(_)) ==> (
        action matches SetupAction::SearchCleanup { load_whisper } && load_whisper),
        event matches SetupEvent::WhisperDownloaded(Err(e)) ==> (
        action matches SetupAction::Fail { message } && message@
            == "Failed to download speech model: "@ + e@),
        event matches SetupEvent::CleanupSearched { found, default_known } ==> (
        action is DownloadCleanup <==> !found && default_known) && (action is Complete <==> found
            || !default_known),
        event matches SetupEvent::CleanupDownloaded(Ok(_)) ==> action is Complete,
        event matches SetupEvent::CleanupDownloaded(Err(e)) ==> (
        action matches SetupAction::Fail { message } && message@
            == "Failed to download cleanup model: "@ + e@),
{
}

/// What is said: that a model is downloaded, before the download, and that it is ready,
/// after one that did not fail; nothing else.
pub proof fn law_setup_messages(event: SetupEvent, action: SetupAction)
    ensures
        action is DownloadWhisper ==> progress_text(action) == Some("Downloading speech model..."@),
        action is DownloadCleanup ==> progress_text(action) == Some(
            "Downloading cleanup model..."@,
        ),
        !(action is DownloadWhisper) && !(action is DownloadCleanup) ==> progress_text(
            action,
        ) is None,
        event matches SetupEvent::WhisperDownloaded(Ok(_)) ==> done_text(event) == Some(
            "Speech model ready"@,
        ),
        event matches SetupEvent::CleanupDownloaded(Ok(_)) ==> done_text(event) == Some(
            "Cleanup model ready"@,
        ),
        done_text(event) is Some ==> (event matches SetupEvent::WhisperDownloaded(Ok(_))
            || event matches SetupEvent::CleanupDownloaded(Ok(_))),
{
}

/// The percentage is the whole number of hundredths of the total that have come; it is
/// zero where the total is not known.
pub proof fn law_percent_is_whole_hundredths(downloaded: u64, total: u64)
    ensures
        total == 0 ==> percent(downloaded, total) == 0,
        total > 0 ==> percent(downloaded, total) * total <= downloaded * 100 < (percent(
            downloaded,
            total,
        ) + 1) * total,
{
    if total > 0 {
        let q = percent(downloaded, total);
        let t = total as int;
        let d = downloaded * 100;
        assert(q * t <= d < (q + 1) * t) by (nonlinear_arith)
            requires
                t > 0,
                q == d / t,
        ;
    }
}

/// The percentage never falls while more comes, and reaches a hundred when all has come.
pub proof fn law_percent_grows(earlier: u64, later: u64, total: u64)
    requires
        earlier <= later,
        total > 0,
    ensures
        percent(earlier, total) <= percent(later, total),
        percent(total, total) == 100,
{
    let t = total as int;
    let a = earlier * 100;
    let b = later * 100;
    assert(a / t <= b / t) by (nonlinear_arith)
        requires
            t > 0,
            a <= b,
    ;
    assert((t * 100) / t == 100) by (nonlinear_arith)
        requires
            t > 0,
    ;
}

/// The cleanup model that a setup fetches is the one that the settings ask for out of the
/// box, and the first that they would turn to: after the setup they need no other.
pub proof fn law_setup_fetches_the_default(
    settings: crate::settings::Settings,
    on_disk: Seq<String>,
)
    requires
        crate::settings::has_defaults(settings),
        crate::models::lists(on_disk, SETUP_CLEANUP_MODEL@),
    ensures
        SETUP_CLEANUP_MODEL@ == "qwen25-1.5b"@,
        crate::settings::replacement(settings.active_cleanup_model@, on_disk) is None,
        crate::models::substitute_model(on_disk) == Some(SETUP_CLEANUP_MODEL@),
        crate::models::worker_model(on_disk) is Some,
{
}

/// A model is loaded exactly if it is known and its file is there. One that is not known is
/// refused as such, whether or not there is a file; one without a file is named.
pub proof fn law_check_model(name: Option<&str>, on_disk: bool, r: Result<(), String>)
    requires
        call_ensures(check_model, (name, on_disk), r),
    ensures
        r is Ok <==> name is Some && on_disk,
        r matches Err(e) ==> e@ == match name {
            Some(n) => "Model not downloaded: "@ + n@,
            None => "Unknown model"@,
        },
{
}

/// A change of the language keeps the speech model exactly if the language needs the one in
/// use. Another one is turned to if it is known, and loaded exactly if it is there.
pub proof fn law_plan_switch(
    current: &str,
    target: &str,
    known: bool,
    on_disk: bool,
    r: Result<LanguageSwitch, String>,
)
    requires
        call_ensures(plan_switch, (current, target, known, on_disk), r),
    ensures
        r == Ok::<LanguageSwitch, String>(LanguageSwitch::Keep) <==> target@ == current@,
        r matches Ok(LanguageSwitch::Switch { load }) ==> target@ != current@ && known && load
            == on_disk,
        r matches Err(e) ==> target@ != current@ && !known && e@ == "Unknown model"@,
{
}

/// The setup has a cleanup model exactly if one of the four is on disk, and a speech model
/// exactly if it is; nothing is being downloaded when it is asked.
pub proof fn law_setup_status(whisper_on_disk: bool, on_disk: &Vec<String>, r: SetupStatus)
    requires
        call_ensures(check_setup, (whisper_on_disk, on_disk), r),
    ensures
        r.whisper_ready == whisper_on_disk,
        r.cleanup_ready <==> crate::models::lists(on_disk@, "gemma4-e2b"@) || crate::models::lists(
            on_disk@,
            "gemma4-e4b"@,
        ) || crate::models::lists(on_disk@, "qwen25-1.5b"@) || crate::models::lists(
            on_disk@,
            "qwen25-3b"@,
        ),
        !r.whisper_downloading && !r.cleanup_downloading,
{
}

} // verus!
