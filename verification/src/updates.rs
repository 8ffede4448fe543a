//! Checking for updates, offering them, and installing them.

use vstd::prelude::*;

verus! {

/// How many seconds after launch the first check in the background is made.
pub const FIRST_CHECK_SECONDS: u64 = 10;

/// How many seconds lie between two checks in the background: a day.
pub const CHECK_INTERVAL_SECONDS: u64 = 86400;

/// What the update dialog shows.
#[derive(Debug)]
pub enum UpdateState {
    Checking,
    UpToDate { current_version: String },
    Available {
        version: String,
        current_version: String,
        notes: Option<String>,
        date_unix: Option<i64>,
    },
    Downloading { version: String, downloaded: u64, total: Option<u64> },
    Installing { version: String },
    Error { message: String },
}

/// An update that can be installed.
#[derive(Debug)]
pub struct UpdateInfo {
    pub version: String,
    pub notes: Option<String>,
    pub date_unix: Option<i64>,
}

impl Clone for UpdateInfo {
    fn clone(&self) -> (r: Self)
        ensures
            r == *self,
    {
        UpdateInfo {
            version: self.version.clone(),
            notes: match &self.notes {
                Some(n) => Some(n.clone()),
                None => None,
            },
            date_unix: self.date_unix,
        }
    }
}

/// What a check came to.
#[derive(Debug)]
pub enum CheckOutcome {
    /// There is a newer version.
    Found(UpdateInfo),
    /// There is none.
    NothingNew,
    /// The check failed, for this reason.
    Failed(String),
}

/// What is to be done about a check that ended.
#[derive(Debug)]
pub struct CheckReport {
    /// What the update dialog is told.
    pub notice: Option<UpdateState>,
    /// Whether the tray has to show something else.
    pub refresh_tray: bool,
    /// What is written to the log.
    pub log: Option<String>,
}

/// The pending update after a check.
pub open spec fn pending_after(
    pending: Option<UpdateInfo>,
    outcome: CheckOutcome,
) -> Option<UpdateInfo> {
    match outcome {
        CheckOutcome::Found(info) => Some(info),
        CheckOutcome::NothingNew => None,
        CheckOutcome::Failed(_) => pending,
    }
}

/// What the dialog is told of an outcome.
pub open spec fn notice_of(outcome: CheckOutcome, current_version: String) -> UpdateState {
    match outcome {
        CheckOutcome::Found(info) => offer(info, current_version),
        CheckOutcome::NothingNew => UpdateState::UpToDate { current_version },
        CheckOutcome::Failed(message) => UpdateState::Error { message },
    }
}

/// What the dialog is told of an update that can be installed.
pub open spec fn offer(info: UpdateInfo, current_version: String) -> UpdateState {
    UpdateState::Available {
        version: info.version,
        current_version,
        notes: info.notes,
        date_unix: info.date_unix,
    }
}

/// The tray's menu entry for updates.
pub open spec fn label_of(pending: Option<UpdateInfo>) -> Seq<char> {
    match pending {
        Some(info) => "Install Zecho v"@ + info.version@,
        None => "Check for Updates…"@,
    }
}

/// The update that is pending, and whether a check is under way.
pub struct Updates {
    checking: bool,
    pending: Option<UpdateInfo>,
}

impl Updates {
    /// Whether a check is under way.
    pub closed spec fn checking(&self) -> bool {
        self.checking
    }

    /// The update that is pending.
    pub closed spec fn pending(&self) -> Option<UpdateInfo> {
        self.pending
    }

    /// Nothing pending, and no check under way.
    pub fn new() -> (r: Self)
        ensures
            !r.checking(),
            r.pending() is None,
    {
        Updates { checking: false, pending: None }
    }

    /// Begins a check, unless one is under way. Says whether it did.
    pub fn begin_check(&mut self) -> (begun: bool)
        ensures
            begun == !old(self).checking(),
            final(self).checking(),
            final(self).pending() == old(self).pending(),
    {
        let begun = !self.checking;
        self.checking = true;
        begun
    }

    /// Ends a check that could not be made.
    pub fn abandon_check(&mut self)
        ensures
            !final(self).checking(),
            final(self).pending() == old(self).pending(),
    {
        self.checking = false;
    }

    /// Ends a check with what it came to. The dialog is told if it asked for the
    /// check; a failure that nobody is told of goes to the log.
    pub fn end_check(
        &mut self,
        outcome: CheckOutcome,
        current_version: String,
        to_dialog: bool,
    ) -> (report: CheckReport)
        ensures
            !final(self).checking(),
            final(self).pending() == pending_after(old(self).pending(), outcome),
            report.notice == if to_dialog {
                Some(notice_of(outcome, current_version))
            } else {
                None
            },
            report.refresh_tray == !(outcome is Failed),
            match outcome {
                CheckOutcome::Failed(message) if !to_dialog => report.log matches Some(line)
                    && line@ == "Background update check failed: "@ + message@,
                _ => report.log is None,
            },
    {
        self.checking = false;
        match outcome {
            CheckOutcome::Found(info) => {
                let notice = if to_dialog {
                    Some(offer_update(&info, current_version))
                } else {
                    None
                };
                self.pending = Some(info);
                CheckReport { notice, refresh_tray: true, log: None }
            },
            CheckOutcome::NothingNew => {
                self.pending = None;
                let notice = if to_dialog {
                    Some(UpdateState::UpToDate { current_version })
                } else {
                    None
                };
                CheckReport { notice, refresh_tray: true, log: None }
            },
            CheckOutcome::Failed(message) => {
                if to_dialog {
                    return CheckReport {
                        notice: Some(UpdateState::Error { message }),
                        refresh_tray: false,
                        log: None,
                    };
                }
                let mut line = "Background update check failed: ".to_string();
                line.push_str(message.as_str());
                CheckReport { notice: None, refresh_tray: false, log: Some(line) }
            },
        }
    }

    /// What the dialog shows when it is opened: the update that is pending. None
    /// if there is none, so that a check is to be made.
    pub fn open_dialog(&self, current_version: String) -> (r: Option<UpdateState>)
        ensures
            match self.pending() {
                Some(info) => r == Some(offer(info, current_version)),
                None => r is None,
            },
    {
        match &self.pending {
            Some(info) => Some(offer_update(info, current_version)),
            None => None,
        }
    }

    /// Takes the pending update, to install it.
    pub fn take_pending(&mut self) -> (r: Result<UpdateInfo, String>)
        ensures
            final(self).pending() is None,
            final(self).checking() == old(self).checking(),
            match old(self).pending() {
                Some(info) => r == Ok::<UpdateInfo, String>(info),
                None => r matches Err(e) && e@ == "No pending update"@,
            },
    {
        match self.pending.take() {
            Some(info) => Ok(info),
            None => Err("No pending update".to_string()),
        }
    }

    /// The tray's menu entry for updates.
    pub fn tray_label(&self) -> (r: String)
        ensures
            r@ == label_of(self.pending()),
    {
        match &self.pending {
            Some(info) => {
                let mut label = "Install Zecho v".to_string();
                label.push_str(info.version.as_str());
                label
            },
            None => "Check for Updates…".to_string(),
        }
    }

    /// The title beside the tray icon: an arrow while an update is pending.
    pub fn tray_title(&self) -> (r: Option<&'static str>)
        ensures
            match r {
                Some(title) => self.pending() is Some && title@ == "↑"@,
                None => self.pending() is None,
            },
    {
        match &self.pending {
            Some(_) => Some("↑"),
            None => None,
        }
    }
}

fn offer_update(info: &UpdateInfo, current_version: String) -> (r: UpdateState)
    ensures
        r == offer(*info, current_version),
{
    let info = info.clone();
    UpdateState::Available {
        version: info.version,
        current_version,
        notes: info.notes,
        date_unix: info.date_unix,
    }
}

/// What the dialog is told when it asked for a check that begins.
pub fn checking_notice(to_dialog: bool) -> (r: Option<UpdateState>)
    ensures
        r == if to_dialog {
            Some(UpdateState::Checking)
        } else {
            None
        },
{
    if to_dialog {
        Some(UpdateState::Checking)
    } else {
        None
    }
}

/// An update that is being downloaded.
pub struct Download {
    version: String,
    downloaded: u64,
}

impl Download {
    /// The version that is downloaded.
    pub closed spec fn version(&self) -> String {
        self.version
    }

    /// How many bytes have come.
    pub closed spec fn downloaded(&self) -> int {
        self.downloaded as int
    }

    /// The download of a version, and what the dialog is told of it.
    pub fn start(version: String) -> (r: (Self, UpdateState))
        ensures
            r.0.version() == version,
            r.0.downloaded() == 0,
            r.1 == (UpdateState::Downloading { version, downloaded: 0, total: None }),
    {
        let notice = UpdateState::Downloading {
            version: version.clone(),
            downloaded: 0,
            total: None,
        };
        (Download { version, downloaded: 0 }, notice)
    }

    /// Whether the count of bytes has room for a chunk of `chunk` bytes.
    pub fn has_room_for(&self, chunk: usize) -> (r: bool)
        ensures
            r == (self.downloaded() + chunk <= u64::MAX),
    {
        chunk as u64 <= u64::MAX - self.downloaded
    }

    /// Counts a chunk in, and says what the dialog is told.
    pub fn add_chunk(&mut self, chunk: usize, total: Option<u64>) -> (r: UpdateState)
        requires
            old(self).downloaded() + chunk <= u64::MAX,
        ensures
            final(self).version() == old(self).version(),
            final(self).downloaded() == old(self).downloaded() + chunk,
            r matches UpdateState::Downloading { version: v, downloaded: d, total: t } && {
                &&& v == old(self).version()
                &&& d == old(self).downloaded() + chunk
                &&& t == total
            },
    {
        self.downloaded = self.downloaded + chunk as u64;
        UpdateState::Downloading {
            version: self.version.clone(),
            downloaded: self.downloaded,
            total,
        }
    }

    /// What the dialog is told when the download is complete.
    pub fn installing(&self) -> (r: UpdateState)
        ensures
            r == (UpdateState::Installing { version: self.version() }),
    {
        UpdateState::Installing { version: self.version.clone() }
    }
}

/// The tray offers to install exactly if an update is pending, and a check that
/// fails takes nothing back.
pub proof fn law_tray_follows_checks(pending: Option<UpdateInfo>, outcome: CheckOutcome)
    ensures
        match outcome {
            CheckOutcome::Found(info) => label_of(pending_after(pending, outcome))
                == "Install Zecho v"@ + info.version@,
            CheckOutcome::NothingNew => label_of(pending_after(pending, outcome))
                == "Check for Updates…"@,
            CheckOutcome::Failed(_) => label_of(pending_after(pending, outcome)) == label_of(
                pending,
            ),
        },
{
}

/// What is offered again when the dialog is opened later is what was offered when
/// the update was found.
pub proof fn law_offer_is_kept(
    pending: Option<UpdateInfo>,
    outcome: CheckOutcome,
    current_version: String,
)
    requires
        outcome is Found,
    ensures
        pending_after(pending, outcome) is Some,
        offer(pending_after(pending, outcome)->0, current_version) == notice_of(
            outcome,
            current_version,
        ),
{
}

/// A check that finds an update makes it the pending one, one that finds none leaves none
/// pending, and one that fails leaves what was pending.
pub proof fn law_pending_follows_checks(
    pending: Option<UpdateInfo>,
    info: UpdateInfo,
    message: String,
)
    ensures
        pending_after(pending, CheckOutcome::Found(info)) == Some(info),
        pending_after(pending, CheckOutcome::NothingNew) is None,
        pending_after(pending, CheckOutcome::Failed(message)) == pending,
{
}

/// What the dialog is told of a check: the update with its own version, notes and date
/// beside the version in use; or that the version in use is the newest; or why the check
/// failed.
pub proof fn law_dialog_is_told(info: UpdateInfo, message: String, current: String)
    ensures
        notice_of(CheckOutcome::Found(info), current) matches UpdateState::Available {
            version,
            current_version,
            notes,
            date_unix,
        } && version == info.version && current_version == current && notes == info.notes
            && date_unix == info.date_unix,
        notice_of(CheckOutcome::NothingNew, current) matches UpdateState::UpToDate {
            current_version,
        } && current_version == current,
        notice_of(CheckOutcome::Failed(message), current) matches UpdateState::Error {
            message: told,
        } && told == message,
        offer(info, current) == notice_of(CheckOutcome::Found(info), current),
{
}

/// The tray names the version that it would install, so that two updates are told apart
/// by their versions; without one it offers to look.
pub proof fn law_tray_names_the_version(one: UpdateInfo, other: UpdateInfo)
    ensures
        label_of(Some(one)) == "Install Zecho v"@ + one.version@,
        label_of(None) == "Check for Updates…"@,
        label_of(Some(one)) == label_of(Some(other)) ==> one.version@ == other.version@,
{
    let head = "Install Zecho v"@;
    let n = head.len() as int;
    if label_of(Some(one)) == label_of(Some(other)) {
        assert((head + one.version@).skip(n) == one.version@);
        assert((head + other.version@).skip(n) == other.version@);
    }
}

/// The first check in the background is made ten seconds after launch, and each further one
/// a day after the one before.
pub proof fn law_check_times(n: nat)
    ensures
        FIRST_CHECK_SECONDS + n * CHECK_INTERVAL_SECONDS == 10 + n * (24 * 60 * 60),
{
}

/// The dialog is told that a check begins exactly if it asked for it, and shows the update
/// that is pending, if there is one, when it is opened.
pub proof fn law_dialog_opens(
    to_dialog: bool,
    begins: Option<UpdateState>,
    updates: &Updates,
    current: String,
    shown: Option<UpdateState>,
)
    requires
        call_ensures(checking_notice, (to_dialog,), begins),
        call_ensures(Updates::open_dialog, (updates, current), shown),
    ensures
        begins is Some <==> to_dialog,
        begins matches Some(notice) ==> notice is Checking,
        shown is Some <==> updates.pending() is Some,
        updates.pending() matches Some(info) ==> (shown matches Some(
            UpdateState::Available { version, current_version, notes, date_unix },
        ) && version == info.version && current_version == current && notes == info.notes
            && date_unix == info.date_unix),
{
}

/// The arrow beside the tray icon and the entry that offers to install are there together,
/// exactly while an update is pending.
pub proof fn law_arrow_and_offer(updates: &Updates, title: Option<&'static str>, label: String)
    requires
        call_ensures(Updates::tray_title, (updates,), title),
        call_ensures(Updates::tray_label, (updates,), label),
    ensures
        title is Some <==> updates.pending() is Some,
        title matches Some(arrow) ==> arrow@ == "↑"@,
        updates.pending() matches Some(info) ==> label@ == "Install Zecho v"@ + info.version@,
        updates.pending() is None ==> label@ == "Check for Updates…"@,
{
}

} // verus!
