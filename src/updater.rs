use vstd::prelude::*;

use crate::channel::{
    is_newer, is_newer_spec, release_request_url, release_request_url_spec, ReleaseChannel,
};
use crate::status::AutoUpdateStatus;
use crate::version::SemanticVersion;

verus! {

/// What the release server announces: the latest version and where its artifact lies.
#[derive(Clone, Debug)]
pub struct ReleaseDescriptor {
    pub version: String,
    pub url: String,
}

/// Why an update cycle failed; the text is the diagnostic output of the failed step.
#[derive(Clone, Debug)]
pub enum UpdateError {
    Fetch(String),
    Parse(String),
    VersionParse,
    Download(String),
    Mount(String),
    InstallCopy(String),
    Unmount(String),
}

/// The step of an update cycle that is under way.
#[derive(Clone, Copy, PartialEq, Eq, Structural, Debug)]
pub enum CyclePhase {
    Fetching,
    Downloading,
    Mounting,
    Copying,
    Unmounting,
}

impl CyclePhase {
    pub open spec fn status_spec(self) -> AutoUpdateStatus {
        match self {
            CyclePhase::Fetching => AutoUpdateStatus::Checking,
            CyclePhase::Downloading => AutoUpdateStatus::Downloading,
            _ => AutoUpdateStatus::Installing,
        }
    }

    pub fn status(&self) -> (r: AutoUpdateStatus)
        ensures
            r == self.status_spec(),
    {
        match self {
            CyclePhase::Fetching => AutoUpdateStatus::Checking,
            CyclePhase::Downloading => AutoUpdateStatus::Downloading,
            _ => AutoUpdateStatus::Installing,
        }
    }
}

/// Outside work that the host performs for an update cycle, reporting back a `CycleEvent`.
#[derive(Clone, Debug)]
pub enum UpdateCommand {
    /// Fetch and read the release descriptor at this address.
    FetchRelease { url: String },
    /// Create the scratch directory and download the artifact at this address into it.
    Download { url: String },
    /// Mount the downloaded artifact inside the scratch directory.
    Mount,
    /// Mirror the mounted application over the installed one.
    CopyApp,
    /// Unmount the artifact. A failed unmount ends the cycle in error, though the copy
    /// before it succeeded: `Updated` is reached only through a clean unmount.
    Unmount,
}

/// What the host reports once it has performed a command.
#[derive(Clone, Debug)]
pub enum CycleEvent {
    ReleaseFetched(ReleaseDescriptor),
    Downloaded,
    Mounted,
    AppCopied,
    Unmounted,
    Failed(UpdateError),
}

/// What the host is to do after an event.
#[derive(Clone, Debug)]
pub struct CycleStep {
    /// The next piece of outside work of the cycle, if it goes on.
    pub command: Option<UpdateCommand>,
    /// Remove the scratch directory (where it exists): the cycle ended after it was asked for.
    pub remove_scratch: bool,
    /// Persist the flag that the user should be told of the update.
    pub write_notification_flag: bool,
    /// The error that ended the cycle, to be logged.
    pub error: Option<UpdateError>,
}

/// The abstract state of an updater.
pub struct UpdaterModel {
    /// The status shown while no cycle runs.
    pub resting: AutoUpdateStatus,
    /// The step of the cycle in flight, if one is.
    pub phase: Option<CyclePhase>,
    pub current_version: SemanticVersion,
    pub channel: ReleaseChannel,
    pub current_commit: Option<Seq<char>>,
    pub server_url: Seq<char>,
    pub client_token: Seq<char>,
}

impl UpdaterModel {
    pub open spec fn status(self) -> AutoUpdateStatus {
        match self.phase {
            Some(p) => p.status_spec(),
            None => self.resting,
        }
    }

    /// Whether `poll` starts a cycle: none is in flight and no update has been installed.
    pub open spec fn poll_starts(self) -> bool {
        self.phase is None && self.resting != AutoUpdateStatus::Updated
    }

    pub open spec fn after_poll(self) -> UpdaterModel {
        if self.poll_starts() {
            UpdaterModel { phase: Some(CyclePhase::Fetching), ..self }
        } else {
            self
        }
    }

    pub open spec fn after_dismiss(self) -> UpdaterModel {
        if self.status() == AutoUpdateStatus::Errored {
            UpdaterModel { resting: AutoUpdateStatus::Idle, ..self }
        } else {
            self
        }
    }

    pub open spec fn ended(self, status: AutoUpdateStatus) -> UpdaterModel {
        UpdaterModel { resting: status, phase: None, ..self }
    }

    pub open spec fn moved_to(self, p: CyclePhase) -> UpdaterModel {
        UpdaterModel { phase: Some(p), ..self }
    }

    /// The verdict on a fetched release: newer, not newer, or unreadable.
    pub open spec fn decision(self, d: ReleaseDescriptor) -> Option<bool> {
        is_newer_spec(self.channel, self.current_version, self.current_commit, d.version@)
    }

    /// The state after an event; an event that does not answer the step in flight changes
    /// nothing.
    pub open spec fn after_event(self, e: CycleEvent) -> UpdaterModel {
        match (self.phase, e) {
            (Some(CyclePhase::Fetching), CycleEvent::ReleaseFetched(d)) => match self.decision(d) {
                Some(true) => self.moved_to(CyclePhase::Downloading),
                Some(false) => self.ended(AutoUpdateStatus::Idle),
                None => self.ended(AutoUpdateStatus::Errored),
            },
            (Some(CyclePhase::Downloading), CycleEvent::Downloaded) => self.moved_to(
                CyclePhase::Mounting,
            ),
            (Some(CyclePhase::Mounting), CycleEvent::Mounted) => self.moved_to(
                CyclePhase::Copying,
            ),
            (Some(CyclePhase::Copying), CycleEvent::AppCopied) => self.moved_to(
                CyclePhase::Unmounting,
            ),
            (Some(CyclePhase::Unmounting), CycleEvent::Unmounted) => self.ended(
                AutoUpdateStatus::Updated,
            ),
            (Some(_), CycleEvent::Failed(_)) => self.ended(AutoUpdateStatus::Errored),
            _ => self,
        }
    }

    /// The next command after an event.
    pub open spec fn command_after(self, e: CycleEvent) -> Option<UpdateCommand> {
        match (self.phase, e) {
            (Some(CyclePhase::Fetching), CycleEvent::ReleaseFetched(d)) => if self.decision(d)
                == Some(true) {
                Some(UpdateCommand::Download { url: d.url })
            } else {
                None
            },
            (Some(CyclePhase::Downloading), CycleEvent::Downloaded) => Some(UpdateCommand::Mount),
            (Some(CyclePhase::Mounting), CycleEvent::Mounted) => Some(UpdateCommand::CopyApp),
            (Some(CyclePhase::Copying), CycleEvent::AppCopied) => Some(UpdateCommand::Unmount),
            _ => None,
        }
    }

    /// The scratch directory goes once a cycle that asked for it ends, whichever way.
    pub open spec fn removes_scratch(self, e: CycleEvent) -> bool {
        match (self.phase, e) {
            (Some(CyclePhase::Unmounting), CycleEvent::Unmounted) => true,
            (Some(p), CycleEvent::Failed(_)) => p != CyclePhase::Fetching,
            _ => false,
        }
    }

    /// Only a completed installation sets the notification flag.
    pub open spec fn writes_flag(self, e: CycleEvent) -> bool {
        self.phase == Some(CyclePhase::Unmounting) && e is Unmounted
    }

    /// The error that an event ends the cycle with.
    pub open spec fn error_after(self, e: CycleEvent) -> Option<UpdateError> {
        match (self.phase, e) {
            (Some(CyclePhase::Fetching), CycleEvent::ReleaseFetched(d)) => if self.decision(d)
                is None {
                Some(UpdateError::VersionParse)
            } else {
                None
            },
            (Some(_), CycleEvent::Failed(err)) => Some(err),
            _ => None,
        }
    }
}

/// Drives update cycles: at most one in flight, each a sequence of commands for the host.
pub struct AutoUpdater {
    resting: AutoUpdateStatus,
    phase: Option<CyclePhase>,
    current_version: SemanticVersion,
    channel: ReleaseChannel,
    current_commit: Option<String>,
    server_url: String,
    client_token: String,
}

pub open spec fn opt_view(o: Option<String>) -> Option<Seq<char>> {
    match o {
        Some(s) => Some(s@),
        None => None,
    }
}

impl View for AutoUpdater {
    type V = UpdaterModel;

    closed spec fn view(&self) -> UpdaterModel {
        UpdaterModel {
            resting: self.resting,
            phase: self.phase,
            current_version: self.current_version,
            channel: self.channel,
            current_commit: opt_view(self.current_commit),
            server_url: self.server_url@,
            client_token: self.client_token@,
        }
    }
}

impl AutoUpdater {
    #[verifier::type_invariant]
    spec fn resting_is_final(self) -> bool {
        self.resting.is_resting()
    }

    /// An idle updater for the running build.
    pub fn new(
        current_version: SemanticVersion,
        channel: ReleaseChannel,
        current_commit: Option<String>,
        server_url: String,
        client_token: String,
    ) -> (r: AutoUpdater)
        ensures
            r@ == (UpdaterModel {
                resting: AutoUpdateStatus::Idle,
                phase: None,
                current_version,
                channel,
                current_commit: opt_view(current_commit),
                server_url: server_url@,
                client_token: client_token@,
            }),
    {
        AutoUpdater {
            resting: AutoUpdateStatus::Idle,
            phase: None,
            current_version,
            channel,
            current_commit,
            server_url,
            client_token,
        }
    }

    pub fn status(&self) -> (r: AutoUpdateStatus)
        ensures
            r == self@.status(),
    {
        match self.phase {
            Some(p) => p.status(),
            None => self.resting,
        }
    }

    pub fn current_version(&self) -> (r: SemanticVersion)
        ensures
            r == self@.current_version,
    {
        self.current_version
    }

    pub fn channel(&self) -> (r: ReleaseChannel)
        ensures
            r == self@.channel,
    {
        self.channel
    }

    pub fn server_url(&self) -> (r: &String)
        ensures
            r@ == self@.server_url,
    {
        &self.server_url
    }

    /// Whether an update cycle is in flight.
    pub fn is_polling(&self) -> (r: bool)
        ensures
            r == self@.phase is Some,
    {
        self.phase.is_some()
    }

    /// Starts an update cycle unless one is in flight or an update is already installed;
    /// returns the fetch of the release descriptor that begins it.
    pub fn poll(&mut self) -> (r: Option<UpdateCommand>)
        ensures
            final(self)@ == old(self)@.after_poll(),
            match r {
                Some(UpdateCommand::FetchRelease { url }) => old(self)@.poll_starts() && url@
                    == release_request_url_spec(
                    old(self)@.server_url,
                    old(self)@.client_token,
                    old(self)@.channel,
                ),
                Some(_) => false,
                None => !old(self)@.poll_starts(),
            },
    {
        proof {
            use_type_invariant(&*self);
        }
        if self.phase.is_some() || self.resting == AutoUpdateStatus::Updated {
            return None;
        }
        self.phase = Some(CyclePhase::Fetching);
        let url = release_request_url(self.server_url.as_str(), self.client_token.as_str(), self.channel);
        Some(UpdateCommand::FetchRelease { url })
    }

    /// Clears an error; does nothing in any other status.
    pub fn dismiss_error(&mut self)
        ensures
            final(self)@ == old(self)@.after_dismiss(),
    {
        proof {
            use_type_invariant(&*self);
        }
        if self.phase.is_none() && self.resting == AutoUpdateStatus::Errored {
            self.resting = AutoUpdateStatus::Idle;
        }
    }

    fn end_cycle(&mut self, status: AutoUpdateStatus)
        requires
            status.is_resting(),
        ensures
            final(self)@ == old(self)@.ended(status),
    {
        proof {
            use_type_invariant(&*self);
        }
        self.resting = status;
        self.phase = None;
    }

    /// Takes in what the host reports on the command in flight and says what comes next.
    pub fn handle_event(&mut self, event: CycleEvent) -> (r: CycleStep)
        ensures
            final(self)@ == old(self)@.after_event(event),
            r.command == old(self)@.command_after(event),
            r.remove_scratch == old(self)@.removes_scratch(event),
            r.write_notification_flag == old(self)@.writes_flag(event),
            r.error == old(self)@.error_after(event),
    {
        proof {
            use_type_invariant(&*self);
        }
        let quiet = CycleStep {
            command: None,
            remove_scratch: false,
            write_notification_flag: false,
            error: None,
        };
        match (self.phase, event) {
            (Some(CyclePhase::Fetching), CycleEvent::ReleaseFetched(d)) => {
                match is_newer(self.channel, self.current_version, &self.current_commit, &d.version) {
                    Ok(true) => {
                        self.phase = Some(CyclePhase::Downloading);
                        CycleStep { command: Some(UpdateCommand::Download { url: d.url }), ..quiet }
                    },
                    Ok(false) => {
                        self.end_cycle(AutoUpdateStatus::Idle);
                        quiet
                    },
                    Err(_) => {
                        self.end_cycle(AutoUpdateStatus::Errored);
                        CycleStep { error: Some(UpdateError::VersionParse), ..quiet }
                    },
                }
            },
            (Some(CyclePhase::Downloading), CycleEvent::Downloaded) => {
                self.phase = Some(CyclePhase::Mounting);
                CycleStep { command: Some(UpdateCommand::Mount), ..quiet }
            },
            (Some(CyclePhase::Mounting), CycleEvent::Mounted) => {
                self.phase = Some(CyclePhase::Copying);
                CycleStep { command: Some(UpdateCommand::CopyApp), ..quiet }
            },
            (Some(CyclePhase::Copying), CycleEvent::AppCopied) => {
                self.phase = Some(CyclePhase::Unmounting);
                CycleStep { command: Some(UpdateCommand::Unmount), ..quiet }
            },
            (Some(CyclePhase::Unmounting), CycleEvent::Unmounted) => {
                self.end_cycle(AutoUpdateStatus::Updated);
                CycleStep { remove_scratch: true, write_notification_flag: true, ..quiet }
            },
            (Some(p), CycleEvent::Failed(err)) => {
                self.end_cycle(AutoUpdateStatus::Errored);
                CycleStep {
                    remove_scratch: p != CyclePhase::Fetching,
                    error: Some(err),
                    ..quiet
                }
            },
            _ => quiet,
        }
    }
}

} // verus!
