//! Provisioning: download, verify and place the rclone binary.
//!
//! A [`ProvisionRun`] takes the decisions. It hands out one action at a time; whoever
//! performs the actions on disk and network tells it what came of each.
use vstd::pervasive::unreached;
use vstd::prelude::*;
use vstd::string::*;

use crate::archive::extract_binary;
use crate::config::{binary_file_name, EngineConfig, ManagedFile};
use crate::digest::{compare_checksum, sha256_of};
use crate::error::{labelled, Error};
use crate::state::EngineState;

verus! {

/// The contents of the version marker.
#[derive(Debug)]
pub struct VersionJson {
    pub rclone_version: String,
    pub sha256: String,
}

/// A [`VersionJson`] with its texts as character sequences.
pub struct VersionView {
    pub rclone_version: Seq<char>,
    pub sha256: Seq<char>,
}

impl View for VersionJson {
    type V = VersionView;

    open spec fn view(&self) -> VersionView {
        VersionView { rclone_version: self.rclone_version@, sha256: self.sha256@ }
    }
}

/// What was found on disk where the installation should be.
#[derive(Debug)]
pub struct InstallProbe {
    /// The binary exists.
    pub binary_exists: bool,
    /// The version marker, where it exists and can be read.
    pub marker: Option<VersionJson>,
}

/// An [`InstallProbe`] with its texts as character sequences.
pub struct ProbeView {
    pub binary_exists: bool,
    pub marker: Option<VersionView>,
}

impl View for InstallProbe {
    type V = ProbeView;

    open spec fn view(&self) -> ProbeView {
        ProbeView {
            binary_exists: self.binary_exists,
            marker: match self.marker {
                Some(v) => Some(v@),
                None => None,
            },
        }
    }
}

/// The binary exists and the marker names the configured version.
pub open spec fn installed(cfg: EngineConfig, probe: ProbeView) -> bool {
    probe.binary_exists && (probe.marker matches Some(v) && v.rclone_version
        == cfg.rclone_version@)
}

/// Returns `true` if the binary exists and matches the configured version.
pub fn is_installed(cfg: &EngineConfig, probe: &InstallProbe) -> (yes: bool)
    ensures
        yes == installed(*cfg, probe@),
        yes == (probe.binary_exists && (probe.marker matches Some(v) && v.rclone_version@
            == cfg.rclone_version@)),
{
    if !probe.binary_exists {
        return false;
    }
    match &probe.marker {
        Some(v) => v.rclone_version == cfg.rclone_version,
        None => false,
    }
}

/// Where a run stands: which action it waits for.
#[derive(Debug, Clone, Copy, PartialEq, Eq, Structural)]
pub enum ProvisionStep {
    /// The directory of the binary is being created.
    Prepare,
    /// The installation is being looked at.
    Probe,
    /// The archive is being downloaded.
    Fetch,
    /// The archive is being read.
    Load,
    /// The binary is being written beside its place.
    Stage,
    /// The binary is being made executable.
    Permit,
    /// The binary is being moved to its place.
    Place,
    /// The archive is being removed.
    Discard,
    /// The version marker is being written.
    Mark,
    /// What a failed run has left is being removed.
    CleanUp,
    /// The run is over.
    Finished,
}

/// At which point the binary could not be written.
#[derive(Debug, Clone, Copy, PartialEq, Eq, Structural)]
pub enum WriteFault {
    /// Its directory could not be created.
    Mkdir,
    /// The file could not be created.
    Create,
    /// The file could not be filled.
    Fill,
}

/// What came of an action.
#[derive(Debug)]
pub enum ProvisionEvent {
    /// It is done. Also the answer to a removal, whatever came of it.
    Done,
    /// It failed.
    Failed(Error),
    /// The installation was looked at.
    Probed(InstallProbe),
    /// More of the archive was downloaded and written.
    Chunk { len: u64, total: Option<u64> },
    /// The archive was read.
    Loaded(Vec<u8>),
    /// The archive could not be read.
    Unreadable(String),
    /// The binary could not be written or moved.
    NotWritten { fault: WriteFault, reason: String },
}

/// What to do next.
#[derive(Debug)]
pub enum ProvisionAction {
    /// Create [`ManagedFile::BinDir`] and its parents.
    MakeBinDir,
    /// Look for [`ManagedFile::Binary`] and [`ManagedFile::Marker`].
    ProbeInstall,
    /// Download `url` to [`ManagedFile::Part`], and report each chunk.
    Download { url: String },
    /// Go on with the download.
    AwaitChunk,
    /// Read [`ManagedFile::Part`].
    ReadPart,
    /// Write these bytes to [`ManagedFile::Staged`], in its directory.
    WriteStaged(Vec<u8>),
    /// Make [`ManagedFile::Staged`] executable, where the platform asks for it.
    MakeExecutable,
    /// Rename [`ManagedFile::Staged`] to [`ManagedFile::Binary`].
    Rename,
    /// Remove these files, as far as they exist.
    Remove(Vec<ManagedFile>),
    /// Write this marker to [`ManagedFile::Marker`].
    WriteMarker(VersionJson),
    /// The run is over.
    Finish(Result<(), Error>),
}

/// An action, and the state to report before it is performed.
#[derive(Debug)]
pub struct ProvisionTurn {
    pub action: ProvisionAction,
    pub progress: Option<EngineState>,
}

/// A run of provisioning.
#[derive(Debug)]
pub struct ProvisionRun {
    cfg: EngineConfig,
    windows: bool,
    step: ProvisionStep,
    downloaded: u64,
    placed: bool,
    failure: Option<Error>,
}

/// What is known of a run.
pub struct RunView {
    /// The configuration that the run works to.
    pub cfg: EngineConfig,
    /// The binary is named as on Windows.
    pub windows: bool,
    /// Where the run stands.
    pub step: ProvisionStep,
    /// How many bytes of the archive are downloaded.
    pub downloaded: u64,
    /// The binary is in its place.
    pub placed: bool,
    /// Why the run failed, while it cleans up.
    pub failure: Option<crate::error::ErrorView>,
}

/// A [`ProvisionEvent`] with its texts as character sequences.
pub enum EventView {
    Done,
    Failed(crate::error::ErrorView),
    Probed(ProbeView),
    Chunk { len: u64, total: Option<u64> },
    Loaded(Seq<u8>),
    Unreadable(Seq<char>),
    NotWritten { fault: WriteFault, reason: Seq<char> },
}

/// A [`ProvisionAction`] with its texts as character sequences.
pub enum ActionView {
    MakeBinDir,
    ProbeInstall,
    Download { url: Seq<char> },
    AwaitChunk,
    ReadPart,
    WriteStaged(Seq<u8>),
    MakeExecutable,
    Rename,
    Remove(Seq<ManagedFile>),
    WriteMarker(VersionView),
    Finish(Result<(), crate::error::ErrorView>),
}

/// A [`ProvisionTurn`] with its texts as character sequences.
pub struct TurnView {
    pub action: ActionView,
    pub progress: Option<crate::state::StateView>,
}

impl View for ProvisionEvent {
    type V = EventView;

    open spec fn view(&self) -> EventView {
        match self {
            ProvisionEvent::Done => EventView::Done,
            ProvisionEvent::Failed(e) => EventView::Failed(e@),
            ProvisionEvent::Probed(probe) => EventView::Probed(probe@),
            ProvisionEvent::Chunk { len, total } => EventView::Chunk { len: *len, total: *total },
            ProvisionEvent::Loaded(data) => EventView::Loaded(data@),
            ProvisionEvent::Unreadable(reason) => EventView::Unreadable(reason@),
            ProvisionEvent::NotWritten { fault, reason } => EventView::NotWritten {
                fault: *fault,
                reason: reason@,
            },
        }
    }
}

/// The view of the outcome of a run.
pub open spec fn outcome_view(outcome: Result<(), Error>) -> Result<(), crate::error::ErrorView> {
    match outcome {
        Ok(()) => Ok(()),
        Err(e) => Err(e@),
    }
}

impl View for ProvisionAction {
    type V = ActionView;

    open spec fn view(&self) -> ActionView {
        match self {
            ProvisionAction::MakeBinDir => ActionView::MakeBinDir,
            ProvisionAction::ProbeInstall => ActionView::ProbeInstall,
            ProvisionAction::Download { url } => ActionView::Download { url: url@ },
            ProvisionAction::AwaitChunk => ActionView::AwaitChunk,
            ProvisionAction::ReadPart => ActionView::ReadPart,
            ProvisionAction::WriteStaged(bytes) => ActionView::WriteStaged(bytes@),
            ProvisionAction::MakeExecutable => ActionView::MakeExecutable,
            ProvisionAction::Rename => ActionView::Rename,
            ProvisionAction::Remove(files) => ActionView::Remove(files@),
            ProvisionAction::WriteMarker(marker) => ActionView::WriteMarker(marker@),
            ProvisionAction::Finish(outcome) => ActionView::Finish(outcome_view(*outcome)),
        }
    }
}

impl View for ProvisionTurn {
    type V = TurnView;

    open spec fn view(&self) -> TurnView {
        TurnView {
            action: self.action@,
            progress: match self.progress {
                Some(s) => Some(s@),
                None => None,
            },
        }
    }
}

impl View for ProvisionRun {
    type V = RunView;

    closed spec fn view(&self) -> RunView {
        RunView {
            cfg: self.cfg,
            windows: self.windows,
            step: self.step,
            downloaded: self.downloaded,
            placed: self.placed,
            failure: match self.failure {
                Some(e) => Some(e@),
                None => None,
            },
        }
    }
}

/// A run that has been asked for and not been told anything yet.
pub open spec fn fresh_run(cfg: EngineConfig, windows: bool) -> RunView {
    RunView {
        cfg,
        windows,
        step: ProvisionStep::Prepare,
        downloaded: 0,
        placed: false,
        failure: None,
    }
}

/// The event is an answer to the action that the run waits for.
pub open spec fn expects(run: RunView, event: EventView) -> bool {
    match run.step {
        ProvisionStep::Prepare | ProvisionStep::Permit | ProvisionStep::Mark => event is Done
            || event is Failed,
        ProvisionStep::Probe => event is Probed,
        ProvisionStep::Fetch => event is Done || event is Failed || (event matches EventView::Chunk {
            len,
            total,
        } && run.downloaded + len <= u64::MAX),
        ProvisionStep::Load => event is Loaded || event is Unreadable,
        ProvisionStep::Stage | ProvisionStep::Place => event is Done || event is NotWritten,
        ProvisionStep::Discard => event is Done,
        ProvisionStep::CleanUp => event is Done && run.failure is Some,
        ProvisionStep::Finished => false,
    }
}

/// An action without progress to report.
pub open spec fn silently(action: ActionView) -> TurnView {
    TurnView { action, progress: None }
}

/// The run goes on to `step`, with `action`.
pub open spec fn goes_on(run: RunView, step: ProvisionStep, action: ActionView) -> (
    RunView,
    TurnView,
) {
    (RunView { step, ..run }, silently(action))
}

/// The run is over, with `outcome`.
pub open spec fn finishes(run: RunView, outcome: Result<(), crate::error::ErrorView>) -> (
    RunView,
    TurnView,
) {
    goes_on(run, ProvisionStep::Finished, ActionView::Finish(outcome))
}

/// The files that a failed run removes.
pub open spec fn leftovers(placed: bool) -> Seq<ManagedFile> {
    if placed {
        seq![ManagedFile::Part, ManagedFile::Staged, ManagedFile::Binary, ManagedFile::Marker]
    } else {
        seq![ManagedFile::Part, ManagedFile::Staged]
    }
}

/// The run has failed and removes what it has left.
pub open spec fn gives_up(run: RunView, error: crate::error::ErrorView) -> (RunView, TurnView) {
    goes_on(
        RunView { failure: Some(error), ..run },
        ProvisionStep::CleanUp,
        ActionView::Remove(leftovers(run.placed)),
    )
}

/// The error for a binary that could not be written.
pub open spec fn write_error(fault: WriteFault, reason: Seq<char>) -> crate::error::ErrorView {
    crate::error::ErrorView::Provision(
        (match fault {
            WriteFault::Mkdir => "mkdir: "@,
            WriteFault::Create => "create binary: "@,
            WriteFault::Fill => "extract binary: "@,
        }) + reason,
    )
}

/// The error for an archive that could not be read. It is met in computing the
/// checksum, where one is pinned, and in opening the zip file otherwise.
pub open spec fn unreadable_error(cfg: EngineConfig, reason: Seq<char>) -> crate::error::ErrorView {
    if cfg.asset.sha256@.len() > 0 {
        crate::error::ErrorView::Io(reason)
    } else {
        crate::error::ErrorView::Provision("open zip: "@ + reason)
    }
}

/// The binary in the archive `data`, where its checksum is the pinned one.
pub open spec fn unpacked(cfg: EngineConfig, windows: bool, data: Seq<u8>) -> Result<
    Seq<u8>,
    crate::error::ErrorView,
> {
    match crate::digest::checksum_verdict(cfg.asset.sha256@, crate::digest::sha256_text(data)) {
        Err(e) => Err(e),
        Ok(()) => crate::archive::binary_in(data, crate::config::binary_name(windows)),
    }
}

/// What follows the unpacking of the archive.
pub open spec fn after_unpacking(
    run: RunView,
    binary: Result<Seq<u8>, crate::error::ErrorView>,
) -> (RunView, TurnView) {
    match binary {
        Ok(bytes) => goes_on(run, ProvisionStep::Stage, ActionView::WriteStaged(bytes)),
        Err(e) => gives_up(run, e),
    }
}

/// The marker of an installation by this configuration.
pub open spec fn marker_of(cfg: EngineConfig) -> VersionView {
    VersionView { rclone_version: cfg.rclone_version@, sha256: cfg.asset.sha256@ }
}

/// What follows an event that the run expects.
pub open spec fn after_event(run: RunView, event: EventView) -> (RunView, TurnView)
    recommends
        expects(run, event),
{
    match (run.step, event) {
        (ProvisionStep::Prepare, EventView::Failed(e)) => finishes(run, Err(e)),
        (ProvisionStep::Prepare, EventView::Done) => goes_on(run, ProvisionStep::Probe, ActionView::ProbeInstall),
        (ProvisionStep::Probe, EventView::Probed(probe)) => if installed(run.cfg, probe) {
            finishes(run, Ok(()))
        } else {
            goes_on(run, ProvisionStep::Fetch, ActionView::Download { url: run.cfg.asset.url@ })
        },
        (ProvisionStep::Fetch, EventView::Chunk { len, total }) => {
            let downloaded = (run.downloaded + len) as u64;
            (
                RunView { downloaded, ..run },
                TurnView {
                    action: ActionView::AwaitChunk,
                    progress: Some(crate::state::StateView::Downloading { downloaded, total }),
                },
            )
        },
        (ProvisionStep::Fetch, EventView::Done) => (
            RunView { step: ProvisionStep::Load, ..run },
            TurnView {
                action: ActionView::ReadPart,
                progress: if run.cfg.asset.sha256@.len() > 0 {
                    Some(crate::state::StateView::Installing)
                } else {
                    None
                },
            },
        ),
        (ProvisionStep::Load, EventView::Loaded(data)) => after_unpacking(
            run,
            unpacked(run.cfg, run.windows, data),
        ),
        (ProvisionStep::Load, EventView::Unreadable(reason)) => gives_up(
            run,
            unreadable_error(run.cfg, reason),
        ),
        (ProvisionStep::Stage, EventView::Done) => goes_on(
            run,
            ProvisionStep::Permit,
            ActionView::MakeExecutable,
        ),
        (ProvisionStep::Permit, EventView::Done) => goes_on(
            run,
            ProvisionStep::Place,
            ActionView::Rename,
        ),
        (ProvisionStep::Place, EventView::Done) => goes_on(
            RunView { placed: true, ..run },
            ProvisionStep::Discard,
            ActionView::Remove(seq![ManagedFile::Part]),
        ),
        (ProvisionStep::Discard, _) => goes_on(
            run,
            ProvisionStep::Mark,
            ActionView::WriteMarker(marker_of(run.cfg)),
        ),
        (ProvisionStep::Mark, EventView::Done) => finishes(run, Ok(())),
        (ProvisionStep::CleanUp, _) => finishes(
            RunView { failure: None, placed: false, ..run },
            Err(run.failure->0),
        ),
        (_, EventView::NotWritten { fault, reason }) => gives_up(run, write_error(fault, reason)),
        (_, EventView::Failed(e)) => gives_up(run, e),
        _ => arbitrary(),
    }
}

impl ProvisionRun {
    /// A run that provisions to `cfg`, and its first action.
    pub fn new(cfg: EngineConfig, windows: bool) -> (first: (Self, ProvisionTurn))
        ensures
            first.0@ == fresh_run(cfg, windows),
            first.1@ == silently(ActionView::MakeBinDir),
    {
        let run = ProvisionRun {
            cfg,
            windows,
            step: ProvisionStep::Prepare,
            downloaded: 0,
            placed: false,
            failure: None,
        };
        (run, ProvisionTurn { action: ProvisionAction::MakeBinDir, progress: None })
    }

    /// The configuration that the run works to.
    pub fn config(&self) -> (cfg: &EngineConfig)
        ensures
            *cfg == self@.cfg,
    {
        &self.cfg
    }

    /// Tells whether an event is an answer to the action that the run waits for.
    pub fn is_expecting(&self, event: &ProvisionEvent) -> (yes: bool)
        ensures
            yes == expects(self@, event@),
    {
        match (self.step, event) {
            (ProvisionStep::Prepare | ProvisionStep::Permit | ProvisionStep::Mark, ProvisionEvent::Done)
            | (ProvisionStep::Prepare | ProvisionStep::Permit | ProvisionStep::Mark, ProvisionEvent::Failed(_))
            | (ProvisionStep::Probe, ProvisionEvent::Probed(_))
            | (ProvisionStep::Fetch, ProvisionEvent::Done)
            | (ProvisionStep::Fetch, ProvisionEvent::Failed(_))
            | (ProvisionStep::Load, ProvisionEvent::Loaded(_))
            | (ProvisionStep::Load, ProvisionEvent::Unreadable(_))
            | (ProvisionStep::Stage | ProvisionStep::Place, ProvisionEvent::Done)
            | (ProvisionStep::Stage | ProvisionStep::Place, ProvisionEvent::NotWritten { .. })
            | (ProvisionStep::Discard, ProvisionEvent::Done) => true,
            (ProvisionStep::CleanUp, ProvisionEvent::Done) => self.failure.is_some(),
            (ProvisionStep::Fetch, ProvisionEvent::Chunk { len, total: _ }) => self.downloaded
                <= u64::MAX - *len,
            _ => false,
        }
    }

    /// Goes on to a step.
    fn go(&mut self, step: ProvisionStep, action: ProvisionAction) -> (turn: ProvisionTurn)
        ensures
            (final(self)@, turn@) == goes_on(old(self)@, step, action@),
    {
        self.step = step;
        ProvisionTurn { action, progress: None }
    }

    /// Ends the run.
    fn finish(&mut self, outcome: Result<(), Error>) -> (turn: ProvisionTurn)
        ensures
            (final(self)@, turn@) == finishes(old(self)@, outcome_view(outcome)),
    {
        self.go(ProvisionStep::Finished, ProvisionAction::Finish(outcome))
    }

    /// Gives the run up.
    fn give_up(&mut self, error: Error) -> (turn: ProvisionTurn)
        ensures
            (final(self)@, turn@) == gives_up(old(self)@, error@),
    {
        let mut files: Vec<ManagedFile> = Vec::new();
        files.push(ManagedFile::Part);
        files.push(ManagedFile::Staged);
        if self.placed {
            files.push(ManagedFile::Binary);
            files.push(ManagedFile::Marker);
        }
        assert(files@ =~= leftovers(self.placed));
        self.failure = Some(error);
        self.go(ProvisionStep::CleanUp, ProvisionAction::Remove(files))
    }

    /// Checks and unpacks the archive.
    fn unpack(&self, data: Vec<u8>) -> (binary: Result<Vec<u8>, Error>)
        ensures
            match binary {
                Ok(bytes) => unpacked(self@.cfg, self@.windows, data@) == Ok::<
                    Seq<u8>,
                    crate::error::ErrorView,
                >(bytes@),
                Err(e) => unpacked(self@.cfg, self@.windows, data@) == Err::<
                    Seq<u8>,
                    crate::error::ErrorView,
                >(e@),
            },
    {
        if !self.cfg.asset.sha256.as_str().is_empty() {
            let actual = sha256_of(data.as_slice());
            match compare_checksum(&self.cfg.asset.sha256, actual) {
                Ok(()) => {},
                Err(e) => return Err(e),
            }
        }
        extract_binary(data, binary_file_name(self.windows))
    }

    /// Goes on with what unpacking the archive gave.
    pub fn with_binary(&mut self, binary: Result<Vec<u8>, Error>) -> (turn: ProvisionTurn)
        ensures
            (final(self)@, turn@) == after_unpacking(
                old(self)@,
                match binary {
                    Ok(bytes) => Ok(bytes@),
                    Err(e) => Err(e@),
                },
            ),
    {
        match binary {
            Ok(bytes) => self.go(ProvisionStep::Stage, ProvisionAction::WriteStaged(bytes)),
            Err(e) => self.give_up(e),
        }
    }

    /// Takes in what came of the last action and decides what to do next.
    pub fn advance(&mut self, event: ProvisionEvent) -> (turn: ProvisionTurn)
        requires
            expects(old(self)@, event@),
        ensures
            (final(self)@, turn@) == after_event(old(self)@, event@),
    {
        match (self.step, event) {
            (ProvisionStep::Prepare, ProvisionEvent::Failed(e)) => self.finish(Err(e)),
            (ProvisionStep::Prepare, ProvisionEvent::Done) => self.go(
                ProvisionStep::Probe,
                ProvisionAction::ProbeInstall,
            ),
            (ProvisionStep::Probe, ProvisionEvent::Probed(probe)) => {
                if is_installed(&self.cfg, &probe) {
                    self.finish(Ok(()))
                } else {
                    let url = self.cfg.asset.url.clone();
                    self.go(ProvisionStep::Fetch, ProvisionAction::Download { url })
                }
            },
            (ProvisionStep::Fetch, ProvisionEvent::Chunk { len, total }) => {
                self.downloaded = self.downloaded + len;
                ProvisionTurn {
                    action: ProvisionAction::AwaitChunk,
                    progress: Some(
                        EngineState::Downloading { downloaded: self.downloaded, total },
                    ),
                }
            },
            (ProvisionStep::Fetch, ProvisionEvent::Done) => {
                self.step = ProvisionStep::Load;
                let progress = if self.cfg.asset.sha256.as_str().is_empty() {
                    None
                } else {
                    Some(EngineState::Installing)
                };
                ProvisionTurn { action: ProvisionAction::ReadPart, progress }
            },
            (ProvisionStep::Load, ProvisionEvent::Loaded(data)) => {
                let binary = self.unpack(data);
                self.with_binary(binary)
            },
            (ProvisionStep::Load, ProvisionEvent::Unreadable(reason)) => {
                if self.cfg.asset.sha256.as_str().is_empty() {
                    self.give_up(Error::Provision(labelled("open zip: ", reason.as_str())))
                } else {
                    self.give_up(Error::Io(reason))
                }
            },
            (ProvisionStep::Stage, ProvisionEvent::Done) => self.go(
                ProvisionStep::Permit,
                ProvisionAction::MakeExecutable,
            ),
            (ProvisionStep::Permit, ProvisionEvent::Done) => self.go(
                ProvisionStep::Place,
                ProvisionAction::Rename,
            ),
            (ProvisionStep::Place, ProvisionEvent::Done) => {
                self.placed = true;
                let mut files: Vec<ManagedFile> = Vec::new();
                files.push(ManagedFile::Part);
                assert(files@ =~= seq![ManagedFile::Part]);
                self.go(ProvisionStep::Discard, ProvisionAction::Remove(files))
            },
            (ProvisionStep::Discard, _) => {
                let marker = VersionJson {
                    rclone_version: self.cfg.rclone_version.clone(),
                    sha256: self.cfg.asset.sha256.clone(),
                };
                self.go(ProvisionStep::Mark, ProvisionAction::WriteMarker(marker))
            },
            (ProvisionStep::Mark, ProvisionEvent::Done) => self.finish(Ok(())),
            (ProvisionStep::CleanUp, _) => {
                self.placed = false;
                match self.failure.take() {
                    Some(e) => self.finish(Err(e)),
                    None => unreached(),
                }
            },
            (_, ProvisionEvent::NotWritten { fault, reason }) => {
                let label = match fault {
                    WriteFault::Mkdir => "mkdir: ",
                    WriteFault::Create => "create binary: ",
                    WriteFault::Fill => "extract binary: ",
                };
                self.give_up(Error::Provision(labelled(label, reason.as_str())))
            },
            (_, ProvisionEvent::Failed(e)) => self.give_up(e),
            _ => unreached(),
        }
    }
}

/// What holds of every run: it has an error to report just while it cleans up, nothing is
/// downloaded before it has looked at the installation, and the binary is in its place from
/// the rename on.
pub open spec fn is_consistent(run: RunView) -> bool {
    &&& run.step is CleanUp <==> run.failure is Some
    &&& run.step is Prepare || run.step is Probe ==> run.downloaded == 0
    &&& run.step is Discard || run.step is Mark ==> run.placed
    &&& run.placed ==> run.step is Discard || run.step is Mark || run.step is CleanUp || run.step is Finished
}

/// A run is consistent from the start, and stays so.
pub proof fn runs_stay_consistent(cfg: EngineConfig, windows: bool, run: RunView, event: EventView)
    ensures
        is_consistent(fresh_run(cfg, windows)),
        is_consistent(run) && expects(run, event) ==> is_consistent(after_event(run, event).0),
{
}

/// How many answers a run may still wait for, chunks not counted.
pub open spec fn answers_left(step: ProvisionStep) -> nat {
    match step {
        ProvisionStep::Prepare => 10,
        ProvisionStep::Probe => 9,
        ProvisionStep::Fetch => 8,
        ProvisionStep::Load => 7,
        ProvisionStep::Stage => 6,
        ProvisionStep::Permit => 5,
        ProvisionStep::Place => 4,
        ProvisionStep::Discard => 3,
        ProvisionStep::Mark => 2,
        ProvisionStep::CleanUp => 1,
        ProvisionStep::Finished => 0,
    }
}

/// A run comes to its end: every answer but a chunk brings it nearer, a chunk only counts
/// as downloaded, and the run hands out its outcome just when it is finished.
pub proof fn runs_come_to_an_end(run: RunView, event: EventView)
    requires
        expects(run, event),
    ensures
        !(event is Chunk) ==> answers_left(after_event(run, event).0.step) < answers_left(run.step),
        event matches EventView::Chunk { len, total } ==> after_event(run, event).0 == (RunView {
            downloaded: (run.downloaded + len) as u64,
            ..run
        }),
        after_event(run, event).1.action is Finish <==> after_event(run, event).0.step is Finished,
{
}

/// Provisioning what is installed already is a no-op: the run is over once it has
/// looked, with nothing downloaded, written or removed.
pub proof fn installed_is_left_alone(run: RunView, probe: ProbeView)
    requires
        run.step is Probe,
        installed(run.cfg, probe),
    ensures
        after_event(run, EventView::Probed(probe)) == finishes(run, Ok(())),
{
}

/// What is not installed is downloaded from the configured URL.
pub proof fn missing_is_downloaded(run: RunView, probe: ProbeView)
    requires
        run.step is Probe,
        !installed(run.cfg, probe),
    ensures
        after_event(run, EventView::Probed(probe)).1.action == (ActionView::Download {
            url: run.cfg.asset.url@,
        }),
{
}

/// The marker that a run writes is the one that makes its configuration installed, and
/// no configuration of another version.
pub proof fn marker_is_read_back(cfg: EngineConfig, other: EngineConfig)
    ensures
        installed(cfg, ProbeView { binary_exists: true, marker: Some(marker_of(cfg)) }),
        other.rclone_version@ != cfg.rclone_version@ ==> !installed(
            other,
            ProbeView { binary_exists: true, marker: Some(marker_of(cfg)) },
        ),
{
}

/// A run succeeds in two ways only: it found the version installed, or it has placed the
/// binary and written the marker.
pub proof fn success_means_installed(run: RunView, event: EventView)
    requires
        is_consistent(run),
        expects(run, event),
        after_event(run, event).1.action == ActionView::Finish(Ok(())),
    ensures
        (run.step is Probe && (event matches EventView::Probed(probe) && installed(run.cfg, probe)))
            || (run.step is Mark && event is Done && run.placed),
{
}

/// No binary is written that is not verified: it comes out of an archive whose SHA-256
/// is the pinned one, where one is pinned.
pub proof fn only_verified_binaries_are_written(run: RunView, event: EventView, bytes: Seq<u8>)
    requires
        expects(run, event),
        after_event(run, event).1.action == ActionView::WriteStaged(bytes),
    ensures
        run.step is Load,
        event matches EventView::Loaded(data) && {
            &&& run.cfg.asset.sha256@.len() > 0 ==> crate::digest::sha256_text(data)
                == run.cfg.asset.sha256@
            &&& crate::archive::binary_in(data, crate::config::binary_name(run.windows)) == Ok::<
                Seq<u8>,
                crate::error::ErrorView,
            >(bytes)
        },
{
}

/// An archive with another SHA-256 than the pinned one is refused: the run removes it and
/// ends with both checksums.
pub proof fn wrong_checksum_is_refused(run: RunView, data: Seq<u8>)
    requires
        run.step is Load,
        run.cfg.asset.sha256@.len() > 0,
        crate::digest::sha256_text(data) != run.cfg.asset.sha256@,
    ensures
        ({
            let (next, turn) = after_event(run, EventView::Loaded(data));
            let mismatch = crate::error::ErrorView::ChecksumMismatch {
                expected: run.cfg.asset.sha256@,
                actual: crate::digest::sha256_text(data),
            };
            &&& turn.action == ActionView::Remove(leftovers(run.placed))
            &&& leftovers(run.placed).contains(ManagedFile::Part)
            &&& after_event(next, EventView::Done).1.action == ActionView::Finish(Err(mismatch))
        }),
{
    assert(leftovers(run.placed)[0] == ManagedFile::Part);
}

/// The files that a run may have on disk before the action is performed that it waits
/// for.
pub open spec fn may_hold(run: RunView) -> Set<ManagedFile> {
    match run.step {
        ProvisionStep::Prepare | ProvisionStep::Probe => set![],
        ProvisionStep::Fetch | ProvisionStep::Load | ProvisionStep::Stage => set![ManagedFile::Part],
        ProvisionStep::Permit | ProvisionStep::Place => set![
            ManagedFile::Part,
            ManagedFile::Staged,
        ],
        ProvisionStep::Discard => set![ManagedFile::Part, ManagedFile::Binary],
        ProvisionStep::Mark => set![ManagedFile::Binary],
        ProvisionStep::CleanUp => leftovers(run.placed).to_set(),
        ProvisionStep::Finished => if run.placed {
            set![ManagedFile::Binary, ManagedFile::Marker]
        } else {
            set![]
        },
    }
}

/// The files of the run on disk, after the action that it waits for came to `event`. An
/// action that fails may have written its file in part.
pub open spec fn disk_after(disk: Set<ManagedFile>, run: RunView, event: EventView) -> Set<
    ManagedFile,
> {
    match run.step {
        ProvisionStep::Fetch => disk.insert(ManagedFile::Part),
        ProvisionStep::Stage => disk.insert(ManagedFile::Staged),
        ProvisionStep::Place => if event is Done {
            disk.remove(ManagedFile::Staged).insert(ManagedFile::Binary)
        } else {
            disk
        },
        ProvisionStep::Discard => disk.remove(ManagedFile::Part),
        ProvisionStep::Mark => disk.insert(ManagedFile::Marker),
        ProvisionStep::CleanUp => disk.difference(leftovers(run.placed).to_set()),
        _ => disk,
    }
}

/// A run keeps track of its files: what it may hold bounds what is on disk, step by step.
/// So a run that is finished has left the binary and its marker, or, where it failed,
/// nothing at all.
pub proof fn failed_runs_leave_nothing(run: RunView, event: EventView, disk: Set<ManagedFile>)
    requires
        is_consistent(run),
        expects(run, event),
        disk.subset_of(may_hold(run)),
    ensures
        disk_after(disk, run, event).subset_of(may_hold(after_event(run, event).0)),
        after_event(run, event).1.action matches ActionView::Finish(Err(_)) ==> disk_after(
            disk,
            run,
            event,
        ) == Set::<ManagedFile>::empty(),
{
    let next = after_event(run, event).0;
    let after = disk_after(disk, run, event);
    let list = leftovers(next.placed);
    assert(list[0] == ManagedFile::Part && list[1] == ManagedFile::Staged);
    if next.placed {
        assert(list[2] == ManagedFile::Binary && list[3] == ManagedFile::Marker);
    }
    assert forall|f: ManagedFile| after.contains(f) implies may_hold(next).contains(f) by {
        if next.step is CleanUp {
            assert(list.contains(f));
        }
    }
    if after_event(run, event).1.action matches ActionView::Finish(Err(_)) {
        assert(after =~= Set::<ManagedFile>::empty());
    }
}

/// A run after a list of chunks, each given by its length.
pub open spec fn after_chunks(run: RunView, lens: Seq<u64>) -> RunView
    decreases lens.len(),
{
    if lens.len() == 0 {
        run
    } else {
        after_event(
            after_chunks(run, lens.drop_last()),
            EventView::Chunk { len: lens.last(), total: None },
        ).0
    }
}

/// The sum of a list of lengths.
pub open spec fn sum(lens: Seq<u64>) -> nat
    decreases lens.len(),
{
    if lens.len() == 0 {
        0
    } else {
        sum(lens.drop_last()) + lens.last() as nat
    }
}

/// The progress of a download counts its bytes: after any chunks the run is still
/// downloading, and has counted the bytes of all of them.
pub proof fn progress_counts_the_bytes(run: RunView, lens: Seq<u64>)
    requires
        run.step is Fetch,
        run.downloaded + sum(lens) <= u64::MAX,
    ensures
        after_chunks(run, lens) == (RunView {
            downloaded: (run.downloaded + sum(lens)) as u64,
            ..run
        }),
    decreases lens.len(),
{
    if lens.len() > 0 {
        progress_counts_the_bytes(run, lens.drop_last());
    }
}

/// A version is installed just where the binary is there and the marker names that version,
/// whatever checksum it names.
pub proof fn installed_means_binary_and_version(
    cfg: EngineConfig,
    version: Seq<char>,
    sha256: Seq<char>,
)
    ensures
        installed(
            cfg,
            ProbeView {
                binary_exists: true,
                marker: Some(VersionView { rclone_version: version, sha256 }),
            },
        ) <==> version == cfg.rclone_version@,
        !installed(cfg, ProbeView { binary_exists: true, marker: None }),
        !installed(
            cfg,
            ProbeView {
                binary_exists: false,
                marker: Some(VersionView { rclone_version: version, sha256 }),
            },
        ),
        !installed(cfg, ProbeView { binary_exists: false, marker: None }),
        marker_of(cfg).rclone_version == cfg.rclone_version@,
        marker_of(cfg).sha256 == cfg.asset.sha256@,
{
}

/// Provisioning what is not installed goes in order: make the directory, look, download from
/// the configured URL, read, write what the archive holds, make it executable, move it to its
/// place, remove the archive, write the marker with the configured version and checksum.
/// `Installing` is shown behind the download, where there is a checksum to verify.
pub proof fn provisioning_goes_in_order(
    cfg: EngineConfig,
    windows: bool,
    probe: ProbeView,
    data: Seq<u8>,
    bytes: Seq<u8>,
)
    requires
        !(probe.binary_exists && (probe.marker matches Some(v) && v.rclone_version
            == cfg.rclone_version@)),
        cfg.asset.sha256@.len() == 0 || cfg.asset.sha256@ == crate::digest::hex_text(
            crate::digest::sha256_digest(data),
        ),
        crate::archive::binary_in(
            data,
            if windows {
                "rclone.exe"@
            } else {
                "rclone"@
            },
        ) == Ok::<Seq<u8>, crate::error::ErrorView>(bytes),
    ensures
        ({
            let r0 = fresh_run(cfg, windows);
            let (r1, t1) = after_event(r0, EventView::Done);
            let (r2, t2) = after_event(r1, EventView::Probed(probe));
            let (r3, t3) = after_event(r2, EventView::Done);
            let (r4, t4) = after_event(r3, EventView::Loaded(data));
            let (r5, t5) = after_event(r4, EventView::Done);
            let (r6, t6) = after_event(r5, EventView::Done);
            let (r7, t7) = after_event(r6, EventView::Done);
            let (r8, t8) = after_event(r7, EventView::Done);
            let (r9, t9) = after_event(r8, EventView::Done);
            &&& t1.action is ProbeInstall && t1.progress is None
            &&& t2.action == (ActionView::Download { url: cfg.asset.url@ }) && t2.progress is None
            &&& t3.action is ReadPart
            &&& cfg.asset.sha256@.len() > 0 ==> t3.progress == Some(
                crate::state::StateView::Installing,
            )
            &&& cfg.asset.sha256@.len() == 0 ==> t3.progress is None
            &&& t4.action == ActionView::WriteStaged(bytes) && t4.progress is None
            &&& t5.action is MakeExecutable && t5.progress is None
            &&& t6.action is Rename && t6.progress is None
            &&& t7.action == ActionView::Remove(seq![ManagedFile::Part]) && t7.progress is None
            &&& t8.action == ActionView::WriteMarker(
                VersionView { rclone_version: cfg.rclone_version@, sha256: cfg.asset.sha256@ },
            ) && t8.progress is None
            &&& t9.action == ActionView::Finish(Ok(())) && t9.progress is None
            &&& r9.step is Finished
        }),
{
}

/// What is installed already is left alone: the run looks, and is over.
pub proof fn installed_ends_the_run(cfg: EngineConfig, windows: bool, probe: ProbeView)
    requires
        probe.binary_exists,
        probe.marker matches Some(v) && v.rclone_version == cfg.rclone_version@,
    ensures
        ({
            let (r1, t1) = after_event(fresh_run(cfg, windows), EventView::Done);
            let (r2, t2) = after_event(r1, EventView::Probed(probe));
            &&& t1.action is ProbeInstall && t1.progress is None
            &&& t2.action == ActionView::Finish(Ok(())) && t2.progress is None
        }),
{
}

/// Each chunk is reported: with all bytes so far and the size that the server has told.
pub proof fn chunks_are_reported(run: RunView, len: u64, total: Option<u64>)
    requires
        run.step is Fetch,
        run.downloaded + len <= u64::MAX,
    ensures
        ({
            let (next, turn) = after_event(run, EventView::Chunk { len, total });
            &&& turn.action is AwaitChunk
            &&& next.step is Fetch && next.downloaded == run.downloaded + len
            &&& turn.progress matches Some(
                crate::state::StateView::Downloading { downloaded, total: told },
            ) && downloaded == run.downloaded + len && told == total
        }),
{
}

/// Whatever fails once the download has begun, the run removes the archive and the staged
/// binary, and the binary and its marker where it has placed them, and ends with the error
/// that it met, told by where it was met. A directory that cannot be made ends the run at
/// once.
pub proof fn failures_are_reported(
    run: RunView,
    error: crate::error::ErrorView,
    fault: WriteFault,
    reason: Seq<char>,
    data: Seq<u8>,
)
    ensures
        run.step is Prepare ==> after_event(run, EventView::Failed(error)).1.action
            == ActionView::Finish(Err(error)),
        run.step is Fetch || run.step is Permit || run.step is Mark ==> ends_with_error(
            run,
            EventView::Failed(error),
            error,
        ),
        run.step is Stage || run.step is Place ==> ends_with_error(
            run,
            EventView::NotWritten { fault, reason },
            crate::error::ErrorView::Provision(
                (match fault {
                    WriteFault::Mkdir => "mkdir: "@,
                    WriteFault::Create => "create binary: "@,
                    WriteFault::Fill => "extract binary: "@,
                }) + reason,
            ),
        ),
        run.step is Load && run.cfg.asset.sha256@.len() > 0 ==> ends_with_error(
            run,
            EventView::Unreadable(reason),
            crate::error::ErrorView::Io(reason),
        ),
        run.step is Load && run.cfg.asset.sha256@.len() == 0 ==> ends_with_error(
            run,
            EventView::Unreadable(reason),
            crate::error::ErrorView::Provision("open zip: "@ + reason),
        ),
        run.step is Load && run.cfg.asset.sha256@.len() > 0 && run.cfg.asset.sha256@
            != crate::digest::hex_text(crate::digest::sha256_digest(data)) ==> ends_with_error(
            run,
            EventView::Loaded(data),
            crate::error::ErrorView::ChecksumMismatch {
                expected: run.cfg.asset.sha256@,
                actual: crate::digest::hex_text(crate::digest::sha256_digest(data)),
            },
        ),
        run.step is Load && (run.cfg.asset.sha256@.len() == 0 || run.cfg.asset.sha256@
            == crate::digest::hex_text(crate::digest::sha256_digest(data)))
            && crate::archive::binary_in(
            data,
            if run.windows {
                "rclone.exe"@
            } else {
                "rclone"@
            },
        ) == Err::<Seq<u8>, _>(error) ==> ends_with_error(run, EventView::Loaded(data), error),
{
}

/// The run removes what it has left after the event, and then ends with the error.
pub open spec fn ends_with_error(
    run: RunView,
    event: EventView,
    error: crate::error::ErrorView,
) -> bool {
    let (next, turn) = after_event(run, event);
    &&& turn.action == ActionView::Remove(
        if run.placed {
            seq![ManagedFile::Part, ManagedFile::Staged, ManagedFile::Binary, ManagedFile::Marker]
        } else {
            seq![ManagedFile::Part, ManagedFile::Staged]
        },
    )
    &&& turn.progress is None
    &&& after_event(next, EventView::Done).1.action == ActionView::Finish(Err(error))
}

/// What an ended failure amounts to.
pub proof fn ending_with_an_error_means(
    run: RunView,
    event: EventView,
    error: crate::error::ErrorView,
)
    ensures
        ends_with_error(run, event, error) ==> {
            let (next, turn) = after_event(run, event);
            &&& turn.action matches ActionView::Remove(files) && {
                &&& files.contains(ManagedFile::Part) && files.contains(ManagedFile::Staged)
                &&& run.placed ==> files.contains(ManagedFile::Binary) && files.contains(
                    ManagedFile::Marker,
                )
                &&& !run.placed ==> files.len() == 2
            }
            &&& after_event(next, EventView::Done).1.action == ActionView::Finish(Err(error))
        },
{
    if ends_with_error(run, event, error) {
        let files = after_event(run, event).1.action->Remove_0;
        assert(files[0] == ManagedFile::Part && files[1] == ManagedFile::Staged);
        if run.placed {
            assert(files[2] == ManagedFile::Binary && files[3] == ManagedFile::Marker);
        }
    }
}

/// Views of what provisioning deals in keep all of it.
pub proof fn provisioning_is_viewed_whole(
    event: ProvisionEvent,
    action: ProvisionAction,
    turn: ProvisionTurn,
    probe: InstallProbe,
    outcome: Result<(), Error>,
)
    ensures
        event is Done <==> event@ is Done,
        event matches ProvisionEvent::Failed(e) ==> event@ == EventView::Failed(e@),
        event matches ProvisionEvent::Probed(p) ==> event@ == EventView::Probed(p@),
        event matches ProvisionEvent::Chunk { len, total } ==> event@ == (EventView::Chunk {
            len,
            total,
        }),
        event matches ProvisionEvent::Loaded(data) ==> event@ == EventView::Loaded(data@),
        event matches ProvisionEvent::Unreadable(reason) ==> event@ == EventView::Unreadable(
            reason@,
        ),
        event matches ProvisionEvent::NotWritten { fault, reason } ==> event@
            == (EventView::NotWritten { fault, reason: reason@ }),
        action is MakeBinDir <==> action@ is MakeBinDir,
        action is ProbeInstall <==> action@ is ProbeInstall,
        action is AwaitChunk <==> action@ is AwaitChunk,
        action is ReadPart <==> action@ is ReadPart,
        action is MakeExecutable <==> action@ is MakeExecutable,
        action is Rename <==> action@ is Rename,
        action matches ProvisionAction::Download { url } ==> action@ == (ActionView::Download {
            url: url@,
        }),
        action matches ProvisionAction::WriteStaged(bytes) ==> action@ == ActionView::WriteStaged(
            bytes@,
        ),
        action matches ProvisionAction::Remove(files) ==> action@ == ActionView::Remove(files@),
        action matches ProvisionAction::WriteMarker(marker) ==> action@ == ActionView::WriteMarker(
            VersionView { rclone_version: marker.rclone_version@, sha256: marker.sha256@ },
        ),
        action matches ProvisionAction::Finish(Ok(_)) ==> action@ == ActionView::Finish(Ok(())),
        action matches ProvisionAction::Finish(Err(e)) ==> action@ == ActionView::Finish(Err(e@)),
        outcome matches Err(e) ==> outcome_view(outcome) == Err::<(), _>(e@),
        outcome is Ok ==> outcome_view(outcome) is Ok,
        turn@.action == turn.action@,
        turn.progress matches Some(s) ==> turn@.progress == Some(s@),
        turn.progress is None ==> turn@.progress is None,
        probe@.binary_exists == probe.binary_exists,
        probe.marker matches Some(v) ==> probe@.marker == Some(
            VersionView { rclone_version: v.rclone_version@, sha256: v.sha256@ },
        ),
        probe.marker is None ==> probe@.marker is None,
{
}

/// Every answer that an action can have is expected: done or failed, what was found, chunks
/// of any length that can still be counted, what was read or why not, and at which point the
/// binary could not be written.
pub proof fn answers_are_expected(
    run: RunView,
    error: crate::error::ErrorView,
    probe: ProbeView,
    len: u64,
    total: Option<u64>,
    data: Seq<u8>,
    reason: Seq<char>,
    fault: WriteFault,
)
    ensures
        run.step is Prepare || run.step is Permit || run.step is Mark || run.step is Fetch
            ==> expects(run, EventView::Done) && expects(run, EventView::Failed(error)),
        run.step is Probe ==> expects(run, EventView::Probed(probe)),
        run.step is Fetch && run.downloaded + len <= u64::MAX ==> expects(
            run,
            EventView::Chunk { len, total },
        ),
        run.step is Load ==> expects(run, EventView::Loaded(data)) && expects(
            run,
            EventView::Unreadable(reason),
        ),
        run.step is Stage || run.step is Place ==> expects(run, EventView::Done) && expects(
            run,
            EventView::NotWritten { fault, reason },
        ),
        run.step is Discard ==> expects(run, EventView::Done),
        run.step is CleanUp && run.failure is Some ==> expects(run, EventView::Done),
{
}

/// A run begins with the configuration and platform that it is given, and nothing done.
pub proof fn runs_begin_with_nothing_done(cfg: EngineConfig, windows: bool)
    ensures
        fresh_run(cfg, windows).cfg == cfg,
        fresh_run(cfg, windows).windows == windows,
        fresh_run(cfg, windows).step is Prepare,
        fresh_run(cfg, windows).downloaded == 0,
        !fresh_run(cfg, windows).placed,
        fresh_run(cfg, windows).failure is None,
        silently(ActionView::MakeBinDir).action is MakeBinDir,
        silently(ActionView::MakeBinDir).progress is None,
{
}

/// No event changes the configuration or the platform that a run works to.
pub proof fn runs_keep_their_configuration(run: RunView, event: EventView)
    requires
        expects(run, event),
    ensures
        after_event(run, event).0.cfg == run.cfg,
        after_event(run, event).0.windows == run.windows,
{
}

} // verus!
