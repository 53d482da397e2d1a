//! One patch run as a state machine. The caller performs each `Action` that `step`
//! returns and hands back the `Event` that came of it; the session decides what
//! happens next, so every decision of the run is made, and proved, here.
use vstd::prelude::*;
use vstd::utf8::encode_utf8;

use crate::changeset::{change_set, changed_prefix, entry_changed, is_changed, local_view};
use crate::failure::PatchFailure;
use crate::manifest::{
    entries_view, manifest_entries, manifest_well_formed, parse_manifest, ManifestEntry,
};
use crate::request::PatcherResponse;

verus! {

/// The phase that the user interface shows.
#[derive(Clone, Copy, Debug, PartialEq, Eq, Structural)]
pub enum State {
    Checking,
    Downloading,
    Patching,
    Done,
    Error,
}

/// A progress report: `current` of `total` files, in phase `state`.
#[derive(Clone, Copy, Debug, PartialEq, Eq, Structural)]
pub struct PatcherEvent {
    pub total: usize,
    pub current: usize,
    pub state: State,
}

/// What came of sending the request for one file.
#[derive(Clone, Copy, Debug, PartialEq, Eq, Structural)]
pub enum ResponseOutcome {
    /// Response headers arrived with this status.
    Status(u16),
    /// The cancellation signal fired first.
    Cancelled,
    /// The transport failed.
    Failed,
}

/// What came of reading the next chunk of a response body.
#[derive(Debug, PartialEq, Eq)]
pub enum ChunkOutcome {
    Data(Vec<u8>),
    End,
    Cancelled,
    Failed,
}

/// The result of the last action, handed back to the session.
#[derive(Debug, PartialEq, Eq)]
pub enum Event {
    /// Begins the run.
    Start,
    /// Whether a disk action succeeded; `true` acknowledges a report.
    Completed(bool),
    /// The bytes of the local file asked for, or `None` when it is missing or unreadable.
    Local(Option<Vec<u8>>),
    Response(ResponseOutcome),
    Chunk(ChunkOutcome),
}

/// What the caller must do next. Paths are relative: to the game folder for
/// `ReadLocal`, to the patch server's base URL for `Fetch`, to the staging folder for
/// `PrepareStaged`, and to both for `Move` (staging to game folder).
#[derive(Debug, PartialEq, Eq)]
pub enum Action {
    /// Create the staging folder and its parents.
    CreateStaging,
    /// Send this progress report.
    Emit(PatcherEvent),
    /// Log the failure's message and send a report in the `Error` state.
    ReportError(PatchFailure),
    /// Read the whole local file at this path.
    ReadLocal(Vec<u8>),
    /// Send `GET {base}/{path}`, raced against cancellation.
    Fetch(Vec<u8>),
    /// Create the staged file's parent folders, then create or truncate it.
    PrepareStaged(Vec<u8>),
    /// Read the next body chunk of the current response, raced against cancellation.
    ReadChunk,
    /// Append these bytes to the staged file.
    WriteChunk(Vec<u8>),
    /// Create the target's parent folders, then rename the staged file over it.
    Move(Vec<u8>),
    /// Overwrite the freshness marker file with this ETag.
    WriteEtag(String),
    /// Delete the staging folder and everything in it.
    RemoveStaging,
    /// The run is over; nothing more is to be done.
    Finish,
}

/// The view of an action.
pub ghost enum ActionModel {
    CreateStaging,
    Emit(PatcherEvent),
    ReportError(PatchFailure),
    ReadLocal(Seq<u8>),
    Fetch(Seq<u8>),
    PrepareStaged(Seq<u8>),
    ReadChunk,
    WriteChunk(Seq<u8>),
    Move(Seq<u8>),
    WriteEtag(Seq<char>),
    RemoveStaging,
    Finish,
}

impl View for Action {
    type V = ActionModel;

    open spec fn view(&self) -> ActionModel {
        match self {
            Action::CreateStaging => ActionModel::CreateStaging,
            Action::Emit(e) => ActionModel::Emit(*e),
            Action::ReportError(f) => ActionModel::ReportError(*f),
            Action::ReadLocal(p) => ActionModel::ReadLocal(p@),
            Action::Fetch(p) => ActionModel::Fetch(p@),
            Action::PrepareStaged(p) => ActionModel::PrepareStaged(p@),
            Action::ReadChunk => ActionModel::ReadChunk,
            Action::WriteChunk(d) => ActionModel::WriteChunk(d@),
            Action::Move(p) => ActionModel::Move(p@),
            Action::WriteEtag(e) => ActionModel::WriteEtag(e@),
            Action::RemoveStaging => ActionModel::RemoveStaging,
            Action::Finish => ActionModel::Finish,
        }
    }
}

/// Which action's result the session waits for.
#[derive(Clone, Copy, Debug, PartialEq, Eq, Structural)]
pub enum Stage {
    Idle,
    CreatingStaging,
    ReportingStagingFailure,
    AnnouncingCheck,
    Reading,
    AnnouncingProgress,
    Fetching,
    Preparing,
    Receiving,
    Writing,
    AnnouncingPatch,
    Moving,
    WritingEtag,
    AnnouncingDone,
    ReportingFailure,
    RemovingStaging,
    ReportingCleanupFailure,
    Finished,
}

/// The view of a session.
pub ghost struct SessionModel {
    pub stage: Stage,
    /// The ETag to persist once every file is in place.
    pub etag: Seq<char>,
    /// The manifest text, as bytes.
    pub manifest: Seq<u8>,
    pub entries: Seq<(Seq<u8>, Seq<u8>)>,
    /// What was read of the local file of each entry resolved so far.
    pub locals: Seq<Option<Seq<u8>>>,
    /// The change set, or its part resolved so far.
    pub changes: Seq<Seq<u8>>,
    /// The number of entries resolved so far.
    pub index: nat,
    /// The number of changed files fully staged.
    pub downloaded: nat,
    /// The number of staged files moved into the game folder.
    pub moved: nat,
    pub failure: Option<PatchFailure>,
    pub cancelled: bool,
}

/// The events that the session accepts in each stage.
pub open spec fn accepts(stage: Stage, ev: Event) -> bool {
    match stage {
        Stage::Idle => ev is Start,
        Stage::Reading => ev is Local,
        Stage::Fetching => ev is Response,
        Stage::Receiving => ev is Chunk,
        Stage::Finished => false,
        _ => ev is Completed,
    }
}

pub open spec fn report(total: nat, current: nat, state: State) -> ActionModel {
    ActionModel::Emit(PatcherEvent { total: total as usize, current: current as usize, state })
}

pub open spec fn go(s: SessionModel, stage: Stage, a: ActionModel) -> (SessionModel, ActionModel) {
    (SessionModel { stage, ..s }, a)
}

/// Ends the active work with a failure: it is reported, then staging is removed.
pub open spec fn fail(s: SessionModel, f: PatchFailure) -> (SessionModel, ActionModel) {
    (
        SessionModel { stage: Stage::ReportingFailure, failure: Some(f), ..s },
        ActionModel::ReportError(f),
    )
}

/// Ends the active work on cancellation: nothing is reported, staging is removed.
pub open spec fn cancel(s: SessionModel) -> (SessionModel, ActionModel) {
    (
        SessionModel { stage: Stage::RemovingStaging, cancelled: true, ..s },
        ActionModel::RemoveStaging,
    )
}

/// Fetches the next changed file, or, when all are staged, starts the apply phase.
pub open spec fn next_download(s: SessionModel) -> (SessionModel, ActionModel) {
    if s.downloaded < s.changes.len() {
        go(s, Stage::Fetching, ActionModel::Fetch(s.changes[s.downloaded as int]))
    } else {
        go(s, Stage::AnnouncingPatch, report(0, 0, State::Patching))
    }
}

/// Moves the next staged file, or, when all are moved, writes the freshness marker.
pub open spec fn next_move(s: SessionModel) -> (SessionModel, ActionModel) {
    if s.moved < s.changes.len() {
        go(s, Stage::Moving, ActionModel::Move(s.changes[s.moved as int]))
    } else {
        go(s, Stage::WritingEtag, ActionModel::WriteEtag(s.etag))
    }
}

/// Starts resolving the entries of the manifest, or fails on a malformed manifest.
pub open spec fn begin_resolve(s: SessionModel) -> (SessionModel, ActionModel) {
    if !manifest_well_formed(s.manifest) {
        fail(s, PatchFailure::Network)
    } else {
        let t = SessionModel { entries: manifest_entries(s.manifest), ..s };
        if t.entries.len() == 0 {
            go(t, Stage::AnnouncingProgress, report(0, 0, State::Downloading))
        } else {
            go(t, Stage::Reading, ActionModel::ReadLocal(t.entries[0].1))
        }
    }
}

/// Records what was read for the current entry, then reads the next one or starts
/// the downloads.
pub open spec fn resolve_one(s: SessionModel, local: Option<Seq<u8>>) -> (SessionModel, ActionModel) {
    let e = s.entries[s.index as int];
    let t = SessionModel {
        locals: s.locals.push(local),
        changes: if entry_changed(e.0, local) {
            s.changes.push(e.1)
        } else {
            s.changes
        },
        index: s.index + 1,
        ..s
    };
    if t.index < t.entries.len() {
        go(t, Stage::Reading, ActionModel::ReadLocal(t.entries[t.index as int].1))
    } else {
        go(t, Stage::AnnouncingProgress, report(t.changes.len(), 0, State::Downloading))
    }
}

/// Whether a response status lets the file's body be staged.
pub open spec fn status_ok(status: u16) -> bool {
    200 <= status < 300
}

/// The session's transition: its next model and the action it asks for, given the
/// event that the last action produced.
pub open spec fn next(s: SessionModel, ev: Event) -> (SessionModel, ActionModel) {
    match s.stage {
        Stage::Idle => go(s, Stage::CreatingStaging, ActionModel::CreateStaging),
        Stage::CreatingStaging => if ev == Event::Completed(true) {
            go(s, Stage::AnnouncingCheck, report(0, 0, State::Checking))
        } else {
            (
                SessionModel {
                    stage: Stage::ReportingStagingFailure,
                    failure: Some(PatchFailure::File),
                    ..s
                },
                ActionModel::ReportError(PatchFailure::File),
            )
        },
        Stage::ReportingStagingFailure => go(s, Stage::Finished, ActionModel::Finish),
        Stage::AnnouncingCheck => begin_resolve(s),
        Stage::Reading => match ev {
            Event::Local(l) => resolve_one(s, local_view(l)),
            _ => (s, ActionModel::Finish),
        },
        Stage::AnnouncingProgress => next_download(s),
        Stage::Fetching => match ev {
            Event::Response(ResponseOutcome::Status(status)) => if status_ok(status) {
                go(
                    s,
                    Stage::Preparing,
                    ActionModel::PrepareStaged(s.changes[s.downloaded as int]),
                )
            } else {
                fail(s, PatchFailure::Network)
            },
            Event::Response(ResponseOutcome::Cancelled) => cancel(s),
            _ => fail(s, PatchFailure::Network),
        },
        Stage::Preparing => if ev == Event::Completed(true) {
            go(s, Stage::Receiving, ActionModel::ReadChunk)
        } else {
            fail(s, PatchFailure::File)
        },
        Stage::Receiving => match ev {
            Event::Chunk(ChunkOutcome::Data(d)) => go(s, Stage::Writing, ActionModel::WriteChunk(d@)),
            Event::Chunk(ChunkOutcome::End) => {
                let t = SessionModel { downloaded: s.downloaded + 1, ..s };
                go(
                    t,
                    Stage::AnnouncingProgress,
                    report(t.changes.len(), t.downloaded, State::Downloading),
                )
            },
            Event::Chunk(ChunkOutcome::Cancelled) => cancel(s),
            _ => fail(s, PatchFailure::Network),
        },
        Stage::Writing => if ev == Event::Completed(true) {
            go(s, Stage::Receiving, ActionModel::ReadChunk)
        } else {
            fail(s, PatchFailure::File)
        },
        Stage::AnnouncingPatch => next_move(s),
        Stage::Moving => if ev == Event::Completed(true) {
            next_move(SessionModel { moved: s.moved + 1, ..s })
        } else {
            fail(s, PatchFailure::File)
        },
        Stage::WritingEtag => if ev == Event::Completed(true) {
            go(s, Stage::AnnouncingDone, report(0, 0, State::Done))
        } else {
            fail(s, PatchFailure::File)
        },
        Stage::AnnouncingDone => go(s, Stage::RemovingStaging, ActionModel::RemoveStaging),
        Stage::ReportingFailure => go(s, Stage::RemovingStaging, ActionModel::RemoveStaging),
        Stage::RemovingStaging => if ev == Event::Completed(true) {
            go(s, Stage::Finished, ActionModel::Finish)
        } else {
            (
                SessionModel {
                    stage: Stage::ReportingCleanupFailure,
                    failure: Some(PatchFailure::File),
                    ..s
                },
                ActionModel::ReportError(PatchFailure::File),
            )
        },
        Stage::ReportingCleanupFailure => go(s, Stage::Finished, ActionModel::Finish),
        Stage::Finished => (s, ActionModel::Finish),
    }
}

/// The change set is fully resolved from a well-formed manifest.
pub open spec fn resolved(s: SessionModel) -> bool {
    &&& manifest_well_formed(s.manifest)
    &&& s.entries == manifest_entries(s.manifest)
    &&& s.index == s.entries.len()
    &&& s.locals.len() == s.entries.len()
    &&& s.changes == change_set(s.entries, s.locals)
}

/// Nothing has been resolved, fetched or moved yet.
pub open spec fn untouched(s: SessionModel) -> bool {
    &&& s.locals.len() == 0
    &&& s.changes.len() == 0
    &&& s.index == 0
    &&& s.downloaded == 0
    &&& s.moved == 0
}

/// The session's invariant, stage by stage.
pub open spec fn session_inv(s: SessionModel) -> bool {
    &&& s.cancelled ==> s.moved == 0
    &&& s.downloaded <= s.changes.len()
    &&& s.moved <= s.downloaded
    &&& s.moved > 0 ==> s.downloaded == s.changes.len()
    &&& match s.stage {
        Stage::Idle | Stage::CreatingStaging | Stage::AnnouncingCheck => {
            &&& untouched(s)
            &&& s.failure is None
            &&& !s.cancelled
        },
        Stage::ReportingStagingFailure => untouched(s) && s.failure == Some(PatchFailure::File),
        Stage::Reading => {
            &&& manifest_well_formed(s.manifest)
            &&& s.entries == manifest_entries(s.manifest)
            &&& s.index < s.entries.len()
            &&& s.locals.len() == s.index
            &&& s.changes == changed_prefix(s.entries, s.locals, s.index)
            &&& s.downloaded == 0
            &&& s.moved == 0
            &&& s.failure is None
            &&& !s.cancelled
        },
        Stage::AnnouncingProgress => {
            &&& resolved(s)
            &&& s.moved == 0
            &&& s.failure is None
            &&& !s.cancelled
        },
        Stage::Fetching | Stage::Preparing | Stage::Receiving | Stage::Writing => {
            &&& resolved(s)
            &&& s.downloaded < s.changes.len()
            &&& s.moved == 0
            &&& s.failure is None
            &&& !s.cancelled
        },
        Stage::AnnouncingPatch => {
            &&& resolved(s)
            &&& s.downloaded == s.changes.len()
            &&& s.moved == 0
            &&& s.failure is None
            &&& !s.cancelled
        },
        Stage::Moving => {
            &&& resolved(s)
            &&& s.downloaded == s.changes.len()
            &&& s.moved < s.changes.len()
            &&& s.failure is None
            &&& !s.cancelled
        },
        Stage::WritingEtag | Stage::AnnouncingDone => {
            &&& resolved(s)
            &&& s.downloaded == s.changes.len()
            &&& s.moved == s.changes.len()
            &&& s.failure is None
            &&& !s.cancelled
        },
        Stage::ReportingFailure | Stage::ReportingCleanupFailure => s.failure is Some,
        Stage::RemovingStaging | Stage::Finished => true,
    }
}

proof fn lemma_changed_prefix_ext(
    entries: Seq<(Seq<u8>, Seq<u8>)>,
    a: Seq<Option<Seq<u8>>>,
    b: Seq<Option<Seq<u8>>>,
    n: nat,
)
    requires
        n <= a.len(),
        n <= b.len(),
        forall|i: int| 0 <= i < n ==> a[i] == b[i],
    ensures
        changed_prefix(entries, a, n) == changed_prefix(entries, b, n),
    decreases n,
{
    if n > 0 {
        lemma_changed_prefix_ext(entries, a, b, (n - 1) as nat);
    }
}

/// Every accepted event keeps the session's invariant.
pub proof fn lemma_next_keeps_invariant(s: SessionModel, ev: Event)
    requires
        session_inv(s),
        accepts(s.stage, ev),
    ensures
        session_inv(next(s, ev).0),
{
    if s.stage == Stage::AnnouncingCheck {
        assert(s.changes =~= Seq::<Seq<u8>>::empty());
    }
    if s.stage == Stage::Reading {
        if let Event::Local(l) = ev {
            let local = local_view(l);
            let locals = s.locals.push(local);
            lemma_changed_prefix_ext(s.entries, s.locals, locals, s.index);
            assert(locals[s.index as int] == local);
        }
    }
}

/// One patch run over a manifest check's response.
pub struct PatchSession {
    stage: Stage,
    etag: String,
    content: String,
    entries: Vec<ManifestEntry>,
    changes: Vec<Vec<u8>>,
    index: usize,
    downloaded: usize,
    moved: usize,
    failure: Option<PatchFailure>,
    cancelled: bool,
    locals: Ghost<Seq<Option<Seq<u8>>>>,
}

impl View for PatchSession {
    type V = SessionModel;

    closed spec fn view(&self) -> SessionModel {
        SessionModel {
            stage: self.stage,
            etag: self.etag@,
            manifest: encode_utf8(self.content@),
            entries: entries_view(self.entries@),
            locals: self.locals@,
            changes: self.changes@.map_values(|p: Vec<u8>| p@),
            index: self.index as nat,
            downloaded: self.downloaded as nat,
            moved: self.moved as nat,
            failure: self.failure,
            cancelled: self.cancelled,
        }
    }
}

impl PatchSession {
    /// The session's invariant holds.
    pub open spec fn wf(&self) -> bool {
        session_inv(self@)
    }

    /// A session that has done nothing yet, for the given manifest and ETag.
    pub fn new(response: PatcherResponse) -> (r: PatchSession)
        ensures
            r.wf(),
            r@.stage == Stage::Idle,
            r@.etag == response.etag@,
            r@.manifest == encode_utf8(response.content@),
            untouched(r@),
            r@.failure is None,
            !r@.cancelled,
    {
        let r = PatchSession {
            stage: Stage::Idle,
            etag: response.etag,
            content: response.content,
            entries: Vec::new(),
            changes: Vec::new(),
            index: 0,
            downloaded: 0,
            moved: 0,
            failure: None,
            cancelled: false,
            locals: Ghost(Seq::empty()),
        };
        assert(r@.locals.len() == 0);
        assert(r@.changes =~= Seq::<Seq<u8>>::empty());
        r
    }

    /// The stage that the session is in.
    pub fn stage(&self) -> (r: Stage)
        ensures
            r == self@.stage,
    {
        self.stage
    }

    /// Whether `step` takes this event now.
    pub fn accepts(&self, ev: &Event) -> (r: bool)
        ensures
            r == accepts(self@.stage, *ev),
    {
        match self.stage {
            Stage::Idle => matches!(ev, Event::Start),
            Stage::Reading => matches!(ev, Event::Local(_)),
            Stage::Fetching => matches!(ev, Event::Response(_)),
            Stage::Receiving => matches!(ev, Event::Chunk(_)),
            Stage::Finished => false,
            _ => matches!(ev, Event::Completed(_)),
        }
    }

    fn fail_with(&mut self, f: PatchFailure) -> (r: Action)
        ensures
            (final(self)@, r@) == fail(old(self)@, f),
    {
        self.stage = Stage::ReportingFailure;
        self.failure = Some(f);
        Action::ReportError(f)
    }

    fn cancel_run(&mut self) -> (r: Action)
        ensures
            (final(self)@, r@) == cancel(old(self)@),
    {
        self.stage = Stage::RemovingStaging;
        self.cancelled = true;
        Action::RemoveStaging
    }

    fn start_next_download(&mut self) -> (r: Action)
        requires
            old(self)@.downloaded <= old(self)@.changes.len(),
        ensures
            (final(self)@, r@) == next_download(old(self)@),
    {
        if self.downloaded < self.changes.len() {
            self.stage = Stage::Fetching;
            Action::Fetch(self.changes[self.downloaded].clone())
        } else {
            self.stage = Stage::AnnouncingPatch;
            Action::Emit(PatcherEvent { total: 0, current: 0, state: State::Patching })
        }
    }

    fn start_next_move(&mut self) -> (r: Action)
        requires
            old(self)@.moved <= old(self)@.changes.len(),
        ensures
            (final(self)@, r@) == next_move(old(self)@),
    {
        if self.moved < self.changes.len() {
            self.stage = Stage::Moving;
            Action::Move(self.changes[self.moved].clone())
        } else {
            self.stage = Stage::WritingEtag;
            Action::WriteEtag(self.etag.clone())
        }
    }

    fn start_resolve(&mut self) -> (r: Action)
        requires
            untouched(old(self)@),
        ensures
            (final(self)@, r@) == begin_resolve(old(self)@),
    {
        match parse_manifest(self.content.as_str().as_bytes()) {
            Err(f) => self.fail_with(f),
            Ok(entries) => {
                self.entries = entries;
                if self.entries.len() == 0 {
                    self.stage = Stage::AnnouncingProgress;
                    Action::Emit(PatcherEvent { total: 0, current: 0, state: State::Downloading })
                } else {
                    self.stage = Stage::Reading;
                    Action::ReadLocal(self.entries[0].path.clone())
                }
            },
        }
    }

    fn resolve_entry(&mut self, local: Option<Vec<u8>>) -> (r: Action)
        requires
            old(self)@.index < old(self)@.entries.len(),
        ensures
            (final(self)@, r@) == resolve_one(old(self)@, local_view(local)),
    {
        let i = self.index;
        let n = self.entries.len();
        assert(i < n);
        let changed = match &local {
            None => is_changed(self.entries[i].hash.as_slice(), None),
            Some(c) => is_changed(self.entries[i].hash.as_slice(), Some(c.as_slice())),
        };
        assert(entries_view(self.entries@)[i as int] == self.entries@[i as int]@);
        self.locals = Ghost(self.locals@.push(local_view(local)));
        if changed {
            let path = self.entries[i].path.clone();
            let ghost before = self.changes@;
            self.changes.push(path);
            assert(self.changes@.map_values(|p: Vec<u8>| p@) =~= before.map_values(
                |p: Vec<u8>| p@,
            ).push(path@));
        }
        self.index = i + 1;
        if self.index < self.entries.len() {
            self.stage = Stage::Reading;
            Action::ReadLocal(self.entries[self.index].path.clone())
        } else {
            self.stage = Stage::AnnouncingProgress;
            Action::Emit(
                PatcherEvent {
                    total: self.changes.len(),
                    current: 0,
                    state: State::Downloading,
                },
            )
        }
    }

    /// Takes the result of the last action and returns the next one.
    pub fn step(&mut self, ev: Event) -> (r: Action)
        requires
            old(self).wf(),
            accepts(old(self)@.stage, ev),
        ensures
            final(self).wf(),
            (final(self)@, r@) == next(old(self)@, ev),
    {
        proof {
            lemma_next_keeps_invariant(self@, ev);
        }
        match self.stage {
            Stage::Idle => {
                self.stage = Stage::CreatingStaging;
                Action::CreateStaging
            },
            Stage::CreatingStaging => {
                if let Event::Completed(true) = ev {
                    self.stage = Stage::AnnouncingCheck;
                    Action::Emit(PatcherEvent { total: 0, current: 0, state: State::Checking })
                } else {
                    self.stage = Stage::ReportingStagingFailure;
                    self.failure = Some(PatchFailure::File);
                    Action::ReportError(PatchFailure::File)
                }
            },
            Stage::ReportingStagingFailure => {
                self.stage = Stage::Finished;
                Action::Finish
            },
            Stage::AnnouncingCheck => self.start_resolve(),
            Stage::Reading => match ev {
                Event::Local(local) => self.resolve_entry(local),
                _ => Action::Finish,
            },
            Stage::AnnouncingProgress => self.start_next_download(),
            Stage::Fetching => match ev {
                Event::Response(ResponseOutcome::Status(status)) => {
                    if 200 <= status && status < 300 {
                        self.stage = Stage::Preparing;
                        Action::PrepareStaged(self.changes[self.downloaded].clone())
                    } else {
                        self.fail_with(PatchFailure::Network)
                    }
                },
                Event::Response(ResponseOutcome::Cancelled) => self.cancel_run(),
                _ => self.fail_with(PatchFailure::Network),
            },
            Stage::Preparing => {
                if let Event::Completed(true) = ev {
                    self.stage = Stage::Receiving;
                    Action::ReadChunk
                } else {
                    self.fail_with(PatchFailure::File)
                }
            },
            Stage::Receiving => match ev {
                Event::Chunk(ChunkOutcome::Data(data)) => {
                    self.stage = Stage::Writing;
                    Action::WriteChunk(data)
                },
                Event::Chunk(ChunkOutcome::End) => {
                    let total = self.changes.len();
                    assert(self.downloaded < total);
                    self.downloaded = self.downloaded + 1;
                    self.stage = Stage::AnnouncingProgress;
                    Action::Emit(
                        PatcherEvent {
                            total: self.changes.len(),
                            current: self.downloaded,
                            state: State::Downloading,
                        },
                    )
                },
                Event::Chunk(ChunkOutcome::Cancelled) => self.cancel_run(),
                _ => self.fail_with(PatchFailure::Network),
            },
            Stage::Writing => {
                if let Event::Completed(true) = ev {
                    self.stage = Stage::Receiving;
                    Action::ReadChunk
                } else {
                    self.fail_with(PatchFailure::File)
                }
            },
            Stage::AnnouncingPatch => self.start_next_move(),
            Stage::Moving => {
                if let Event::Completed(true) = ev {
                    self.moved = self.moved + 1;
                    self.start_next_move()
                } else {
                    self.fail_with(PatchFailure::File)
                }
            },
            Stage::WritingEtag => {
                if let Event::Completed(true) = ev {
                    self.stage = Stage::AnnouncingDone;
                    Action::Emit(PatcherEvent { total: 0, current: 0, state: State::Done })
                } else {
                    self.fail_with(PatchFailure::File)
                }
            },
            Stage::AnnouncingDone | Stage::ReportingFailure => {
                self.stage = Stage::RemovingStaging;
                Action::RemoveStaging
            },
            Stage::RemovingStaging => {
                if let Event::Completed(true) = ev {
                    self.stage = Stage::Finished;
                    Action::Finish
                } else {
                    self.stage = Stage::ReportingCleanupFailure;
                    self.failure = Some(PatchFailure::File);
                    Action::ReportError(PatchFailure::File)
                }
            },
            Stage::ReportingCleanupFailure => {
                self.stage = Stage::Finished;
                Action::Finish
            },
            Stage::Finished => Action::Finish,
        }
    }
}

/// A manifest with a line that holds no tab ends the run with a network failure
/// before any local file is read: the change set stays empty, the failure is
/// reported, and the staging folder is removed next.
pub proof fn law_malformed_manifest_fails(s: SessionModel, ev: Event)
    requires
        session_inv(s),
        s.stage == Stage::AnnouncingCheck,
        !manifest_well_formed(s.manifest),
    ensures
        next(s, ev).1 == ActionModel::ReportError(PatchFailure::Network),
        next(s, ev).0.stage == Stage::ReportingFailure,
        next(s, ev).0.failure == Some(PatchFailure::Network),
        next(s, ev).0.changes.len() == 0,
        next(next(s, ev).0, Event::Completed(true)).1 == ActionModel::RemoveStaging,
{
}

/// Cancelling while a changed file is fetched or received stops the run: no staged
/// file has been moved into the game folder, no error is reported, the staging
/// folder is removed next, and once it is gone the run ends silently.
pub proof fn law_cancel_moves_nothing(s: SessionModel, ev: Event)
    requires
        session_inv(s),
        (s.stage == Stage::Fetching && ev == Event::Response(ResponseOutcome::Cancelled)) || (
        s.stage == Stage::Receiving && ev == Event::Chunk(ChunkOutcome::Cancelled)),
    ensures
        next(s, ev).1 == ActionModel::RemoveStaging,
        next(s, ev).0.moved == 0,
        next(s, ev).0.failure is None,
        next(s, ev).0.cancelled,
        next(next(s, ev).0, Event::Completed(true)).1 == ActionModel::Finish,
        next(next(s, ev).0, Event::Completed(true)).0.failure is None,
{
}

/// A staged file is moved into the game folder only once every changed file has
/// been fully staged, and only in a run that has neither failed nor been cancelled.
pub proof fn law_moves_follow_downloads(s: SessionModel, ev: Event)
    requires
        session_inv(s),
        accepts(s.stage, ev),
        next(s, ev).1 is Move,
    ensures
        next(s, ev).0.downloaded == next(s, ev).0.changes.len(),
        next(s, ev).1 == ActionModel::Move(next(s, ev).0.changes[next(s, ev).0.moved as int]),
        next(s, ev).0.failure is None,
        !next(s, ev).0.cancelled,
{
    lemma_next_keeps_invariant(s, ev);
}

/// The freshness marker is written with exactly the response's ETag, and only after
/// every changed file was staged and moved; the run reports `Done` only after the
/// marker was written.
pub proof fn law_etag_written_last(s: SessionModel, ev: Event)
    requires
        session_inv(s),
        accepts(s.stage, ev),
    ensures
        next(s, ev).0.etag == s.etag,
        next(s, ev).1 is WriteEtag ==> {
            &&& next(s, ev).1 == ActionModel::WriteEtag(s.etag)
            &&& next(s, ev).0.downloaded == next(s, ev).0.changes.len()
            &&& next(s, ev).0.moved == next(s, ev).0.changes.len()
        },
        next(s, ev).1 == report(0, 0, State::Done) ==> s.stage == Stage::WritingEtag && ev
            == Event::Completed(true),
{
    lemma_next_keeps_invariant(s, ev);
}

/// Each progress report of the download phase counts the whole change set as its
/// total and the files fully staged so far as its current value.
pub proof fn law_download_progress(s: SessionModel, ev: Event)
    requires
        session_inv(s),
        accepts(s.stage, ev),
        next(s, ev).1 matches ActionModel::Emit(e) && e.state == State::Downloading,
    ensures
        next(s, ev).1 == report(next(s, ev).0.changes.len(), next(s, ev).0.downloaded, State::Downloading),
        next(s, ev).0.stage == Stage::AnnouncingProgress,
{
}

} // verus!
