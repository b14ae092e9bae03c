//! The invalidation and orchestration engine. One request to build a named
//! kernel is a run of this state machine: every decision — load or create the
//! record, compare the source, invalidate, rescaffold, build, cache — is made
//! here and verified; every effect (a file read or write, the toolchain
//! subprocess) is requested from the caller as an [`Action`] and its outcome
//! handed back as an [`Event`].

use vstd::prelude::*;

use crate::errors::{BuildError, ErrorModel};
use crate::output::{command_output_result, failure_message, success_message};
use crate::persist::{
    decode_state, decoding, encode_state, encoding, fits, lemma_encoding_round_trip,
};
use crate::scaffold::{
    removal_plan, scaffold_removals, scaffold_writes, write_plan, FileModel, ProjectFile,
    ScaffoldConfig, ScaffoldModel,
};
use crate::state::{KernelState, StateModel};

verus! {

/// An effect the engine asks its caller to perform. Every path is relative
/// to the kernel's scaffold directory `home/name`; the state file lives at
/// `home/name` with the state extension.
pub enum Action {
    /// Read the kernel's state file; answer with [`Event::StateLoaded`], or
    /// [`Event::IoErr`] if it exists but cannot be read.
    ReadState,
    /// Remove each listed file that exists; answer with [`Event::IoOk`] or
    /// [`Event::IoErr`].
    ClearScaffold(Vec<ProjectFile>),
    /// Create directories as needed and write each listed file; answer with
    /// [`Event::IoOk`] or [`Event::IoErr`].
    WriteScaffold(Vec<ProjectFile>),
    /// Overwrite the kernel's state file with these bytes; answer with
    /// [`Event::IoOk`] or [`Event::IoErr`].
    SaveState(Vec<u8>),
    /// Run the toolchain on the scaffold directory; answer with
    /// [`Event::BuildFinished`] or [`Event::SpawnFailed`].
    RunBuild,
    /// Read the compiled artifact at the given place; answer with
    /// [`Event::ArtifactLoaded`], or [`Event::IoErr`] if it exists but
    /// cannot be read.
    ReadArtifact(ProjectFile),
    /// The run is over: the artifact, or the error to surface.
    Finish(Result<String, BuildError>),
}

/// Mathematical model of an [`Action`].
pub enum ActionModel {
    ReadState,
    ClearScaffold(Seq<FileModel>),
    WriteScaffold(Seq<FileModel>),
    SaveState(Seq<u8>),
    RunBuild,
    ReadArtifact(FileModel),
    Finish(Result<Seq<char>, ErrorModel>),
}

impl View for Action {
    type V = ActionModel;

    open spec fn view(&self) -> ActionModel {
        match self {
            Action::ReadState => ActionModel::ReadState,
            Action::ClearScaffold(fs) => ActionModel::ClearScaffold(fs.deep_view()),
            Action::WriteScaffold(fs) => ActionModel::WriteScaffold(fs.deep_view()),
            Action::SaveState(b) => ActionModel::SaveState(b@),
            Action::RunBuild => ActionModel::RunBuild,
            Action::ReadArtifact(f) => ActionModel::ReadArtifact(f@),
            Action::Finish(r) => ActionModel::Finish(
                match r {
                    Ok(s) => Ok(s@),
                    Err(e) => Err(e@),
                },
            ),
        }
    }
}

/// The outcome of an [`Action`], handed back to the engine by its caller.
pub enum Event {
    /// The state file's bytes, or `None` if no state file exists.
    StateLoaded(Option<Vec<u8>>),
    /// The requested filesystem work succeeded.
    IoOk,
    /// A filesystem operation failed; the error's text.
    IoErr(String),
    /// The toolchain ran to completion: whether its exit status was zero,
    /// the captured streams, and the stringified exit status.
    BuildFinished { exit_ok: bool, stderr: String, stdout: String, status: String },
    /// The toolchain could not be launched; the error's text.
    SpawnFailed(String),
    /// The compiled artifact's text, or `None` if no file is at its place.
    ArtifactLoaded(Option<String>),
}

/// Mathematical model of an [`Event`].
pub enum EventModel {
    StateLoaded(Option<Seq<u8>>),
    IoOk,
    IoErr(Seq<char>),
    BuildFinished { exit_ok: bool, stderr: Seq<char>, stdout: Seq<char>, status: Seq<char> },
    SpawnFailed(Seq<char>),
    ArtifactLoaded(Option<Seq<char>>),
}

impl View for Event {
    type V = EventModel;

    open spec fn view(&self) -> EventModel {
        match self {
            Event::StateLoaded(b) => EventModel::StateLoaded(b.deep_view()),
            Event::IoOk => EventModel::IoOk,
            Event::IoErr(t) => EventModel::IoErr(t@),
            Event::BuildFinished { exit_ok, stderr, stdout, status } => EventModel::BuildFinished {
                exit_ok: *exit_ok,
                stderr: stderr@,
                stdout: stdout@,
                status: status@,
            },
            Event::SpawnFailed(t) => EventModel::SpawnFailed(t@),
            Event::ArtifactLoaded(a) => EventModel::ArtifactLoaded(a.deep_view()),
        }
    }
}

/// Where the engine stands: which action it has issued and waits on.
pub enum Phase {
    /// Waiting for the state file.
    AwaitState,
    /// Waiting for the invalidated scaffold files to be removed.
    AwaitClear,
    /// Waiting for the cleared record to be persisted.
    AwaitSaveCleared,
    /// Waiting for the scaffold files to be written.
    AwaitScaffold,
    /// Waiting for the populated record to be persisted.
    AwaitSaveScaffolded,
    /// Waiting for the toolchain to finish.
    AwaitBuild,
    /// Build succeeded; waiting for the artifact, carrying the captured
    /// success output.
    AwaitArtifact(String),
    /// Waiting for the successful record to be persisted.
    AwaitSaveSuccess,
    /// Waiting for the failed record to be persisted, carrying the captured
    /// failure diagnostic.
    AwaitSaveFailure(String),
    /// The run is over; no further event is expected.
    Done,
}

/// Mathematical model of a [`Phase`].
pub enum PhaseModel {
    AwaitState,
    AwaitClear,
    AwaitSaveCleared,
    AwaitScaffold,
    AwaitSaveScaffolded,
    AwaitBuild,
    AwaitArtifact(Seq<char>),
    AwaitSaveSuccess,
    AwaitSaveFailure(Seq<char>),
    Done,
}

impl View for Phase {
    type V = PhaseModel;

    open spec fn view(&self) -> PhaseModel {
        match self {
            Phase::AwaitState => PhaseModel::AwaitState,
            Phase::AwaitClear => PhaseModel::AwaitClear,
            Phase::AwaitSaveCleared => PhaseModel::AwaitSaveCleared,
            Phase::AwaitScaffold => PhaseModel::AwaitScaffold,
            Phase::AwaitSaveScaffolded => PhaseModel::AwaitSaveScaffolded,
            Phase::AwaitBuild => PhaseModel::AwaitBuild,
            Phase::AwaitArtifact(m) => PhaseModel::AwaitArtifact(m@),
            Phase::AwaitSaveSuccess => PhaseModel::AwaitSaveSuccess,
            Phase::AwaitSaveFailure(m) => PhaseModel::AwaitSaveFailure(m@),
            Phase::Done => PhaseModel::Done,
        }
    }
}

/// Mathematical model of an [`Engine`].
#[verifier::ext_equal]
pub struct EngineModel {
    pub home: Seq<char>,
    pub name: Seq<char>,
    pub source: Seq<char>,
    pub config: ScaffoldModel,
    pub state: StateModel,
    pub phase: PhaseModel,
}

/// One run of the orchestrator for one kernel name: holds the requested
/// source, the scaffold configuration, the record as it evolves, and the
/// phase. Drive it by performing each returned [`Action`] and handing the
/// outcome to [`Engine::step`], until the action is [`Action::Finish`].
pub struct Engine {
    /// Root directory under which every kernel's scaffold and record live.
    pub home: String,
    /// The kernel's name.
    pub name: String,
    /// The device source this run was asked to build.
    pub source: String,
    /// The scaffolding configuration.
    pub config: ScaffoldConfig,
    /// The kernel's record as this run sees it.
    pub state: KernelState,
    /// Where the run stands.
    pub phase: Phase,
}

impl View for Engine {
    type V = EngineModel;

    open spec fn view(&self) -> EngineModel {
        EngineModel {
            home: self.home@,
            name: self.name@,
            source: self.source@,
            config: self.config@,
            state: self.state@,
            phase: self.phase@,
        }
    }
}

impl EngineModel {
    /// What always holds of a running engine: the record is well formed, and
    /// once the record has been loaded and brought to the requested source,
    /// the record's stored source stays that source, and the record agrees
    /// with the phase about how far the run has come.
    pub open spec fn inv(self) -> bool {
        &&& self.state.wf()
        &&& match self.phase {
            PhaseModel::AwaitState => true,
            PhaseModel::AwaitClear => {
                &&& self.state.source_matches(self.source)
                &&& !self.state.populated
                &&& !self.state.compiled
                &&& self.state.message is None
                &&& self.state.artifact is None
            },
            PhaseModel::AwaitSaveCleared => {
                &&& self.state.source_matches(self.source)
                &&& !self.state.populated
                &&& !self.state.compiled
            },
            PhaseModel::AwaitScaffold => {
                &&& self.state.source_matches(self.source)
                &&& !self.state.populated
            },
            PhaseModel::AwaitSaveScaffolded => {
                &&& self.state.source_matches(self.source)
                &&& self.state.populated
            },
            PhaseModel::AwaitBuild => {
                &&& self.state.source_matches(self.source)
                &&& self.state.populated
                &&& !self.state.compiled
            },
            PhaseModel::AwaitArtifact(_) => {
                &&& self.state.source_matches(self.source)
                &&& self.state.populated
                &&& !self.state.compiled
            },
            PhaseModel::AwaitSaveSuccess => {
                &&& self.state.source_matches(self.source)
                &&& self.state.populated
                &&& self.state.compiled
            },
            PhaseModel::AwaitSaveFailure(m) => {
                &&& self.state.source_matches(self.source)
                &&& self.state.populated
                &&& !self.state.compiled
                &&& self.state.message == Some(m)
                &&& self.state.artifact is None
            },
            PhaseModel::Done => true,
        }
    }

    /// Which events answer the action issued in the current phase.
    pub open spec fn expects(self, ev: EventModel) -> bool {
        match self.phase {
            PhaseModel::AwaitState => ev matches EventModel::StateLoaded(_) || ev
                matches EventModel::IoErr(_),
            PhaseModel::AwaitClear | PhaseModel::AwaitSaveCleared | PhaseModel::AwaitScaffold
                | PhaseModel::AwaitSaveScaffolded | PhaseModel::AwaitSaveSuccess
                | PhaseModel::AwaitSaveFailure(_) => ev matches EventModel::IoOk || ev
                matches EventModel::IoErr(_),
            PhaseModel::AwaitBuild => ev matches EventModel::BuildFinished { .. } || ev
                matches EventModel::SpawnFailed(_),
            PhaseModel::AwaitArtifact(_) => ev matches EventModel::ArtifactLoaded(_) || ev
                matches EventModel::IoErr(_),
            PhaseModel::Done => false,
        }
    }
}

/// The run ends with the given error; nothing further is persisted.
pub open spec fn spec_fail(e: EngineModel, err: ErrorModel) -> (EngineModel, ActionModel) {
    (EngineModel { phase: PhaseModel::Done, ..e }, ActionModel::Finish(Err(err)))
}

/// From a record that is current for the requested source and persisted:
/// scaffold if the scaffold is missing, build if no artifact is cached,
/// otherwise finish with the cached artifact.
pub open spec fn spec_proceed(e: EngineModel) -> (EngineModel, ActionModel) {
    if !e.state.populated {
        (
            EngineModel { phase: PhaseModel::AwaitScaffold, ..e },
            ActionModel::WriteScaffold(write_plan(e.config, e.source)),
        )
    } else if !e.state.compiled {
        (EngineModel { phase: PhaseModel::AwaitBuild, ..e }, ActionModel::RunBuild)
    } else {
        match e.state.artifact {
            Some(k) => (EngineModel { phase: PhaseModel::Done, ..e }, ActionModel::Finish(Ok(k))),
            None => spec_fail(e, ErrorModel::MissingArtifact),
        }
    }
}

/// The transition relation of the engine: from the engine and the event, the
/// next engine and the action it issues.
pub open spec fn spec_step(e: EngineModel, ev: EventModel) -> (EngineModel, ActionModel) {
    match (e.phase, ev) {
        (PhaseModel::AwaitState, EventModel::StateLoaded(file)) => match file {
            None => {
                let st = StateModel::fresh(e.home, e.name).invalidated(e.source);
                (
                    EngineModel { state: st, phase: PhaseModel::AwaitSaveCleared, ..e },
                    ActionModel::SaveState(encoding(st)),
                )
            },
            Some(bytes) => match decoding(bytes) {
                None => spec_fail(e, ErrorModel::CorruptState),
                Some(m) => {
                    if m.source_matches(e.source) {
                        spec_proceed(EngineModel { state: m, ..e })
                    } else {
                        let st = m.invalidated(e.source);
                        (
                            EngineModel { state: st, phase: PhaseModel::AwaitClear, ..e },
                            ActionModel::ClearScaffold(removal_plan(e.config)),
                        )
                    }
                },
            },
        },
        (PhaseModel::AwaitClear, EventModel::IoOk) => (
            EngineModel { phase: PhaseModel::AwaitSaveCleared, ..e },
            ActionModel::SaveState(encoding(e.state)),
        ),
        (PhaseModel::AwaitSaveCleared, EventModel::IoOk) => spec_proceed(e),
        (PhaseModel::AwaitScaffold, EventModel::IoOk) => {
            let st = StateModel { populated: true, ..e.state };
            (
                EngineModel { state: st, phase: PhaseModel::AwaitSaveScaffolded, ..e },
                ActionModel::SaveState(encoding(st)),
            )
        },
        (PhaseModel::AwaitSaveScaffolded, EventModel::IoOk) => spec_proceed(e),
        (
            PhaseModel::AwaitBuild,
            EventModel::BuildFinished { exit_ok, stderr, stdout, status },
        ) => {
            if exit_ok {
                let msg = success_message(stderr, stdout, status);
                (
                    EngineModel { phase: PhaseModel::AwaitArtifact(msg), ..e },
                    ActionModel::ReadArtifact(
                        FileModel {
                            dir: e.config.artifact_dir,
                            name: e.config.artifact_name,
                            contents: Seq::empty(),
                        },
                    ),
                )
            } else {
                let msg = failure_message(stderr, stdout, status);
                let st = e.state.failed(msg);
                (
                    EngineModel { state: st, phase: PhaseModel::AwaitSaveFailure(msg), ..e },
                    ActionModel::SaveState(encoding(st)),
                )
            }
        },
        (PhaseModel::AwaitBuild, EventModel::SpawnFailed(t)) => spec_fail(
            e,
            ErrorModel::SpawnFailed(t),
        ),
        (PhaseModel::AwaitArtifact(msg), EventModel::ArtifactLoaded(found)) => match found {
            Some(art) => {
                let st = e.state.built(msg, art);
                (
                    EngineModel { state: st, phase: PhaseModel::AwaitSaveSuccess, ..e },
                    ActionModel::SaveState(encoding(st)),
                )
            },
            None => spec_fail(e, ErrorModel::MissingArtifact),
        },
        (PhaseModel::AwaitSaveSuccess, EventModel::IoOk) => {
            match e.state.artifact {
                Some(k) => (
                    EngineModel { phase: PhaseModel::Done, ..e },
                    ActionModel::Finish(Ok(k)),
                ),
                None => spec_fail(e, ErrorModel::MissingArtifact),
            }
        },
        (PhaseModel::AwaitSaveFailure(msg), EventModel::IoOk) => (
            EngineModel { phase: PhaseModel::Done, ..e },
            ActionModel::Finish(Err(ErrorModel::ToolchainFailed(msg))),
        ),
        (_, EventModel::IoErr(t)) => spec_fail(e, ErrorModel::Io(t)),
        // No phase expects any other event; this arm only makes the match
        // total and is never reached from [`Engine::step`].
        _ => spec_fail(e, ErrorModel::CorruptState),
    }
}

impl Engine {
    /// Begin one build-or-reuse run for the kernel `name` under `home`, with
    /// the device source to build and the scaffold configuration. The first
    /// action is always to read the state file.
    pub fn ensure_built(home: String, name: String, device_source: String, config: ScaffoldConfig)
        -> (r: (Engine, Action))
        ensures
            r.0@ == (EngineModel {
                home: home@,
                name: name@,
                source: device_source@,
                config: config@,
                state: StateModel::fresh(home@, name@),
                phase: PhaseModel::AwaitState,
            }),
            r.0@.inv(),
            r.1@ == ActionModel::ReadState,
    {
        let state = KernelState::fresh(home.clone(), name.clone());
        (
            Engine { home, name, source: device_source, config, state, phase: Phase::AwaitState },
            Action::ReadState,
        )
    }

    fn proceed(&mut self) -> (a: Action)
        ensures
            (final(self)@, a@) == spec_proceed(old(self)@),
    {
        if !self.state.populated {
            self.phase = Phase::AwaitScaffold;
            Action::WriteScaffold(scaffold_writes(&self.config, &self.source))
        } else if !self.state.compiled {
            self.phase = Phase::AwaitBuild;
            Action::RunBuild
        } else {
            self.phase = Phase::Done;
            match &self.state.artifact {
                Some(k) => Action::Finish(Ok(k.clone())),
                None => Action::Finish(Err(BuildError::MissingArtifact)),
            }
        }
    }

    /// Advance the run by one event: the outcome of the action issued last.
    /// The next engine and action are exactly those of the transition
    /// relation [`spec_step`], and the invariant is kept.
    #[verifier::rlimit(100)]
    pub fn step(&mut self, ev: Event) -> (a: Action)
        requires
            old(self)@.inv(),
            old(self)@.expects(ev@),
        ensures
            (final(self)@, a@) == spec_step(old(self)@, ev@),
            final(self)@.inv(),
    {
        let ghost evm = ev@;
        let mut ph = Phase::Done;
        core::mem::swap(&mut self.phase, &mut ph);
        match (ph, ev) {
            (Phase::AwaitState, Event::StateLoaded(file)) => match file {
                None => {
                    let mut st = KernelState::fresh(self.home.clone(), self.name.clone());
                    let _ = st.update_device(self.source.clone());
                    self.state = st;
                    let bytes = encode_state(&self.state);
                    self.phase = Phase::AwaitSaveCleared;
                    Action::SaveState(bytes)
                },
                Some(bytes) => {
                    proof {
                        assert(evm matches EventModel::StateLoaded(f) && f matches Some(fb)
                            && fb =~= bytes@);
                        assert(evm == EventModel::StateLoaded(Some(bytes@)));
                    }
                    match decode_state(&bytes) {
                        None => {
                            self.phase = Phase::Done;
                            Action::Finish(Err(BuildError::CorruptState))
                        },
                        Some(st) => {
                            self.state = st;
                            let changed = self.state.update_device(self.source.clone());
                            if !changed {
                                self.proceed()
                            } else {
                                self.phase = Phase::AwaitClear;
                                Action::ClearScaffold(scaffold_removals(&self.config))
                            }
                        },
                    }
                },
            },
            (Phase::AwaitClear, Event::IoOk) => {
                let bytes = encode_state(&self.state);
                self.phase = Phase::AwaitSaveCleared;
                Action::SaveState(bytes)
            },
            (Phase::AwaitSaveCleared, Event::IoOk) => self.proceed(),
            (Phase::AwaitScaffold, Event::IoOk) => {
                self.state.mark_populated();
                let bytes = encode_state(&self.state);
                self.phase = Phase::AwaitSaveScaffolded;
                Action::SaveState(bytes)
            },
            (Phase::AwaitSaveScaffolded, Event::IoOk) => self.proceed(),
            (Phase::AwaitBuild, Event::BuildFinished { exit_ok, stderr, stdout, status }) => {
                match command_output_result(exit_ok, &stderr, &stdout, &status) {
                    Ok(msg) => {
                        self.phase = Phase::AwaitArtifact(msg);
                        Action::ReadArtifact(
                            ProjectFile {
                                dir: self.config.artifact_dir.clone(),
                                name: self.config.artifact_name.clone(),
                                contents: String::new(),
                            },
                        )
                    },
                    Err(msg) => {
                        self.state.record_failure(msg.clone());
                        let bytes = encode_state(&self.state);
                        self.phase = Phase::AwaitSaveFailure(msg);
                        Action::SaveState(bytes)
                    },
                }
            },
            (Phase::AwaitBuild, Event::SpawnFailed(t)) => {
                self.phase = Phase::Done;
                Action::Finish(Err(BuildError::SpawnFailed(t)))
            },
            (Phase::AwaitArtifact(msg), Event::ArtifactLoaded(found)) => match found {
                Some(art) => {
                    self.state.record_success(msg, art);
                    let bytes = encode_state(&self.state);
                    self.phase = Phase::AwaitSaveSuccess;
                    Action::SaveState(bytes)
                },
                None => {
                    self.phase = Phase::Done;
                    Action::Finish(Err(BuildError::MissingArtifact))
                },
            },
            (Phase::AwaitSaveSuccess, Event::IoOk) => {
                self.phase = Phase::Done;
                match &self.state.artifact {
                    Some(k) => Action::Finish(Ok(k.clone())),
                    None => Action::Finish(Err(BuildError::MissingArtifact)),
                }
            },
            (Phase::AwaitSaveFailure(msg), Event::IoOk) => {
                self.phase = Phase::Done;
                Action::Finish(Err(BuildError::ToolchainFailed(msg)))
            },
            (_, Event::IoErr(t)) => {
                self.phase = Phase::Done;
                Action::Finish(Err(BuildError::Io(t)))
            },
            _ => {
                proof {
                    assert(false);
                }
                Action::ReadState
            },
        }
    }
}

/// Law (idempotence): when the state file holds a record that already
/// compiled the requested source, the engine answers from the cache: its
/// very first step finishes with the cached artifact, so neither scaffolding
/// nor the toolchain is ever requested. Over two successive runs with the
/// same source, the toolchain therefore runs at most once.
pub proof fn lemma_second_call_uses_cache(e: EngineModel, st: StateModel)
    requires
        e.phase is AwaitState,
        st.wf(),
        fits(st),
        st.source_matches(e.source),
        st.populated,
        st.compiled,
    ensures
        ({
            let (e2, a) = spec_step(e, EventModel::StateLoaded(Some(encoding(st))));
            &&& e2.phase is Done
            &&& e2.state == st
            &&& a == ActionModel::Finish(Ok(st.artifact.unwrap()))
        }),
{
    lemma_encoding_round_trip(st);
    assert(decoding(encoding(st)) == Some(st));
    assert(spec_step(e, EventModel::StateLoaded(Some(encoding(st)))) == spec_proceed(
        EngineModel { state: st, ..e },
    ));
}

/// Law (invalidation correctness): when the state file holds a record whose
/// stored source differs from the requested one, the first step already
/// clears the record — the stored source becomes the new one, and artifact,
/// message, and flags are gone — and asks for the scaffold files to be
/// removed, before any scaffolding or build is issued.
pub proof fn lemma_changed_source_invalidates(e: EngineModel, st: StateModel)
    requires
        e.phase is AwaitState,
        st.wf(),
        fits(st),
        !st.source_matches(e.source),
    ensures
        ({
            let (e2, a) = spec_step(e, EventModel::StateLoaded(Some(encoding(st))));
            &&& e2.state == st.invalidated(e.source)
            &&& e2.state.device_source == Some(e.source)
            &&& e2.state.artifact is None
            &&& e2.state.message is None
            &&& !e2.state.compiled
            &&& !e2.state.populated
            &&& a == ActionModel::ClearScaffold(removal_plan(e.config))
        }),
{
    lemma_encoding_round_trip(st);
}

/// Law (an artifact is cached exactly when compiled, and the key is pinned):
/// every step taken from an engine satisfying the invariant, on an event its
/// phase expects, yields an engine satisfying it again; in particular, in
/// every reachable state the record holds an artifact exactly when it records
/// a successful build, and once the record has been loaded its stored source
/// never changes again within the run.
#[verifier::rlimit(100)]
pub proof fn lemma_step_keeps_invariant(e: EngineModel, ev: EventModel)
    requires
        e.inv(),
        e.expects(ev),
    ensures
        spec_step(e, ev).0.inv(),
        spec_step(e, ev).0.state.compiled <==> spec_step(e, ev).0.state.artifact is Some,
        !(e.phase is AwaitState) ==> spec_step(e, ev).0.state.device_source
            == e.state.device_source,
{
    match (e.phase, ev) {
        (PhaseModel::AwaitState, EventModel::StateLoaded(file)) => match file {
            None => {
            },
            Some(b) => match decoding(b) {
                None => {
                },
                Some(m) => {
                    assert(m.wf());
                },
            },
        },
        (PhaseModel::AwaitBuild, EventModel::BuildFinished { exit_ok, stderr, stdout, status }) => {
        },
        (PhaseModel::AwaitArtifact(msg), EventModel::ArtifactLoaded(found)) => {
        },
        _ => {
        },
    }
}

/// Law (failure does not corrupt the cache key): when the toolchain reports
/// failure, the record keeps the stored source that was attempted, records
/// the diagnostic, caches no artifact, and is persisted in exactly that form;
/// the following acknowledgement ends the run with the toolchain's
/// diagnostic.
pub proof fn lemma_failure_keeps_source(
    e: EngineModel,
    stderr: Seq<char>,
    stdout: Seq<char>,
    status: Seq<char>,
)
    requires
        e.inv(),
        e.phase is AwaitBuild,
    ensures
        ({
            let (e2, a) = spec_step(
                e,
                EventModel::BuildFinished { exit_ok: false, stderr, stdout, status },
            );
            let msg = failure_message(stderr, stdout, status);
            &&& e2.state.device_source == e.state.device_source
            &&& e2.state.device_source == Some(e.source)
            &&& !e2.state.compiled
            &&& e2.state.artifact is None
            &&& e2.state.message == Some(msg)
            &&& e2.phase == PhaseModel::AwaitSaveFailure(msg)
            &&& a == ActionModel::SaveState(encoding(e2.state))
            &&& spec_step(e2, EventModel::IoOk).1 == ActionModel::Finish(
                Err(ErrorModel::ToolchainFailed(msg)),
            )
        }),
{
}

/// Law (failure is retried): a record for the requested source whose
/// scaffold stands but whose last build did not succeed leads straight to a
/// new build — a failure is never cached as permanent.
pub proof fn lemma_failure_is_retried(e: EngineModel, st: StateModel)
    requires
        e.phase is AwaitState,
        st.wf(),
        fits(st),
        st.source_matches(e.source),
        st.populated,
        !st.compiled,
    ensures
        ({
            let (e2, a) = spec_step(e, EventModel::StateLoaded(Some(encoding(st))));
            &&& a == ActionModel::RunBuild
            &&& e2.phase is AwaitBuild
            &&& e2.state == st
        }),
{
    lemma_encoding_round_trip(st);
}

} // verus!
