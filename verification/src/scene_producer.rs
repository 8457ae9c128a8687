//! The lifecycle of a scene, which ends when both its task and its cleanup have ended.
use crate::context::{Attempt, SpanEventAdmission};
use crate::custom_act_binding::ActTaskAuthority;
use crate::event::{
    DiagnosticScope, EventCandidate, RunLocalId, SpanStartDetail, TerminalSpan,
};
use crate::python_error::ErrorClass;
use crate::run::{DiagnosticRun, DiagnosticRuns};
use crate::runtime_producer::{RuntimeProducerRegistry, RuntimeTaskPhase};
use std::collections::HashMap;
use vstd::prelude::*;

verus! {

broadcast use vstd::std_specs::hash::group_hash_axioms;

/// What the runtime announces of a scene.
#[derive(Clone, Copy, Debug, PartialEq, Eq, Structural)]
pub enum SceneHook {
    BindingCreated,
    SceneCreated,
    TaskRegistered,
    SceneFinished,
}

/// The name of a scene, as far as it can serve as an identifier.
#[derive(Debug, PartialEq, Eq)]
pub enum SceneName {
    NotUtf8,
    NotAnIdentifier,
    Identifier(RunLocalId),
}

impl Clone for SceneName {
    fn clone(&self) -> (copy: Self)
        ensures
            copy == *self,
    {
        match self {
            SceneName::NotUtf8 => SceneName::NotUtf8,
            SceneName::NotAnIdentifier => SceneName::NotAnIdentifier,
            SceneName::Identifier(id) => SceneName::Identifier(id.clone()),
        }
    }
}

/// A scene of the runtime: the key that it is known by, the binding of its run, and its name.
#[derive(Debug, PartialEq, Eq)]
pub struct SceneScope {
    pub key: usize,
    pub binding_key: Option<usize>,
    pub name: SceneName,
}

impl Clone for SceneScope {
    fn clone(&self) -> (copy: Self)
        ensures
            copy == *self,
    {
        SceneScope { key: self.key, binding_key: self.binding_key, name: self.name.clone() }
    }
}

/// What a task of the runtime works for. A task of an act holds the act's authority.
#[derive(Debug, PartialEq, Eq)]
pub struct TaskLineage {
    pub active: bool,
    pub runtime: Option<(usize, RuntimeTaskPhase)>,
    pub cued_key: Option<usize>,
    pub scene: Option<SceneScope>,
    pub act_authority: Option<ActTaskAuthority>,
}

impl Clone for TaskLineage {
    fn clone(&self) -> (copy: Self)
        ensures
            copy == *self,
    {
        TaskLineage {
            active: self.active,
            runtime: self.runtime,
            cued_key: self.cued_key,
            scene: match &self.scene {
                Some(scene) => Some(scene.clone()),
                None => None,
            },
            act_authority: self.act_authority,
        }
    }
}

impl TaskLineage {
    /// The same lineage with this authority.
    pub open spec fn having(self, act_authority: Option<ActTaskAuthority>) -> Self {
        TaskLineage { act_authority, ..self }
    }

    pub fn without_act_authority(&self) -> (lineage: Self)
        ensures
            lineage == self.having(None),
    {
        let mut lineage = self.clone();
        lineage.act_authority = None;
        lineage
    }

    pub fn with_act_authority(&self, authority: ActTaskAuthority) -> (lineage: Self)
        ensures
            lineage == self.having(Some(authority)),
    {
        let mut lineage = self.clone();
        lineage.act_authority = Some(authority);
        lineage
    }
}

/// Where a fact of a scene hangs in the run.
#[derive(Debug, PartialEq, Eq)]
pub struct SceneLineageSnapshot {
    pub run: usize,
    pub scope: DiagnosticScope,
    pub run_span_id: u64,
    pub scene_span_id: u64,
}

impl Clone for SceneLineageSnapshot {
    fn clone(&self) -> (copy: Self)
        ensures
            copy == *self,
    {
        SceneLineageSnapshot {
            run: self.run,
            scope: self.scope.clone(),
            run_span_id: self.run_span_id,
            scene_span_id: self.scene_span_id,
        }
    }
}

/// Reports the lifecycle of one scene.
#[derive(Debug, PartialEq, Eq)]
pub struct SceneLifecycleProducer {
    pub lineage: SceneLineageSnapshot,
    pub task_terminal: Option<TerminalSpan>,
    pub cleanup_finished: bool,
    pub finish_attempted: bool,
}

/// The identifier of a scene, or what is wrong with its name.
pub open spec fn spec_scene_identifier(name: SceneName) -> Result<RunLocalId, &'static str> {
    match name {
        SceneName::NotUtf8 => Err("scene.name-not-utf8"),
        SceneName::NotAnIdentifier => Err("scene.invalid-run-local-id"),
        SceneName::Identifier(id) => Ok(id),
    }
}

pub fn scene_identifier(name: &SceneName) -> (id: Result<RunLocalId, &'static str>)
    ensures
        id == spec_scene_identifier(*name),
{
    match name {
        SceneName::NotUtf8 => Err("scene.name-not-utf8"),
        SceneName::NotAnIdentifier => Err("scene.invalid-run-local-id"),
        SceneName::Identifier(id) => Ok(id.clone()),
    }
}

/// How a scene ends.
pub open spec fn spec_scene_terminal(error: Option<ErrorClass>) -> TerminalSpan {
    match error {
        None => TerminalSpan::spec_completed(),
        Some(error) => if error.cancelled {
            TerminalSpan::spec_cancelled("scene-lifecycle-cancelled")
        } else {
            TerminalSpan::spec_failed("scene-lifecycle-failed")
        },
    }
}

pub fn scene_terminal(error: Option<ErrorClass>) -> (terminal: TerminalSpan)
    ensures
        terminal == spec_scene_terminal(error),
{
    match error {
        None => TerminalSpan::completed(),
        Some(error) => if error.cancelled {
            TerminalSpan::cancelled("scene-lifecycle-cancelled")
        } else {
            TerminalSpan::failed("scene-lifecycle-failed")
        },
    }
}

impl SceneLifecycleProducer {
    /// The scope of a scene.
    pub open spec fn scope_of(scene_id: RunLocalId) -> DiagnosticScope {
        DiagnosticScope { scene_id: Some(scene_id), ..DiagnosticScope::of_run() }
    }

    /// The start of the scene's span within the run's span.
    pub open spec fn start_event(scene_id: RunLocalId, run_span_id: u64) -> EventCandidate {
        EventCandidate::started(
            SceneLifecycleProducer::scope_of(scene_id),
            SpanStartDetail::SceneLifecycle,
            Some(run_span_id),
            None,
        )
    }

    /// A scene whose span has just started.
    pub open spec fn started(
        place: usize,
        scene_id: RunLocalId,
        run_span_id: u64,
        scene_span_id: u64,
    ) -> Self {
        SceneLifecycleProducer {
            lineage: SceneLineageSnapshot {
                run: place,
                scope: SceneLifecycleProducer::scope_of(scene_id),
                run_span_id,
                scene_span_id,
            },
            task_terminal: None,
            cleanup_finished: false,
            finish_attempted: false,
        }
    }

    /// Starts the span of a scene. In a run that has failed no scene starts.
    pub fn start<A: SpanEventAdmission>(
        place: usize,
        run: &mut DiagnosticRun<A>,
        run_span_id: u64,
        scene_id: RunLocalId,
    ) -> (producer: Option<Self>)
        ensures
            if old(run).failure is Some {
                producer is None && *final(run) == *old(run)
            } else {
                &&& final(run).follows(
                    *old(run),
                    SceneLifecycleProducer::start_event(scene_id, run_span_id).alone(),
                )
                &&& producer == match Attempt::nth(final(run).accepted_since(*old(run)), 0) {
                    Some(scene_span_id) => Some(
                        SceneLifecycleProducer::started(place, scene_id, run_span_id, scene_span_id),
                    ),
                    None => None,
                }
            },
    {
        if run.failure.is_some() {
            return None;
        }
        let scope = DiagnosticScope {
            scene_id: Some(scene_id),
            actor_id: None,
            cue_id: None,
            effect_id: None,
            act_id: None,
            tool_call_id: None,
            session_generation: None,
        };
        match run.context.start_span(
            scope.clone(),
            SpanStartDetail::SceneLifecycle,
            Some(run_span_id),
        ) {
            Ok(scene_span_id) => Some(
                SceneLifecycleProducer {
                    lineage: SceneLineageSnapshot {
                        run: place,
                        scope,
                        run_span_id,
                        scene_span_id,
                    },
                    task_terminal: None,
                    cleanup_finished: false,
                    finish_attempted: false,
                },
            ),
            Err(error) => {
                run.latch_diagnostic_failure(error);
                None
            },
        }
    }

    pub open spec fn spec_snapshot(self) -> Option<SceneLineageSnapshot> {
        if self.finish_attempted {
            None
        } else {
            Some(self.lineage)
        }
    }

    /// Where a fact of the scene hangs, until the scene has ended.
    pub fn snapshot(&self) -> (snapshot: Option<SceneLineageSnapshot>)
        ensures
            snapshot == self.spec_snapshot(),
    {
        if self.finish_attempted {
            None
        } else {
            Some(self.lineage.clone())
        }
    }

    /// The end of the scene's span.
    pub open spec fn end_event(self) -> EventCandidate {
        EventCandidate::finished(
            self.lineage.scope,
            self.lineage.scene_span_id,
            self.task_terminal->0.outcome,
            self.task_terminal->0.code(),
            None,
        )
    }

    /// The scene ends once both its task and its cleanup have ended. A run that has failed hears
    /// nothing of it.
    pub open spec fn on_try_finish<A: SpanEventAdmission>(
        self,
        after: Self,
        run: DiagnosticRun<A>,
        run_after: DiagnosticRun<A>,
        finished: bool,
    ) -> bool {
        if self.task_terminal is None || !self.cleanup_finished {
            after == self && run_after == run && !finished
        } else {
            &&& after == (SceneLifecycleProducer { finish_attempted: true, ..self })
            &&& finished
            &&& if run.failure is Some {
                run_after == run
            } else {
                run_after.follows(run, self.end_event().alone())
            }
        }
    }

    fn try_finish<A: SpanEventAdmission>(&mut self, run: &mut DiagnosticRun<A>) -> (finished: bool)
        ensures
            old(self).on_try_finish(*final(self), *old(run), *final(run), finished),
    {
        let terminal = match self.task_terminal {
            Some(terminal) => terminal,
            None => return false,
        };
        if !self.cleanup_finished {
            return false;
        }
        self.finish_attempted = true;
        if run.failure.is_some() {
            return true;
        }
        if let Err(error) = run.context.finish_span(
            self.lineage.scope.clone(),
            self.lineage.scene_span_id,
            terminal.outcome,
            terminal.event_code(),
        ) {
            run.latch_diagnostic_failure(error);
        }
        true
    }

    pub open spec fn on_task_finished<A: SpanEventAdmission>(
        self,
        after: Self,
        run: DiagnosticRun<A>,
        run_after: DiagnosticRun<A>,
        terminal: TerminalSpan,
        finished: bool,
    ) -> bool {
        if self.task_terminal is Some || self.finish_attempted {
            &&& after == self
            &&& run_after == run.with_state_failure("scene.task-terminal-transition-invalid")
            &&& finished == self.finish_attempted
        } else {
            (SceneLifecycleProducer { task_terminal: Some(terminal), ..self }).on_try_finish(
                after,
                run,
                run_after,
                finished,
            )
        }
    }

    /// The task of the scene has ended. Tells whether the scene has.
    pub fn task_finished<A: SpanEventAdmission>(
        &mut self,
        run: &mut DiagnosticRun<A>,
        error: Option<ErrorClass>,
    ) -> (finished: bool)
        ensures
            old(self).on_task_finished(
                *final(self),
                *old(run),
                *final(run),
                spec_scene_terminal(error),
                finished,
            ),
    {
        if self.task_terminal.is_some() || self.finish_attempted {
            run.latch_state_failure("scene.task-terminal-transition-invalid");
            return self.finish_attempted;
        }
        self.task_terminal = Some(scene_terminal(error));
        self.try_finish(run)
    }

    pub open spec fn on_cleanup_finished<A: SpanEventAdmission>(
        self,
        after: Self,
        run: DiagnosticRun<A>,
        run_after: DiagnosticRun<A>,
        finished: bool,
    ) -> bool {
        if self.cleanup_finished || self.finish_attempted {
            &&& after == self
            &&& run_after == run.with_state_failure("scene.cleanup-terminal-transition-invalid")
            &&& finished == self.finish_attempted
        } else {
            (SceneLifecycleProducer { cleanup_finished: true, ..self }).on_try_finish(
                after,
                run,
                run_after,
                finished,
            )
        }
    }

    /// The cleanup of the scene has ended. Tells whether the scene has.
    pub fn cleanup_finished<A: SpanEventAdmission>(&mut self, run: &mut DiagnosticRun<A>) -> (finished:
        bool)
        ensures
            old(self).on_cleanup_finished(*final(self), *old(run), *final(run), finished),
    {
        if self.cleanup_finished || self.finish_attempted {
            run.latch_state_failure("scene.cleanup-terminal-transition-invalid");
            return self.finish_attempted;
        }
        self.cleanup_finished = true;
        self.try_finish(run)
    }
}

/// The scenes that are under way, by their keys.
pub struct SceneRegistry {
    pub scenes: HashMap<usize, SceneLifecycleProducer>,
}

impl View for SceneRegistry {
    type V = Map<usize, SceneLifecycleProducer>;

    open spec fn view(&self) -> Map<usize, SceneLifecycleProducer> {
        self.scenes@
    }
}

impl SceneRegistry {
    /// Every scene reports through a run that is open.
    pub open spec fn fits<A: SpanEventAdmission>(self, runs: DiagnosticRuns<A>) -> bool {
        forall|key: usize| #[trigger]
            self@.contains_key(key) ==> self@[key].lineage.run < runs@.len()
    }

    pub fn new() -> (registry: Self)
        ensures
            registry@ == Map::<usize, SceneLifecycleProducer>::empty(),
    {
        SceneRegistry { scenes: HashMap::new() }
    }

    pub open spec fn spec_snapshot_for(self, key: usize) -> Option<SceneLineageSnapshot> {
        if self@.contains_key(key) {
            self@[key].spec_snapshot()
        } else {
            None
        }
    }

    pub fn snapshot_for_scene(&self, scene: &SceneScope) -> (snapshot: Option<SceneLineageSnapshot>)
        ensures
            snapshot == self.spec_snapshot_for(scene.key),
    {
        match self.scenes.get(&scene.key) {
            Some(producer) => producer.snapshot(),
            None => None,
        }
    }

    pub open spec fn spec_lineage(self, lineage: TaskLineage) -> Option<SceneLineageSnapshot> {
        match lineage.scene {
            Some(scene) if lineage.active => self.spec_snapshot_for(scene.key),
            _ => None,
        }
    }

    /// Where a fact of a task of a scene hangs, while the task is active.
    pub fn lineage_snapshot(&self, lineage: &TaskLineage) -> (snapshot: Option<
        SceneLineageSnapshot,
    >)
        ensures
            snapshot == self.spec_lineage(*lineage),
    {
        if !lineage.active {
            return None;
        }
        match &lineage.scene {
            Some(scene) => self.snapshot_for_scene(scene),
            None => None,
        }
    }

    pub open spec fn on_scene_created<A: SpanEventAdmission>(
        self,
        after: Self,
        runtimes: RuntimeProducerRegistry,
        runs: DiagnosticRuns<A>,
        runs_after: DiagnosticRuns<A>,
        scene: SceneScope,
    ) -> bool {
        match runtimes.spec_bound(scene.binding_key) {
            None => after@ == self@ && runs_after == runs,
            Some(place) => match spec_scene_identifier(scene.name) {
                Err(code) => {
                    after@ == self@ && runtimes.latched(runs_after, runs, place, code)
                },
                Ok(scene_id) => if self@.contains_key(scene.key) {
                    &&& after@ == self@
                    &&& runtimes.latched(
                        runs_after,
                        runs,
                        place,
                        "scene.lifecycle-already-started",
                    )
                } else {
                    let runtime = runtimes.producers@[place as int];
                    let run = runs@[runtime.run as int];
                    let run_after = runs_after@[runtime.run as int];
                    &&& runs_after.only_changes(runs, runtime.run as int)
                    &&& if run.failure is Some {
                        after@ == self@ && run_after == run
                    } else {
                        &&& run_after.follows(
                            run,
                            SceneLifecycleProducer::start_event(
                                scene_id,
                                runtime.state.run_span_id,
                            ).alone(),
                        )
                        &&& after@ == match Attempt::nth(run_after.accepted_since(run), 0) {
                            Some(scene_span_id) => self@.insert(
                                scene.key,
                                SceneLifecycleProducer::started(
                                    runtime.run,
                                    scene_id,
                                    runtime.state.run_span_id,
                                    scene_span_id,
                                ),
                            ),
                            None => self@,
                        }
                    }
                },
            },
        }
    }

    /// A scene begins. Only a run with diagnostics reports it.
    pub fn scene_created<A: SpanEventAdmission>(
        &mut self,
        runtimes: &RuntimeProducerRegistry,
        runs: &mut DiagnosticRuns<A>,
        scene: &SceneScope,
    )
        requires
            old(self).fits(*old(runs)),
            runtimes.wf(),
            runtimes.fits(*old(runs)),
        ensures
            final(self).fits(*final(runs)),
            runtimes.fits(*final(runs)),
            old(self).on_scene_created(*final(self), *runtimes, *old(runs), *final(runs), *scene),
    {
        let place = match runtimes.producer_bound(scene.binding_key) {
            Some(place) => place,
            None => return,
        };
        let run: usize = runtimes.producers[place].run;
        let scene_id = match scene_identifier(&scene.name) {
            Ok(scene_id) => scene_id,
            Err(code) => {
                runs.runs[run].latch_state_failure(code);
                return;
            },
        };
        if self.scenes.contains_key(&scene.key) {
            runs.runs[run].latch_state_failure("scene.lifecycle-already-started");
            return;
        }
        let run_span_id: u64 = runtimes.producers[place].state.run_span_id;
        if let Some(producer) = SceneLifecycleProducer::start(
            run,
            &mut runs.runs[run],
            run_span_id,
            scene_id,
        ) {
            self.scenes.insert(scene.key, producer);
        }
    }

    /// What is left of a scene after a step: nothing once it has finished.
    pub open spec fn stepped(
        self,
        after: Self,
        key: usize,
        producer_after: SceneLifecycleProducer,
        finished: bool,
    ) -> bool {
        after@ =~= if finished {
            self@.remove(key)
        } else {
            self@.insert(key, producer_after)
        }
    }

    pub open spec fn on_task_finished<A: SpanEventAdmission>(
        self,
        after: Self,
        runtimes: RuntimeProducerRegistry,
        runs: DiagnosticRuns<A>,
        runs_after: DiagnosticRuns<A>,
        scene: SceneScope,
        terminal: TerminalSpan,
    ) -> bool {
        if !self@.contains_key(scene.key) {
            &&& after@ == self@
            &&& runtimes.latched_for(
                runs_after,
                runs,
                scene.binding_key,
                "scene.task-terminal-without-lifecycle",
            )
        } else {
            let producer = self@[scene.key];
            let run = producer.lineage.run as int;
            &&& runs_after.only_changes(runs, run)
            &&& exists|producer_after: SceneLifecycleProducer, finished: bool|
                {
                    &&& #[trigger] producer.on_task_finished(
                        producer_after,
                        runs@[run],
                        runs_after@[run],
                        terminal,
                        finished,
                    )
                    &&& self.stepped(after, scene.key, producer_after, finished)
                }
        }
    }

    /// The task of a scene has ended, with what is known of its error.
    pub fn task_ended<A: SpanEventAdmission>(
        &mut self,
        runtimes: &RuntimeProducerRegistry,
        runs: &mut DiagnosticRuns<A>,
        scene: &SceneScope,
        error: Option<ErrorClass>,
    )
        requires
            old(self).fits(*old(runs)),
            runtimes.wf(),
            runtimes.fits(*old(runs)),
        ensures
            final(self).fits(*final(runs)),
            runtimes.fits(*final(runs)),
            old(self).on_task_finished(
                *final(self),
                *runtimes,
                *old(runs),
                *final(runs),
                *scene,
                spec_scene_terminal(error),
            ),
    {
        match self.scenes.remove(&scene.key) {
            None => {
                assert(self@ =~= old(self)@);
                runtimes.latch_for_binding(
                    runs,
                    scene.binding_key,
                    "scene.task-terminal-without-lifecycle",
                );
            },
            Some(producer) => {
                let mut producer = producer;
                let ghost before = producer;
                let run: usize = producer.lineage.run;
                let finished = producer.task_finished(&mut runs.runs[run], error);
                assert(before.on_task_finished(
                    producer,
                    old(runs)@[run as int],
                    runs@[run as int],
                    spec_scene_terminal(error),
                    finished,
                ));
                let ghost producer_after = producer;
                if !finished {
                    self.scenes.insert(scene.key, producer);
                }
                assert(old(self).stepped(*self, scene.key, producer_after, finished));
            },
        }
    }

    /// The task of a scene has ended, with the error that it raised.
    pub fn task_finished<A: SpanEventAdmission>(
        &mut self,
        runtimes: &RuntimeProducerRegistry,
        runs: &mut DiagnosticRuns<A>,
        scene: &SceneScope,
        error: Option<&pyo3::PyErr>,
    )
        requires
            old(self).fits(*old(runs)),
            runtimes.wf(),
            runtimes.fits(*old(runs)),
        ensures
            final(self).fits(*final(runs)),
            runtimes.fits(*final(runs)),
            exists|class: Option<ErrorClass>|
                ErrorClass::is_of_result(class, error) && old(self).on_task_finished(
                    *final(self),
                    *runtimes,
                    *old(runs),
                    *final(runs),
                    *scene,
                    #[trigger] spec_scene_terminal(class),
                ),
    {
        self.task_ended(runtimes, runs, scene, ErrorClass::of_result(error));
    }

    pub open spec fn on_scene_finished<A: SpanEventAdmission>(
        self,
        after: Self,
        runtimes: RuntimeProducerRegistry,
        runs: DiagnosticRuns<A>,
        runs_after: DiagnosticRuns<A>,
        scene: SceneScope,
    ) -> bool {
        if !self@.contains_key(scene.key) {
            &&& after@ == self@
            &&& runtimes.latched_for(
                runs_after,
                runs,
                scene.binding_key,
                "scene.cleanup-terminal-without-lifecycle",
            )
        } else {
            let producer = self@[scene.key];
            let run = producer.lineage.run as int;
            &&& runs_after.only_changes(runs, run)
            &&& exists|producer_after: SceneLifecycleProducer, finished: bool|
                {
                    &&& #[trigger] producer.on_cleanup_finished(
                        producer_after,
                        runs@[run],
                        runs_after@[run],
                        finished,
                    )
                    &&& self.stepped(after, scene.key, producer_after, finished)
                }
        }
    }

    /// The cleanup of a scene has ended.
    pub fn scene_finished<A: SpanEventAdmission>(
        &mut self,
        runtimes: &RuntimeProducerRegistry,
        runs: &mut DiagnosticRuns<A>,
        scene: &SceneScope,
    )
        requires
            old(self).fits(*old(runs)),
            runtimes.wf(),
            runtimes.fits(*old(runs)),
        ensures
            final(self).fits(*final(runs)),
            runtimes.fits(*final(runs)),
            old(self).on_scene_finished(*final(self), *runtimes, *old(runs), *final(runs), *scene),
    {
        match self.scenes.remove(&scene.key) {
            None => {
                assert(self@ =~= old(self)@);
                runtimes.latch_for_binding(
                    runs,
                    scene.binding_key,
                    "scene.cleanup-terminal-without-lifecycle",
                );
            },
            Some(producer) => {
                let mut producer = producer;
                let ghost before = producer;
                let run: usize = producer.lineage.run;
                let finished = producer.cleanup_finished(&mut runs.runs[run]);
                assert(before.on_cleanup_finished(
                    producer,
                    old(runs)@[run as int],
                    runs@[run as int],
                    finished,
                ));
                let ghost producer_after = producer;
                if !finished {
                    self.scenes.insert(scene.key, producer);
                }
                assert(old(self).stepped(*self, scene.key, producer_after, finished));
            },
        }
    }

    /// What came of a hook of a scene.
    pub open spec fn on_observed<A: SpanEventAdmission>(
        self,
        after: Self,
        runtimes: RuntimeProducerRegistry,
        runs: DiagnosticRuns<A>,
        runs_after: DiagnosticRuns<A>,
        scene: SceneScope,
        hook: SceneHook,
    ) -> bool {
        match hook {
            SceneHook::SceneCreated => self.on_scene_created(
                after,
                runtimes,
                runs,
                runs_after,
                scene,
            ),
            SceneHook::SceneFinished => self.on_scene_finished(
                after,
                runtimes,
                runs,
                runs_after,
                scene,
            ),
            SceneHook::BindingCreated | SceneHook::TaskRegistered => {
                after == self && runs_after == runs
            },
        }
    }

    /// Takes a hook of a scene.
    pub fn observe_scene<A: SpanEventAdmission>(
        &mut self,
        runtimes: &RuntimeProducerRegistry,
        runs: &mut DiagnosticRuns<A>,
        scene: &SceneScope,
        hook: SceneHook,
    )
        requires
            old(self).fits(*old(runs)),
            runtimes.wf(),
            runtimes.fits(*old(runs)),
        ensures
            final(self).fits(*final(runs)),
            runtimes.fits(*final(runs)),
            old(self).on_observed(*final(self), *runtimes, *old(runs), *final(runs), *scene, hook),
    {
        match hook {
            SceneHook::SceneCreated => self.scene_created(runtimes, runs, scene),
            SceneHook::SceneFinished => self.scene_finished(runtimes, runs, scene),
            SceneHook::BindingCreated | SceneHook::TaskRegistered => {},
        }
    }

    /// A task of a scene was registered. It has to be active, in a scene that is under way.
    pub fn observe_task<A: SpanEventAdmission>(
        &self,
        runtimes: &RuntimeProducerRegistry,
        runs: &mut DiagnosticRuns<A>,
        lineage: &TaskLineage,
        hook: SceneHook,
    )
        requires
            runtimes.wf(),
            runtimes.fits(*old(runs)),
        ensures
            runtimes.fits(*final(runs)),
            final(runs)@.len() == old(runs)@.len(),
            if hook is TaskRegistered && lineage.scene is Some && self.spec_lineage(*lineage)
                is None {
                runtimes.latched_for(
                    *final(runs),
                    *old(runs),
                    lineage.scene->0.binding_key,
                    "scene.registered-task-lineage-invalid",
                )
            } else {
                *final(runs) == *old(runs)
            },
    {
        if !matches!(hook, SceneHook::TaskRegistered) {
            return;
        }
        let scene = match &lineage.scene {
            Some(scene) => scene,
            None => return,
        };
        if !lineage.active || self.lineage_snapshot(lineage).is_none() {
            runtimes.latch_for_binding(
                runs,
                scene.binding_key,
                "scene.registered-task-lineage-invalid",
            );
        }
    }
}

/// A scene ends when both its task and its cleanup have ended, in either order. The first reports
/// nothing, and the second reports how the task ended.
pub proof fn scene_ends_in_either_order<A: SpanEventAdmission>(
    scene: SceneLifecycleProducer,
    first: SceneLifecycleProducer,
    second: SceneLifecycleProducer,
    run: DiagnosticRun<A>,
    run_first: DiagnosticRun<A>,
    run_second: DiagnosticRun<A>,
    terminal: TerminalSpan,
    over_first: bool,
    over_second: bool,
    task_first: bool,
)
    requires
        scene.task_terminal is None,
        !scene.cleanup_finished,
        !scene.finish_attempted,
        if task_first {
            &&& scene.on_task_finished(first, run, run_first, terminal, over_first)
            &&& first.on_cleanup_finished(second, run_first, run_second, over_second)
        } else {
            &&& scene.on_cleanup_finished(first, run, run_first, over_first)
            &&& first.on_task_finished(second, run_first, run_second, terminal, over_second)
        },
    ensures
        !over_first,
        run_first == run,
        over_second,
        second == (SceneLifecycleProducer {
            task_terminal: Some(terminal),
            cleanup_finished: true,
            finish_attempted: true,
            ..scene
        }),
        run.failure is None ==> run_second.follows(run, second.end_event().alone()),
{
}

/// A scene that has ended reports nothing more, and its lineage is void.
pub proof fn ended_scene_rests<A: SpanEventAdmission>(
    scene: SceneLifecycleProducer,
    after: SceneLifecycleProducer,
    run: DiagnosticRun<A>,
    run_after: DiagnosticRun<A>,
    terminal: TerminalSpan,
    over: bool,
)
    requires
        scene.finish_attempted,
        scene.on_task_finished(after, run, run_after, terminal, over) || scene.on_cleanup_finished(
            after,
            run,
            run_after,
            over,
        ),
    ensures
        after == scene,
        run_after.context == run.context,
        scene.spec_snapshot() is None,
{
}

impl SceneLineageSnapshot {
    /// The spans that the facts of the scene hang from have begun.
    pub open spec fn is_rooted(self, trace: Seq<Attempt>) -> bool {
        &&& crate::references::begun_in(trace, self.run_span_id)
        &&& crate::references::begun_in(trace, self.scene_span_id)
    }
}

/// A scene that starts within a run that has begun has begun itself.
pub proof fn started_scene_refers_back<A: SpanEventAdmission>(
    run: DiagnosticRun<A>,
    run_after: DiagnosticRun<A>,
    place: usize,
    scene_id: RunLocalId,
    run_span_id: u64,
)
    requires
        crate::references::refer_back(run.context.trace()),
        crate::references::begun_in(run.context.trace(), run_span_id),
        run_after.follows(run, SceneLifecycleProducer::start_event(scene_id, run_span_id).alone()),
    ensures
        crate::references::refer_back(run_after.context.trace()),
        crate::references::goes_on(run.context.trace(), run_after.context.trace()),
        Attempt::nth(run_after.accepted_since(run), 0) matches Some(scene_span_id)
            ==> SceneLifecycleProducer::started(
            place,
            scene_id,
            run_span_id,
            scene_span_id,
        ).lineage.is_rooted(run_after.context.trace()),
{
    crate::references::one_fact_refers_back(
        run_after.context,
        run.context,
        SceneLifecycleProducer::start_event(scene_id, run_span_id),
    );
}

/// Whatever a scene reports refers only to spans that have begun.
pub proof fn facts_of_a_scene_refer_back<A: SpanEventAdmission>(
    scene: SceneLifecycleProducer,
    after: SceneLifecycleProducer,
    run: DiagnosticRun<A>,
    run_after: DiagnosticRun<A>,
    terminal: TerminalSpan,
    finished: bool,
)
    requires
        crate::references::refer_back(run.context.trace()),
        scene.lineage.is_rooted(run.context.trace()),
        scene.on_task_finished(after, run, run_after, terminal, finished)
            || scene.on_cleanup_finished(after, run, run_after, finished),
    ensures
        crate::references::refer_back(run_after.context.trace()),
        crate::references::goes_on(run.context.trace(), run_after.context.trace()),
        after.lineage.is_rooted(run_after.context.trace()),
{
    crate::references::what_began_stays_begun(run.context.trace(), run.context.trace());
    if run_after.context != run.context {
        crate::references::one_fact_refers_back(
            run_after.context,
            run.context,
            SceneLifecycleProducer {
                task_terminal: after.task_terminal,
                ..scene
            }.end_event(),
        );
    }
}

/// A scene ends as its task did: its span completed exactly where nothing was raised, was cancelled
/// exactly where a cancellation was raised, and failed otherwise, with a code exactly where it did not
/// complete. It ends once, when its task is over and its cleanup too.
pub proof fn scene_ends_as_its_task_did<A: SpanEventAdmission>(
    scene: SceneLifecycleProducer,
    after: SceneLifecycleProducer,
    run: DiagnosticRun<A>,
    run_after: DiagnosticRun<A>,
    error: Option<ErrorClass>,
    finished: bool,
)
    requires
        scene.on_task_finished(after, run, run_after, spec_scene_terminal(error), finished),
        scene.task_terminal is None,
        !scene.finish_attempted,
        run.failure is None,
    ensures
        ({
            let facts = run_after.steps_since(run);
            &&& finished <==> scene.cleanup_finished
            &&& facts.len() == if scene.cleanup_finished { 1int } else { 0int }
            &&& after.task_terminal matches Some(kept) && {
                &&& kept.outcome is Completed <==> error is None
                &&& kept.outcome is Cancelled <==> error is Some && error->0.cancelled
                &&& kept.outcome is Failed <==> error is Some && !error->0.cancelled
                &&& kept.error_code is None <==> error is None
            }
            &&& scene.cleanup_finished ==> {
                &&& facts[0].candidate.scope == scene.lineage.scope
                &&& facts[0].candidate.cause is None
                &&& facts[0].candidate.body matches crate::event::EventBody::SpanFinished {
                    span_id,
                    outcome,
                    error_code,
                } && {
                    &&& span_id == scene.lineage.scene_span_id
                    &&& error is Some ==> error_code->0@ == if error->0.cancelled {
                        "scene-lifecycle-cancelled"@
                    } else {
                        "scene-lifecycle-failed"@
                    }
                    &&& outcome is Completed <==> error is None
                    &&& outcome is Cancelled <==> error is Some && error->0.cancelled
                    &&& outcome is Failed <==> error is Some && !error->0.cancelled
                    &&& error_code is None <==> error is None
                }
            }
        }),
{
    let told = SceneLifecycleProducer {
        task_terminal: Some(spec_scene_terminal(error)),
        ..scene
    };
    if scene.cleanup_finished {
        crate::references::lone_fact(run.context, run_after.context, told.end_event());
    } else {
        assert(run_after.steps_since(run).len() == 0);
    }
}

/// A scene whose cleanup is over ends as its task has ended before, and not before its task.
pub proof fn cleaned_up_scene_ends_as_its_task_did<A: SpanEventAdmission>(
    scene: SceneLifecycleProducer,
    after: SceneLifecycleProducer,
    run: DiagnosticRun<A>,
    run_after: DiagnosticRun<A>,
    finished: bool,
)
    requires
        scene.on_cleanup_finished(after, run, run_after, finished),
        !scene.cleanup_finished,
        !scene.finish_attempted,
        run.failure is None,
    ensures
        ({
            let facts = run_after.steps_since(run);
            &&& after.cleanup_finished
            &&& finished <==> scene.task_terminal is Some
            &&& facts.len() == if scene.task_terminal is Some { 1int } else { 0int }
            &&& scene.task_terminal matches Some(told) ==> {
                &&& facts[0].candidate.scope == scene.lineage.scope
                &&& facts[0].candidate.cause is None
                &&& facts[0].candidate.body matches crate::event::EventBody::SpanFinished {
                    span_id,
                    outcome,
                    error_code,
                } && {
                    &&& span_id == scene.lineage.scene_span_id
                    &&& outcome == told.outcome
                    &&& error_code == match told.error_code {
                        Some(code) => Some(crate::event::ErrorCode::Stable(code)),
                        None => None,
                    }
                }
            }
        }),
{
    let cleaned = SceneLifecycleProducer { cleanup_finished: true, ..scene };
    if scene.task_terminal is Some {
        crate::references::lone_fact(run.context, run_after.context, cleaned.end_event());
    } else {
        assert(run_after.steps_since(run).len() == 0);
    }
}

/// A scene that is created begins in the span of its run, under its own name, and only there.
pub proof fn created_scene_begins_in_its_run<A: SpanEventAdmission>(
    scenes: SceneRegistry,
    after: SceneRegistry,
    runtimes: RuntimeProducerRegistry,
    runs: DiagnosticRuns<A>,
    runs_after: DiagnosticRuns<A>,
    scene: SceneScope,
)
    requires
        runtimes.wf(),
        runtimes.fits(runs),
        scenes.on_scene_created(after, runtimes, runs, runs_after, scene),
        !scenes@.contains_key(scene.key),
        runtimes.spec_bound(scene.binding_key) matches Some(place) && place
            < runtimes.producers@.len() && runs@[runtimes.producers@[place as int].run as int].failure
            is None,
        scene.name is Identifier,
    ensures
        ({
            let runtime = runtimes.producers@[runtimes.spec_bound(scene.binding_key)->0 as int];
            let run = runtime.run as int;
            let facts = runs_after@[run].steps_since(runs@[run]);
            &&& facts.len() == 1
            &&& facts[0].candidate.body == (crate::event::EventBody::SpanStarted {
                detail: SpanStartDetail::SceneLifecycle,
                parent_span_id: Some(runtime.state.run_span_id),
            })
            &&& facts[0].candidate.cause is None
            &&& facts[0].candidate.scope.scene_id == Some(scene.name->Identifier_0)
            &&& facts[0].candidate.scope.actor_id is None && facts[0].candidate.scope.cue_id is None
            &&& facts[0].reply is Ok ==> {
                &&& after@.contains_key(scene.key)
                &&& after@[scene.key].lineage.scene_span_id == facts[0].reply->Ok_0
                &&& after@[scene.key].lineage.run_span_id == runtime.state.run_span_id
                &&& after@[scene.key].lineage.run == runtime.run
                &&& after@[scene.key].lineage.scope == facts[0].candidate.scope
                &&& after@[scene.key].task_terminal is None && !after@[scene.key].cleanup_finished
            }
            &&& facts[0].reply is Err ==> after@ == scenes@
            &&& forall|other: int|
                0 <= other < runs@.len() && other != run ==> #[trigger] runs_after@[other]
                    == runs@[other]
        }),
{
    let runtime = runtimes.producers@[runtimes.spec_bound(scene.binding_key)->0 as int];
    let run = runtime.run as int;
    crate::references::lone_fact(
        runs@[run].context,
        runs_after@[run].context,
        SceneLifecycleProducer::start_event(scene.name->Identifier_0, runtime.state.run_span_id),
    );
}

/// A hook of a scene tells what happened: a scene that is created begins in its run, and one that
/// is finished has its cleanup over. Other hooks tell nothing and change nothing.
pub proof fn hooks_of_scenes_tell_what_happened<A: SpanEventAdmission>(
    scenes: SceneRegistry,
    after: SceneRegistry,
    runtimes: RuntimeProducerRegistry,
    runs: DiagnosticRuns<A>,
    runs_after: DiagnosticRuns<A>,
    scene: SceneScope,
    hook: SceneHook,
)
    requires
        scenes.fits(runs),
        runtimes.wf(),
        runtimes.fits(runs),
        scenes.on_observed(after, runtimes, runs, runs_after, scene, hook),
    ensures
        ({
            let known = scenes@.contains_key(scene.key);
            let producer = scenes@[scene.key];
            let run = producer.lineage.run as int;
            let bound = runtimes.spec_run_bound(scene.binding_key);
            let told = runs_after@[bound->0 as int].steps_since(runs@[bound->0 as int]);
            &&& hook is BindingCreated || hook is TaskRegistered ==> after == scenes && runs_after
                == runs
            &&& !known && hook is SceneCreated && bound is Some && runs@[bound->0 as int].failure
                is None && scene.name is Identifier ==> {
                &&& told.len() == 1
                &&& told[0].candidate.body is SpanStarted
                &&& told[0].candidate.body->SpanStarted_detail is SceneLifecycle
                &&& told[0].candidate.scope.scene_id == Some(scene.name->Identifier_0)
                &&& after@.contains_key(scene.key) <==> told[0].reply is Ok
            }
            &&& known && hook is SceneFinished && !producer.cleanup_finished
                && !producer.finish_attempted && runs@[run].failure is None ==> {
                let facts = runs_after@[run].steps_since(runs@[run]);
                &&& facts.len() == if producer.task_terminal is Some { 1int } else { 0int }
                &&& producer.task_terminal matches Some(terminal) ==> {
                    &&& facts[0].candidate.body is SpanFinished
                    &&& facts[0].candidate.body->outcome == terminal.outcome
                    &&& facts[0].candidate.body->SpanFinished_span_id
                        == producer.lineage.scene_span_id
                    &&& !after@.contains_key(scene.key)
                }
                &&& producer.task_terminal is None ==> after@.contains_key(scene.key)
                    && after@[scene.key].cleanup_finished
            }
            &&& known && hook is SceneCreated ==> after@ == scenes@
            &&& hook is SceneCreated && scene.name !is Identifier ==> after@ == scenes@ && (bound
                is Some ==> runs_after@[bound->0 as int].failure is Some
                && runs_after@[bound->0 as int].context == runs@[bound->0 as int].context)
            &&& forall|other: usize|
                other != scene.key ==> (#[trigger] after@.contains_key(other)
                    <==> scenes@.contains_key(other)) && (scenes@.contains_key(other)
                    ==> after@[other] == scenes@[other])
        }),
{
    let producer = scenes@[scene.key];
    let run = producer.lineage.run as int;
    if let Some(place) = runtimes.spec_bound(scene.binding_key) {
        assert(runtimes.producers@[place as int].run < runs@.len());
        if !scenes@.contains_key(scene.key) && hook is SceneCreated && scene.name is Identifier
            && runs@[runtimes.producers@[place as int].run as int].failure is None {
            created_scene_begins_in_its_run(scenes, after, runtimes, runs, runs_after, scene);
        }
    }
    if scenes@.contains_key(scene.key) && hook is SceneFinished {
        let (producer_after, finished) = choose|
            producer_after: SceneLifecycleProducer,
            finished: bool,
        |
            {
                &&& #[trigger] producer.on_cleanup_finished(
                    producer_after,
                    runs@[run],
                    runs_after@[run],
                    finished,
                )
                &&& scenes.stepped(after, scene.key, producer_after, finished)
            };
        if !producer.cleanup_finished && !producer.finish_attempted && runs@[run].failure is None {
            cleaned_up_scene_ends_as_its_task_did(
                producer,
                producer_after,
                runs@[run],
                runs_after@[run],
                finished,
            );
        }
    }
}

/// A fact hangs in a scene until the scene has ended, and a task hangs in the scene of its lineage
/// while it is active.
pub proof fn scenes_hold_facts_until_they_end(
    scenes: SceneRegistry,
    key: usize,
    lineage: TaskLineage,
)
    ensures
        scenes.spec_snapshot_for(key) is Some <==> scenes@.contains_key(key)
            && !scenes@[key].finish_attempted,
        scenes.spec_snapshot_for(key) matches Some(snapshot) ==> snapshot == scenes@[key].lineage,
        scenes.spec_lineage(lineage) is Some <==> lineage.active && lineage.scene is Some
            && scenes@.contains_key(lineage.scene->0.key)
            && !scenes@[lineage.scene->0.key].finish_attempted,
        scenes.spec_lineage(lineage) matches Some(snapshot) ==> snapshot
            == scenes@[lineage.scene->0.key].lineage,
{
}

} // verus!
