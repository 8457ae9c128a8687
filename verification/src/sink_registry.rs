//! The sinks of acts, and what acts without a run are known by.
use crate::agent::AgentSessionDiagnosticContext;
use crate::event::{DiagnosticScope, RunLocalId};
use crate::identifier::{numbered_id, same_text};
use std::collections::HashMap;
use vstd::prelude::*;

verus! {

broadcast use vstd::std_specs::hash::group_hash_axioms;

/// Who hears of the events of an act: no one yet, the sink of the act, or its authority alone.
#[derive(Clone, Copy, Debug, PartialEq, Eq, Structural)]
pub enum ActSubscriber {
    Reserved,
    Bound { sink_id: u64 },
    Authority { generation: u64 },
}

/// An act with its subscriber.
#[derive(Debug, PartialEq, Eq)]
pub struct RegistryEntry {
    pub act_id: RunLocalId,
    pub subscriber: ActSubscriber,
}

/// The subscribers of acts. An act has one at most.
#[derive(Debug, PartialEq, Eq)]
pub struct ActSinkRegistry {
    pub entries: Vec<RegistryEntry>,
}

impl View for ActSinkRegistry {
    type V = Seq<RegistryEntry>;

    open spec fn view(&self) -> Seq<RegistryEntry> {
        self.entries@
    }
}

/// An act is registered already.
#[derive(Clone, Copy, Debug, PartialEq, Eq, Structural)]
pub struct AlreadyRegistered;

impl AlreadyRegistered {
    /// Describes the error to a reader.
    pub fn describe(&self) -> (text: String)
        ensures
            text@ == "diagnostic Act subscriber identity is already registered"@,
    {
        "diagnostic Act subscriber identity is already registered".to_owned()
    }
}

impl ActSinkRegistry {
    pub open spec fn wf(self) -> bool {
        forall|i: int, j: int|
            0 <= i < j < self@.len() ==> (#[trigger] self@[i]).act_id@ != (
            #[trigger] self@[j]).act_id@
    }

    /// The entry at `place` is of this act.
    pub open spec fn has(self, act_id: Seq<char>, place: int) -> bool {
        0 <= place < self@.len() && self@[place].act_id@ == act_id
    }

    /// Who hears of the events of an act.
    pub open spec fn spec_entry(self, act_id: Seq<char>) -> Option<ActSubscriber> {
        if exists|place: int| self.has(act_id, place) {
            Some(self@[choose|place: int| self.has(act_id, place)].subscriber)
        } else {
            None
        }
    }

    /// Of all acts but this one the same is known as before.
    pub open spec fn keeps_others(self, after: Self, act_id: Seq<char>) -> bool {
        forall|other: Seq<char>|
            other != act_id ==> #[trigger] after.spec_entry(other) == self.spec_entry(other)
    }

    /// An act has one entry at most.
    proof fn entry_is_unique(self, act_id: Seq<char>, place: int)
        requires
            self.wf(),
            self.has(act_id, place),
        ensures
            self.spec_entry(act_id) == Some(self@[place].subscriber),
    {
        let chosen = choose|chosen: int| self.has(act_id, chosen);
        if chosen < place {
            assert(self@[chosen].act_id@ != self@[place].act_id@);
        }
        if place < chosen {
            assert(self@[place].act_id@ != self@[chosen].act_id@);
        }
    }

    pub fn new() -> (registry: Self)
        ensures
            registry.wf(),
            registry@ == Seq::<RegistryEntry>::empty(),
            forall|act_id: Seq<char>| #[trigger] registry.spec_entry(act_id) is None,
    {
        ActSinkRegistry { entries: Vec::new() }
    }

    fn place_of(&self, act_id: &str) -> (place: Option<usize>)
        requires
            self.wf(),
        ensures
            match place {
                Some(place) => {
                    &&& self.has(act_id@, place as int)
                    &&& self.spec_entry(act_id@) == Some(self@[place as int].subscriber)
                },
                None => self.spec_entry(act_id@) is None,
            },
    {
        for i in 0..self.entries.len()
            invariant
                self.wf(),
                forall|k: int| 0 <= k < i ==> (#[trigger] self@[k]).act_id@ != act_id@,
        {
            if same_text(self.entries[i].act_id.as_str(), act_id) {
                proof {
                    self.entry_is_unique(act_id@, i as int);
                }
                return Some(i);
            }
        }
        None
    }

    /// Who hears of the events of an act.
    pub fn entry(&self, act_id: &str) -> (subscriber: Option<ActSubscriber>)
        requires
            self.wf(),
        ensures
            subscriber == self.spec_entry(act_id@),
    {
        match self.place_of(act_id) {
            Some(place) => Some(self.entries[place].subscriber),
            None => None,
        }
    }

    /// Adding an entry for an act that has none leaves the others as they are.
    proof fn adding_keeps_others(self, after: Self, entry: RegistryEntry)
        requires
            self.wf(),
            self.spec_entry(entry.act_id@) is None,
            after@ == self@.push(entry),
        ensures
            after.wf(),
            after.spec_entry(entry.act_id@) == Some(entry.subscriber),
            self.keeps_others(after, entry.act_id@),
    {
        let last = self@.len() as int;
        assert forall|i: int, j: int| 0 <= i < j < after@.len() implies (
        #[trigger] after@[i]).act_id@ != (#[trigger] after@[j]).act_id@ by {
            if j == last {
                if after@[i].act_id@ == entry.act_id@ {
                    assert(self.has(entry.act_id@, i));
                }
            } else {
                assert(self@[i].act_id@ != self@[j].act_id@);
            }
        }
        assert(after.has(entry.act_id@, last));
        after.entry_is_unique(entry.act_id@, last);
        assert forall|other: Seq<char>| other != entry.act_id@ implies
            #[trigger] after.spec_entry(other) == self.spec_entry(other) by {
            if exists|place: int| self.has(other, place) {
                let place = choose|place: int| self.has(other, place);
                self.entry_is_unique(other, place);
                assert(after.has(other, place));
                after.entry_is_unique(other, place);
            } else if exists|place: int| after.has(other, place) {
                let place = choose|place: int| after.has(other, place);
                assert(self.has(other, place));
            }
        }
    }

    /// Removing the entry of an act leaves the others as they are.
    proof fn removing_keeps_others(self, after: Self, place: int)
        requires
            self.wf(),
            0 <= place < self@.len(),
            after@ == self@.remove(place),
        ensures
            after.wf(),
            after.spec_entry(self@[place].act_id@) is None,
            self.keeps_others(after, self@[place].act_id@),
    {
        let act_id = self@[place].act_id@;
        assert forall|i: int, j: int| 0 <= i < j < after@.len() implies (
        #[trigger] after@[i]).act_id@ != (#[trigger] after@[j]).act_id@ by {
            let before_i = if i < place {
                i
            } else {
                i + 1
            };
            let before_j = if j < place {
                j
            } else {
                j + 1
            };
            assert(self@[before_i].act_id@ != self@[before_j].act_id@);
        }
        if exists|other: int| after.has(act_id, other) {
            let other = choose|other: int| after.has(act_id, other);
            if other < place {
                assert(self@[other].act_id@ != self@[place].act_id@);
            } else {
                assert(self@[place].act_id@ != self@[other + 1].act_id@);
            }
        }
        assert forall|other: Seq<char>| other != act_id implies #[trigger] after.spec_entry(other)
            == self.spec_entry(other) by {
            if exists|at: int| self.has(other, at) {
                let at = choose|at: int| self.has(other, at);
                self.entry_is_unique(other, at);
                let moved = if at < place {
                    at
                } else {
                    at - 1
                };
                assert(after.has(other, moved));
                after.entry_is_unique(other, moved);
            } else if exists|at: int| after.has(other, at) {
                let at = choose|at: int| after.has(other, at);
                let was = if at < place {
                    at
                } else {
                    at + 1
                };
                assert(self.has(other, was));
            }
        }
    }

    /// Changing who hears of an act leaves the others as they are.
    proof fn changing_keeps_others(self, after: Self, place: int, subscriber: ActSubscriber)
        requires
            self.wf(),
            0 <= place < self@.len(),
            after@ == self@.update(place, RegistryEntry { subscriber, ..self@[place] }),
        ensures
            after.wf(),
            after.spec_entry(self@[place].act_id@) == Some(subscriber),
            self.keeps_others(after, self@[place].act_id@),
    {
        assert forall|i: int, j: int| 0 <= i < j < after@.len() implies (
        #[trigger] after@[i]).act_id@ != (#[trigger] after@[j]).act_id@ by {
            assert(self@[i].act_id@ != self@[j].act_id@);
        }
        assert(after.has(self@[place].act_id@, place));
        after.entry_is_unique(self@[place].act_id@, place);
        assert forall|other: Seq<char>| other != self@[place].act_id@ implies
            #[trigger] after.spec_entry(other) == self.spec_entry(other) by {
            if exists|at: int| self.has(other, at) {
                let at = choose|at: int| self.has(other, at);
                self.entry_is_unique(other, at);
                assert(after.has(other, at));
                after.entry_is_unique(other, at);
            } else if exists|at: int| after.has(other, at) {
                let at = choose|at: int| after.has(other, at);
                assert(self.has(other, at));
            }
        }
    }

    /// Reserves the place of an act's subscriber, once.
    pub fn reserve(&mut self, act_id: &RunLocalId) -> (result: Result<(), AlreadyRegistered>)
        requires
            old(self).wf(),
        ensures
            final(self).wf(),
            if old(self).spec_entry(act_id@) is Some {
                &&& result == Err::<(), _>(AlreadyRegistered)
                &&& *final(self) == *old(self)
            } else {
                &&& result == Ok::<(), AlreadyRegistered>(())
                &&& final(self).spec_entry(act_id@) == Some(ActSubscriber::Reserved)
                &&& old(self).keeps_others(*final(self), act_id@)
            },
    {
        if self.place_of(act_id.as_str()).is_some() {
            return Err(AlreadyRegistered);
        }
        let entry = RegistryEntry { act_id: act_id.clone(), subscriber: ActSubscriber::Reserved };
        let ghost added = entry;
        self.entries.push(entry);
        proof {
            old(self).adding_keeps_others(*self, added);
        }
        Ok(())
    }

    /// Gives a reserved place to a subscriber.
    pub fn publish(&mut self, act_id: &str, subscriber: ActSubscriber)
        requires
            old(self).wf(),
            old(self).spec_entry(act_id@) == Some(ActSubscriber::Reserved),
        ensures
            final(self).wf(),
            final(self).spec_entry(act_id@) == Some(subscriber),
            old(self).keeps_others(*final(self), act_id@),
    {
        if let Some(place) = self.place_of(act_id) {
            self.entries[place].subscriber = subscriber;
            proof {
                assert(self@ =~= old(self)@.update(
                    place as int,
                    RegistryEntry { subscriber, ..old(self)@[place as int] },
                ));
                old(self).changing_keeps_others(*self, place as int, subscriber);
            }
        }
    }

    /// Gives a reserved place up.
    pub fn release(&mut self, act_id: &str)
        requires
            old(self).wf(),
            old(self).spec_entry(act_id@) == Some(ActSubscriber::Reserved),
        ensures
            final(self).wf(),
            final(self).spec_entry(act_id@) is None,
            old(self).keeps_others(*final(self), act_id@),
    {
        if let Some(place) = self.place_of(act_id) {
            self.entries.remove(place);
            proof {
                old(self).removing_keeps_others(*self, place as int);
            }
        }
    }

    /// The sink of an act.
    pub fn bound(&self, act_id: &str) -> (sink_id: Option<u64>)
        requires
            self.wf(),
        ensures
            sink_id == match self.spec_entry(act_id@) {
                Some(ActSubscriber::Bound { sink_id }) => Some(sink_id),
                _ => None,
            },
    {
        match self.entry(act_id) {
            Some(ActSubscriber::Bound { sink_id }) => Some(sink_id),
            _ => None,
        }
    }

    /// The sinks among the first `count` entries, in order.
    pub open spec fn sinks_among(entries: Seq<RegistryEntry>, count: int) -> Seq<u64>
        decreases count,
    {
        if count <= 0 {
            Seq::empty()
        } else {
            match entries[count - 1].subscriber {
                ActSubscriber::Bound { sink_id } => Self::sinks_among(entries, count - 1).push(
                    sink_id,
                ),
                _ => Self::sinks_among(entries, count - 1),
            }
        }
    }

    /// The sinks of all acts.
    pub fn bound_all(&self) -> (sinks: Vec<u64>)
        ensures
            sinks@ == Self::sinks_among(self@, self@.len() as int),
    {
        let mut sinks: Vec<u64> = Vec::new();
        for i in 0..self.entries.len()
            invariant
                sinks@ == Self::sinks_among(self@, i as int),
        {
            if let ActSubscriber::Bound { sink_id } = self.entries[i].subscriber {
                sinks.push(sink_id);
            }
        }
        sinks
    }

    /// Who hears of the events of an act: no one while the place is only reserved.
    pub fn subscriber(&self, act_id: &str) -> (subscriber: Option<ActSubscriber>)
        requires
            self.wf(),
        ensures
            subscriber == match self.spec_entry(act_id@) {
                Some(ActSubscriber::Reserved) | None => None,
                Some(subscriber) => Some(subscriber),
            },
    {
        match self.entry(act_id) {
            Some(ActSubscriber::Reserved) | None => None,
            Some(subscriber) => Some(subscriber),
        }
    }

    pub fn contains_bound_sink(&self, act_id: &str, sink_id: u64) -> (contained: bool)
        requires
            self.wf(),
        ensures
            contained == (self.spec_entry(act_id@) == Some(ActSubscriber::Bound { sink_id })),
    {
        self.entry(act_id) == Some(ActSubscriber::Bound { sink_id })
    }

    fn retire(&mut self, act_id: &str, expected: ActSubscriber) -> (retired: bool)
        requires
            old(self).wf(),
        ensures
            final(self).wf(),
            retired == (old(self).spec_entry(act_id@) == Some(expected)),
            if retired {
                &&& final(self).spec_entry(act_id@) is None
                &&& old(self).keeps_others(*final(self), act_id@)
            } else {
                *final(self) == *old(self)
            },
    {
        match self.place_of(act_id) {
            Some(place) => {
                if self.entries[place].subscriber != expected {
                    return false;
                }
                self.entries.remove(place);
                proof {
                    old(self).removing_keeps_others(*self, place as int);
                }
                true
            },
            None => false,
        }
    }

    /// Forgets the sink of an act, if it is the expected one.
    pub fn retire_expected(&mut self, act_id: &str, sink_id: u64) -> (retired: bool)
        requires
            old(self).wf(),
        ensures
            final(self).wf(),
            retired == (old(self).spec_entry(act_id@) == Some(ActSubscriber::Bound { sink_id })),
            if retired {
                &&& final(self).spec_entry(act_id@) is None
                &&& old(self).keeps_others(*final(self), act_id@)
            } else {
                *final(self) == *old(self)
            },
    {
        self.retire(act_id, ActSubscriber::Bound { sink_id })
    }

    /// Forgets the authority of an act, if it is of the expected generation.
    pub fn retire_authority_expected(&mut self, act_id: &str, generation: u64) -> (retired: bool)
        requires
            old(self).wf(),
        ensures
            final(self).wf(),
            retired == (old(self).spec_entry(act_id@) == Some(
                ActSubscriber::Authority { generation },
            )),
            if retired {
                &&& final(self).spec_entry(act_id@) is None
                &&& old(self).keeps_others(*final(self), act_id@)
            } else {
                *final(self) == *old(self)
            },
    {
        self.retire(act_id, ActSubscriber::Authority { generation })
    }
}

/// A cue that runs without a run of its own, by the keys of its scene, its actor and itself.
#[derive(Clone, Copy, Debug, PartialEq, Eq, Structural)]
pub struct StandaloneCue {
    pub scene_key: usize,
    pub actor_key: usize,
    pub cue_key: usize,
}

/// An actor without a run, with its session.
#[derive(Debug, PartialEq, Eq)]
pub struct StandaloneActor {
    pub actor_id: RunLocalId,
    pub session_id: RunLocalId,
}

/// What a cue without a run is known by.
#[derive(Debug, PartialEq, Eq)]
pub struct StandaloneLineage {
    pub cue_scope: DiagnosticScope,
    pub session: AgentSessionDiagnosticContext,
}

/// The identifiers of what runs without a run.
pub struct StandaloneLineages {
    pub next_scene: u64,
    pub next_actor: u64,
    pub next_cue: u64,
    pub scenes: HashMap<usize, RunLocalId>,
    pub actors: HashMap<usize, StandaloneActor>,
    pub cues: HashMap<usize, RunLocalId>,
}

/// Numbers the next of its kind.
fn next_lineage_id(prefix: &'static str, counter: &mut u64) -> (id: Result<
    RunLocalId,
    &'static str,
>)
    ensures
        match id {
            Ok(id) => {
                &&& *old(counter) < u64::MAX
                &&& *final(counter) == *old(counter) + 1
                &&& id@ == crate::identifier::numbered(prefix@, *final(counter))
            },
            Err(code) => {
                &&& *old(counter) == u64::MAX
                &&& *final(counter) == *old(counter)
                &&& code == "act.standalone-identifier-exhausted"
            },
        },
{
    if *counter == u64::MAX {
        return Err("act.standalone-identifier-exhausted");
    }
    *counter = *counter + 1;
    Ok(numbered_id(prefix, *counter))
}

impl StandaloneLineages {
    /// Nothing was named yet.
    pub open spec fn fresh(self) -> bool {
        &&& self.next_scene == 0
        &&& self.next_actor == 0
        &&& self.next_cue == 0
        &&& self.scenes@ == Map::<usize, RunLocalId>::empty()
        &&& self.actors@ == Map::<usize, StandaloneActor>::empty()
        &&& self.cues@ == Map::<usize, RunLocalId>::empty()
    }

    pub fn new() -> (lineages: Self)
        ensures
            lineages.fresh(),
    {
        StandaloneLineages {
            next_scene: 0,
            next_actor: 0,
            next_cue: 0,
            scenes: HashMap::new(),
            actors: HashMap::new(),
            cues: HashMap::new(),
        }
    }

    /// A thing that has its identifier keeps it. Another gets the next one.
    pub open spec fn named(
        known: Map<usize, RunLocalId>,
        after: Map<usize, RunLocalId>,
        counter: u64,
        counter_after: u64,
        prefix: Seq<char>,
        key: usize,
    ) -> bool {
        if known.contains_key(key) {
            after == known && counter_after == counter
        } else {
            &&& counter < u64::MAX
            &&& counter_after == counter + 1
            &&& after.contains_key(key)
            &&& after == known.insert(key, after[key])
            &&& after[key]@ == crate::identifier::numbered(prefix, counter_after)
        }
    }

    /// An actor that has its identifiers keeps them. Another gets the next ones.
    pub open spec fn cast(self, after: Self, key: usize) -> bool {
        if self.actors@.contains_key(key) {
            after.actors@ == self.actors@ && after.next_actor == self.next_actor
        } else {
            &&& self.next_actor < u64::MAX
            &&& after.next_actor == self.next_actor + 1
            &&& after.actors@.contains_key(key)
            &&& after.actors@ == self.actors@.insert(key, after.actors@[key])
            &&& after.actors@[key].actor_id@ == crate::identifier::numbered(
                "standalone-actor-"@,
                after.next_actor,
            )
            &&& after.actors@[key].session_id@ == crate::identifier::numbered(
                "standalone-session-"@,
                after.next_actor,
            )
        }
    }

    /// Everything about a cue has its identifier.
    pub open spec fn resolved(self, after: Self, cue: StandaloneCue, lineage: StandaloneLineage) -> bool {
        let actor = after.actors@[cue.actor_key];
        &&& Self::named(
            self.scenes@,
            after.scenes@,
            self.next_scene,
            after.next_scene,
            "standalone-scene-"@,
            cue.scene_key,
        )
        &&& self.cast(after, cue.actor_key)
        &&& Self::named(
            self.cues@,
            after.cues@,
            self.next_cue,
            after.next_cue,
            "standalone-cue-"@,
            cue.cue_key,
        )
        &&& lineage.cue_scope == DiagnosticScope {
            scene_id: Some(after.scenes@[cue.scene_key]),
            actor_id: Some(actor.actor_id),
            cue_id: Some(after.cues@[cue.cue_key]),
            ..DiagnosticScope::of_run()
        }
        &&& lineage.session.actor_id == actor.actor_id.text
        &&& lineage.session.session_id == actor.session_id.text
    }

    /// One of the identifiers that a cue still needs is used up.
    pub open spec fn exhausted(self, cue: StandaloneCue) -> bool {
        ||| !self.scenes@.contains_key(cue.scene_key) && self.next_scene == u64::MAX
        ||| !self.actors@.contains_key(cue.actor_key) && self.next_actor == u64::MAX
        ||| !self.cues@.contains_key(cue.cue_key) && self.next_cue == u64::MAX
    }

    /// What comes before an identifier that is used up has its own.
    pub open spec fn partly_resolved(self, after: Self, cue: StandaloneCue) -> bool {
        let scene_fails = !self.scenes@.contains_key(cue.scene_key) && self.next_scene == u64::MAX;
        let actor_fails = !self.actors@.contains_key(cue.actor_key) && self.next_actor == u64::MAX;
        &&& after.cues@ == self.cues@
        &&& after.next_cue == self.next_cue
        &&& if scene_fails {
            after.scenes@ == self.scenes@ && after.next_scene == self.next_scene
        } else {
            Self::named(
                self.scenes@,
                after.scenes@,
                self.next_scene,
                after.next_scene,
                "standalone-scene-"@,
                cue.scene_key,
            )
        }
        &&& if scene_fails || actor_fails {
            after.actors@ == self.actors@ && after.next_actor == self.next_actor
        } else {
            self.cast(after, cue.actor_key)
        }
    }

    /// Finds what a cue is known by. What is new gets the next identifier of its kind.
    pub fn resolve(&mut self, cue: StandaloneCue) -> (lineage: Result<
        StandaloneLineage,
        &'static str,
    >)
        ensures
            match lineage {
                Ok(lineage) => {
                    &&& !old(self).exhausted(cue)
                    &&& old(self).resolved(*final(self), cue, lineage)
                },
                Err(code) => {
                    &&& old(self).exhausted(cue)
                    &&& old(self).partly_resolved(*final(self), cue)
                    &&& code == "act.standalone-identifier-exhausted"
                },
            },
    {
        if !self.scenes.contains_key(&cue.scene_key) {
            match next_lineage_id("standalone-scene-", &mut self.next_scene) {
                Ok(id) => {
                    self.scenes.insert(cue.scene_key, id);
                },
                Err(code) => return Err(code),
            }
        }
        if !self.actors.contains_key(&cue.actor_key) {
            match next_lineage_id("standalone-actor-", &mut self.next_actor) {
                Ok(actor_id) => {
                    let session_id = numbered_id("standalone-session-", self.next_actor);
                    self.actors.insert(cue.actor_key, StandaloneActor { actor_id, session_id });
                },
                Err(code) => return Err(code),
            }
        }
        if !self.cues.contains_key(&cue.cue_key) {
            match next_lineage_id("standalone-cue-", &mut self.next_cue) {
                Ok(id) => {
                    self.cues.insert(cue.cue_key, id);
                },
                Err(code) => return Err(code),
            }
        }
        match (
            self.scenes.get(&cue.scene_key),
            self.actors.get(&cue.actor_key),
            self.cues.get(&cue.cue_key),
        ) {
            (Some(scene_id), Some(actor), Some(cue_id)) => Ok(
                StandaloneLineage {
                    cue_scope: DiagnosticScope {
                        scene_id: Some(scene_id.clone()),
                        actor_id: Some(actor.actor_id.clone()),
                        cue_id: Some(cue_id.clone()),
                        effect_id: None,
                        act_id: None,
                        tool_call_id: None,
                        session_generation: None,
                    },
                    session: AgentSessionDiagnosticContext {
                        actor_id: actor.actor_id.text.clone(),
                        session_id: actor.session_id.text.clone(),
                    },
                },
            ),
            _ => Err("act.standalone-identifier-exhausted"),
        }
    }
}

/// Resolving the same cue again gives what it gave before, and changes nothing.
pub proof fn resolving_is_stable(
    lineages: StandaloneLineages,
    after: StandaloneLineages,
    again: StandaloneLineages,
    cue: StandaloneCue,
    first: StandaloneLineage,
    second: StandaloneLineage,
)
    requires
        lineages.resolved(after, cue, first),
        after.resolved(again, cue, second),
    ensures
        second.cue_scope == first.cue_scope,
        second.session == first.session,
        again.scenes@ == after.scenes@,
        again.actors@ == after.actors@,
        again.cues@ == after.cues@,
{
}

/// A subscriber that is reserved and released leaves the registry as it was.
pub proof fn releasing_undoes_reserving(
    registry: ActSinkRegistry,
    reserved: ActSinkRegistry,
    released: ActSinkRegistry,
    act_id: Seq<char>,
    other: Seq<char>,
)
    requires
        registry.spec_entry(act_id) is None,
        registry.keeps_others(reserved, act_id),
        released.spec_entry(act_id) is None,
        reserved.keeps_others(released, act_id),
    ensures
        released.spec_entry(other) == registry.spec_entry(other),
{
    if other != act_id {
        assert(reserved.spec_entry(other) == registry.spec_entry(other));
        assert(released.spec_entry(other) == reserved.spec_entry(other));
    }
}

/// The sinks of all acts are those that are bound, each as often as it is, and nothing else.
pub proof fn sinks_are_those_that_are_bound(entries: Seq<RegistryEntry>, count: int, sink_id: u64)
    requires
        0 <= count <= entries.len(),
    ensures
        ActSinkRegistry::sinks_among(entries, count).contains(sink_id) <==> exists|i: int|
            0 <= i < count && (#[trigger] entries[i]).subscriber == (ActSubscriber::Bound {
                sink_id,
            }),
        ActSinkRegistry::sinks_among(entries, count).len() <= count,
        (forall|i: int| 0 <= i < count ==> (#[trigger] entries[i]).subscriber is Bound)
            ==> ActSinkRegistry::sinks_among(entries, count).len() == count,
    decreases count,
{
    if count > 0 {
        sinks_are_those_that_are_bound(entries, count - 1, sink_id);
        let before = ActSinkRegistry::sinks_among(entries, count - 1);
        if let ActSubscriber::Bound { sink_id: last } = entries[count - 1].subscriber {
            assert(before.push(last).last() == last);
            assert forall|i: int| 0 <= i < before.len() implies before.push(last)[i] == before[i] by {}
            if before.contains(sink_id) {
                let i = choose|i: int| 0 <= i < before.len() && before[i] == sink_id;
                assert(before.push(last)[i] == sink_id);
            }
            if last == sink_id {
                assert(before.push(last)[before.len() as int] == sink_id);
            }
        }
    }
}

/// What runs without a run is known by the same names each time, and by names of its own: a scene,
/// an actor or a cue that was named before keeps its name, one that was not gets the next number,
/// and its actor is who the session is of.
pub proof fn standalone_cues_keep_their_names(
    names: StandaloneLineages,
    after: StandaloneLineages,
    later: StandaloneLineages,
    cue: StandaloneCue,
    lineage: StandaloneLineage,
    again: StandaloneLineage,
)
    requires
        names.resolved(after, cue, lineage),
        after.resolved(later, cue, again),
    ensures
        again.cue_scope == lineage.cue_scope,
        again.session.actor_id == lineage.session.actor_id,
        again.session.session_id == lineage.session.session_id,
        later.next_scene == after.next_scene && later.next_actor == after.next_actor
            && later.next_cue == after.next_cue,
        lineage.cue_scope.actor_id is Some && lineage.cue_scope.actor_id->0.text
            == lineage.session.actor_id,
        lineage.cue_scope.scene_id is Some && lineage.cue_scope.cue_id is Some,
        lineage.cue_scope.act_id is None && lineage.cue_scope.effect_id is None
            && lineage.cue_scope.tool_call_id is None,
        names.scenes@.contains_key(cue.scene_key) ==> lineage.cue_scope.scene_id
            == Some(names.scenes@[cue.scene_key]),
        names.cues@.contains_key(cue.cue_key) ==> lineage.cue_scope.cue_id
            == Some(names.cues@[cue.cue_key]),
        names.actors@.contains_key(cue.actor_key) ==> lineage.cue_scope.actor_id
            == Some(names.actors@[cue.actor_key].actor_id),
        after.next_scene - names.next_scene == if names.scenes@.contains_key(cue.scene_key) {
            0int
        } else {
            1int
        },
        after.next_cue - names.next_cue == if names.cues@.contains_key(cue.cue_key) {
            0int
        } else {
            1int
        },
{
}

} // verus!
