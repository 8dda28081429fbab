//! Agents and their persisted records.
use vstd::prelude::*;
use std::collections::VecDeque;
use crate::actions::{fits, step, targeting, Action, Command, StepError, World, WorldObject};
use crate::geometry::{distance, Pos};
use crate::roles::Role;

verus! {

/// The persisted record of one agent.
pub struct CreepMemory {
    /// Name of the locality the agent was produced for.
    pub home: String,
    pub role: Role,
    /// Pending intents; only the front one runs.
    pub actions: VecDeque<Action>,
}

impl CreepMemory {
    /// A fresh record: the given home and role and no pending action.
    pub fn new(home: String, role: Role) -> (r: CreepMemory)
        ensures
            r.home == home,
            r.role == role,
            r.actions@.len() == 0,
    {
        CreepMemory { home, role, actions: VecDeque::new() }
    }
}

/// One live agent for the duration of a tick: where the host reports it and
/// the record loaded for it.
pub struct Creep {
    pub name: String,
    pub pos: Pos,
    /// Name of the room the agent stands in.
    pub room: String,
    pub memory: CreepMemory,
}

impl Creep {
    pub fn new(name: String, pos: Pos, room: String, memory: CreepMemory) -> (r: Creep)
        ensures
            r.name == name,
            r.pos == pos,
            r.room == room,
            r.memory == memory,
    {
        Creep { name, pos, room, memory }
    }

    pub fn memory(&self) -> (r: &CreepMemory)
        ensures
            *r == self.memory,
    {
        &self.memory
    }

    /// Everything but the action queue is the same in `self` and `other`.
    pub open spec fn same_but_queue(self, other: Creep) -> bool {
        &&& self.name == other.name
        &&& self.pos == other.pos
        &&& self.room == other.room
        &&& self.memory.home == other.memory.home
        &&& self.memory.role == other.memory.role
    }

    /// `new` is `old` after one tick of its queue against `world` that
    /// reported `r`.
    pub open spec fn stepped(
        old: Creep,
        new: Creep,
        world: Map<Seq<char>, WorldObject>,
        r: Result<Option<Command>, StepError>,
    ) -> bool {
        &&& new.same_but_queue(old)
        &&& (new.memory.actions@, r) == step(old.memory.actions@, old.pos, old.room@, world)
    }

    /// Runs one tick of the agent: the head action, if any, against `world`.
    /// With an empty queue nothing changes and no command is issued.
    pub fn run(&mut self, world: &World) -> (r: Result<Option<Command>, StepError>)
        requires
            world.wf(),
        ensures
            final(self).same_but_queue(*old(self)),
            (final(self).memory.actions@, r) == step(
                old(self).memory.actions@,
                old(self).pos,
                old(self).room@,
                world@,
            ),
            old(self).memory.actions@.len() == 0 ==> final(self).memory.actions@ == old(
                self,
            ).memory.actions@ && r == Ok::<Option<Command>, StepError>(None),
            // A walk toward a target out of range is queued in front of the
            // action and its move issued at once.
            old(self).memory.actions@.len() > 0 ==> ({
                let q = old(self).memory.actions@;
                let t = targeting(q[0]);
                t.is_some() && world@.contains_key(t.unwrap().0@) && fits(
                    t.unwrap().2,
                    world@[t.unwrap().0@],
                ) && distance(old(self).pos, world@[t.unwrap().0@].pos) > t.unwrap().1 ==> {
                    let walk_to = world@[t.unwrap().0@].pos;
                    &&& final(self).memory.actions@ == seq![
                        Action::GoToRanged { pos: walk_to, range: t.unwrap().1 },
                    ] + q
                    &&& r == Ok::<Option<Command>, StepError>(
                        Some(Command::MoveToRanged { pos: walk_to, range: t.unwrap().1 }),
                    )
                }
            }),
            // A walk at the head is popped exactly when the agent is within
            // its range, and is otherwise kept and re-issued.
            old(self).memory.actions@.len() > 0 ==> (match old(self).memory.actions@[0] {
                Action::GoToRanged { pos, range } => if distance(old(self).pos, pos) <= range {
                    final(self).memory.actions@ == old(self).memory.actions@.drop_first()
                } else {
                    final(self).memory.actions@ == old(self).memory.actions@ && r == Ok::<
                        Option<Command>,
                        StepError,
                    >(Some(Command::MoveToRanged { pos, range }))
                },
                _ => true,
            }),
    {
        if self.memory.actions.len() == 0 {
            return Ok(None);
        }
        let head = self.memory.actions[0].duplicate();
        head.run(self, world)
    }
}

} // verus!
