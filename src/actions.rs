//! The action catalog, the world snapshot the interpreter reads, and the
//! commands it hands to the host.
use vstd::prelude::*;
use crate::geometry::{distance, Pos};
use crate::store::Table;
use crate::creeps::Creep;
use crate::geometry::in_range_to;

verus! {

pub const RANGE_DISMANTLE: u32 = 1;
pub const RANGE_TRANSFER: u32 = 1;
pub const RANGE_WITHDRAW: u32 = 1;
pub const RANGE_PICKUP: u32 = 1;
pub const RANGE_HARVEST: u32 = 1;
pub const RANGE_BUILD: u32 = 3;
pub const RANGE_REPAIR: u32 = 3;
pub const RANGE_HEAL: u32 = 1;
pub const RANGE_HEAL_RANGED: u32 = 3;
pub const RANGE_ATTACK_MELEE: u32 = 1;
pub const RANGE_ATTACK_RANGED: u32 = 3;
pub const RANGE_CONTROLLER_ATTACK: u32 = 1;
pub const RANGE_CONTROLLER_CLAIM: u32 = 1;
pub const RANGE_CONTROLLER_RESERVE: u32 = 1;
pub const RANGE_CONTROLLER_UPGRADE: u32 = 3;
pub const RANGE_BOOST: u32 = 1;
pub const RANGE_RENEW: u32 = 1;
pub const RANGE_RECYCLE: u32 = 1;

/// One persisted intent of an agent. Targets are ids, resolved afresh against
/// the world snapshot every time the action runs; resources are named by the
/// host's resource constant (`"energy"`).
#[derive(Clone, Debug)]
pub enum Action {
    GoTo { pos: Pos },
    GoToRoom { room_id: String },
    GoToRanged { pos: Pos, range: u32 },
    TransferAll { target_id: String, resource: String },
    TransferAmount { target_id: String, resource: String, amount: u32 },
    WithdrawAll { target_id: String, resource: String },
    WithdrawAmount { target_id: String, resource: String, amount: u32 },
    Pickup { target_id: String },
    Harvest { target_id: String },
    Build { site_id: String },
    Dismantle { target_id: String },
    Repair { target_id: String },
    Fortify { target_id: String },
    ControllerAttack { target_id: String },
    ControllerClaim { target_id: String },
    ControllerUpgrade { target_id: String },
    ControllerReserve { target_id: String },
    Heal { target_id: String },
    HealRanged { target_id: String },
    AttackMelee { target_id: String },
    AttackRanged { target_id: String },
    AttackRangedMass,
    GetBoosted { lab_id: String },
    GetRenewed { spawn_id: String },
    GetRecycled { spawn_id: String },
}

/// What a world object is, as far as the interpreter cares.
#[derive(Clone, Copy, Debug, PartialEq, Eq, Structural)]
pub enum ObjectKind {
    Creep,
    Source,
    Dropped,
    Site,
    Controller,
    Lab,
    Spawn,
    Structure,
}

/// One object of the world snapshot.
#[derive(Clone, Debug)]
pub struct WorldObject {
    pub id: String,
    pub pos: Pos,
    pub kind: ObjectKind,
    /// A structure that accepts resources.
    pub transferable: bool,
    /// A structure that hands out resources.
    pub withdrawable: bool,
}

/// The kind of object an action may be aimed at.
#[derive(Clone, Copy, Debug, PartialEq, Eq, Structural)]
pub enum Need {
    Transferable,
    Withdrawable,
    AnyStructure,
    Kind(ObjectKind),
}

pub open spec fn is_structure(k: ObjectKind) -> bool {
    k == ObjectKind::Controller || k == ObjectKind::Lab || k == ObjectKind::Spawn
        || k == ObjectKind::Structure
}

pub open spec fn fits(need: Need, o: WorldObject) -> bool {
    match need {
        Need::Transferable => is_structure(o.kind) && o.transferable,
        Need::Withdrawable => is_structure(o.kind) && o.withdrawable,
        Need::AnyStructure => is_structure(o.kind),
        Need::Kind(k) => o.kind == k,
    }
}

fn object_fits(need: Need, o: &WorldObject) -> (r: bool)
    ensures
        r == fits(need, *o),
{
    let structure = match o.kind {
        ObjectKind::Controller | ObjectKind::Lab | ObjectKind::Spawn | ObjectKind::Structure => true,
        _ => false,
    };
    match need {
        Need::Transferable => structure && o.transferable,
        Need::Withdrawable => structure && o.withdrawable,
        Need::AnyStructure => structure,
        Need::Kind(k) => o.kind == k,
    }
}

/// The world as seen this tick: objects by id.
pub struct World {
    objects: Table<WorldObject>,
}

impl World {
    pub closed spec fn wf(self) -> bool {
        self.objects.wf()
    }

    pub closed spec fn view(self) -> Map<Seq<char>, WorldObject> {
        self.objects@
    }

    /// A world with no objects.
    pub fn new() -> (r: World)
        ensures
            r.wf(),
            r@ == Map::<Seq<char>, WorldObject>::empty(),
    {
        World { objects: Table::new() }
    }

    /// Adds an object, replacing any object with the same id.
    pub fn add(&mut self, obj: WorldObject)
        requires
            old(self).wf(),
        ensures
            final(self).wf(),
            final(self)@ == old(self)@.insert(obj.id@, obj),
    {
        let id = obj.id.clone();
        self.objects.set(id, obj);
    }

    /// The object with the given id, if it is in the snapshot.
    pub fn resolve(&self, id: &String) -> (r: Option<&WorldObject>)
        requires
            self.wf(),
        ensures
            match r {
                Some(o) => self@.contains_key(id@) && *o == self@[id@],
                None => !self@.contains_key(id@),
            },
    {
        self.objects.get(id)
    }
}

/// Targeted work the host performs on an object.
#[derive(Clone, Copy, Debug, PartialEq, Eq, Structural)]
pub enum Verb {
    Pickup,
    Harvest,
    Build,
    Dismantle,
    Repair,
    AttackController,
    ClaimController,
    UpgradeController,
    ReserveController,
    Heal,
    HealRanged,
    Attack,
    RangedAttack,
    Boost,
    Renew,
    Recycle,
}

/// One low-level command for the host to carry out this tick.
#[derive(Clone, Debug)]
pub enum Command {
    MoveTo { pos: Pos },
    MoveToRanged { pos: Pos, range: u32 },
    MoveToRoom { room_id: String },
    /// Transfer to a target; `None` moves all that is carried.
    Transfer { target_id: String, resource: String, amount: Option<u32> },
    /// Withdraw from a target; `None` takes as much as fits.
    Withdraw { target_id: String, resource: String, amount: Option<u32> },
    Act { verb: Verb, target_id: String },
    RangedMassAttack,
}

/// Why the head action could not be carried out this tick.
#[derive(Clone, Debug)]
pub enum StepError {
    /// The target id is not in the snapshot; the action stays queued.
    Unresolved { id: String },
    /// The target is of a kind the action cannot use; the action is dropped.
    Mismatch { id: String },
}

/// Where an action must stand, the object it needs, and what it asks of the
/// host once there. `None` for movement and for the untargeted mass attack.
pub open spec fn targeting(a: Action) -> Option<(String, u32, Need, Command, bool)> {
    match a {
        Action::TransferAll { target_id, resource } => Some((target_id, RANGE_TRANSFER,
            Need::Transferable, Command::Transfer { target_id, resource, amount: None }, true)),
        Action::TransferAmount { target_id, resource, amount } => Some((target_id, RANGE_TRANSFER,
            Need::Transferable, Command::Transfer { target_id, resource, amount: Some(amount) }, true)),
        Action::WithdrawAll { target_id, resource } => Some((target_id, RANGE_WITHDRAW,
            Need::Withdrawable, Command::Withdraw { target_id, resource, amount: None }, true)),
        Action::WithdrawAmount { target_id, resource, amount } => Some((target_id, RANGE_WITHDRAW,
            Need::Withdrawable, Command::Withdraw { target_id, resource, amount: Some(amount) }, true)),
        Action::Pickup { target_id } => Some((target_id, RANGE_PICKUP,
            Need::Kind(ObjectKind::Dropped), Command::Act { verb: Verb::Pickup, target_id }, true)),
        Action::Harvest { target_id } => Some((target_id, RANGE_HARVEST,
            Need::Kind(ObjectKind::Source), Command::Act { verb: Verb::Harvest, target_id }, false)),
        Action::Build { site_id } => Some((site_id, RANGE_BUILD,
            Need::Kind(ObjectKind::Site), Command::Act { verb: Verb::Build, target_id: site_id }, false)),
        Action::Dismantle { target_id } => Some((target_id, RANGE_DISMANTLE,
            Need::AnyStructure, Command::Act { verb: Verb::Dismantle, target_id }, false)),
        Action::Repair { target_id } => Some((target_id, RANGE_REPAIR,
            Need::AnyStructure, Command::Act { verb: Verb::Repair, target_id }, false)),
        Action::Fortify { target_id } => Some((target_id, RANGE_REPAIR,
            Need::AnyStructure, Command::Act { verb: Verb::Repair, target_id }, false)),
        Action::ControllerAttack { target_id } => Some((target_id, RANGE_CONTROLLER_ATTACK,
            Need::Kind(ObjectKind::Controller), Command::Act { verb: Verb::AttackController, target_id }, false)),
        Action::ControllerClaim { target_id } => Some((target_id, RANGE_CONTROLLER_CLAIM,
            Need::Kind(ObjectKind::Controller), Command::Act { verb: Verb::ClaimController, target_id }, false)),
        Action::ControllerUpgrade { target_id } => Some((target_id, RANGE_CONTROLLER_UPGRADE,
            Need::Kind(ObjectKind::Controller), Command::Act { verb: Verb::UpgradeController, target_id }, false)),
        Action::ControllerReserve { target_id } => Some((target_id, RANGE_CONTROLLER_RESERVE,
            Need::Kind(ObjectKind::Controller), Command::Act { verb: Verb::ReserveController, target_id }, false)),
        Action::Heal { target_id } => Some((target_id, RANGE_HEAL,
            Need::Kind(ObjectKind::Creep), Command::Act { verb: Verb::Heal, target_id }, false)),
        Action::HealRanged { target_id } => Some((target_id, RANGE_HEAL_RANGED,
            Need::Kind(ObjectKind::Creep), Command::Act { verb: Verb::HealRanged, target_id }, false)),
        Action::AttackMelee { target_id } => Some((target_id, RANGE_ATTACK_MELEE,
            Need::Kind(ObjectKind::Creep), Command::Act { verb: Verb::Attack, target_id }, false)),
        Action::AttackRanged { target_id } => Some((target_id, RANGE_ATTACK_RANGED,
            Need::Kind(ObjectKind::Creep), Command::Act { verb: Verb::RangedAttack, target_id }, false)),
        Action::GetBoosted { lab_id } => Some((lab_id, RANGE_BOOST,
            Need::Kind(ObjectKind::Lab), Command::Act { verb: Verb::Boost, target_id: lab_id }, false)),
        Action::GetRenewed { spawn_id } => Some((spawn_id, RANGE_RENEW,
            Need::Kind(ObjectKind::Spawn), Command::Act { verb: Verb::Renew, target_id: spawn_id }, false)),
        Action::GetRecycled { spawn_id } => Some((spawn_id, RANGE_RECYCLE,
            Need::Kind(ObjectKind::Spawn), Command::Act { verb: Verb::Recycle, target_id: spawn_id }, false)),
        _ => None,
    }
}

/// One tick of a targeted action at the head of `q`: resolve the target,
/// drop the action if the target is of the wrong kind, walk into range first
/// (the walk is queued in front and run at once), else issue the command and
/// pop the action if its effect completes within the tick.
pub open spec fn targeted_step(
    q: Seq<Action>,
    at: Pos,
    world: Map<Seq<char>, WorldObject>,
    id: String,
    range: u32,
    need: Need,
    command: Command,
    done_on_issue: bool,
) -> (Seq<Action>, Result<Option<Command>, StepError>) {
    if !world.contains_key(id@) {
        (q, Err(StepError::Unresolved { id }))
    } else if !fits(need, world[id@]) {
        (q.drop_first(), Err(StepError::Mismatch { id }))
    } else if distance(at, world[id@].pos) > range {
        (seq![Action::GoToRanged { pos: world[id@].pos, range }] + q,
            Ok(Some(Command::MoveToRanged { pos: world[id@].pos, range })))
    } else if done_on_issue {
        (q.drop_first(), Ok(Some(command)))
    } else {
        (q, Ok(Some(command)))
    }
}

/// One tick of the queue `q` of an agent standing at `at` in room `room`:
/// the queue after the tick and what the host is asked to do.
pub open spec fn step(q: Seq<Action>, at: Pos, room: Seq<char>, world: Map<Seq<char>, WorldObject>)
    -> (Seq<Action>, Result<Option<Command>, StepError>)
{
    if q.len() == 0 {
        (q, Ok(None))
    } else {
        match q[0] {
            Action::GoTo { pos } => if at == pos {
                (q.drop_first(), Ok(None))
            } else {
                (q, Ok(Some(Command::MoveTo { pos })))
            },
            Action::GoToRanged { pos, range } => if distance(at, pos) <= range {
                (q.drop_first(), Ok(None))
            } else {
                (q, Ok(Some(Command::MoveToRanged { pos, range })))
            },
            Action::GoToRoom { room_id } => if room_id@ == room {
                (q.drop_first(), Ok(None))
            } else {
                (q, Ok(Some(Command::MoveToRoom { room_id })))
            },
            Action::AttackRangedMass => (q.drop_first(), Ok(Some(Command::RangedMassAttack))),
            _ => {
                let t = targeting(q[0]).unwrap();
                targeted_step(q, at, world, t.0, t.1, t.2, t.3, t.4)
            },
        }
    }
}

} // verus!

verus! {

impl Action {
    /// The id of the object the action is aimed at, if it is aimed at one.
    pub fn target_id(&self) -> (r: Option<&String>)
        ensures
            r.is_some() == targeting(*self).is_some(),
            r matches Some(id) ==> *id == targeting(*self).unwrap().0,
    {
        match self {
            Action::GoTo { .. } | Action::GoToRoom { .. } | Action::GoToRanged { .. } => None,
            Action::AttackRangedMass => None,
            Action::TransferAll { target_id, .. } | Action::TransferAmount { target_id, .. } => Some(
                target_id,
            ),
            Action::WithdrawAll { target_id, .. } | Action::WithdrawAmount { target_id, .. } => Some(
                target_id,
            ),
            Action::Build { site_id } => Some(site_id),
            Action::GetBoosted { lab_id } => Some(lab_id),
            Action::GetRenewed { spawn_id } | Action::GetRecycled { spawn_id } => Some(spawn_id),
            Action::Pickup { target_id }
            | Action::Harvest { target_id }
            | Action::Dismantle { target_id }
            | Action::Repair { target_id }
            | Action::Fortify { target_id }
            | Action::ControllerAttack { target_id }
            | Action::ControllerClaim { target_id }
            | Action::ControllerUpgrade { target_id }
            | Action::ControllerReserve { target_id }
            | Action::Heal { target_id }
            | Action::HealRanged { target_id }
            | Action::AttackMelee { target_id }
            | Action::AttackRanged { target_id } => Some(target_id),
        }
    }

    /// A copy of the action.
    pub fn duplicate(&self) -> (r: Action)
        ensures
            r == *self,
    {
        match self {
            Action::GoTo { pos } => Action::GoTo { pos: *pos },
            Action::GoToRoom { room_id } => Action::GoToRoom { room_id: room_id.clone() },
            Action::GoToRanged { pos, range } => Action::GoToRanged { pos: *pos, range: *range },
            Action::TransferAll { target_id, resource } => Action::TransferAll {
                target_id: target_id.clone(),
                resource: resource.clone(),
            },
            Action::TransferAmount { target_id, resource, amount } => Action::TransferAmount {
                target_id: target_id.clone(),
                resource: resource.clone(),
                amount: *amount,
            },
            Action::WithdrawAll { target_id, resource } => Action::WithdrawAll {
                target_id: target_id.clone(),
                resource: resource.clone(),
            },
            Action::WithdrawAmount { target_id, resource, amount } => Action::WithdrawAmount {
                target_id: target_id.clone(),
                resource: resource.clone(),
                amount: *amount,
            },
            Action::Pickup { target_id } => Action::Pickup { target_id: target_id.clone() },
            Action::Harvest { target_id } => Action::Harvest { target_id: target_id.clone() },
            Action::Build { site_id } => Action::Build { site_id: site_id.clone() },
            Action::Dismantle { target_id } => Action::Dismantle { target_id: target_id.clone() },
            Action::Repair { target_id } => Action::Repair { target_id: target_id.clone() },
            Action::Fortify { target_id } => Action::Fortify { target_id: target_id.clone() },
            Action::ControllerAttack { target_id } => Action::ControllerAttack {
                target_id: target_id.clone(),
            },
            Action::ControllerClaim { target_id } => Action::ControllerClaim {
                target_id: target_id.clone(),
            },
            Action::ControllerUpgrade { target_id } => Action::ControllerUpgrade {
                target_id: target_id.clone(),
            },
            Action::ControllerReserve { target_id } => Action::ControllerReserve {
                target_id: target_id.clone(),
            },
            Action::Heal { target_id } => Action::Heal { target_id: target_id.clone() },
            Action::HealRanged { target_id } => Action::HealRanged { target_id: target_id.clone() },
            Action::AttackMelee { target_id } => Action::AttackMelee { target_id: target_id.clone() },
            Action::AttackRanged { target_id } => Action::AttackRanged {
                target_id: target_id.clone(),
            },
            Action::AttackRangedMass => Action::AttackRangedMass,
            Action::GetBoosted { lab_id } => Action::GetBoosted { lab_id: lab_id.clone() },
            Action::GetRenewed { spawn_id } => Action::GetRenewed { spawn_id: spawn_id.clone() },
            Action::GetRecycled { spawn_id } => Action::GetRecycled { spawn_id: spawn_id.clone() },
        }
    }
}

} // verus!

verus! {

impl Action {
    /// Runs one tick of this action, which is the head of the agent's queue:
    /// the queue is rewritten as `step` says and the command, if any, is
    /// returned for the host.
    pub fn run(&self, creep: &mut Creep, world: &World) -> (r: Result<Option<Command>, StepError>)
        requires
            world.wf(),
            old(creep).memory.actions@.len() > 0,
            old(creep).memory.actions@[0] == *self,
        ensures
            Creep::stepped(*old(creep), *final(creep), world@, r),
    {
        match self {
            Action::GoTo { pos } => go_to(creep, *pos),
            Action::GoToRoom { room_id } => go_to_room(creep, room_id),
            Action::GoToRanged { pos, range } => Ok(go_to_ranged(creep, *pos, *range)),
            Action::TransferAll { target_id, resource } => {
                let c = Command::Transfer {
                    target_id: target_id.clone(),
                    resource: resource.clone(),
                    amount: None,
                };
                act_on(creep, world, target_id, RANGE_TRANSFER, Need::Transferable, c, true)
            },
            Action::TransferAmount { target_id, resource, amount } => {
                let c = Command::Transfer {
                    target_id: target_id.clone(),
                    resource: resource.clone(),
                    amount: Some(*amount),
                };
                act_on(creep, world, target_id, RANGE_TRANSFER, Need::Transferable, c, true)
            },
            Action::WithdrawAll { target_id, resource } => {
                let c = Command::Withdraw {
                    target_id: target_id.clone(),
                    resource: resource.clone(),
                    amount: None,
                };
                act_on(creep, world, target_id, RANGE_WITHDRAW, Need::Withdrawable, c, true)
            },
            Action::WithdrawAmount { target_id, resource, amount } => {
                let c = Command::Withdraw {
                    target_id: target_id.clone(),
                    resource: resource.clone(),
                    amount: Some(*amount),
                };
                act_on(creep, world, target_id, RANGE_WITHDRAW, Need::Withdrawable, c, true)
            },
            Action::Pickup { target_id } => {
                let c = Command::Act { verb: Verb::Pickup, target_id: target_id.clone() };
                act_on(creep, world, target_id, RANGE_PICKUP, Need::Kind(ObjectKind::Dropped), c, true)
            },
            Action::Harvest { target_id } => harvest(creep, world, target_id),
            Action::Build { site_id } => {
                let c = Command::Act { verb: Verb::Build, target_id: site_id.clone() };
                act_on(creep, world, site_id, RANGE_BUILD, Need::Kind(ObjectKind::Site), c, false)
            },
            Action::Dismantle { target_id } => {
                let c = Command::Act { verb: Verb::Dismantle, target_id: target_id.clone() };
                act_on(creep, world, target_id, RANGE_DISMANTLE, Need::AnyStructure, c, false)
            },
            Action::Repair { target_id } => {
                let c = Command::Act { verb: Verb::Repair, target_id: target_id.clone() };
                act_on(creep, world, target_id, RANGE_REPAIR, Need::AnyStructure, c, false)
            },
            Action::Fortify { target_id } => {
                let c = Command::Act { verb: Verb::Repair, target_id: target_id.clone() };
                act_on(creep, world, target_id, RANGE_REPAIR, Need::AnyStructure, c, false)
            },
            Action::ControllerAttack { target_id } => {
                let c = Command::Act { verb: Verb::AttackController, target_id: target_id.clone() };
                let need = Need::Kind(ObjectKind::Controller);
                act_on(creep, world, target_id, RANGE_CONTROLLER_ATTACK, need, c, false)
            },
            Action::ControllerClaim { target_id } => {
                let c = Command::Act { verb: Verb::ClaimController, target_id: target_id.clone() };
                let need = Need::Kind(ObjectKind::Controller);
                act_on(creep, world, target_id, RANGE_CONTROLLER_CLAIM, need, c, false)
            },
            Action::ControllerUpgrade { target_id } => {
                let c = Command::Act { verb: Verb::UpgradeController, target_id: target_id.clone() };
                let need = Need::Kind(ObjectKind::Controller);
                act_on(creep, world, target_id, RANGE_CONTROLLER_UPGRADE, need, c, false)
            },
            Action::ControllerReserve { target_id } => {
                let c = Command::Act { verb: Verb::ReserveController, target_id: target_id.clone() };
                let need = Need::Kind(ObjectKind::Controller);
                act_on(creep, world, target_id, RANGE_CONTROLLER_RESERVE, need, c, false)
            },
            Action::Heal { target_id } => {
                let c = Command::Act { verb: Verb::Heal, target_id: target_id.clone() };
                act_on(creep, world, target_id, RANGE_HEAL, Need::Kind(ObjectKind::Creep), c, false)
            },
            Action::HealRanged { target_id } => {
                let c = Command::Act { verb: Verb::HealRanged, target_id: target_id.clone() };
                let need = Need::Kind(ObjectKind::Creep);
                act_on(creep, world, target_id, RANGE_HEAL_RANGED, need, c, false)
            },
            Action::AttackMelee { target_id } => {
                let c = Command::Act { verb: Verb::Attack, target_id: target_id.clone() };
                let need = Need::Kind(ObjectKind::Creep);
                act_on(creep, world, target_id, RANGE_ATTACK_MELEE, need, c, false)
            },
            Action::AttackRanged { target_id } => {
                let c = Command::Act { verb: Verb::RangedAttack, target_id: target_id.clone() };
                let need = Need::Kind(ObjectKind::Creep);
                act_on(creep, world, target_id, RANGE_ATTACK_RANGED, need, c, false)
            },
            Action::AttackRangedMass => {
                creep.memory.actions.pop_front();
                Ok(Some(Command::RangedMassAttack))
            },
            Action::GetBoosted { lab_id } => {
                let c = Command::Act { verb: Verb::Boost, target_id: lab_id.clone() };
                act_on(creep, world, lab_id, RANGE_BOOST, Need::Kind(ObjectKind::Lab), c, false)
            },
            Action::GetRenewed { spawn_id } => {
                let c = Command::Act { verb: Verb::Renew, target_id: spawn_id.clone() };
                act_on(creep, world, spawn_id, RANGE_RENEW, Need::Kind(ObjectKind::Spawn), c, false)
            },
            Action::GetRecycled { spawn_id } => {
                let c = Command::Act { verb: Verb::Recycle, target_id: spawn_id.clone() };
                act_on(creep, world, spawn_id, RANGE_RECYCLE, Need::Kind(ObjectKind::Spawn), c, false)
            },
        }
    }
}

/// If `pos` is farther than `range`, queues a walk into range in front of the
/// head and runs it at once; returns the walk's command, or `None` when
/// already in range (the queue is then untouched).
fn prepend_go_to_if_far(creep: &mut Creep, pos: Pos, range: u32) -> (r: Option<Command>)
    ensures
        final(creep).same_but_queue(*old(creep)),
        distance(old(creep).pos, pos) > range ==> final(creep).memory.actions@ == seq![
            Action::GoToRanged { pos, range },
        ] + old(creep).memory.actions@ && r == Some(Command::MoveToRanged { pos, range }),
        distance(old(creep).pos, pos) <= range ==> final(creep).memory.actions@ == old(
            creep,
        ).memory.actions@ && r == None::<Command>,
{
    if !in_range_to(creep.pos, pos, range) {
        creep.memory.actions.push_front(Action::GoToRanged { pos, range });
        go_to_ranged(creep, pos, range)
    } else {
        None
    }
}

/// Head `GoTo`: done once the agent stands on `pos`, else move there.
fn go_to(creep: &mut Creep, pos: Pos) -> (r: Result<Option<Command>, StepError>)
    requires
        old(creep).memory.actions@.len() > 0,
        old(creep).memory.actions@[0] == (Action::GoTo { pos }),
    ensures
        final(creep).same_but_queue(*old(creep)),
        old(creep).pos == pos ==> final(creep).memory.actions@ == old(creep).memory.actions@.drop_first()
            && r == Ok::<Option<Command>, StepError>(None),
        old(creep).pos != pos ==> final(creep).memory.actions@ == old(creep).memory.actions@
            && r == Ok::<Option<Command>, StepError>(Some(Command::MoveTo { pos })),
{
    if creep.pos == pos {
        creep.memory.actions.pop_front();
        Ok(None)
    } else {
        Ok(Some(Command::MoveTo { pos }))
    }
}

/// Head `GoToRoom`: done once the agent is in that room, else move there.
fn go_to_room(creep: &mut Creep, room_id: &String) -> (r: Result<Option<Command>, StepError>)
    requires
        old(creep).memory.actions@.len() > 0,
        old(creep).memory.actions@[0] == (Action::GoToRoom { room_id: *room_id }),
    ensures
        final(creep).same_but_queue(*old(creep)),
        old(creep).room@ == room_id@ ==> final(creep).memory.actions@ == old(
            creep,
        ).memory.actions@.drop_first() && r == Ok::<Option<Command>, StepError>(None),
        old(creep).room@ != room_id@ ==> final(creep).memory.actions@ == old(creep).memory.actions@
            && r == Ok::<Option<Command>, StepError>(
            Some(Command::MoveToRoom { room_id: *room_id }),
        ),
{
    if creep.room == *room_id {
        creep.memory.actions.pop_front();
        Ok(None)
    } else {
        Ok(Some(Command::MoveToRoom { room_id: room_id.clone() }))
    }
}

/// Head `GoToRanged`: done once the agent is within `range` of `pos`, else
/// move closer. Re-evaluated from the agent's position every tick.
fn go_to_ranged(creep: &mut Creep, pos: Pos, range: u32) -> (r: Option<Command>)
    requires
        old(creep).memory.actions@.len() > 0,
        old(creep).memory.actions@[0] == (Action::GoToRanged { pos, range }),
    ensures
        final(creep).same_but_queue(*old(creep)),
        distance(old(creep).pos, pos) <= range ==> final(creep).memory.actions@ == old(
            creep,
        ).memory.actions@.drop_first() && r == None::<Command>,
        distance(old(creep).pos, pos) > range ==> final(creep).memory.actions@ == old(
            creep,
        ).memory.actions@ && r == Some(Command::MoveToRanged { pos, range }),
{
    if in_range_to(creep.pos, pos, range) {
        creep.memory.actions.pop_front();
        None
    } else {
        Some(Command::MoveToRanged { pos, range })
    }
}

/// Head action aimed at object `id`: see `targeted_step`.
fn act_on(
    creep: &mut Creep,
    world: &World,
    id: &String,
    range: u32,
    need: Need,
    command: Command,
    done_on_issue: bool,
) -> (r: Result<Option<Command>, StepError>)
    requires
        world.wf(),
        old(creep).memory.actions@.len() > 0,
    ensures
        final(creep).same_but_queue(*old(creep)),
        (final(creep).memory.actions@, r) == targeted_step(
            old(creep).memory.actions@,
            old(creep).pos,
            world@,
            *id,
            range,
            need,
            command,
            done_on_issue,
        ),
{
    match world.resolve(id) {
        None => Err(StepError::Unresolved { id: id.clone() }),
        Some(o) => {
            if !object_fits(need, o) {
                creep.memory.actions.pop_front();
                return Err(StepError::Mismatch { id: id.clone() });
            }
            match prepend_go_to_if_far(creep, o.pos, range) {
                Some(walk) => Ok(Some(walk)),
                None => {
                    if done_on_issue {
                        creep.memory.actions.pop_front();
                    }
                    Ok(Some(command))
                },
            }
        },
    }
}

/// Head `Harvest`: walk to the source, then harvest it every tick; the
/// action stays queued while the source lasts.
pub fn harvest(creep: &mut Creep, world: &World, target_id: &String) -> (r: Result<
    Option<Command>,
    StepError,
>)
    requires
        world.wf(),
        old(creep).memory.actions@.len() > 0,
        old(creep).memory.actions@[0] == (Action::Harvest { target_id: *target_id }),
    ensures
        Creep::stepped(*old(creep), *final(creep), world@, r),
{
    let c = Command::Act { verb: Verb::Harvest, target_id: target_id.clone() };
    act_on(creep, world, target_id, RANGE_HARVEST, Need::Kind(ObjectKind::Source), c, false)
}

} // verus!
