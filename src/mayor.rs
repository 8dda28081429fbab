//! The population scheduler: per locality and tick, at most one request to
//! produce an agent for the first configured slot no live agent claims.
use vstd::prelude::*;
use crate::config::{BodyPart, Config};
use crate::creeps::CreepMemory;
use crate::names::get_name;
use crate::roles::Role;
use crate::rooms::Room;
use crate::store::names_view;

verus! {

/// A production structure of the locality.
pub struct SpawnState {
    pub id: String,
    /// Busy with an earlier request.
    pub spawning: bool,
}

/// A request to a production structure: produce an agent with this body and
/// name, whose record starts as `memory`.
pub struct SpawnRequest {
    pub spawn_id: String,
    pub name: String,
    pub body: Vec<BodyPart>,
    pub memory: CreepMemory,
}

/// Number of occurrences of `r` in `s`.
pub open spec fn count_role(s: Seq<Role>, r: Role) -> nat
    decreases s.len(),
{
    if s.len() == 0 {
        0
    } else {
        count_role(s.drop_last(), r) + if s.last() == r { 1nat } else { 0nat }
    }
}

pub open spec fn slot_roles(slots: Seq<(Role, String)>) -> Seq<Role> {
    slots.map_values(|e: (Role, String)| e.0)
}

/// Slot `i` is unclaimed when its role has no more live agents than the
/// earlier slots of the same role take up.
pub open spec fn unclaimed(slots: Seq<(Role, String)>, i: int, live: Seq<Role>) -> bool {
    count_role(slot_roles(slots).take(i), slots[i].0) >= count_role(live, slots[i].0)
}

/// Slot `i` is unclaimed and its template is configured.
pub open spec fn fillable(
    slots: Seq<(Role, String)>,
    i: int,
    live: Seq<Role>,
    equip: Map<Seq<char>, Vec<BodyPart>>,
) -> bool {
    unclaimed(slots, i, live) && equip.contains_key(slots[i].1@)
}

/// The first fillable slot at or after `i`.
pub open spec fn first_fillable(
    slots: Seq<(Role, String)>,
    i: int,
    live: Seq<Role>,
    equip: Map<Seq<char>, Vec<BodyPart>>,
) -> Option<int>
    decreases slots.len() - i,
{
    if i < 0 || i >= slots.len() {
        None
    } else if fillable(slots, i, live, equip) {
        Some(i)
    } else {
        first_fillable(slots, i + 1, live, equip)
    }
}

/// The first production structure at or after `i` that is not busy.
pub open spec fn first_idle(spawns: Seq<SpawnState>, i: int) -> Option<int>
    decreases spawns.len() - i,
{
    if i < 0 || i >= spawns.len() {
        None
    } else if !spawns[i].spawning {
        Some(i)
    } else {
        first_idle(spawns, i + 1)
    }
}

pub open spec fn role_index(r: Role) -> int {
    match r {
        Role::Generic => 0,
        Role::Harvester => 1,
        Role::Transporter => 2,
        Role::Builder => 3,
        Role::Upgrader => 4,
        Role::Attacker => 5,
    }
}

fn index_of(r: Role) -> (i: usize)
    ensures
        i as int == role_index(r),
{
    match r {
        Role::Generic => 0,
        Role::Harvester => 1,
        Role::Transporter => 2,
        Role::Builder => 3,
        Role::Upgrader => 4,
        Role::Attacker => 5,
    }
}

proof fn lemma_count_take(s: Seq<Role>, k: int, r: Role)
    requires
        0 <= k < s.len(),
    ensures
        count_role(s.take(k + 1), r) == count_role(s.take(k), r) + if s[k] == r { 1nat } else { 0nat },
{
    assert(s.take(k + 1).drop_last() == s.take(k));
}

proof fn lemma_count_le(s: Seq<Role>, r: Role)
    ensures
        count_role(s, r) <= s.len(),
    decreases s.len(),
{
    if s.len() > 0 {
        lemma_count_le(s.drop_last(), r);
    }
}

pub open spec fn sat_sub(a: nat, b: nat) -> nat {
    if a >= b { (a - b) as nat } else { 0 }
}

/// A copy of a body.
fn copy_body(body: &Vec<BodyPart>) -> (r: Vec<BodyPart>)
    ensures
        r@ == body@,
{
    let mut r: Vec<BodyPart> = Vec::new();
    let mut i: usize = 0;
    while i < body.len()
        invariant
            i <= body@.len(),
            r@ == body@.take(i as int),
        decreases body@.len() - i,
    {
        r.push(body[i]);
        assert(body@.take(i + 1) == body@.take(i as int).push(body@[i as int]));
        i += 1;
    }
    assert(body@.take(body@.len() as int) == body@);
    r
}

/// Scheduler of one locality for one tick.
pub struct Mayor<'a> {
    pub room: Room,
    pub config: &'a Config,
}

impl<'a> Mayor<'a> {
    pub fn new(room: Room, config: &'a Config) -> (r: Mayor<'a>)
        ensures
            r.room == room,
            r.config == config,
    {
        Mayor { room, config }
    }

    /// A request to `spawn` for an agent of `role` built from template
    /// `equip_name`, or `None` when no such template is configured.
    pub fn spawn(
        &self,
        spawn: &SpawnState,
        role: Role,
        equip_name: &String,
        live_names: &Vec<String>,
        pool: &Vec<String>,
        tick: u32,
    ) -> (r: Option<SpawnRequest>)
        requires
            self.config@.wf(),
        ensures
            r.is_some() == self.config@.equip@.contains_key(equip_name@),
            r matches Some(req) ==> {
                &&& req.spawn_id == spawn.id
                &&& req.memory.role == role
                &&& req.memory.home == self.room.name
                &&& req.memory.actions@.len() == 0
                &&& req.body@ == self.config@.equip@[equip_name@]@
                &&& !names_view(live_names@).contains(req.name@)
            },
    {
        let body = match self.config.memory().equip.get(equip_name) {
            Some(b) => copy_body(b),
            None => return None,
        };
        let name = get_name(pool, live_names, tick);
        let memory = CreepMemory::new(self.room.name.clone(), role);
        Some(SpawnRequest { spawn_id: spawn.id.clone(), name, body, memory })
    }

    /// Decides this tick's production request of the locality, if any.
    ///
    /// `spawns` are the locality's production structures, `live_roles` the
    /// roles of its live agents, `live_names` the names of all live agents;
    /// `pool` and `tick` feed the name choice. A request is made exactly when
    /// the locality has slots configured, a structure is idle and some slot
    /// is fillable; it is for the first fillable slot, from the first idle
    /// structure, under a name no live agent bears.
    pub fn determine_spawns(
        &self,
        spawns: &Vec<SpawnState>,
        live_roles: &Vec<Role>,
        live_names: &Vec<String>,
        pool: &Vec<String>,
        tick: u32,
    ) -> (r: Option<SpawnRequest>)
        requires
            self.config@.wf(),
        ensures
            ({
                let cfg = self.config@;
                let room = self.room.name@;
                let configured = cfg.roles_to_spawn@.contains_key(room);
                let slots = cfg.roles_to_spawn@[room]@;
                let pick = first_fillable(slots, 0, live_roles@, cfg.equip@);
                let idle = first_idle(spawns@, 0);
                match r {
                    None => !configured || idle.is_none() || pick.is_none(),
                    Some(req) => {
                        &&& configured
                        &&& idle.is_some()
                        &&& pick.is_some()
                        &&& req.spawn_id == spawns@[idle.unwrap()].id
                        &&& req.memory.role == slots[pick.unwrap()].0
                        &&& req.memory.home == self.room.name
                        &&& req.memory.actions@.len() == 0
                        &&& req.body@ == cfg.equip@[slots[pick.unwrap()].1@]@
                        &&& !names_view(live_names@).contains(req.name@)
                    },
                }
            }),
    {
        let cfg = self.config.memory();
        let slots = match cfg.roles_to_spawn.get(&self.room.name) {
            Some(s) => s,
            None => return None,
        };
        let mut k: usize = 0;
        while k < spawns.len() && spawns[k].spawning
            invariant
                k <= spawns@.len(),
                first_idle(spawns@, 0) == first_idle(spawns@, k as int),
            decreases spawns@.len() - k,
        {
            k += 1;
        }
        if k == spawns.len() {
            return None;
        }
        assert(first_idle(spawns@, k as int) == Some(k as int));
        let mut counters: Vec<usize> = vec![0, 0, 0, 0, 0, 0];
        let mut j: usize = 0;
        while j < live_roles.len()
            invariant
                j <= live_roles@.len(),
                counters@.len() == 6,
                k < spawns@.len(),
                first_idle(spawns@, 0) == Some(k as int),
                forall|r: Role| counters@[#[trigger] role_index(r)] == count_role(
                    live_roles@.take(j as int),
                    r,
                ),
            decreases live_roles@.len() - j,
        {
            let x = index_of(live_roles[j]);
            proof {
                assert forall|r: Role| count_role(live_roles@.take(j + 1), r)
                    == count_role(live_roles@.take(j as int), r)
                        + if live_roles@[j as int] == r { 1nat } else { 0nat } by {
                    lemma_count_take(live_roles@, j as int, r);
                }
                lemma_count_le(live_roles@.take(j as int), live_roles@[j as int]);
            }
            counters.set(x, counters[x] + 1);
            j += 1;
        }
        assert(live_roles@.take(live_roles@.len() as int) == live_roles@);
        let ghost live = live_roles@;
        let ghost sv = slots@;
        let mut i: usize = 0;
        while i < slots.len()
            invariant
                i <= sv.len(),
                sv == slots@,
                live == live_roles@,
                cfg.wf(),
                cfg == self.config@,
                cfg.roles_to_spawn@.contains_key(self.room.name@),
                sv == cfg.roles_to_spawn@[self.room.name@]@,
                k < spawns@.len(),
                first_idle(spawns@, 0) == Some(k as int),
                counters@.len() == 6,
                forall|r: Role| counters@[#[trigger] role_index(r)] == sat_sub(
                    count_role(live, r),
                    count_role(slot_roles(sv).take(i as int), r),
                ),
                first_fillable(sv, 0, live, cfg.equip@) == first_fillable(sv, i as int, live, cfg.equip@),
            decreases sv.len() - i,
        {
            let role = slots[i].0;
            let x = index_of(role);
            proof {
                assert(slot_roles(sv)[i as int] == role);
                assert forall|r: Role| count_role(slot_roles(sv).take(i + 1), r)
                    == count_role(slot_roles(sv).take(i as int), r)
                        + if slot_roles(sv)[i as int] == r { 1nat } else { 0nat } by {
                    lemma_count_take(slot_roles(sv), i as int, r);
                }
            }
            if counters[x] == 0 {
                assert(unclaimed(sv, i as int, live));
                match self.spawn(&spawns[k], role, &slots[i].1, live_names, pool, tick) {
                    Some(req) => {
                        assert(first_fillable(sv, i as int, live, cfg.equip@) == Some(i as int));
                        return Some(req);
                    },
                    None => {
                        assert(first_fillable(sv, i as int, live, cfg.equip@) == first_fillable(
                            sv,
                            i + 1,
                            live,
                            cfg.equip@,
                        ));
                    },
                }
            } else {
                assert(!unclaimed(sv, i as int, live));
                assert(first_fillable(sv, i as int, live, cfg.equip@) == first_fillable(
                    sv,
                    i + 1,
                    live,
                    cfg.equip@,
                ));
                counters.set(x, counters[x] - 1);
            }
            i += 1;
        }
        None
    }
}

} // verus!
