use colony::actions::{
    Action, Command, ObjectKind, StepError, Verb, World, WorldObject, harvest,
};
use colony::creeps::{Creep, CreepMemory};
use colony::geometry::Pos;
use colony::roles::Role;
use std::collections::VecDeque;

fn pos(x: i32, y: i32) -> Pos {
    Pos { x, y }
}

fn object(id: &str, at: Pos, kind: ObjectKind) -> WorldObject {
    WorldObject { id: id.to_string(), pos: at, kind, transferable: false, withdrawable: false }
}

fn agent(at: Pos, actions: Vec<Action>) -> Creep {
    let mut memory = CreepMemory::new("W1N1".to_string(), Role::Harvester);
    memory.actions = actions.into_iter().collect::<VecDeque<Action>>();
    Creep::new("Alice".to_string(), at, "W1N1".to_string(), memory)
}

fn is_walk(a: &Action, to: Pos, range: u32) -> bool {
    match a {
        Action::GoToRanged { pos, range: r } => *pos == to && *r == range,
        _ => false,
    }
}

#[test]
fn empty_queue_is_idle() {
    let world = World::new();
    let mut c = agent(pos(10, 10), vec![]);
    let r = c.run(&world);
    assert!(matches!(r, Ok(None)));
    assert!(c.memory.actions.is_empty());
    assert_eq!(c.name, "Alice");
    assert_eq!(c.pos, pos(10, 10));
}

#[test]
fn far_harvest_injects_one_walk_and_moves() {
    let mut world = World::new();
    world.add(object("src1", pos(20, 10), ObjectKind::Source));
    let mut c = agent(pos(10, 10), vec![Action::Harvest { target_id: "src1".to_string() }]);
    let r = c.run(&world);
    match r {
        Ok(Some(Command::MoveToRanged { pos: p, range })) => {
            assert_eq!(p, pos(20, 10));
            assert_eq!(range, 1);
        }
        _ => panic!("expected a ranged move"),
    }
    assert_eq!(c.memory.actions.len(), 2);
    assert!(is_walk(&c.memory.actions[0], pos(20, 10), 1));
    assert!(matches!(&c.memory.actions[1], Action::Harvest { target_id } if target_id == "src1"));
}

#[test]
fn near_harvest_issues_harvest_and_stays() {
    let mut world = World::new();
    world.add(object("src1", pos(11, 11), ObjectKind::Source));
    let mut c = agent(pos(10, 10), vec![Action::Harvest { target_id: "src1".to_string() }]);
    let r = harvest(&mut c, &world, &"src1".to_string());
    match r {
        Ok(Some(Command::Act { verb: Verb::Harvest, target_id })) => assert_eq!(target_id, "src1"),
        _ => panic!("expected a harvest command"),
    }
    assert_eq!(c.memory.actions.len(), 1);
}

#[test]
fn ranged_walk_pops_only_within_range() {
    let world = World::new();
    let target = pos(15, 10);
    let mut c = agent(pos(10, 10), vec![Action::GoToRanged { pos: target, range: 3 }]);
    for _ in 0..3 {
        let r = c.run(&world);
        assert!(matches!(r, Ok(Some(Command::MoveToRanged { range: 3, .. }))));
        assert_eq!(c.memory.actions.len(), 1);
    }
    c.pos = pos(12, 13);
    let r = c.run(&world);
    assert!(matches!(r, Ok(None)));
    assert!(c.memory.actions.is_empty());
}

#[test]
fn walk_at_exact_range_is_done() {
    let world = World::new();
    let mut c = agent(pos(0, 0), vec![Action::GoToRanged { pos: pos(3, -2), range: 3 }]);
    assert!(matches!(c.run(&world), Ok(None)));
    assert!(c.memory.actions.is_empty());
}

#[test]
fn go_to_pops_on_arrival() {
    let world = World::new();
    let mut c = agent(pos(5, 5), vec![Action::GoTo { pos: pos(6, 5) }]);
    assert!(matches!(c.run(&world), Ok(Some(Command::MoveTo { .. }))));
    assert_eq!(c.memory.actions.len(), 1);
    c.pos = pos(6, 5);
    assert!(matches!(c.run(&world), Ok(None)));
    assert!(c.memory.actions.is_empty());
}

#[test]
fn go_to_room_pops_in_room() {
    let world = World::new();
    let mut c = agent(pos(5, 5), vec![Action::GoToRoom { room_id: "W2N1".to_string() }]);
    match c.run(&world) {
        Ok(Some(Command::MoveToRoom { room_id })) => assert_eq!(room_id, "W2N1"),
        _ => panic!("expected a move to the room"),
    }
    c.room = "W2N1".to_string();
    assert!(matches!(c.run(&world), Ok(None)));
    assert!(c.memory.actions.is_empty());
}

#[test]
fn transfer_in_range_issues_and_pops() {
    let mut world = World::new();
    let mut store = object("ext", pos(10, 11), ObjectKind::Structure);
    store.transferable = true;
    world.add(store);
    let mut c = agent(
        pos(10, 10),
        vec![
            Action::TransferAmount {
                target_id: "ext".to_string(),
                resource: "energy".to_string(),
                amount: 50,
            },
            Action::GoTo { pos: pos(1, 1) },
        ],
    );
    match c.run(&world) {
        Ok(Some(Command::Transfer { target_id, resource, amount })) => {
            assert_eq!(target_id, "ext");
            assert_eq!(resource, "energy");
            assert_eq!(amount, Some(50));
        }
        _ => panic!("expected a transfer"),
    }
    assert_eq!(c.memory.actions.len(), 1);
    assert!(matches!(c.memory.actions[0], Action::GoTo { .. }));
}

#[test]
fn transfer_to_non_transferable_is_dropped() {
    let mut world = World::new();
    world.add(object("wall", pos(10, 11), ObjectKind::Structure));
    let mut c = agent(
        pos(10, 10),
        vec![Action::TransferAll { target_id: "wall".to_string(), resource: "energy".to_string() }],
    );
    match c.run(&world) {
        Err(StepError::Mismatch { id }) => assert_eq!(id, "wall"),
        _ => panic!("expected a mismatch"),
    }
    assert!(c.memory.actions.is_empty());
}

#[test]
fn unresolved_target_keeps_action() {
    let world = World::new();
    let mut c = agent(pos(10, 10), vec![Action::Build { site_id: "gone".to_string() }]);
    match c.run(&world) {
        Err(StepError::Unresolved { id }) => assert_eq!(id, "gone"),
        _ => panic!("expected an unresolved target"),
    }
    assert_eq!(c.memory.actions.len(), 1);
}

#[test]
fn mass_attack_fires_once() {
    let world = World::new();
    let mut c = agent(pos(10, 10), vec![Action::AttackRangedMass]);
    assert!(matches!(c.run(&world), Ok(Some(Command::RangedMassAttack))));
    assert!(c.memory.actions.is_empty());
}

#[test]
fn build_range_is_three() {
    let mut world = World::new();
    world.add(object("site", pos(13, 7), ObjectKind::Site));
    let mut c = agent(pos(10, 10), vec![Action::Build { site_id: "site".to_string() }]);
    match c.run(&world) {
        Ok(Some(Command::Act { verb: Verb::Build, target_id })) => assert_eq!(target_id, "site"),
        _ => panic!("expected a build command"),
    }
    assert_eq!(c.memory.actions.len(), 1);
}

#[test]
fn action_run_matches_creep_run() {
    let mut world = World::new();
    world.add(object("spawn1", pos(30, 30), ObjectKind::Spawn));
    let a = Action::GetRenewed { spawn_id: "spawn1".to_string() };
    let mut c = agent(pos(10, 10), vec![a.duplicate()]);
    let r = a.run(&mut c, &world);
    assert!(matches!(r, Ok(Some(Command::MoveToRanged { range: 1, .. }))));
    assert_eq!(c.memory.actions.len(), 2);
}

#[test]
fn target_ids_of_actions() {
    let a = Action::GetBoosted { lab_id: "lab".to_string() };
    assert_eq!(a.target_id().map(|s| s.as_str()), Some("lab"));
    assert!(Action::GoTo { pos: pos(1, 2) }.target_id().is_none());
    assert!(Action::AttackRangedMass.target_id().is_none());
    let c = agent(pos(0, 0), vec![]);
    assert_eq!(c.memory().home, "W1N1");
    assert_eq!(c.memory().role, Role::Harvester);
}

#[test]
fn far_withdraw_walks_first_then_withdraws() {
    let mut world = World::new();
    let mut box_ = object("box", pos(5, 0), ObjectKind::Structure);
    box_.withdrawable = true;
    world.add(box_);
    let mut c = agent(
        pos(0, 0),
        vec![Action::WithdrawAll { target_id: "box".to_string(), resource: "energy".to_string() }],
    );
    assert!(matches!(c.run(&world), Ok(Some(Command::MoveToRanged { range: 1, .. }))));
    assert_eq!(c.memory.actions.len(), 2);
    c.pos = pos(4, 1);
    assert!(matches!(c.run(&world), Ok(None)));
    assert_eq!(c.memory.actions.len(), 1);
    match c.run(&world) {
        Ok(Some(Command::Withdraw { target_id, amount: None, .. })) => assert_eq!(target_id, "box"),
        _ => panic!("expected a withdrawal"),
    }
    assert!(c.memory.actions.is_empty());
}
