use colony::config::{BodyPart, Config, ConfigMemory};
use colony::mayor::{Mayor, SpawnState};
use colony::names::{decimal_string, get_name};
use colony::roles::Role;
use colony::rooms::{Room, RoomMemory};

fn strings(v: &[&str]) -> Vec<String> {
    v.iter().map(|s| s.to_string()).collect()
}

fn config(slots: Vec<(Role, &str)>) -> Config {
    let mut memory = ConfigMemory::new();
    memory.roles_to_spawn.set(
        "W1N1".to_string(),
        slots.into_iter().map(|(r, t)| (r, t.to_string())).collect(),
    );
    memory.equip.set("basic".to_string(), vec![BodyPart::Work, BodyPart::Carry, BodyPart::Move]);
    memory.equip.set("hauler".to_string(), vec![BodyPart::Carry, BodyPart::Move]);
    Config::new(memory)
}

fn room() -> Room {
    Room::new("W1N1".to_string(), RoomMemory::new())
}

fn idle(id: &str) -> SpawnState {
    SpawnState { id: id.to_string(), spawning: false }
}

#[test]
fn second_slot_of_role_wins_over_later_role() {
    let cfg = config(vec![(Role::Harvester, "basic"), (Role::Harvester, "basic"), (Role::Transporter, "hauler")]);
    let mayor = Mayor::new(room(), &cfg);
    let req = mayor
        .determine_spawns(&vec![idle("Spawn1")], &vec![Role::Harvester], &strings(&["h1"]), &vec![], 7)
        .expect("a request");
    assert_eq!(req.memory.role, Role::Harvester);
    assert_eq!(req.body, vec![BodyPart::Work, BodyPart::Carry, BodyPart::Move]);
    assert_eq!(req.spawn_id, "Spawn1");
}

#[test]
fn empty_locality_spawns_first_slot() {
    let cfg = config(vec![(Role::Harvester, "basic")]);
    let mayor = Mayor::new(room(), &cfg);
    let live = strings(&["Alice", "Bob"]);
    let pool = strings(&["Alice", "Bob", "Carol"]);
    let req = mayor
        .determine_spawns(&vec![idle("Spawn1")], &vec![], &live, &pool, 100)
        .expect("a request");
    assert_eq!(req.memory.role, Role::Harvester);
    assert_eq!(req.memory.home, "W1N1");
    assert!(req.memory.actions.is_empty());
    assert_eq!(req.name, "Carol");
    assert!(!live.contains(&req.name));
}

#[test]
fn one_request_despite_many_deficits() {
    let cfg = config(vec![
        (Role::Harvester, "basic"),
        (Role::Transporter, "hauler"),
        (Role::Builder, "basic"),
    ]);
    let mayor = Mayor::new(room(), &cfg);
    let req = mayor
        .determine_spawns(&vec![idle("S1"), idle("S2")], &vec![], &vec![], &vec![], 1)
        .expect("a request");
    assert_eq!(req.memory.role, Role::Harvester);
    assert_eq!(req.spawn_id, "S1");
}

#[test]
fn full_population_spawns_nothing() {
    let cfg = config(vec![(Role::Harvester, "basic"), (Role::Transporter, "hauler")]);
    let mayor = Mayor::new(room(), &cfg);
    let r = mayor.determine_spawns(
        &vec![idle("S1")],
        &vec![Role::Transporter, Role::Harvester, Role::Harvester],
        &vec![],
        &vec![],
        1,
    );
    assert!(r.is_none());
}

#[test]
fn unconfigured_locality_spawns_nothing() {
    let cfg = config(vec![(Role::Harvester, "basic")]);
    let mayor = Mayor::new(Room::new("E5S5".to_string(), RoomMemory::new()), &cfg);
    assert!(mayor.determine_spawns(&vec![idle("S1")], &vec![], &vec![], &vec![], 1).is_none());
}

#[test]
fn no_idle_structure_spawns_nothing() {
    let cfg = config(vec![(Role::Harvester, "basic")]);
    let mayor = Mayor::new(room(), &cfg);
    let busy = SpawnState { id: "S1".to_string(), spawning: true };
    assert!(mayor.determine_spawns(&vec![busy], &vec![], &vec![], &vec![], 1).is_none());
    assert!(mayor.determine_spawns(&vec![], &vec![], &vec![], &vec![], 1).is_none());
}

#[test]
fn busy_first_structure_uses_next_idle() {
    let cfg = config(vec![(Role::Harvester, "basic")]);
    let mayor = Mayor::new(room(), &cfg);
    let busy = SpawnState { id: "S1".to_string(), spawning: true };
    let req = mayor
        .determine_spawns(&vec![busy, idle("S2")], &vec![], &vec![], &vec![], 1)
        .expect("a request");
    assert_eq!(req.spawn_id, "S2");
}

#[test]
fn missing_template_skips_to_next_slot() {
    let cfg = config(vec![(Role::Builder, "missing"), (Role::Upgrader, "hauler")]);
    let mayor = Mayor::new(room(), &cfg);
    let req = mayor
        .determine_spawns(&vec![idle("S1")], &vec![], &vec![], &vec![], 1)
        .expect("a request");
    assert_eq!(req.memory.role, Role::Upgrader);
    assert_eq!(req.body, vec![BodyPart::Carry, BodyPart::Move]);
}

#[test]
fn spawn_without_template_is_none() {
    let cfg = config(vec![]);
    let mayor = Mayor::new(room(), &cfg);
    let r = mayor.spawn(&idle("S1"), Role::Attacker, &"nothing".to_string(), &vec![], &vec![], 3);
    assert!(r.is_none());
}

#[test]
fn fallback_name_uses_tick() {
    assert_eq!(get_name(&vec![], &vec![], 4321), "Creep_4321");
    let pool = strings(&["Alice"]);
    assert_eq!(get_name(&pool, &strings(&["Alice"]), 0), "Creep_0");
}

#[test]
fn fallback_name_avoids_live_names() {
    let live = strings(&["Creep_42", "Creep_42_"]);
    let name = get_name(&vec![], &live, 42);
    assert_eq!(name, "Creep_42__");
}

#[test]
fn pool_name_is_free() {
    let pool = strings(&["Alice", "Bob", "Carol", "Dave"]);
    let live = strings(&["Alice", "Carol"]);
    for tick in 0..20 {
        let name = get_name(&pool, &live, tick);
        assert!(name == "Bob" || name == "Dave");
    }
}

#[test]
fn decimal_digits() {
    assert_eq!(decimal_string(0), "0");
    assert_eq!(decimal_string(9), "9");
    assert_eq!(decimal_string(10), "10");
    assert_eq!(decimal_string(4294967295), "4294967295");
}
