use colony::actions::Action;
use colony::config::{Config, ConfigMemory};
use colony::creeps::CreepMemory;
use colony::geometry::{in_range_to, range_to, Pos};
use colony::memory::{LiveIds, MemoryController};
use colony::roles::{Role, RoleType};
use colony::rooms::{Room, RoomMemory};
use colony::store::{contains_name, Table};
use colony::tick::{game_loop_catch, TickFailure};

fn strings(v: &[&str]) -> Vec<String> {
    v.iter().map(|s| s.to_string()).collect()
}

fn keyed(keys: &[&str]) -> Table<()> {
    let mut t = Table::new();
    for k in keys {
        t.set(k.to_string(), ());
    }
    t
}

fn sorted(mut v: Vec<String>) -> Vec<String> {
    v.sort();
    v
}

#[test]
fn sweep_deletes_only_dead_keys() {
    let mut t = keyed(&["a", "b", "c"]);
    let gone = t.sweep(&strings(&["b", "c"]));
    assert_eq!(gone, strings(&["a"]));
    assert_eq!(sorted(t.keys()), strings(&["b", "c"]));
    let again = t.sweep(&strings(&["b", "c"]));
    assert!(again.is_empty());
    assert_eq!(t.len(), 2);
}

#[test]
fn record_round_trip_keeps_fields() {
    let mut t: Table<CreepMemory> = Table::new();
    let empty = CreepMemory::new("W1N1".to_string(), Role::Builder);
    t.set("Alice".to_string(), empty);
    let mut busy = CreepMemory::new("W2N2".to_string(), Role::Attacker);
    busy.actions.push_back(Action::Pickup { target_id: "res1".to_string() });
    t.set("Bob".to_string(), busy);
    let a = t.get(&"Alice".to_string()).expect("stored");
    assert_eq!(a.home, "W1N1");
    assert_eq!(a.role, Role::Builder);
    assert!(a.actions.is_empty());
    let b = t.get(&"Bob".to_string()).expect("stored");
    assert_eq!(b.home, "W2N2");
    assert_eq!(b.actions.len(), 1);
    assert!(matches!(&b.actions[0], Action::Pickup { target_id } if target_id == "res1"));
    assert!(t.get(&"Carol".to_string()).is_none());
}

#[test]
fn set_replaces_and_delete_removes() {
    let mut t: Table<u32> = Table::new();
    t.set("k".to_string(), 1);
    t.set("k".to_string(), 2);
    assert_eq!(t.len(), 1);
    assert_eq!(t.get(&"k".to_string()), Some(&2));
    assert!(t.contains_key(&"k".to_string()));
    assert!(t.delete(&"k".to_string()));
    assert!(!t.delete(&"k".to_string()));
    assert_eq!(t.len(), 0);
}

#[test]
fn cleanup_sweeps_every_namespace() {
    let mut creeps: Table<CreepMemory> = Table::new();
    creeps.set("old".to_string(), CreepMemory::new("W1N1".to_string(), Role::Generic));
    creeps.set("new".to_string(), CreepMemory::new("W1N1".to_string(), Role::Harvester));
    let mut mc = MemoryController::new(
        Config::new(ConfigMemory::new()),
        creeps,
        keyed(&["Spawn1", "Spawn2"]),
        keyed(&["flag"]),
    );
    let live = LiveIds {
        creeps: strings(&["new"]),
        spawns: strings(&["Spawn2"]),
        flags: strings(&["flag"]),
    };
    let gone = mc.cleanup(&live);
    assert_eq!(gone.creeps, strings(&["old"]));
    assert_eq!(gone.spawns, strings(&["Spawn1"]));
    assert!(gone.flags.is_empty());
    let again = mc.cleanup(&live);
    assert!(again.creeps.is_empty() && again.spawns.is_empty() && again.flags.is_empty());
    let creeps = mc.take_creeps().expect("loaded");
    assert!(mc.take_creeps().is_none());
    assert_eq!(creeps.keys(), strings(&["new"]));
    assert!(mc.take_config().is_some());
    assert!(mc.take_config().is_none());
    let (config, records) = mc.update();
    assert!(config.is_none() && records.is_none());
}

#[test]
fn chebyshev_range() {
    let a = Pos { x: 0, y: 0 };
    assert_eq!(range_to(a, Pos { x: 3, y: -5 }), 5);
    assert_eq!(range_to(a, Pos { x: -7, y: 2 }), 7);
    assert_eq!(range_to(Pos { x: i32::MIN, y: 0 }, Pos { x: i32::MAX, y: 0 }), u32::MAX);
    assert!(in_range_to(a, Pos { x: 1, y: 1 }, 1));
    assert!(!in_range_to(a, Pos { x: 2, y: 1 }, 1));
}

#[test]
fn role_tags() {
    assert_eq!(Role::Generic.tag(), "");
    assert_eq!(Role::Harvester.tag(), "H");
    assert_eq!(Role::Transporter.tag(), "T");
    assert_eq!(Role::Builder.tag(), "B");
    assert_eq!(Role::Upgrader.tag(), "U");
    assert_eq!(Role::Attacker.tag(), "A");
    assert_eq!(Role::default(), Role::Generic);
    assert_eq!(RoleType::Upgrader.tag(), "U");
    assert_eq!(RoleType::Attacker.role(), Role::Attacker);
}

#[test]
fn name_membership() {
    let names = strings(&["a", "bb"]);
    assert!(contains_name(&names, &"bb".to_string()));
    assert!(!contains_name(&names, &"b".to_string()));
}

#[test]
fn failed_tick_logs_cause() {
    assert!(game_loop_catch(Ok(())).is_empty());
    let lines = game_loop_catch(Err(TickFailure {
        description: "no config".to_string(),
        cause: Some("missing key".to_string()),
    }));
    assert_eq!(lines, strings(&["no config", "cause: missing key"]));
    let lines = game_loop_catch(Err(TickFailure { description: "x".to_string(), cause: None }));
    assert_eq!(lines, strings(&["x"]));
}

#[test]
fn take_hands_out_record_once() {
    let mut t: Table<CreepMemory> = Table::new();
    t.set("Alice".to_string(), CreepMemory::new("W1N1".to_string(), Role::Upgrader));
    let m = t.take(&"Alice".to_string()).expect("stored");
    assert_eq!(m.role, Role::Upgrader);
    assert!(t.take(&"Alice".to_string()).is_none());
    assert_eq!(t.len(), 0);
    t.set("Alice".to_string(), m);
    assert_eq!(t.get(&"Alice".to_string()).map(|r| r.role), Some(Role::Upgrader));
}

#[test]
fn fresh_locality_record_is_empty() {
    let r = RoomMemory::new();
    assert_eq!(r.mines.len(), 0);
    assert_eq!(r.lab_spots.len(), 0);
    assert!(r.extension_containers.is_empty() && r.extension_spots.is_empty());
    assert!(r.forts.is_empty() && r.repair_blacklist.is_empty());
    let room = Room::new("W3N3".to_string(), r);
    assert_eq!(room.memory().mines.len(), 0);
}
