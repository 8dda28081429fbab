//! Localities and the facts persisted for them.
use vstd::prelude::*;
use crate::geometry::Pos;
use crate::store::Table;

verus! {

/// The persisted record of a locality: facts about it that no single agent
/// owns. The scheduler reads it; the interpreter never does.
pub struct RoomMemory {
    /// Mining spots, keyed by resource name.
    pub mines: Table<Vec<Pos>>,
    /// Ids of containers that feed the extensions.
    pub extension_containers: Vec<String>,
    /// Spots reserved for extensions.
    pub extension_spots: Vec<Pos>,
    /// The lab holding each resource, keyed by resource name.
    pub lab_spots: Table<String>,
    /// Spots reserved for fortifications.
    pub forts: Vec<Pos>,
    /// Ids of structures not to be repaired.
    pub repair_blacklist: Vec<String>,
}

impl RoomMemory {
    /// A record with nothing in it.
    pub fn new() -> (r: RoomMemory)
        ensures
            r.mines.wf(),
            r.mines@ == Map::<Seq<char>, Vec<Pos>>::empty(),
            r.extension_containers@.len() == 0,
            r.extension_spots@.len() == 0,
            r.lab_spots.wf(),
            r.lab_spots@ == Map::<Seq<char>, String>::empty(),
            r.forts@.len() == 0,
            r.repair_blacklist@.len() == 0,
    {
        RoomMemory {
            mines: Table::new(),
            extension_containers: Vec::new(),
            extension_spots: Vec::new(),
            lab_spots: Table::new(),
            forts: Vec::new(),
            repair_blacklist: Vec::new(),
        }
    }
}

/// One locality for the duration of a tick.
pub struct Room {
    pub name: String,
    pub memory: RoomMemory,
}

impl Room {
    pub fn new(name: String, memory: RoomMemory) -> (r: Room)
        ensures
            r.name == name,
            r.memory == memory,
    {
        Room { name, memory }
    }

    pub fn memory(&self) -> (r: &RoomMemory)
        ensures
            *r == self.memory,
    {
        &self.memory
    }
}

} // verus!
