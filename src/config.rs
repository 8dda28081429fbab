//! Population targets and equipment templates, read-only within a tick.
use vstd::prelude::*;
use crate::roles::Role;
use crate::store::Table;

verus! {

/// One body part of an agent; a template is an ordered list of them.
#[derive(Clone, Copy, Debug, PartialEq, Eq, Hash, Structural)]
pub enum BodyPart {
    Move,
    Work,
    Carry,
    Attack,
    RangedAttack,
    Tough,
    Heal,
    Claim,
}

/// The configuration record: for each locality the ordered (role, template
/// name) slots it should fill, and for each template name its body.
pub struct ConfigMemory {
    pub roles_to_spawn: Table<Vec<(Role, String)>>,
    pub equip: Table<Vec<BodyPart>>,
}

impl ConfigMemory {
    pub open spec fn wf(self) -> bool {
        self.roles_to_spawn.wf() && self.equip.wf()
    }

    /// A configuration with no locality and no template.
    pub fn new() -> (r: ConfigMemory)
        ensures
            r.wf(),
            r.roles_to_spawn@ == Map::<Seq<char>, Vec<(Role, String)>>::empty(),
            r.equip@ == Map::<Seq<char>, Vec<BodyPart>>::empty(),
    {
        ConfigMemory { roles_to_spawn: Table::new(), equip: Table::new() }
    }
}

/// The configuration loaded for one tick.
pub struct Config {
    memory: ConfigMemory,
}

impl Config {
    pub closed spec fn view(self) -> ConfigMemory {
        self.memory
    }

    pub fn new(memory: ConfigMemory) -> (r: Config)
        ensures
            r@ == memory,
    {
        Config { memory }
    }

    pub fn memory(&self) -> (r: &ConfigMemory)
        ensures
            *r == self@,
    {
        &self.memory
    }

    /// Hands the record back, to be persisted at the end of the tick.
    pub fn into_memory(self) -> (r: ConfigMemory)
        ensures
            r == self@,
    {
        self.memory
    }
}

} // verus!
