//! The state store's namespaces for one tick, and the reclaimer that drops
//! records of entities the host no longer reports.
use vstd::prelude::*;
use crate::config::Config;
use crate::creeps::CreepMemory;
use crate::store::{name_set, Table};

verus! {

/// Ids the host reports live this tick, per namespace.
pub struct LiveIds {
    pub creeps: Vec<String>,
    pub spawns: Vec<String>,
    pub flags: Vec<String>,
}

/// Keys deleted by a cleanup, per namespace.
pub struct Reclaimed {
    pub creeps: Vec<String>,
    pub spawns: Vec<String>,
    pub flags: Vec<String>,
}

/// The records loaded at the start of a tick: the configuration, the agents'
/// records, and the keys of the production-structure and marker namespaces,
/// whose records the core never reads.
pub struct MemoryController {
    config: Option<Config>,
    creeps: Option<Table<CreepMemory>>,
    spawns: Table<()>,
    flags: Table<()>,
}

impl MemoryController {
    pub closed spec fn wf(self) -> bool {
        &&& self.creeps matches Some(t) ==> t.wf()
        &&& self.spawns.wf()
        &&& self.flags.wf()
    }

    pub closed spec fn config(self) -> Option<Config> {
        self.config
    }

    /// The agents' records, while loaded.
    pub closed spec fn creeps(self) -> Option<Map<Seq<char>, CreepMemory>> {
        match self.creeps {
            Some(t) => Some(t@),
            None => None,
        }
    }

    pub closed spec fn spawn_keys(self) -> Set<Seq<char>> {
        self.spawns@.dom()
    }

    pub closed spec fn flag_keys(self) -> Set<Seq<char>> {
        self.flags@.dom()
    }

    pub fn new(
        config: Config,
        creeps: Table<CreepMemory>,
        spawns: Table<()>,
        flags: Table<()>,
    ) -> (r: MemoryController)
        requires
            creeps.wf(),
            spawns.wf(),
            flags.wf(),
        ensures
            r.wf(),
            r.config() == Some(config),
            r.creeps() == Some(creeps@),
            r.spawn_keys() == spawns@.dom(),
            r.flag_keys() == flags@.dom(),
    {
        MemoryController { config: Some(config), creeps: Some(creeps), spawns, flags }
    }

    /// Deletes, in each namespace, every record whose key is not live, and
    /// returns the deleted keys. Records under live keys are kept unchanged.
    pub fn cleanup(&mut self, live: &LiveIds) -> (r: Reclaimed)
        requires
            old(self).wf(),
        ensures
            final(self).wf(),
            final(self).config() == old(self).config(),
            match old(self).creeps() {
                Some(m) => final(self).creeps() == Some(m.restrict(name_set(live.creeps@)))
                    && name_set(r.creeps@) == m.dom().difference(name_set(live.creeps@)),
                None => final(self).creeps().is_none() && r.creeps@.len() == 0,
            },
            final(self).spawn_keys() == old(self).spawn_keys().intersect(name_set(live.spawns@)),
            name_set(r.spawns@) == old(self).spawn_keys().difference(name_set(live.spawns@)),
            final(self).flag_keys() == old(self).flag_keys().intersect(name_set(live.flags@)),
            name_set(r.flags@) == old(self).flag_keys().difference(name_set(live.flags@)),
    {
        let creeps = match &mut self.creeps {
            Some(t) => t.sweep(&live.creeps),
            None => Vec::new(),
        };
        let ghost spawns_before = self.spawns@;
        let spawns = self.spawns.sweep(&live.spawns);
        assert(self.spawns@.dom() =~= spawns_before.dom().intersect(name_set(live.spawns@)));
        let ghost flags_before = self.flags@;
        let flags = self.flags.sweep(&live.flags);
        assert(self.flags@.dom() =~= flags_before.dom().intersect(name_set(live.flags@)));
        Reclaimed { creeps, spawns, flags }
    }

    pub fn set_config(&mut self, config: Config)
        ensures
            final(self).config() == Some(config),
            final(self).creeps() == old(self).creeps(),
            final(self).spawn_keys() == old(self).spawn_keys(),
            final(self).flag_keys() == old(self).flag_keys(),
            old(self).wf() ==> final(self).wf(),
    {
        self.config = Some(config);
    }

    /// Takes the configuration out; `None` if it was already taken.
    pub fn take_config(&mut self) -> (r: Option<Config>)
        ensures
            r == old(self).config(),
            final(self).config().is_none(),
            final(self).creeps() == old(self).creeps(),
            final(self).spawn_keys() == old(self).spawn_keys(),
            final(self).flag_keys() == old(self).flag_keys(),
            old(self).wf() ==> final(self).wf(),
    {
        self.config.take()
    }

    pub fn set_creeps(&mut self, creeps: Table<CreepMemory>)
        requires
            creeps.wf(),
        ensures
            final(self).creeps() == Some(creeps@),
            final(self).config() == old(self).config(),
            final(self).spawn_keys() == old(self).spawn_keys(),
            final(self).flag_keys() == old(self).flag_keys(),
            old(self).wf() ==> final(self).wf(),
    {
        self.creeps = Some(creeps);
    }

    /// Takes the agents' records out; `None` if they were already taken.
    pub fn take_creeps(&mut self) -> (r: Option<Table<CreepMemory>>)
        requires
            old(self).wf(),
        ensures
            final(self).wf(),
            r matches Some(t) ==> t.wf() && old(self).creeps() == Some(t@),
            r.is_none() == old(self).creeps().is_none(),
            final(self).creeps().is_none(),
            final(self).config() == old(self).config(),
            final(self).spawn_keys() == old(self).spawn_keys(),
            final(self).flag_keys() == old(self).flag_keys(),
    {
        self.creeps.take()
    }

    /// Hands back what is to be persisted at the end of the tick: the
    /// configuration and the agents' records, where still held.
    pub fn update(self) -> (r: (Option<Config>, Option<Table<CreepMemory>>))
        requires
            self.wf(),
        ensures
            r.0 == self.config(),
            match r.1 {
                Some(t) => t.wf() && self.creeps() == Some(t@),
                None => self.creeps().is_none(),
            },
    {
        (self.config, self.creeps)
    }
}

} // verus!
