//! Role tags that classify agents for population balancing.
use vstd::prelude::*;

verus! {

/// The function an agent is meant to serve; stored in the agent's record.
#[derive(Clone, Copy, Debug, PartialEq, Eq, Hash, Structural)]
pub enum Role {
    Generic,
    Harvester,
    Transporter,
    Builder,
    Upgrader,
    Attacker,
}

/// The short tag under which a role is written in persisted records.
pub open spec fn role_tag(r: Role) -> Seq<char> {
    match r {
        Role::Generic => seq![],
        Role::Harvester => seq!['H'],
        Role::Transporter => seq!['T'],
        Role::Builder => seq!['B'],
        Role::Upgrader => seq!['U'],
        Role::Attacker => seq!['A'],
    }
}

impl Default for Role {
    fn default() -> (r: Role)
        ensures
            r == Role::Generic,
    {
        Role::Generic
    }
}

impl Role {
    /// The role's persisted tag: empty for `Generic`, one letter otherwise.
    pub fn tag(&self) -> (r: &'static str)
        ensures
            r@ == role_tag(*self),
    {
        match self {
            Role::Generic => {
                proof { reveal_strlit(""); }
                ""
            },
            Role::Harvester => {
                proof { reveal_strlit("H"); }
                "H"
            },
            Role::Transporter => {
                proof { reveal_strlit("T"); }
                "T"
            },
            Role::Builder => {
                proof { reveal_strlit("B"); }
                "B"
            },
            Role::Upgrader => {
                proof { reveal_strlit("U"); }
                "U"
            },
            Role::Attacker => {
                proof { reveal_strlit("A"); }
                "A"
            },
        }
    }
}

/// The roles a population target may name; every one carries a non-empty tag.
#[derive(Clone, Copy, Debug, PartialEq, Eq, Hash, Structural)]
pub enum RoleType {
    Harvester,
    Transporter,
    Builder,
    Upgrader,
    Attacker,
}

impl RoleType {
    /// The agent role this target role stands for.
    pub open spec fn spec_role(self) -> Role {
        match self {
            RoleType::Harvester => Role::Harvester,
            RoleType::Transporter => Role::Transporter,
            RoleType::Builder => Role::Builder,
            RoleType::Upgrader => Role::Upgrader,
            RoleType::Attacker => Role::Attacker,
        }
    }

    pub fn role(&self) -> (r: Role)
        ensures
            r == self.spec_role(),
    {
        match self {
            RoleType::Harvester => Role::Harvester,
            RoleType::Transporter => Role::Transporter,
            RoleType::Builder => Role::Builder,
            RoleType::Upgrader => Role::Upgrader,
            RoleType::Attacker => Role::Attacker,
        }
    }

    /// The persisted tag of this role.
    pub fn tag(&self) -> (r: &'static str)
        ensures
            r@ == role_tag(self.spec_role()),
            r@.len() == 1,
    {
        let role = self.role();
        role.tag()
    }
}

} // verus!
