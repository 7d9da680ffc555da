use vstd::prelude::*;

verus! {

/// Something a power does when it is exercised.
pub trait Executable {
    fn execute(&self);
}

/// The action of declaring war.
pub struct DeclareWarBehavior {}

impl Executable for DeclareWarBehavior {
    fn execute(&self) {
    }
}

/// The closed set of actions a power can carry.
pub enum Action {
    DeclareWar(DeclareWarBehavior),
}

/// The action bound to a power.
pub struct PowerBehavior {
    pub behavior: Action,
}

impl PowerBehavior {
    pub fn new(behavior: Action) -> (r: PowerBehavior)
        ensures
            r.behavior == behavior,
    {
        PowerBehavior { behavior }
    }

    /// Performs the bound action.
    pub fn execute(&self) {
        match &self.behavior {
            Action::DeclareWar(b) => b.execute(),
        }
    }
}

/// A permission within a government: an action it may take, such as
/// declaring war or raising taxes.
pub struct Power {
    pub id: u8,
    pub name: String,
    pub behavior: Option<PowerBehavior>,
}

/// A power as granted to a chamber or a role, with the voting conditions that
/// apply to it.
pub struct EnumeratedPower {
    pub power: Power,
    /// Whether the power needs no approval from other legislatures.
    pub exclusive: bool,
    pub need_majority: Option<bool>,
    pub need_supermajority: Option<bool>,
    pub need_quorum: Option<bool>,
    pub need_abstain: Option<bool>,
}

/// A position within a government, with the powers it holds.
pub struct Role {
    pub id: u8,
    pub name: String,
    pub powers: Vec<Power>,
}

} // verus!
