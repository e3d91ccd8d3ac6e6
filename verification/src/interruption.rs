//! Requests that outside producers post to the running simulation.
//!
//! An interruption is sent by value through the server's channel and consumed
//! once. Applying it says what the world has to do and whether the server
//! has to stop; the world itself is changed by whoever owns it.

use vstd::prelude::*;

verus! {

/// A request to the running simulation. `Id` names an entity and `Control`
/// is the control input of a player; neither is looked into here.
#[derive(Debug, PartialEq, Eq)]
pub enum Interruption<Id, Control> {
    /// Apply a control update to the entity that a player steers.
    PlayerUpdate { id: Id, control: Control },
    /// Stop the server.
    KillServer,
}

/// What the owner of the world has to do for one interruption.
#[derive(Debug, PartialEq, Eq)]
pub enum Effect<Id, Control> {
    /// Apply `control` to the entity `id`.
    ApplyControl { id: Id, control: Control },
    /// Leave the world as it is.
    Nothing,
}

/// The result of applying one interruption.
#[derive(Debug, PartialEq, Eq)]
pub struct Outcome<Id, Control> {
    /// What to do to the world.
    pub effect: Effect<Id, Control>,
    /// Whether the server stops once the effect has been applied.
    pub stop: bool,
}

impl<Id, Control> Interruption<Id, Control> {
    /// What this interruption does to the world.
    pub open spec fn effect(self) -> Effect<Id, Control> {
        match self {
            Interruption::PlayerUpdate { id, control } => Effect::ApplyControl { id, control },
            Interruption::KillServer => Effect::Nothing,
        }
    }

    /// Whether this interruption stops the server.
    pub open spec fn stops(self) -> bool {
        self is KillServer
    }

    /// Applies the interruption: a player's update asks for its control to
    /// be applied and lets the server go on, the request to stop changes
    /// nothing in the world and stops the server.
    pub fn update(self) -> (r: Outcome<Id, Control>)
        ensures
            r.effect == self.effect(),
            r.stop == self.stops(),
    {
        match self {
            Interruption::PlayerUpdate { id, control } => {
                Outcome { effect: Effect::ApplyControl { id, control }, stop: false }
            },
            Interruption::KillServer => Outcome { effect: Effect::Nothing, stop: true },
        }
    }
}

/// The effects of a batch of interruptions, one for each and in the order in
/// which the interruptions arrived.
pub open spec fn effects_of<Id, Control>(pending: Seq<Interruption<Id, Control>>) -> Seq<
    Effect<Id, Control>,
> {
    Seq::new(pending.len(), |i: int| pending[i].effect())
}

/// Whether a batch of interruptions holds one that stops the server.
pub open spec fn any_stops<Id, Control>(pending: Seq<Interruption<Id, Control>>) -> bool {
    exists|i: int| 0 <= i < pending.len() && (#[trigger] pending[i]).stops()
}

/// Interruptions take effect in the order in which they arrived: the effect
/// at each place of a batch is the effect of the interruption at that place.
pub proof fn effects_keep_arrival_order<Id, Control>(
    pending: Seq<Interruption<Id, Control>>,
    i: int,
)
    requires
        0 <= i < pending.len(),
    ensures
        effects_of(pending).len() == pending.len(),
        effects_of(pending)[i] == pending[i].effect(),
{
}

} // verus!
