//! The state that a Manager keeps over its restarts.

use crate::clock::epoch_reading;
use crate::error::{RelayError, RelayResult};
use crate::manager::ports::{BROKER_DISCOVERY_PORT_BASE, BROKER_DISCOVERY_PORT_LAST};
use vstd::prelude::*;

verus! {

/// File of the Manager state.
pub const MANAGER_STATE_FILE: &'static str = "state.json";

/// Manager state without tokens and fingerprints.
#[derive(Clone, Copy, Debug, Eq, PartialEq, Structural)]
pub struct PersistedManagerState {
    /// Generation of the Manager process.
    pub broker_generation: u64,
    /// Next child generation.
    pub next_child_generation: u64,
    /// Last preferred broker discovery port.
    pub preferred_broker_port: u16,
}

impl Default for PersistedManagerState {
    /// The state of a Manager that never ran.
    fn default() -> (state: Self)
        ensures
            state == (PersistedManagerState {
                broker_generation: 0,
                next_child_generation: 1,
                preferred_broker_port: BROKER_DISCOVERY_PORT_BASE,
            }),
    {
        PersistedManagerState {
            broker_generation: 0,
            next_child_generation: 1,
            preferred_broker_port: BROKER_DISCOVERY_PORT_BASE,
        }
    }
}

/// The state keeps to the fixed policy.
pub open spec fn state_allowed(state: PersistedManagerState) -> bool {
    &&& BROKER_DISCOVERY_PORT_BASE <= state.preferred_broker_port <= BROKER_DISCOVERY_PORT_LAST
    &&& state.next_child_generation != 0
}

/// The generation after `generation`, which is never zero.
pub open spec fn next_generation(generation: u64) -> u64 {
    if generation == u64::MAX {
        1
    } else {
        (generation + 1) as u64
    }
}

/// Computes the generation after `generation`.
pub fn advance_generation(generation: u64) -> (next: u64)
    ensures
        next == next_generation(generation),
        next != 0,
{
    if generation == u64::MAX {
        1
    } else {
        generation + 1
    }
}

/// The state that a Manager starts with when it loaded `loaded`.
pub open spec fn opened_state(loaded: PersistedManagerState, preferred_broker_port: u16) -> PersistedManagerState {
    PersistedManagerState {
        broker_generation: next_generation(loaded.broker_generation),
        next_child_generation: loaded.next_child_generation,
        preferred_broker_port: if loaded.broker_generation == 0 {
            preferred_broker_port
        } else {
            loaded.preferred_broker_port
        },
    }
}

impl PersistedManagerState {
    /// Holds loaded state to the fixed policy.
    pub fn accept(self) -> (state: RelayResult<Self>)
        ensures
            match state {
                Ok(accepted) => state_allowed(self) && accepted == self,
                Err(error) => !state_allowed(self) && error == (RelayError::Manager {
                    reason: "manager state is outside the frozen policy",
                }),
            },
    {
        if self.preferred_broker_port < BROKER_DISCOVERY_PORT_BASE || self.preferred_broker_port
            > BROKER_DISCOVERY_PORT_LAST || self.next_child_generation == 0 {
            return Err(
                RelayError::Manager { reason: "manager state is outside the frozen policy" },
            );
        }
        Ok(self)
    }

    /// The state that a Manager starts with; its process generation is a new one.
    pub fn opened(self, preferred_broker_port: u16) -> (state: Self)
        ensures
            state == opened_state(self, preferred_broker_port),
    {
        let port: u16 = if self.broker_generation == 0 {
            preferred_broker_port
        } else {
            self.preferred_broker_port
        };
        PersistedManagerState {
            broker_generation: advance_generation(self.broker_generation),
            next_child_generation: self.next_child_generation,
            preferred_broker_port: port,
        }
    }
}

/// Every restart has another process generation, until the number starts over, and what a Manager
/// saves is accepted when it is loaded.
pub proof fn law_restart_has_a_new_generation(loaded: PersistedManagerState, preferred: u16)
    requires
        state_allowed(loaded),
        BROKER_DISCOVERY_PORT_BASE <= preferred <= BROKER_DISCOVERY_PORT_LAST,
    ensures
        loaded.broker_generation < u64::MAX ==> opened_state(loaded, preferred).broker_generation
            > loaded.broker_generation,
        opened_state(loaded, preferred).broker_generation != 0,
        state_allowed(opened_state(loaded, preferred)),
{
}

/// The error of a clock before the epoch, or its reading.
pub fn epoch_from(reading: Option<u64>) -> (seconds: RelayResult<u64>)
    ensures
        seconds == (match reading {
            Some(value) => Ok::<u64, RelayError>(value),
            None => Err(RelayError::Manager { reason: "system clock precedes Unix epoch" }),
        }),
{
    match reading {
        Some(value) => Ok(value),
        None => Err(RelayError::Manager { reason: "system clock precedes Unix epoch" }),
    }
}

/// Seconds since the Unix epoch.
pub fn epoch_seconds() -> (seconds: RelayResult<u64>)
    ensures
        seconds matches Err(error) ==> error == (RelayError::Manager {
            reason: "system clock precedes Unix epoch",
        }),
{
    epoch_from(epoch_reading())
}

/// A generation is followed by the next number, and the last one by one: no generation is zero.
pub proof fn law_generations_count_up(generation: u64)
    ensures
        generation < u64::MAX ==> next_generation(generation) == generation + 1,
        next_generation(u64::MAX) == 1,
        next_generation(generation) != 0,
{
}

/// Opening the state raises the generation of the broker and nothing else; the preferred port is
/// taken from the configuration only if the state is the first one.
pub proof fn law_opening_raises_the_generation(loaded: PersistedManagerState, preferred: u16)
    ensures
        ({
            let state = opened_state(loaded, preferred);
            &&& loaded.broker_generation < u64::MAX ==> state.broker_generation
                == loaded.broker_generation + 1
            &&& state.next_child_generation == loaded.next_child_generation
            &&& loaded.broker_generation != 0 ==> state.preferred_broker_port
                == loaded.preferred_broker_port
            &&& loaded.broker_generation == 0 ==> state.preferred_broker_port == preferred
        }),
{
}

/// A stored state is accepted if and only if its port is one of those that are searched for a broker
/// and its next generation of a child is not zero.
pub proof fn law_stored_states_are_bounded(state: PersistedManagerState)
    ensures
        state_allowed(state) <==> 18743 <= state.preferred_broker_port <= 18752
            && state.next_child_generation > 0,
{
}

} // verus!
