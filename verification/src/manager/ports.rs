//! Data ports of session slots.

use crate::error::{RelayError, RelayResult};
use std::collections::BTreeSet;
use vstd::prelude::*;

verus! {

/// First port on which a broker is looked for.
pub const BROKER_DISCOVERY_PORT_BASE: u16 = 18743;

/// Last port on which a broker is looked for.
pub const BROKER_DISCOVERY_PORT_LAST: u16 = 18752;

/// Number of ports on which a broker is looked for.
pub const BROKER_DISCOVERY_PORT_ATTEMPTS: u16 = 10;

/// First data port of a session.
pub const BROKER_DATA_PORT_BASE: u16 = 18753;

/// Last data port of a session.
pub const BROKER_DATA_PORT_LAST: u16 = 18852;

/// The port may serve a session.
pub open spec fn is_data_port(port: u16) -> bool {
    BROKER_DATA_PORT_BASE <= port <= BROKER_DATA_PORT_LAST
}

/// Holds a port to the data ports.
pub fn validate_data_port(port: u16) -> (valid: RelayResult<()>)
    ensures
        match valid {
            Ok(_) => is_data_port(port),
            Err(error) => !is_data_port(port) && error == (RelayError::InvalidConfiguration {
                field: "data_port",
                reason: "must remain in 18753..18852",
            }),
        },
{
    if BROKER_DATA_PORT_BASE <= port && port <= BROKER_DATA_PORT_LAST {
        Ok(())
    } else {
        Err(
            RelayError::InvalidConfiguration {
                field: "data_port",
                reason: "must remain in 18753..18852",
            },
        )
    }
}

/// A bounded allocator of data ports.
#[derive(Debug)]
pub struct DataPortAllocator {
    start: u16,
    end: u16,
    allocated: BTreeSet<u16>,
}

impl View for DataPortAllocator {
    type V = Set<u16>;

    closed spec fn view(&self) -> Set<u16> {
        self.allocated@
    }
}

/// The port is the lowest data port that is not in `taken`.
pub open spec fn is_first_free(taken: Set<u16>, port: u16) -> bool {
    &&& is_data_port(port)
    &&& !taken.contains(port)
    &&& forall|lower: u16| is_data_port(lower) && lower < port ==> #[trigger] taken.contains(lower)
}

/// The reserved ports once `port` is reserved too.
pub open spec fn ports_reserved(taken: Set<u16>, port: u16) -> Set<u16> {
    taken.insert(port)
}

/// The reserved ports once `port` was given back.
pub open spec fn ports_released(taken: Set<u16>, port: u16) -> Set<u16> {
    taken.remove(port)
}

impl DataPortAllocator {
    /// The allocator is well formed: it hands out data ports only.
    pub closed spec fn wf(&self) -> bool {
        &&& self.start == BROKER_DATA_PORT_BASE
        &&& self.end == BROKER_DATA_PORT_LAST
        &&& forall|port: u16| #[trigger] self.allocated@.contains(port) ==> is_data_port(port)
    }

    /// Every reserved port of a well-formed allocator is a data port.
    pub proof fn lemma_data_ports(&self)
        requires
            self.wf(),
        ensures
            forall|port: u16| #[trigger] self@.contains(port) ==> is_data_port(port),
    {
    }

    /// An allocator of the data ports; any other range is refused.
    pub fn new(start: u16, end: u16) -> (allocator: RelayResult<Self>)
        ensures
            match allocator {
                Ok(made) => {
                    &&& start == BROKER_DATA_PORT_BASE && end == BROKER_DATA_PORT_LAST
                    &&& made.wf()
                    &&& made@ == Set::<u16>::empty()
                },
                Err(error) => {
                    &&& start != BROKER_DATA_PORT_BASE || end != BROKER_DATA_PORT_LAST
                    &&& error == (RelayError::InvalidConfiguration {
                        field: "data_port_range",
                        reason: "must remain 18753..18852",
                    })
                },
            },
    {
        if start != BROKER_DATA_PORT_BASE || end != BROKER_DATA_PORT_LAST {
            return Err(
                RelayError::InvalidConfiguration {
                    field: "data_port_range",
                    reason: "must remain 18753..18852",
                },
            );
        }
        Ok(DataPortAllocator { start, end, allocated: BTreeSet::new() })
    }

    /// Reserves the lowest free data port.
    pub fn reserve(&mut self) -> (port: RelayResult<u16>)
        requires
            old(self).wf(),
        ensures
            final(self).wf(),
            match port {
                Ok(reserved) => {
                    &&& is_first_free(old(self)@, reserved)
                    &&& final(self)@ == old(self)@.insert(reserved)
                    &&& final(self)@ == ports_reserved(old(self)@, reserved)
                },
                Err(error) => {
                    &&& forall|taken: u16|
                        is_data_port(taken) ==> #[trigger] old(self)@.contains(taken)
                    &&& error == RelayError::PortRangeExhausted
                    &&& final(self)@ == old(self)@
                },
            },
    {
        let mut port: u16 = self.start;
        while port <= self.end
            invariant
                self.wf(),
                *self == *old(self),
                BROKER_DATA_PORT_BASE <= port <= BROKER_DATA_PORT_LAST + 1,
                forall|lower: u16|
                    is_data_port(lower) && lower < port ==> #[trigger] self.allocated@.contains(
                        lower,
                    ),
            decreases BROKER_DATA_PORT_LAST + 1 - port,
        {
            if !self.allocated.contains(&port) {
                self.allocated.insert(port);
                return Ok(port);
            }
            port = port + 1;
        }
        Err(RelayError::PortRangeExhausted)
    }

    /// Gives a port back.
    pub fn release(&mut self, port: u16)
        requires
            old(self).wf(),
        ensures
            final(self).wf(),
            final(self)@ == old(self)@.remove(port),
            final(self)@ == ports_released(old(self)@, port),
    {
        self.allocated.remove(&port);
    }

    /// Tells whether a port is reserved.
    pub fn contains(&self, port: u16) -> (reserved: bool)
        ensures
            reserved == self@.contains(port),
    {
        self.allocated.contains(&port)
    }

    /// The number of reserved ports.
    pub fn len(&self) -> (count: usize)
        ensures
            count == self@.len(),
    {
        self.allocated.len()
    }
}

/// A port that is given back is the next one to be handed out, if no lower one is free.
pub proof fn law_released_port_is_reused(taken: Set<u16>, port: u16)
    requires
        is_data_port(port),
        forall|lower: u16| is_data_port(lower) && lower < port ==> #[trigger] taken.contains(lower),
    ensures
        is_first_free(taken.remove(port), port),
{
}

/// The port that is handed out next is determined by the reserved ones.
pub proof fn law_reservation_is_determined(taken: Set<u16>, first: u16, second: u16)
    requires
        is_first_free(taken, first),
        is_first_free(taken, second),
    ensures
        first == second,
{
    if first < second {
        assert(taken.contains(first));
    }
    if second < first {
        assert(taken.contains(second));
    }
}

/// Reserving takes one free port of the range, the lowest, and giving a port back frees that port
/// alone. Each undoes the other.
pub proof fn law_ports_are_taken_one_by_one(taken: Set<u16>, port: u16, other: u16)
    ensures
        ports_reserved(taken, port).contains(other) <==> taken.contains(other) || other == port,
        ports_released(taken, port).contains(other) <==> taken.contains(other) && other != port,
        !taken.contains(port) ==> ports_released(ports_reserved(taken, port), port) == taken,
        taken.contains(port) ==> ports_reserved(ports_released(taken, port), port) == taken,
        is_first_free(taken, port) ==> !taken.contains(port) && (18753 <= other < port
            ==> taken.contains(other)),
{
    if !taken.contains(port) {
        assert(ports_released(ports_reserved(taken, port), port) =~= taken);
    } else {
        assert(ports_reserved(ports_released(taken, port), port) =~= taken);
    }
    if is_first_free(taken, port) && 18753 <= other < port {
        assert(is_data_port(other));
    }
}

/// There are a hundred data ports, above the ten ports that are searched for a broker.
pub proof fn law_data_ports_are_above_the_broker_ports(port: u16)
    ensures
        is_data_port(port) <==> 18753 <= port <= 18852,
        is_data_port(port) ==> port > BROKER_DISCOVERY_PORT_LAST,
        BROKER_DISCOVERY_PORT_BASE == 18743,
        BROKER_DISCOVERY_PORT_LAST == 18743 + BROKER_DISCOVERY_PORT_ATTEMPTS - 1,
        BROKER_DISCOVERY_PORT_ATTEMPTS == 10,
{
}

} // verus!
