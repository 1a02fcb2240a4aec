use vstd::prelude::*;

use crate::ble::hid::ButtonService;
use crate::ble::stick::StickService;

verus! {

/// The player service: a central decides which player this controller
/// belongs to by reading and writing its index characteristic.
#[derive(Clone, Copy, Debug, PartialEq, Eq, Structural)]
pub struct Player {
    /// The handle of the player index characteristic.
    pub index: u16,
}

/// The attribute layout of the gamepad's GATT server.
#[derive(Clone, Copy, Debug, PartialEq, Eq, Structural)]
pub struct Server {
    pub hid: ButtonService,
    pub stick: StickService,
    pub player: Player,
}

/// A request a central made on an attribute.
#[derive(Clone, Copy, Debug, PartialEq, Eq, Structural)]
pub enum GattRequest {
    /// The attribute with this handle was read.
    Read { handle: u16 },
    /// The attribute with this handle was written.
    Write { handle: u16 },
    /// Any other request.
    Other,
    /// A request the attribute's permissions do not allow.
    NotAllowed,
}

/// What happened on a connection.
#[derive(Clone, Copy, Debug, PartialEq, Eq, Structural)]
pub enum ConnectionEvent {
    /// The central disconnected.
    Disconnected,
    /// The central made a request on an attribute.
    Gatt(GattRequest),
    /// Anything else, such as updated connection parameters.
    Other,
}

/// Which access to the player index the server reports.
#[derive(Clone, Copy, Debug, PartialEq, Eq, Structural)]
pub enum PlayerIndexAccess {
    Read,
    Write,
}

/// What the GATT server task does with an event.
#[derive(Clone, Copy, Debug, PartialEq, Eq, Structural)]
pub enum GattStep {
    /// The connection is gone: the task ends.
    Stop,
    /// Accept the request and send the reply, after reporting the access to
    /// the player index if there is one.
    Reply(Option<PlayerIndexAccess>),
    /// Nothing to do; wait for the next event.
    Ignore,
}

/// The access to the player index that a request is, if it is one.
pub open spec fn player_index_access(server: Server, request: GattRequest) -> Option<PlayerIndexAccess> {
    match request {
        GattRequest::Read { handle } => if handle == server.player.index {
            Some(PlayerIndexAccess::Read)
        } else {
            None
        },
        GattRequest::Write { handle } => if handle == server.player.index {
            Some(PlayerIndexAccess::Write)
        } else {
            None
        },
        _ => None,
    }
}

/// What the GATT server task does with an event.
pub open spec fn gatt_step(server: Server, event: ConnectionEvent) -> GattStep {
    match event {
        ConnectionEvent::Disconnected => GattStep::Stop,
        ConnectionEvent::Gatt(request) => GattStep::Reply(player_index_access(server, request)),
        ConnectionEvent::Other => GattStep::Ignore,
    }
}

/// Decides what the GATT server task does with one connection event: a
/// disconnect ends it; every request on an attribute is accepted and
/// answered, and a read or a write of the player index is reported first;
/// anything else is passed over.
pub fn gatt_event_step(server: &Server, event: &ConnectionEvent) -> (step: GattStep)
    ensures
        step == gatt_step(*server, *event),
        *event == ConnectionEvent::Disconnected ==> step == GattStep::Stop,
        *event == ConnectionEvent::Other ==> step == GattStep::Ignore,
        *event == ConnectionEvent::Gatt(GattRequest::Read { handle: server.player.index }) ==> step
            == GattStep::Reply(Some(PlayerIndexAccess::Read)),
        *event == ConnectionEvent::Gatt(GattRequest::Write { handle: server.player.index }) ==> step
            == GattStep::Reply(Some(PlayerIndexAccess::Write)),
        *event matches ConnectionEvent::Gatt(request) ==> (step is Reply && (request != (GattRequest::Read {
            handle: server.player.index,
        }) && request != (GattRequest::Write { handle: server.player.index }) ==> step == GattStep::Reply(
            None,
        ))),
{
    match event {
        ConnectionEvent::Disconnected => GattStep::Stop,
        ConnectionEvent::Gatt(request) => {
            let access = match request {
                GattRequest::Read { handle } => {
                    if *handle == server.player.index {
                        Some(PlayerIndexAccess::Read)
                    } else {
                        None
                    }
                },
                GattRequest::Write { handle } => {
                    if *handle == server.player.index {
                        Some(PlayerIndexAccess::Write)
                    } else {
                        None
                    }
                },
                _ => None,
            };
            GattStep::Reply(access)
        },
        ConnectionEvent::Other => GattStep::Ignore,
    }
}

/// The steps of the GATT server task for a run of events: it handles them
/// in order and ends at the first disconnect, handling nothing after it.
pub open spec fn gatt_run(server: Server, events: Seq<ConnectionEvent>) -> Seq<GattStep>
    decreases events.len(),
{
    if events.len() == 0 {
        seq![]
    } else if events[0] == ConnectionEvent::Disconnected {
        seq![GattStep::Stop]
    } else {
        seq![gatt_step(server, events[0])] + gatt_run(server, events.drop_first())
    }
}

/// Over a run of events the GATT server task answers every attribute
/// request that comes before the first disconnect, stops exactly at that
/// disconnect, and reports an access to the player index only for a read or
/// write of its handle.
pub proof fn lemma_gatt_run(server: Server, events: Seq<ConnectionEvent>, i: int)
    requires
        0 <= i < gatt_run(server, events).len(),
    ensures
        i < events.len(),
        forall|j: int| 0 <= j < i ==> events[j] != ConnectionEvent::Disconnected,
        gatt_run(server, events)[i] == gatt_step(server, events[i]),
        (gatt_run(server, events)[i] == GattStep::Stop) == (i == gatt_run(server, events).len() - 1
            && events[i] == ConnectionEvent::Disconnected),
        events[i] is Gatt ==> gatt_run(server, events)[i] is Reply,
        gatt_run(server, events)[i] matches GattStep::Reply(Some(_)) ==> (events[i] matches ConnectionEvent::Gatt(
            r,
        ) && (r == GattRequest::Read { handle: server.player.index } || r == GattRequest::Write {
            handle: server.player.index,
        })),
    decreases events.len(),
{
    if events[0] == ConnectionEvent::Disconnected {
    } else if i > 0 {
        lemma_gatt_run(server, events.drop_first(), i - 1);
        assert forall|j: int| 0 <= j < i implies events[j] != ConnectionEvent::Disconnected by {
            if j > 0 {
                assert(events[j] == events.drop_first()[j - 1]);
            }
        }
    } else {
        lemma_gatt_run_stops_only_at_disconnect(server, events.drop_first());
    }
}

proof fn lemma_gatt_run_stops_only_at_disconnect(server: Server, events: Seq<ConnectionEvent>)
    ensures
        gatt_run(server, events).len() > 0 ==> gatt_run(server, events).len() <= events.len(),
    decreases events.len(),
{
    if events.len() > 0 && events[0] != ConnectionEvent::Disconnected {
        lemma_gatt_run_stops_only_at_disconnect(server, events.drop_first());
    }
}

} // verus!
