use gamepad::ble::gatt::{gatt_event_step, ConnectionEvent, GattRequest, GattStep, Player, PlayerIndexAccess, Server};
use gamepad::ble::hid::ButtonService;
use gamepad::ble::stick::StickService;

fn server() -> Server {
    Server {
        hid: ButtonService { button_a: 10, button_b: 12, button_c: 14, button_d: 16, button_e: 18, button_f: 20 },
        stick: StickService { x: 24, y: 27 },
        player: Player { index: 31 },
    }
}

#[test]
fn disconnect_stops() {
    assert_eq!(gatt_event_step(&server(), &ConnectionEvent::Disconnected), GattStep::Stop);
}

#[test]
fn player_index_read_and_write_are_reported() {
    let s = server();
    assert_eq!(
        gatt_event_step(&s, &ConnectionEvent::Gatt(GattRequest::Read { handle: 31 })),
        GattStep::Reply(Some(PlayerIndexAccess::Read))
    );
    assert_eq!(
        gatt_event_step(&s, &ConnectionEvent::Gatt(GattRequest::Write { handle: 31 })),
        GattStep::Reply(Some(PlayerIndexAccess::Write))
    );
}

#[test]
fn other_attributes_are_answered_silently() {
    let s = server();
    assert_eq!(gatt_event_step(&s, &ConnectionEvent::Gatt(GattRequest::Read { handle: 10 })), GattStep::Reply(None));
    assert_eq!(gatt_event_step(&s, &ConnectionEvent::Gatt(GattRequest::Write { handle: 24 })), GattStep::Reply(None));
    assert_eq!(gatt_event_step(&s, &ConnectionEvent::Gatt(GattRequest::Other)), GattStep::Reply(None));
    assert_eq!(gatt_event_step(&s, &ConnectionEvent::Gatt(GattRequest::NotAllowed)), GattStep::Reply(None));
}

#[test]
fn connection_updates_are_ignored() {
    assert_eq!(gatt_event_step(&server(), &ConnectionEvent::Other), GattStep::Ignore);
}

#[test]
fn run_stops_at_first_disconnect() {
    let s = server();
    let events = [
        ConnectionEvent::Other,
        ConnectionEvent::Gatt(GattRequest::Read { handle: 31 }),
        ConnectionEvent::Gatt(GattRequest::Write { handle: 12 }),
        ConnectionEvent::Disconnected,
        ConnectionEvent::Gatt(GattRequest::Read { handle: 31 }),
    ];
    let mut steps = Vec::new();
    for e in events.iter() {
        let step = gatt_event_step(&s, e);
        steps.push(step);
        if step == GattStep::Stop {
            break;
        }
    }
    assert_eq!(
        steps,
        vec![GattStep::Ignore, GattStep::Reply(Some(PlayerIndexAccess::Read)), GattStep::Reply(None), GattStep::Stop]
    );
}
