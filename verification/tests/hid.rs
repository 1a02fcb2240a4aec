use gamepad::ble::hid::{
    ButtonAction, ButtonMonitor, ButtonPhase, ButtonService, GamepadButton, GamepadInputs, PinLevel,
    DEBOUNCE_MS, LETTER_FRAME_MS,
};
use gamepad::ble::gatt::{Player, Server};
use gamepad::ble::stick::StickService;
use gamepad::io::display::DisplayFrame;

fn server() -> Server {
    Server {
        hid: ButtonService { button_a: 10, button_b: 12, button_c: 14, button_d: 16, button_e: 18, button_f: 20 },
        stick: StickService { x: 24, y: 27 },
        player: Player { index: 31 },
    }
}

#[test]
fn gamepad_button_new_keeps_name_and_handle() {
    let b = GamepadButton::new('Q', 42);
    assert_eq!(b.name, 'Q');
    assert_eq!(b.ble_handle, 42);
}

#[test]
fn inputs_are_lettered_a_to_f() {
    let inputs = GamepadInputs::new(&server());
    assert_eq!(inputs.a, GamepadButton { name: 'A', ble_handle: 10 });
    assert_eq!(inputs.b, GamepadButton { name: 'B', ble_handle: 12 });
    assert_eq!(inputs.c, GamepadButton { name: 'C', ble_handle: 14 });
    assert_eq!(inputs.d, GamepadButton { name: 'D', ble_handle: 16 });
    assert_eq!(inputs.e, GamepadButton { name: 'E', ble_handle: 18 });
    assert_eq!(inputs.f, GamepadButton { name: 'F', ble_handle: 20 });
}

#[test]
fn press_and_release_cycle() {
    let mut m = ButtonMonitor::new(GamepadButton::new('C', 14));
    assert_eq!(m.phase, ButtonPhase::AwaitingPress);
    // Still up: nothing happens.
    assert_eq!(m.on_level(PinLevel::High), vec![]);
    assert_eq!(m.phase, ButtonPhase::AwaitingPress);
    // Pressed.
    assert_eq!(
        m.on_level(PinLevel::Low),
        vec![
            ButtonAction::Notify(true),
            ButtonAction::Show(DisplayFrame::Letter('C'), 200),
            ButtonAction::Wait(50),
        ]
    );
    assert_eq!(m.phase, ButtonPhase::AwaitingRelease);
    // Still down: nothing happens.
    assert_eq!(m.on_level(PinLevel::Low), vec![]);
    // Released.
    assert_eq!(m.on_level(PinLevel::High), vec![ButtonAction::Notify(false), ButtonAction::Wait(50)]);
    assert_eq!(m.phase, ButtonPhase::AwaitingPress);
    assert_eq!(m.button, GamepadButton { name: 'C', ble_handle: 14 });
}

#[test]
fn debounce_and_letter_times() {
    assert_eq!(DEBOUNCE_MS, 50);
    assert_eq!(LETTER_FRAME_MS, 200);
}

#[test]
fn notifications_alternate_starting_with_press() {
    let mut m = ButtonMonitor::new(GamepadButton::new('A', 10));
    let levels = [
        PinLevel::High, PinLevel::Low, PinLevel::Low, PinLevel::High, PinLevel::High,
        PinLevel::Low, PinLevel::High, PinLevel::Low,
    ];
    let mut notified = Vec::new();
    for level in levels {
        for action in m.on_level(level) {
            if let ButtonAction::Notify(v) = action {
                notified.push(v);
            }
        }
    }
    assert_eq!(notified, vec![true, false, true, false, true]);
    assert_eq!(m.phase, ButtonPhase::AwaitingRelease);
}
