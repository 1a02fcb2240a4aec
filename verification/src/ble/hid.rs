use vstd::prelude::*;

use crate::ble::gatt::Server;
use crate::io::display::DisplayFrame;

verus! {

/// The attribute handles of the button service: one notifying `bool`
/// characteristic per button.
#[derive(Clone, Copy, Debug, PartialEq, Eq, Structural)]
pub struct ButtonService {
    pub button_a: u16,
    pub button_b: u16,
    pub button_c: u16,
    pub button_d: u16,
    pub button_e: u16,
    pub button_f: u16,
}

/// How long a button task waits after a press or a release before it looks
/// at the pin again, in milliseconds.
pub const DEBOUNCE_MS: u64 = 50;

/// How long the letter of a pressed button is shown, in milliseconds.
pub const LETTER_FRAME_MS: u64 = 200;

/// A button and the characteristic it is reported on.
#[derive(Clone, Copy, Debug, PartialEq, Eq, Structural)]
pub struct GamepadButton {
    /// The letter shown when the button is pressed.
    pub name: char,
    /// The handle of the button's characteristic.
    pub ble_handle: u16,
}

impl GamepadButton {
    /// A button with the given letter, reported on the given characteristic.
    pub fn new(name: char, ble_handle: u16) -> (button: Self)
        ensures
            button.name == name,
            button.ble_handle == ble_handle,
    {
        Self { name, ble_handle }
    }
}

/// All six buttons of the gamepad.
#[derive(Clone, Copy, Debug, PartialEq, Eq, Structural)]
pub struct GamepadInputs {
    pub a: GamepadButton,
    pub b: GamepadButton,
    pub c: GamepadButton,
    pub d: GamepadButton,
    pub e: GamepadButton,
    pub f: GamepadButton,
}

impl GamepadInputs {
    /// The buttons A to F, each reported on its own characteristic of the
    /// server's button service.
    pub fn new(server: &Server) -> (inputs: Self)
        ensures
            inputs.a == (GamepadButton { name: 'A', ble_handle: server.hid.button_a }),
            inputs.b == (GamepadButton { name: 'B', ble_handle: server.hid.button_b }),
            inputs.c == (GamepadButton { name: 'C', ble_handle: server.hid.button_c }),
            inputs.d == (GamepadButton { name: 'D', ble_handle: server.hid.button_d }),
            inputs.e == (GamepadButton { name: 'E', ble_handle: server.hid.button_e }),
            inputs.f == (GamepadButton { name: 'F', ble_handle: server.hid.button_f }),
    {
        Self {
            a: GamepadButton::new('A', server.hid.button_a),
            b: GamepadButton::new('B', server.hid.button_b),
            c: GamepadButton::new('C', server.hid.button_c),
            d: GamepadButton::new('D', server.hid.button_d),
            e: GamepadButton::new('E', server.hid.button_e),
            f: GamepadButton::new('F', server.hid.button_f),
        }
    }
}

/// The level a button's pin was found at. The pins are pulled up: a pressed
/// button pulls its pin low.
#[derive(Clone, Copy, Debug, PartialEq, Eq, Structural)]
pub enum PinLevel {
    Low,
    High,
}

/// What a button task waits for.
#[derive(Clone, Copy, Debug, PartialEq, Eq, Structural)]
pub enum ButtonPhase {
    /// The button is up; the task waits for the pin to go low.
    AwaitingPress,
    /// The button is down; the task waits for the pin to go high.
    AwaitingRelease,
}

/// One thing a button task does, in order.
#[derive(Clone, Copy, Debug, PartialEq, Eq, Structural)]
pub enum ButtonAction {
    /// Notify the button's characteristic with the value (pressed or not).
    Notify(bool),
    /// Show the frame for the given number of milliseconds.
    Show(DisplayFrame, u64),
    /// Wait the given number of milliseconds.
    Wait(u64),
}

/// The phase a button task is in after it has seen the pin at `level`.
pub open spec fn next_phase(phase: ButtonPhase, level: PinLevel) -> ButtonPhase {
    match (phase, level) {
        (ButtonPhase::AwaitingPress, PinLevel::Low) => ButtonPhase::AwaitingRelease,
        (ButtonPhase::AwaitingRelease, PinLevel::High) => ButtonPhase::AwaitingPress,
        _ => phase,
    }
}

/// What the task of the button with letter `name` does when it sees the pin
/// at `level`: on a press it notifies `true`, shows the letter and waits out
/// the bounce; on a release it notifies `false` and waits out the bounce; a
/// level it is not waiting for changes nothing.
pub open spec fn button_actions(name: char, phase: ButtonPhase, level: PinLevel) -> Seq<ButtonAction> {
    match (phase, level) {
        (ButtonPhase::AwaitingPress, PinLevel::Low) => seq![
            ButtonAction::Notify(true),
            ButtonAction::Show(DisplayFrame::Letter(name), LETTER_FRAME_MS),
            ButtonAction::Wait(DEBOUNCE_MS),
        ],
        (ButtonPhase::AwaitingRelease, PinLevel::High) => seq![
            ButtonAction::Notify(false),
            ButtonAction::Wait(DEBOUNCE_MS),
        ],
        _ => seq![],
    }
}

/// The state of one button task.
#[derive(Clone, Copy, Debug, PartialEq, Eq, Structural)]
pub struct ButtonMonitor {
    pub button: GamepadButton,
    pub phase: ButtonPhase,
}

impl ButtonMonitor {
    /// A task for the button that starts waiting for a press.
    pub fn new(button: GamepadButton) -> (monitor: Self)
        ensures
            monitor.button == button,
            monitor.phase == ButtonPhase::AwaitingPress,
    {
        Self { button, phase: ButtonPhase::AwaitingPress }
    }

    /// Handles the pin found at `level`: returns what the task does and moves
    /// it on to what it waits for next.
    pub fn on_level(&mut self, level: PinLevel) -> (actions: Vec<ButtonAction>)
        ensures
            final(self).button == old(self).button,
            final(self).phase == next_phase(old(self).phase, level),
            actions@ == button_actions(old(self).button.name, old(self).phase, level),
            old(self).phase == ButtonPhase::AwaitingPress && level == PinLevel::Low ==> actions@ == seq![
                ButtonAction::Notify(true),
                ButtonAction::Show(DisplayFrame::Letter(old(self).button.name), LETTER_FRAME_MS),
                ButtonAction::Wait(DEBOUNCE_MS),
            ],
            old(self).phase == ButtonPhase::AwaitingRelease && level == PinLevel::High ==> actions@ == seq![
                ButtonAction::Notify(false),
                ButtonAction::Wait(DEBOUNCE_MS),
            ],
            old(self).phase == ButtonPhase::AwaitingPress && level == PinLevel::High ==> actions@.len() == 0,
            old(self).phase == ButtonPhase::AwaitingRelease && level == PinLevel::Low ==> actions@.len() == 0,
    {
        let mut actions: Vec<ButtonAction> = Vec::new();
        match (self.phase, level) {
            (ButtonPhase::AwaitingPress, PinLevel::Low) => {
                actions.push(ButtonAction::Notify(true));
                actions.push(ButtonAction::Show(DisplayFrame::Letter(self.button.name), LETTER_FRAME_MS));
                actions.push(ButtonAction::Wait(DEBOUNCE_MS));
                self.phase = ButtonPhase::AwaitingRelease;
            },
            (ButtonPhase::AwaitingRelease, PinLevel::High) => {
                actions.push(ButtonAction::Notify(false));
                actions.push(ButtonAction::Wait(DEBOUNCE_MS));
                self.phase = ButtonPhase::AwaitingPress;
            },
            _ => {},
        }
        proof {
            assert(actions@ =~= button_actions(old(self).button.name, old(self).phase, level));
        }
        actions
    }
}

/// A press shows the pressed button's own letter, whatever the letter, so
/// buttons with different letters show different letters; it first
/// notifies `true` and then waits out the bounce. A release notifies
/// `false` and shows nothing.
pub proof fn lemma_press_shows_own_letter(name: char, other: char)
    ensures
        button_actions(name, ButtonPhase::AwaitingPress, PinLevel::Low).len() == 3,
        button_actions(name, ButtonPhase::AwaitingPress, PinLevel::Low)[0] == ButtonAction::Notify(true),
        button_actions(name, ButtonPhase::AwaitingPress, PinLevel::Low)[1] == ButtonAction::Show(
            DisplayFrame::Letter(name),
            LETTER_FRAME_MS,
        ),
        button_actions(name, ButtonPhase::AwaitingPress, PinLevel::Low)[2] == ButtonAction::Wait(DEBOUNCE_MS),
        name != other ==> button_actions(name, ButtonPhase::AwaitingPress, PinLevel::Low)
            != button_actions(other, ButtonPhase::AwaitingPress, PinLevel::Low),
        button_actions(name, ButtonPhase::AwaitingRelease, PinLevel::High) == seq![
            ButtonAction::Notify(false),
            ButtonAction::Wait(DEBOUNCE_MS),
        ],
        button_actions(name, ButtonPhase::AwaitingRelease, PinLevel::High)
            == button_actions(other, ButtonPhase::AwaitingRelease, PinLevel::High),
{
    if name != other {
        assert(button_actions(name, ButtonPhase::AwaitingPress, PinLevel::Low)[1]
            != button_actions(other, ButtonPhase::AwaitingPress, PinLevel::Low)[1]);
    }
}

/// The values a single step notifies.
pub open spec fn notified(actions: Seq<ButtonAction>) -> Seq<bool>
    decreases actions.len(),
{
    if actions.len() == 0 {
        seq![]
    } else {
        let rest = notified(actions.drop_first());
        match actions[0] {
            ButtonAction::Notify(v) => seq![v] + rest,
            _ => rest,
        }
    }
}

/// The phase a button task ends in after seeing the levels in order.
pub open spec fn phase_after(phase: ButtonPhase, levels: Seq<PinLevel>) -> ButtonPhase
    decreases levels.len(),
{
    if levels.len() == 0 {
        phase
    } else {
        phase_after(next_phase(phase, levels[0]), levels.drop_first())
    }
}

/// Every value a button task notifies while it sees the levels in order.
pub open spec fn notifications(name: char, phase: ButtonPhase, levels: Seq<PinLevel>) -> Seq<bool>
    decreases levels.len(),
{
    if levels.len() == 0 {
        seq![]
    } else {
        notified(button_actions(name, phase, levels[0]))
            + notifications(name, next_phase(phase, levels[0]), levels.drop_first())
    }
}

/// Whether a button task in this phase holds the button down.
pub open spec fn held(phase: ButtonPhase) -> bool {
    phase == ButtonPhase::AwaitingRelease
}

/// No two neighbours of the sequence are equal.
pub open spec fn alternates(s: Seq<bool>) -> bool {
    forall|i: int| 0 <= i < s.len() - 1 ==> #[trigger] s[i] != s[i + 1]
}

proof fn lemma_step_notifies(name: char, phase: ButtonPhase, level: PinLevel)
    ensures
        notified(button_actions(name, phase, level)) == (if next_phase(phase, level) == phase {
            Seq::<bool>::empty()
        } else {
            seq![held(next_phase(phase, level))]
        }),
{
    let acts = button_actions(name, phase, level);
    reveal_with_fuel(notified, 4);
    if next_phase(phase, level) != phase {
        assert(notified(acts) =~= seq![held(next_phase(phase, level))]);
    } else {
        assert(notified(acts) =~= Seq::<bool>::empty());
    }
}

/// A button task never notifies the same value twice in a row, and its
/// phase always matches what it notified last: seen from the value it starts
/// from, pressed and released follow each other, and the task ends holding
/// the button exactly when the last value is `true`. In particular, a task
/// that starts waiting for a press first notifies `true`.
pub proof fn lemma_notifications_alternate(name: char, phase: ButtonPhase, levels: Seq<PinLevel>)
    ensures
        alternates(seq![held(phase)] + notifications(name, phase, levels)),
        (seq![held(phase)] + notifications(name, phase, levels)).last()
            == held(phase_after(phase, levels)),
    decreases levels.len(),
{
    let ns = notifications(name, phase, levels);
    if levels.len() == 0 {
        assert(seq![held(phase)] + ns =~= seq![held(phase)]);
    } else {
        let p1 = next_phase(phase, levels[0]);
        let rest = levels.drop_first();
        lemma_notifications_alternate(name, p1, rest);
        lemma_step_notifies(name, phase, levels[0]);
        let tail = notifications(name, p1, rest);
        let whole = seq![held(phase)] + ns;
        let sub = seq![held(p1)] + tail;
        if p1 == phase {
            assert(ns =~= tail);
            assert(whole =~= sub);
        } else {
            assert(held(p1) != held(phase));
            assert(ns =~= seq![held(p1)] + tail);
            assert(whole =~= seq![held(phase)] + sub);
            assert forall|i: int| 0 <= i < whole.len() - 1 implies #[trigger] whole[i] != whole[i + 1] by {
                if i > 0 {
                    assert(whole[i] == sub[i - 1]);
                    assert(whole[i + 1] == sub[i]);
                }
            }
        }
    }
}

} // verus!
