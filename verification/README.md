# gamepad

The decision logic of a BBC micro:bit v2 Bluetooth LE gamepad, verified with
Verus.

- `src/` is the library: the GATT attribute layout, the button, analog stick
  and GATT server tasks as state machines from event to actions, the audio
  driver's tunes and the main connect/advertise loop, each with its contract
  and the laws that hold over runs of events.
- `app/` is the firmware around it: it waits on pins, the ADC, the radio and
  timers with embassy, hands what it saw to the library and performs the
  actions it gets back.
- `tests/` runs the library on concrete values.
