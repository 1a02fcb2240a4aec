use gamepad::io::display::led_of_level;

#[test]
fn stick_levels_map_to_leds() {
    assert_eq!(led_of_level(-128), 0);
    assert_eq!(led_of_level(-3), 0);
    assert_eq!(led_of_level(-2), 0);
    assert_eq!(led_of_level(-1), 1);
    assert_eq!(led_of_level(0), 2);
    assert_eq!(led_of_level(1), 3);
    assert_eq!(led_of_level(2), 4);
    assert_eq!(led_of_level(3), 4);
    assert_eq!(led_of_level(127), 4);
}
