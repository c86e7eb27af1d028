use firmware::led::LED;

#[test]
fn new_configures_mask_and_direction() {
    let led = LED::new();
    let (mask, direction, enable) = led.read_registers();
    // Output mask: all sixteen bits except bit 7.
    assert_eq!(mask, 0xFF7F);
    // LED pin configured as output.
    assert_eq!(direction, 1);
    // Output driver still disabled.
    assert_eq!(enable, 0);
    assert!(!led.is_on());
}

#[test]
fn toggle_drives_value_and_enable() {
    let mut led = LED::new();
    led.toggle(true);
    let (mask, direction, enable) = led.read_registers();
    assert_eq!(mask & 1, 1);
    assert_eq!(enable & 1, 1);
    assert_eq!(direction, 1);
    assert!(led.is_on());

    led.toggle(false);
    let (mask, _, enable) = led.read_registers();
    assert_eq!(mask & 1, 0);
    assert_eq!(enable & 1, 0);
    assert!(!led.is_on());
}

#[test]
fn toggle_round_trip_restores_registers() {
    let mut led = LED::new();
    // Clear the output-value and output-enable bits first: right after
    // construction the mask write has left bit 0 of the output mask set, and
    // from that footing a true/false pair would not restore it.
    led.toggle(false);
    let before = led.read_registers();

    led.toggle(true);
    led.toggle(false);
    assert_eq!(led.read_registers(), before);
}

#[test]
fn toggle_leaves_other_mask_bits_alone() {
    let mut led = LED::new();
    let (mask_before, _, _) = led.read_registers();
    led.toggle(true);
    led.toggle(false);
    let (mask_after, _, _) = led.read_registers();
    // Only bit 0 may differ between the two mask values.
    assert_eq!(mask_before & !1, mask_after & !1);
}
