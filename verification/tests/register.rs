use firmware::register::{
    get_bit, get_bits, set_bit, set_bits, GPIODirection, GPIOOutputEnable, GPIOOutputMask,
    RegisterBlock,
};

#[test]
fn set_bit_reads_back() {
    let v: u32 = 0;
    let v = set_bit(v, 5, true);
    assert!(get_bit(v, 5));
    let v = set_bit(v, 5, false);
    assert!(!get_bit(v, 5));
}

#[test]
fn set_bit_is_field_local() {
    let initial: u32 = 0xDEAD_BEEF;
    let v = set_bit(initial, 12, true);
    for i in 0..32 {
        if i != 12 {
            assert_eq!(get_bit(v, i), get_bit(initial, i));
        }
    }
    let v = set_bit(initial, 12, false);
    for i in 0..32 {
        if i != 12 {
            assert_eq!(get_bit(v, i), get_bit(initial, i));
        }
    }
}

#[test]
fn set_bits_is_field_local() {
    // Writing only the field at bits 4 .. 12 leaves every bit outside that
    // range identical to the arbitrary initial value.
    let initial: u32 = 0xDEAD_BEEF;
    let v = set_bits(initial, 4, 8, 0x5A);
    for i in 0..32 {
        if i < 4 || i >= 12 {
            assert_eq!(get_bit(v, i), get_bit(initial, i));
        }
    }
    assert_eq!(get_bits(v, 4, 8), 0x5A);
}

#[test]
fn set_bits_truncates_to_width() {
    let v = set_bits(0, 0, 4, 0xFF);
    assert_eq!(v, 0x0F);
    assert_eq!(get_bits(v, 0, 4), 0x0F);
}

#[test]
fn set_bits_full_width() {
    let v = set_bits(0x1234_5678, 0, 32, 0xCAFE_F00D);
    assert_eq!(v, 0xCAFE_F00D);
}

#[test]
fn register_addresses_are_fixed() {
    let b = RegisterBlock::new();
    assert_eq!(b.gpio_output_mask.address(), 0xE000_A010);
    assert_eq!(b.gpio_direction.address(), 0xE000_A284);
    assert_eq!(b.gpio_output_enable.address(), 0xE000_A288);
}

#[test]
fn register_block_starts_at_reset() {
    let b = RegisterBlock::new();
    assert_eq!(b.gpio_output_mask.read(), 0);
    assert_eq!(b.gpio_direction.read(), 0);
    assert_eq!(b.gpio_output_enable.read(), 0);
}

#[test]
fn output_mask_fields() {
    let mut r = GPIOOutputMask::new();
    r.set_mask(0xFF7F);
    assert_eq!(r.read(), 0xFF7F);
    assert_eq!(r.mask(), 0xFF7F);
    // Bit 0 doubles as the LED output value; writing it leaves the rest of
    // the mask field alone.
    assert!(r.lederr_o());
    r.set_lederr_o(false);
    assert_eq!(r.read(), 0xFF7E);
    assert!(!r.lederr_o());
    assert_eq!(r.mask(), 0xFF7E);
}

#[test]
fn direction_and_enable_bits() {
    let mut d = GPIODirection::new();
    assert!(!d.lederr());
    d.set_lederr(true);
    assert!(d.lederr());
    assert_eq!(d.read(), 1);

    let mut e = GPIOOutputEnable::new();
    assert!(!e.lederr());
    e.set_lederr(true);
    assert!(e.lederr());
    assert_eq!(e.read(), 1);
    e.set_lederr(false);
    assert_eq!(e.read(), 0);
}
