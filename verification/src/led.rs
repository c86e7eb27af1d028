//! LED control unit: composes the three GPIO register views into a
//! device-level interface. Direction and output-enable are configured at
//! construction; afterwards the unit is mutated only through `toggle`.

use vstd::prelude::*;
use crate::register::{
    spec_get_bit, spec_set_bit, spec_set_bits, GPIODirection, GPIOOutputEnable, GPIOOutputMask,
    RegisterBlock,
};

verus! {

/// Raw contents of the three GPIO registers the LED owns, in the order
/// (output-mask, direction, output-enable).
pub type LedRegs = (u32, u32, u32);

/// What one `toggle(state)` does to the registers: bit 0 of the output-mask
/// register (the output value) and bit 0 of the output-enable register are
/// both forced to `state`; the direction register is untouched.
pub open spec fn toggle_spec(r: LedRegs, state: bool) -> LedRegs {
    (spec_set_bit(r.0, 0, state), r.1, spec_set_bit(r.2, 0, state))
}

/// Register contents right after construction with the given output mask:
/// starting from the reset value 0, the mask field is written, then the LED
/// pin's direction bit is set to output.
pub open spec fn initialize_spec(gpio_output_mask: u16) -> LedRegs {
    (spec_set_bits(0u32, 0, 16, gpio_output_mask as u32), spec_set_bit(0u32, 0, true), 0u32)
}

/// The output mask the LED is constructed with: all sixteen mask bits except
/// bit 7.
pub open spec fn default_output_mask() -> u16 {
    (0xFFFFu16 - 0x0080u16) as u16
}

/// The error-status LED, driven through GPIO bit 0.
pub struct LED {
    regs: RegisterBlock,
}

impl View for LED {
    type V = LedRegs;

    closed spec fn view(&self) -> LedRegs {
        (self.regs.gpio_output_mask@, self.regs.gpio_direction@, self.regs.gpio_output_enable@)
    }
}

impl LED {
    /// Binds the register block and configures it with the default output
    /// mask. Failure is not representable: the hardware is fixed and always
    /// present.
    pub fn new() -> (led: Self)
        ensures
            led@ == initialize_spec(default_output_mask()),
    {
        Self::initialize(0xFFFF - 0x0080)
    }

    /// Sets up the register block: writes the output mask, then configures
    /// the LED pin as an output.
    fn initialize(gpio_output_mask: u16) -> (led: Self)
        ensures
            led@ == initialize_spec(gpio_output_mask),
    {
        let mut self_ = LED { regs: RegisterBlock::new() };

        self_.regs.gpio_output_mask.set_mask(gpio_output_mask);
        self_.regs.gpio_direction.set_lederr(true);

        self_
    }

    /// Drives the LED: sets the output value and the output enable to
    /// `state`, leaving every other register bit as it was.
    pub fn toggle(&mut self, state: bool)
        ensures
            final(self)@ == toggle_spec(old(self)@, state),
    {
        self.led_o(state);
        self.led_oe(state);
    }

    /// Read-modify-write of the output-enable bit.
    fn led_oe(&mut self, oe: bool)
        ensures
            final(self)@ == (old(self)@.0, old(self)@.1, spec_set_bit(old(self)@.2, 0, oe)),
    {
        self.regs.gpio_output_enable.set_lederr(oe);
    }

    /// Read-modify-write of the output-value bit.
    fn led_o(&mut self, o: bool)
        ensures
            final(self)@ == (spec_set_bit(old(self)@.0, 0, o), old(self)@.1, old(self)@.2),
    {
        self.regs.gpio_output_mask.set_lederr_o(o);
    }

    /// Raw contents of the three registers, in the order
    /// (output-mask, direction, output-enable); what the shell mirrors to
    /// the device after each operation.
    pub fn read_registers(&self) -> (r: LedRegs)
        ensures
            r == self@,
    {
        (
            self.regs.gpio_output_mask.read(),
            self.regs.gpio_direction.read(),
            self.regs.gpio_output_enable.read(),
        )
    }

    /// Whether the LED is currently enabled and driven high: bit 0 of both
    /// the output-mask and the output-enable registers.
    pub fn is_on(&self) -> (b: bool)
        ensures
            b == (spec_get_bit(self@.0, 0) && spec_get_bit(self@.2, 0)),
    {
        self.regs.gpio_output_mask.lederr_o() && self.regs.gpio_output_enable.lederr()
    }
}

/// Round trip: when the output-value and output-enable bits start out clear,
/// `toggle(true)` followed by `toggle(false)` restores all three registers
/// bit-for-bit to their pre-toggle contents.
pub proof fn lemma_toggle_round_trip(r: LedRegs)
    requires
        !spec_get_bit(r.0, 0),
        !spec_get_bit(r.2, 0),
    ensures
        toggle_spec(toggle_spec(r, true), false) == r,
{
    let m = r.0;
    let e = r.2;
    assert((m | (1u32 << 0u32)) & !(1u32 << 0u32) == m) by (bit_vector)
        requires
            m & (1u32 << 0u32) == 0,
    ;
    assert((e | (1u32 << 0u32)) & !(1u32 << 0u32) == e) by (bit_vector)
        requires
            e & (1u32 << 0u32) == 0,
    ;
}

} // verus!
