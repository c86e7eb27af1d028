//! Typed register interface: a 32-bit register value with named bit-fields
//! (single-bit flags and multi-bit ranges), manipulated only by
//! read-modify-write so that a field update never clobbers unrelated bits.
//!
//! Each register view models the contents of one fixed hardware register; the
//! view records the register's physical address so that the unverified shell
//! can mirror every write to the device with a volatile store.

use vstd::prelude::*;

verus! {

/// The bits 0 .. wid of a 32-bit word, all set.
pub open spec fn low_mask(wid: u32) -> u32
    recommends
        wid <= 32,
{
    if wid >= 32 {
        0xffff_ffffu32
    } else {
        ((1u32 << wid) - 1) as u32
    }
}

/// Mask selecting the field of width `wid` whose lowest bit is `lo`.
pub open spec fn field_mask(lo: u32, wid: u32) -> u32
    recommends
        lo < 32,
        lo + wid <= 32,
{
    low_mask(wid) << lo
}

/// Bit `i` of the raw register value `v`.
pub open spec fn spec_get_bit(v: u32, i: u32) -> bool
    recommends
        i < 32,
{
    v & (1u32 << i) != 0
}

/// `v` with bit `i` forced to `b` and every other bit unchanged.
pub open spec fn spec_set_bit(v: u32, i: u32, b: bool) -> u32
    recommends
        i < 32,
{
    if b {
        v | (1u32 << i)
    } else {
        v & !(1u32 << i)
    }
}

/// The field of width `wid` at offset `lo`, right-aligned.
pub open spec fn spec_get_bits(v: u32, lo: u32, wid: u32) -> u32
    recommends
        lo < 32,
        lo + wid <= 32,
{
    (v >> lo) & low_mask(wid)
}

/// `v` with the field of width `wid` at offset `lo` replaced by the low
/// `wid` bits of `x`, and every bit outside the field unchanged.
pub open spec fn spec_set_bits(v: u32, lo: u32, wid: u32, x: u32) -> u32
    recommends
        lo < 32,
        lo + wid <= 32,
{
    (v & !field_mask(lo, wid)) | ((x << lo) & field_mask(lo, wid))
}

/// Reads one bit of a raw register value.
pub fn get_bit(v: u32, i: u32) -> (b: bool)
    requires
        i < 32,
    ensures
        b == spec_get_bit(v, i),
{
    v & (1u32 << i) != 0
}

/// Returns `v` with bit `i` set to `b`.
pub fn set_bit(v: u32, i: u32, b: bool) -> (r: u32)
    requires
        i < 32,
    ensures
        r == spec_set_bit(v, i, b),
{
    if b {
        v | (1u32 << i)
    } else {
        v & !(1u32 << i)
    }
}

/// Reads the field of width `wid` at offset `lo` out of `v`, right-aligned.
pub fn get_bits(v: u32, lo: u32, wid: u32) -> (r: u32)
    requires
        lo < 32,
        0 < wid,
        lo + wid <= 32,
    ensures
        r == spec_get_bits(v, lo, wid),
{
    let m: u32 = exec_low_mask(wid);
    (v >> lo) & m
}

/// Returns `v` with the field of width `wid` at offset `lo` replaced by the
/// low `wid` bits of `x`.
pub fn set_bits(v: u32, lo: u32, wid: u32, x: u32) -> (r: u32)
    requires
        lo < 32,
        0 < wid,
        lo + wid <= 32,
    ensures
        r == spec_set_bits(v, lo, wid, x),
{
    let m: u32 = exec_low_mask(wid) << lo;
    assert(m == field_mask(lo, wid));
    (v & !m) | ((x << lo) & m)
}

/// Computes `low_mask(wid)` at run time.
fn exec_low_mask(wid: u32) -> (m: u32)
    requires
        wid <= 32,
    ensures
        m == low_mask(wid),
{
    if wid >= 32 {
        0xffff_ffffu32
    } else {
        proof {
            assert(1u32 << wid >= 1) by (bit_vector)
                requires
                    wid < 32,
            ;
        }
        (1u32 << wid) - 1
    }
}

/// A register `modify` is field-local: writing a field leaves every bit
/// outside the field's declared range identical to the initial value, for an
/// arbitrary initial value and an arbitrary new field value.
pub proof fn lemma_set_bits_field_local(v: u32, lo: u32, wid: u32, x: u32, i: u32)
    requires
        lo < 32,
        0 < wid,
        lo + wid <= 32,
        i < 32,
        i < lo || lo + wid <= i,
    ensures
        spec_get_bit(spec_set_bits(v, lo, wid, x), i) == spec_get_bit(v, i),
{
    assert(spec_get_bit(spec_set_bits(v, lo, wid, x), i) == spec_get_bit(v, i)) by (bit_vector)
        requires
            lo < 32,
            0 < wid,
            lo + wid <= 32,
            i < 32,
            i < lo || lo + wid <= i,
    ;
}

/// After writing a field, reading the same field gives back the low `wid`
/// bits of the value written.
pub proof fn lemma_set_bits_reads_back(v: u32, lo: u32, wid: u32, x: u32)
    requires
        lo < 32,
        0 < wid,
        lo + wid <= 32,
    ensures
        spec_get_bits(spec_set_bits(v, lo, wid, x), lo, wid) == x & low_mask(wid),
{
    assert(spec_get_bits(spec_set_bits(v, lo, wid, x), lo, wid) == x & low_mask(wid))
        by (bit_vector)
        requires
            lo < 32,
            0 < wid,
            lo + wid <= 32,
    ;
}

/// Writing a single-bit flag leaves every other bit unchanged.
pub proof fn lemma_set_bit_field_local(v: u32, i: u32, b: bool, j: u32)
    requires
        i < 32,
        j < 32,
        i != j,
    ensures
        spec_get_bit(spec_set_bit(v, i, b), j) == spec_get_bit(v, j),
{
    assert(spec_get_bit(spec_set_bit(v, i, b), j) == spec_get_bit(v, j)) by (bit_vector)
        requires
            i < 32,
            j < 32,
            i != j,
    ;
}

/// After writing a single-bit flag, reading it gives back the bit written.
pub proof fn lemma_set_bit_reads_back(v: u32, i: u32, b: bool)
    requires
        i < 32,
    ensures
        spec_get_bit(spec_set_bit(v, i, b), i) == b,
{
    assert(spec_get_bit(spec_set_bit(v, i, b), i) == b) by (bit_vector)
        requires
            i < 32,
    ;
}

/// GPIO output-mask register. Bit 0 drives the error-LED pin
/// (`lederr_o`); bits 0 .. 16 form the configurable output mask.
pub struct GPIOOutputMask {
    raw: u32,
}

impl View for GPIOOutputMask {
    type V = u32;

    closed spec fn view(&self) -> u32 {
        self.raw
    }
}

impl GPIOOutputMask {
    /// Binds the view; the model starts at the register's reset value 0.
    pub fn new() -> (r: Self)
        ensures
            r@ == 0u32,
    {
        GPIOOutputMask { raw: 0 }
    }

    /// Physical address of the register, for the memory-mapped store.
    pub fn address(&self) -> (a: u32)
        ensures
            a == 0xE000_A010u32,
    {
        0xE000_A010
    }

    /// Current raw contents.
    pub fn read(&self) -> (v: u32)
        ensures
            v == self@,
    {
        self.raw
    }

    /// Read-modify-write of the `lederr_o` flag (bit 0).
    pub fn set_lederr_o(&mut self, o: bool)
        ensures
            final(self)@ == spec_set_bit(old(self)@, 0, o),
    {
        self.raw = set_bit(self.raw, 0, o);
    }

    /// Reads the `lederr_o` flag (bit 0).
    pub fn lederr_o(&self) -> (b: bool)
        ensures
            b == spec_get_bit(self@, 0),
    {
        get_bit(self.raw, 0)
    }

    /// Read-modify-write of the 16-bit `mask` field (bits 0 .. 16).
    pub fn set_mask(&mut self, m: u16)
        ensures
            final(self)@ == spec_set_bits(old(self)@, 0, 16, m as u32),
    {
        self.raw = set_bits(self.raw, 0, 16, m as u32);
    }

    /// Reads the 16-bit `mask` field (bits 0 .. 16).
    pub fn mask(&self) -> (m: u16)
        ensures
            m as u32 == spec_get_bits(self@, 0, 16),
    {
        let r: u32 = get_bits(self.raw, 0, 16);
        proof {
            let v = self.raw;
            assert((v >> 0u32) & low_mask(16) < 0x1_0000u32) by (bit_vector);
        }
        r as u16
    }
}

/// GPIO direction register. Bit 0 (`lederr`) selects output mode for the
/// error-LED pin.
pub struct GPIODirection {
    raw: u32,
}

impl View for GPIODirection {
    type V = u32;

    closed spec fn view(&self) -> u32 {
        self.raw
    }
}

impl GPIODirection {
    /// Binds the view; the model starts at the register's reset value 0.
    pub fn new() -> (r: Self)
        ensures
            r@ == 0u32,
    {
        GPIODirection { raw: 0 }
    }

    /// Physical address of the register, for the memory-mapped store.
    pub fn address(&self) -> (a: u32)
        ensures
            a == 0xE000_A284u32,
    {
        0xE000_A284
    }

    /// Current raw contents.
    pub fn read(&self) -> (v: u32)
        ensures
            v == self@,
    {
        self.raw
    }

    /// Read-modify-write of the `lederr` direction flag (bit 0).
    pub fn set_lederr(&mut self, d: bool)
        ensures
            final(self)@ == spec_set_bit(old(self)@, 0, d),
    {
        self.raw = set_bit(self.raw, 0, d);
    }

    /// Reads the `lederr` direction flag (bit 0).
    pub fn lederr(&self) -> (b: bool)
        ensures
            b == spec_get_bit(self@, 0),
    {
        get_bit(self.raw, 0)
    }
}

/// GPIO output-enable register. Bit 0 (`lederr`) gates the error-LED pin
/// driver.
pub struct GPIOOutputEnable {
    raw: u32,
}

impl View for GPIOOutputEnable {
    type V = u32;

    closed spec fn view(&self) -> u32 {
        self.raw
    }
}

impl GPIOOutputEnable {
    /// Binds the view; the model starts at the register's reset value 0.
    pub fn new() -> (r: Self)
        ensures
            r@ == 0u32,
    {
        GPIOOutputEnable { raw: 0 }
    }

    /// Physical address of the register, for the memory-mapped store.
    pub fn address(&self) -> (a: u32)
        ensures
            a == 0xE000_A288u32,
    {
        0xE000_A288
    }

    /// Current raw contents.
    pub fn read(&self) -> (v: u32)
        ensures
            v == self@,
    {
        self.raw
    }

    /// Read-modify-write of the `lederr` output-enable flag (bit 0).
    pub fn set_lederr(&mut self, e: bool)
        ensures
            final(self)@ == spec_set_bit(old(self)@, 0, e),
    {
        self.raw = set_bit(self.raw, 0, e);
    }

    /// Reads the `lederr` output-enable flag (bit 0).
    pub fn lederr(&self) -> (b: bool)
        ensures
            b == spec_get_bit(self@, 0),
    {
        get_bit(self.raw, 0)
    }
}

/// The three GPIO register views the LED needs. Constructed exactly once, at
/// startup: this is the single construction point that keeps at most one live
/// view per register alive.
pub struct RegisterBlock {
    pub gpio_output_mask: GPIOOutputMask,
    pub gpio_direction: GPIODirection,
    pub gpio_output_enable: GPIOOutputEnable,
}

impl RegisterBlock {
    /// Binds the three views, each at its reset value.
    pub fn new() -> (r: Self)
        ensures
            r.gpio_output_mask@ == 0u32,
            r.gpio_direction@ == 0u32,
            r.gpio_output_enable@ == 0u32,
    {
        RegisterBlock {
            gpio_output_mask: GPIOOutputMask::new(),
            gpio_direction: GPIODirection::new(),
            gpio_output_enable: GPIOOutputEnable::new(),
        }
    }
}

} // verus!
