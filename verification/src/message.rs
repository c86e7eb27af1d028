//! The greeting message: a fixed text followed by the current timestamp in
//! decimal milliseconds, produced as the exact byte sequence handed to the
//! socket's transmit buffer.

use vstd::prelude::*;

verus! {

/// ASCII code of the decimal digit `d`.
pub open spec fn spec_digit(d: nat) -> u8
    recommends
        d < 10,
{
    (0x30 + d) as u8
}

/// Decimal representation of `n`, most significant digit first, without
/// leading zeros (a single `'0'` for zero).
pub open spec fn spec_decimal(n: nat) -> Seq<u8>
    decreases n,
{
    if n < 10 {
        seq![spec_digit(n)]
    } else {
        spec_decimal(n / 10) + seq![spec_digit(n % 10)]
    }
}

/// The fixed text that opens every greeting: `"Hello! Current timestamp: "`.
pub open spec fn greeting_prefix() -> Seq<u8> {
    seq![
        0x48u8, 0x65u8, 0x6Cu8, 0x6Cu8, 0x6Fu8, 0x21u8, 0x20u8, 0x43u8, 0x75u8, 0x72u8, 0x72u8,
        0x65u8, 0x6Eu8, 0x74u8, 0x20u8, 0x74u8, 0x69u8, 0x6Du8, 0x65u8, 0x73u8, 0x74u8, 0x61u8,
        0x6Du8, 0x70u8, 0x3Au8, 0x20u8,
    ]
}

/// The whole greeting for the timestamp `ms`.
pub open spec fn greeting_bytes(ms: nat) -> Seq<u8> {
    greeting_prefix() + spec_decimal(ms)
}

/// Appends the decimal digits of `n` to `out`.
fn push_decimal(out: &mut Vec<u8>, n: u64)
    ensures
        final(out)@ == old(out)@ + spec_decimal(n as nat),
    decreases n,
{
    if n < 10 {
        out.push(0x30 + (n as u8));
        assert(out@ =~= old(out)@ + spec_decimal(n as nat));
    } else {
        push_decimal(out, n / 10);
        out.push(0x30 + ((n % 10) as u8));
        assert(out@ =~= old(out)@ + spec_decimal(n as nat));
    }
}

/// Builds the greeting for the timestamp `now_ms`, as the byte sequence to
/// hand to the transmit buffer.
pub fn greeting(now_ms: u64) -> (m: Vec<u8>)
    ensures
        m@ == greeting_bytes(now_ms as nat),
{
    let mut m: Vec<u8> = Vec::new();
    m.push(0x48);  // 'H'
    m.push(0x65);  // 'e'
    m.push(0x6C);  // 'l'
    m.push(0x6C);  // 'l'
    m.push(0x6F);  // 'o'
    m.push(0x21);  // '!'
    m.push(0x20);  // ' '
    m.push(0x43);  // 'C'
    m.push(0x75);  // 'u'
    m.push(0x72);  // 'r'
    m.push(0x72);  // 'r'
    m.push(0x65);  // 'e'
    m.push(0x6E);  // 'n'
    m.push(0x74);  // 't'
    m.push(0x20);  // ' '
    m.push(0x74);  // 't'
    m.push(0x69);  // 'i'
    m.push(0x6D);  // 'm'
    m.push(0x65);  // 'e'
    m.push(0x73);  // 's'
    m.push(0x74);  // 't'
    m.push(0x61);  // 'a'
    m.push(0x6D);  // 'm'
    m.push(0x70);  // 'p'
    m.push(0x3A);  // ':'
    m.push(0x20);  // ' '
    assert(m@ =~= greeting_prefix());
    push_decimal(&mut m, now_ms);
    m
}

} // verus!
