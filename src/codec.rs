use vstd::prelude::*;

verus! {

/// Configuration register A: watchdog enable (bit 7) and delay (bits 5-4).
pub const SETTING1_ADDR: u8 = 0x04;
/// Configuration register B: power saving (bit 6), gain of channels 1-3 (bits 0, 2, 4).
pub const SETTING2_ADDR: u8 = 0x05;
/// First identification register.
pub const ID1_ADDR: u8 = 0x5D;
/// Second identification register.
pub const ID2_ADDR: u8 = 0x5E;
/// Expected content of the first identification register.
pub const ID1_VALUE: u8 = 0x39;
/// Expected content of the second identification register.
pub const ID2_VALUE: u8 = 0x33;

/// `reg` with the bits of `mask` replaced by those of `bits`.
pub open spec fn field_merged(reg: u8, mask: u8, bits: u8) -> u8 {
    (reg & !mask) | (bits & mask)
}

/// Replaces the bits of `reg` selected by `mask` with those of `bits`;
/// every other bit passes through unchanged.
pub fn merge_field(reg: u8, mask: u8, bits: u8) -> (r: u8)
    ensures
        r == field_merged(reg, mask, bits),
        r & !mask == reg & !mask,
        r & mask == bits & mask,
{
    let r = (reg & !mask) | (bits & mask);
    assert(r & !mask == reg & !mask && r & mask == bits & mask) by (bit_vector)
        requires
            r == (reg & !mask) | (bits & mask),
    ;
    r
}


/// Bits of configuration register A that the watchdog setting owns: bits 7-4.
pub const WDT_MASK: u8 = 0xF0;
/// Bit of configuration register B that holds the power-saving flag.
pub const PS_MASK: u8 = 0x40;

/// Configuration register A after a watchdog setting: enable in bit 7, delay
/// in bits 5-4, bit 6 cleared, bits 3-0 kept.
pub open spec fn wdt_merged(reg: u8, enable: u8, delay: u8) -> u8 {
    field_merged(reg, WDT_MASK, ((enable << 7u8) | (delay << 4u8)) as u8)
}

/// The watchdog state as read back from configuration register A: bit 6.
pub open spec fn wdt_state_of(reg: u8) -> u8 {
    ((reg & 0x40u8) >> 6u8) as u8
}

/// Configuration register B after a power-saving setting: only bit 6 changes.
pub open spec fn ps_merged(reg: u8, enable: u8) -> u8 {
    field_merged(reg, PS_MASK, (enable << 6u8) as u8)
}

/// The bit of configuration register B that selects the gain of `channel`.
pub open spec fn gain_mask(channel: u8) -> u8 {
    if channel == 1 {
        0x01u8
    } else if channel == 2 {
        0x04u8
    } else {
        0x10u8
    }
}

/// Configuration register B after a gain setting: only the channel's bit changes.
pub open spec fn gain_merged(reg: u8, channel: u8, mode: u8) -> u8 {
    field_merged(reg, gain_mask(channel), if mode == 0 { 0u8 } else { gain_mask(channel) })
}

/// A channel number that names one of the three outputs.
pub open spec fn valid_channel(channel: u8) -> bool {
    1 <= channel <= 3
}

/// The gain mode that a current needs: 0 (10 uA per step) within +-1270 uA,
/// else 1 (20 uA per step) within +-2540 uA; none beyond.
pub open spec fn current_gain(current: int) -> Option<u8> {
    if -1270 <= current <= 1270 {
        Some(0u8)
    } else if -2540 <= current <= 2540 {
        Some(1u8)
    } else {
        None
    }
}

/// Microamps per step in a gain mode.
pub open spec fn step_of(mode: u8) -> int {
    if mode == 0 {
        10
    } else {
        20
    }
}

/// Number of steps of a current, its magnitude divided by the step and
/// truncated.
pub open spec fn magnitude_of(current: int, step: int) -> int {
    if current < 0 {
        (-current) / step
    } else {
        current / step
    }
}

/// The current register byte: sign in bit 7 (set when sourcing, that is for a
/// positive current), steps in bits 6-0.
pub open spec fn current_byte(current: int, step: int) -> u8 {
    if current > 0 {
        (magnitude_of(current, step) + 0x80) as u8
    } else {
        magnitude_of(current, step) as u8
    }
}

/// Gain mode and register byte for a current, or none when it is out of range.
pub open spec fn current_code(current: int) -> Option<(u8, u8)> {
    match current_gain(current) {
        Some(mode) => Some((mode, current_byte(current, step_of(mode)))),
        None => None,
    }
}

/// Within +-1270 uA a current takes gain mode 0, and its byte holds the
/// current divided by 10 (truncated) in bits 6-0 with bit 7 set exactly for
/// a positive (sourcing) current.
pub proof fn lemma_narrow_range_code(current: int)
    requires
        -1270 <= current <= 1270,
    ensures
        current_code(current) matches Some((mode, byte)) && mode == 0 && (byte & 0x80 != 0) == (
        current > 0) && (byte & 0x7F) as int == magnitude_of(current, 10),
{
    lemma_code_bits(current, 10);
}

/// Beyond +-1270 uA and within +-2540 uA a current takes gain mode 1, and its
/// byte holds the current divided by 20 (truncated) in bits 6-0 with bit 7
/// set exactly for a positive (sourcing) current.
pub proof fn lemma_wide_range_code(current: int)
    requires
        1270 < current <= 2540 || -2540 <= current < -1270,
    ensures
        current_code(current) matches Some((mode, byte)) && mode == 1 && (byte & 0x80 != 0) == (
        current > 0) && (byte & 0x7F) as int == magnitude_of(current, 20),
{
    lemma_code_bits(current, 20);
}

/// The sign and the magnitude of a current byte, for a current that fits its step.
proof fn lemma_code_bits(current: int, step: int)
    requires
        step == 10 || step == 20,
        -127 * step - (step - 1) <= current <= 127 * step + (step - 1),
    ensures
        (current_byte(current, step) & 0x80 != 0) == (current > 0),
        (current_byte(current, step) & 0x7F) as int == magnitude_of(current, step),
{
    let m = magnitude_of(current, step);
    assert(0 <= m <= 127) by (nonlinear_arith)
        requires
            m == if current < 0 {
                (-current) / step
            } else {
                current / step
            },
            step == 10 || step == 20,
            -127 * step - (step - 1) <= current <= 127 * step + (step - 1),
    ;
    let s = m as u8;
    let b = current_byte(current, step);
    let positive = current > 0;
    assert((b & 0x80 != 0) == positive && b & 0x7F == s) by (bit_vector)
        requires
            s <= 127,
            positive ==> b == s + 0x80,
            !positive ==> b == s,
    ;
}

/// A watchdog setting keeps bits 3-0 of configuration register A.
pub proof fn lemma_wdt_keeps_low_bits(reg: u8, enable: u8, delay: u8)
    ensures
        wdt_merged(reg, enable, delay) & 0x0F == reg & 0x0F,
{
    let bits = ((enable << 7u8) | (delay << 4u8)) as u8;
    assert(((reg & !0xF0u8) | (bits & 0xF0u8)) & 0x0F == reg & 0x0F) by (bit_vector);
}

/// Setting a channel's gain mode again on the register that the first setting
/// produced changes nothing: the second write repeats the first.
pub proof fn lemma_gain_idempotent(reg: u8, channel: u8, mode: u8)
    ensures
        gain_merged(gain_merged(reg, channel, mode), channel, mode) == gain_merged(
            reg,
            channel,
            mode,
        ),
{
    let m = gain_mask(channel);
    let b: u8 = if mode == 0 {
        0u8
    } else {
        m
    };
    assert(((((reg & !m) | (b & m)) & !m) | (b & m)) == ((reg & !m) | (b & m))) by (bit_vector);
}

/// Configuration register A with a new watchdog setting merged in.
pub fn wdt_setting(reg: u8, enable: u8, delay: u8) -> (r: u8)
    requires
        enable <= 1,
        delay <= 3,
    ensures
        r == wdt_merged(reg, enable, delay),
        r & 0x0F == reg & 0x0F,
        r >> 7u8 == enable,
        (r >> 4u8) & 3 == delay,
        r & 0x40 == 0,
{
    let bits: u8 = (enable << 7u8) | (delay << 4u8);
    let r = merge_field(reg, WDT_MASK, bits);
    assert(r & 0x0F == reg & 0x0F && r >> 7u8 == enable && (r >> 4u8) & 3 == delay && r & 0x40
        == 0) by (bit_vector)
        requires
            r == (reg & !0xF0u8) | (bits & 0xF0u8),
            bits == (enable << 7u8) | (delay << 4u8),
            enable <= 1,
            delay <= 3,
    ;
    r
}

/// The watchdog state held by configuration register A (bit 6).
pub fn wdt_state(reg: u8) -> (r: u8)
    ensures
        r == wdt_state_of(reg),
        r <= 1,
        r == 1 <==> reg & 0x40 != 0,
{
    let r = (reg & 0x40) >> 6u8;
    assert(r <= 1 && (r == 1 <==> reg & 0x40 != 0)) by (bit_vector)
        requires
            r == (reg & 0x40u8) >> 6u8,
    ;
    r
}

/// Configuration register B with a new power-saving flag merged in.
pub fn ps_setting(reg: u8, enable: u8) -> (r: u8)
    requires
        enable <= 1,
    ensures
        r == ps_merged(reg, enable),
        r & 0xBF == reg & 0xBF,
        (r & 0x40 != 0) == (enable == 1),
{
    let bits: u8 = enable << 6u8;
    let r = merge_field(reg, PS_MASK, bits);
    assert(r & 0xBF == reg & 0xBF && ((r & 0x40 != 0) == (enable == 1))) by (bit_vector)
        requires
            r == (reg & !0x40u8) | (bits & 0x40u8),
            bits == enable << 6u8,
            enable <= 1,
    ;
    r
}

/// Configuration register B with the gain mode of `channel` merged in.
pub fn gain_setting(reg: u8, channel: u8, mode: u8) -> (r: u8)
    requires
        valid_channel(channel),
        mode <= 1,
    ensures
        r == gain_merged(reg, channel, mode),
        r & !gain_mask(channel) == reg & !gain_mask(channel),
        (r & gain_mask(channel) != 0) == (mode == 1),
{
    let mask: u8 = if channel == 1 {
        0x01
    } else if channel == 2 {
        0x04
    } else {
        0x10
    };
    let bits: u8 = if mode == 0 {
        0
    } else {
        mask
    };
    let r = merge_field(reg, mask, bits);
    assert((r & mask != 0) == (mode == 1)) by (bit_vector)
        requires
            r & mask == bits & mask,
            bits == 0 || bits == mask,
            bits == 0 <==> mode == 0,
            mode <= 1,
            mask == 1 || mask == 4 || mask == 16,
    ;
    r
}

/// Gain mode and register byte for a current in microamps: the narrower
/// 10 uA range whenever it holds the current, else the 20 uA range; none
/// beyond +-2540 uA.
pub fn encode_current(current: i16) -> (r: Option<(u8, u8)>)
    ensures
        r == current_code(current as int),
        r is None <==> current < -2540 || current > 2540,
        match r {
            Some((mode, byte)) => {
                &&& mode == 0 <==> -1270 <= current <= 1270
                &&& (byte & 0x80 != 0) == (current > 0)
                &&& (byte & 0x7F) as int == magnitude_of(current as int, step_of(mode))
            },
            None => true,
        },
{
    let mode: u8;
    let step: u16;
    if -1270 <= current && current <= 1270 {
        mode = 0;
        step = 10;
    } else if -2540 <= current && current <= 2540 {
        mode = 1;
        step = 20;
    } else {
        return None;
    }
    let mag: u16 = if current < 0 {
        (0 - current) as u16
    } else {
        current as u16
    };
    assert(mag / step <= 127) by (nonlinear_arith)
        requires
            step == 10 ==> mag <= 1270,
            step == 20 ==> mag <= 2540,
            step == 10 || step == 20,
    ;
    let steps: u8 = (mag / step) as u8;
    let byte: u8 = if current > 0 {
        steps + 0x80
    } else {
        steps
    };
    assert((byte & 0x80 != 0) == (current > 0) && byte & 0x7F == steps) by (bit_vector)
        requires
            steps <= 127,
            current > 0 ==> byte == steps + 0x80,
            current <= 0 ==> byte == steps,
    ;
    Some((mode, byte))
}

} // verus!
