use crate::codec::{
    current_code, encode_current, gain_merged, gain_setting, lemma_gain_idempotent, ps_merged,
    ps_setting, valid_channel, wdt_merged, wdt_setting, wdt_state, wdt_state_of, ID1_ADDR,
    ID1_VALUE, ID2_ADDR, ID2_VALUE, SETTING1_ADDR, SETTING2_ADDR,
};
use crate::device::{bus_result, BusOp, NCT3933};
use crate::errors::NCT3933Error;
use embedded_hal::i2c;
use vstd::prelude::*;

verus! {

/// `after` is `before` followed by one read of `reg` at `address` and, if
/// that read answered `v`, one write of `merged(v)` back to `reg` at
/// `address`; `r` is the answer of the write, or the failure of the read.
pub open spec fn read_modify_write(
    before: Seq<BusOp>,
    after: Seq<BusOp>,
    address: u8,
    reg: u8,
    merged: spec_fn(u8) -> u8,
    r: Result<(), NCT3933Error<i2c::ErrorKind>>,
) -> bool {
    &&& after.len() > before.len()
    &&& match after[before.len() as int] {
        BusOp::Read { address: a, reg: g, data: Err(k) } => {
            &&& a == address
            &&& g == reg
            &&& after == before.push(after[before.len() as int])
            &&& r == Err::<(), NCT3933Error<i2c::ErrorKind>>(NCT3933Error::I2C(k))
        },
        BusOp::Read { address: a, reg: g, data: Ok(v) } => {
            &&& a == address
            &&& g == reg
            &&& after == before.push(after[before.len() as int]).push(
                (BusOp::Write {
                    address,
                    reg,
                    value: merged(v),
                    outcome: after.last()->Write_outcome,
                }),
            )
            &&& r == bus_result(after.last()->Write_outcome)
        },
        _ => false,
    }
}

/// `after` is `before` followed by a read of `reg1` at `address` and, if that
/// read succeeded, a read of `reg2` at `address`.
pub open spec fn read_pair(
    before: Seq<BusOp>,
    after: Seq<BusOp>,
    address: u8,
    reg1: u8,
    reg2: u8,
) -> bool {
    &&& after.len() > before.len()
    &&& after[before.len() as int] matches BusOp::Read { address: a, reg, data }
    &&& a == address && reg == reg1
    &&& if after[before.len() as int]->Read_data is Ok {
        &&& after.len() == before.len() + 2
        &&& after.subrange(0, before.len() + 1int) == before.push(after[before.len() as int])
        &&& after.last() matches BusOp::Read { address: a2, reg: g2, data: _ }
        &&& a2 == address && g2 == reg2
    } else {
        after == before.push(after[before.len() as int])
    }
}

/// What a pair of reads after `before` answered: both bytes, or the failure
/// of the first read that failed.
pub open spec fn pair_answer(before: Seq<BusOp>, after: Seq<BusOp>) -> Result<
    (u8, u8),
    i2c::ErrorKind,
> {
    match after[before.len() as int]->Read_data {
        Err(k) => Err(k),
        Ok(a) => match after[before.len() + 1int]->Read_data {
            Err(k) => Err(k),
            Ok(b) => Ok((a, b)),
        },
    }
}

/// The transactions of a current setting: the read-modify-write of the
/// channel's gain bit in configuration register B and, if it succeeded, one
/// write of `byte` to the channel's register; `r` is the answer of the last
/// transaction issued.
pub open spec fn current_transactions(
    before: Seq<BusOp>,
    after: Seq<BusOp>,
    address: u8,
    channel: u8,
    mode: u8,
    byte: u8,
    r: Result<(), NCT3933Error<i2c::ErrorKind>>,
) -> bool {
    let merged = (|v: u8| gain_merged(v, channel, mode));
    ||| read_modify_write(before, after, address, SETTING2_ADDR, merged, r) && r is Err
    ||| {
        &&& after.len() > 0
        &&& read_modify_write(before, after.drop_last(), address, SETTING2_ADDR, merged, Ok(()))
        &&& after.last() == (BusOp::Write {
            address,
            reg: channel,
            value: byte,
            outcome: after.last()->Write_outcome,
        })
        &&& r == bus_result(after.last()->Write_outcome)
    }
}

/// Two successful gain settings with the same channel and mode, where the
/// second reads back the byte that the first wrote (nothing changed the
/// register between them): the second writes that same byte again, so the
/// register ends as after the first.
pub proof fn lemma_set_gain_twice(
    s0: Seq<BusOp>,
    s1: Seq<BusOp>,
    s2: Seq<BusOp>,
    address: u8,
    channel: u8,
    mode: u8,
)
    requires
        read_modify_write(
            s0,
            s1,
            address,
            SETTING2_ADDR,
            (|v: u8| gain_merged(v, channel, mode)),
            Ok(()),
        ),
        read_modify_write(
            s1,
            s2,
            address,
            SETTING2_ADDR,
            (|v: u8| gain_merged(v, channel, mode)),
            Ok(()),
        ),
        s2[s1.len() as int]->Read_data == Ok::<u8, i2c::ErrorKind>(s1.last()->Write_value),
    ensures
        s2.last()->Write_value == s1.last()->Write_value,
        s2.last()->Write_reg == s1.last()->Write_reg,
{
    let v = s1[s0.len() as int]->Read_data->Ok_0;
    lemma_gain_idempotent(v, channel, mode);
}

impl<I2C: i2c::I2c> NCT3933<I2C> {
    /// Reads the two identification registers, the first one first.
    fn read_id_pair(&mut self) -> (r: Result<(u8, u8), NCT3933Error<i2c::ErrorKind>>)
        ensures
            final(self).bus_address() == old(self).bus_address(),
            read_pair(old(self).ops(), final(self).ops(), old(self).bus_address(), ID1_ADDR, ID2_ADDR),
            r == bus_result(pair_answer(old(self).ops(), final(self).ops())),
    {
        let ghost before = self.ops();
        let id1 = self.read_register(ID1_ADDR)?;
        let ghost mid = self.ops();
        let id2 = self.read_register(ID2_ADDR);
        assert(self.ops().subrange(0, before.len() + 1int) =~= mid);
        let id2 = id2?;
        Ok((id1, id2))
    }

    /// Checks that the identification registers hold 0x39 and 0x33.
    pub fn check_id(&mut self) -> (r: Result<(), NCT3933Error<i2c::ErrorKind>>)
        ensures
            final(self).bus_address() == old(self).bus_address(),
            read_pair(old(self).ops(), final(self).ops(), old(self).bus_address(), ID1_ADDR, ID2_ADDR),
            match pair_answer(old(self).ops(), final(self).ops()) {
                Ok((id1, id2)) => r == if id1 == ID1_VALUE && id2 == ID2_VALUE {
                    Ok::<(), NCT3933Error<i2c::ErrorKind>>(())
                } else {
                    Err(NCT3933Error::InvalidID)
                },
                Err(k) => r == Err::<(), NCT3933Error<i2c::ErrorKind>>(NCT3933Error::I2C(k)),
            },
    {
        let (id1, id2) = self.read_id_pair()?;
        if id1 == ID1_VALUE && id2 == ID2_VALUE {
            Ok(())
        } else {
            Err(NCT3933Error::InvalidID)
        }
    }

    /// Reads both identification registers, the first in the high byte.
    pub fn read_id_data(&mut self) -> (r: Result<u16, NCT3933Error<i2c::ErrorKind>>)
        ensures
            final(self).bus_address() == old(self).bus_address(),
            read_pair(old(self).ops(), final(self).ops(), old(self).bus_address(), ID1_ADDR, ID2_ADDR),
            match pair_answer(old(self).ops(), final(self).ops()) {
                Ok((id1, id2)) => r matches Ok(id) && id as int == id1 as int * 256 + id2 as int,
                Err(k) => r == Err::<u16, NCT3933Error<i2c::ErrorKind>>(NCT3933Error::I2C(k)),
            },
    {
        let (id1, id2) = self.read_id_pair()?;
        let id: u16 = ((id1 as u16) << 8u16) | id2 as u16;
        assert(id == id1 as u16 * 256 + id2 as u16) by (bit_vector)
            requires
                id == ((id1 as u16) << 8u16) | id2 as u16,
        ;
        Ok(id)
    }

    /// Reads the watchdog state: bit 6 of configuration register A.
    pub fn read_wdt_state(&mut self) -> (r: Result<u8, NCT3933Error<i2c::ErrorKind>>)
        ensures
            final(self).bus_address() == old(self).bus_address(),
            final(self).ops() == old(self).ops().push(
                (BusOp::Read {
                    address: old(self).bus_address(),
                    reg: SETTING1_ADDR,
                    data: final(self).ops().last()->Read_data,
                }),
            ),
            match final(self).ops().last()->Read_data {
                Ok(v) => r == Ok::<u8, NCT3933Error<i2c::ErrorKind>>(wdt_state_of(v)),
                Err(k) => r == Err::<u8, NCT3933Error<i2c::ErrorKind>>(NCT3933Error::I2C(k)),
            },
    {
        let setting1 = self.read_register(SETTING1_ADDR)?;
        Ok(wdt_state(setting1))
    }

    /// Sets the watchdog: `enable_state` 0 or 1, `delay` 0 to 3 (1.4 s,
    /// 2.8 s, 5.5 s, 11 s). Bits 3-0 of configuration register A are kept.
    pub fn set_wdt_state(&mut self, enable_state: u8, delay: u8) -> (r: Result<
        (),
        NCT3933Error<i2c::ErrorKind>,
    >)
        ensures
            final(self).bus_address() == old(self).bus_address(),
            if delay > 3 || enable_state > 1 {
                r == Err::<(), NCT3933Error<i2c::ErrorKind>>(NCT3933Error::InvalidChannel)
                    && final(self).ops() == old(self).ops()
            } else {
                read_modify_write(
                    old(self).ops(),
                    final(self).ops(),
                    old(self).bus_address(),
                    SETTING1_ADDR,
                    (|v: u8| wdt_merged(v, enable_state, delay)),
                    r,
                )
            },
    {
        if delay > 3 || enable_state > 1 {
            return Err(NCT3933Error::InvalidChannel);
        }
        let setting1 = self.read_register(SETTING1_ADDR)?;
        let new_setting1 = wdt_setting(setting1, enable_state, delay);
        self.write_register(SETTING1_ADDR, new_setting1)
    }

    /// Sets the power-saving mode: `enable_state` 0 or 1, bit 6 of
    /// configuration register B.
    pub fn set_ps_mode(&mut self, enable_state: u8) -> (r: Result<(), NCT3933Error<i2c::ErrorKind>>)
        ensures
            final(self).bus_address() == old(self).bus_address(),
            if enable_state > 1 {
                r == Err::<(), NCT3933Error<i2c::ErrorKind>>(NCT3933Error::InvalidMode)
                    && final(self).ops() == old(self).ops()
            } else {
                read_modify_write(
                    old(self).ops(),
                    final(self).ops(),
                    old(self).bus_address(),
                    SETTING2_ADDR,
                    (|v: u8| ps_merged(v, enable_state)),
                    r,
                )
            },
    {
        if enable_state > 1 {
            return Err(NCT3933Error::InvalidMode);
        }
        let setting2 = self.read_register(SETTING2_ADDR)?;
        let new_setting2 = ps_setting(setting2, enable_state);
        self.write_register(SETTING2_ADDR, new_setting2)
    }

    /// Sets the gain of `channel` (1 to 3): mode 0 gives 10 uA per step,
    /// mode 1 gives 20 uA per step.
    pub fn set_gain(&mut self, channel: u8, mode: u8) -> (r: Result<(), NCT3933Error<i2c::ErrorKind>>)
        ensures
            final(self).bus_address() == old(self).bus_address(),
            if mode > 1 {
                r == Err::<(), NCT3933Error<i2c::ErrorKind>>(NCT3933Error::InvalidMode)
                    && final(self).ops() == old(self).ops()
            } else if !valid_channel(channel) {
                r == Err::<(), NCT3933Error<i2c::ErrorKind>>(NCT3933Error::InvalidChannel)
                    && final(self).ops() == old(self).ops()
            } else {
                read_modify_write(
                    old(self).ops(),
                    final(self).ops(),
                    old(self).bus_address(),
                    SETTING2_ADDR,
                    (|v: u8| gain_merged(v, channel, mode)),
                    r,
                )
            },
    {
        if mode > 1 {
            return Err(NCT3933Error::InvalidMode);
        }
        if channel < 1 || channel > 3 {
            return Err(NCT3933Error::InvalidChannel);
        }
        let setting2 = self.read_register(SETTING2_ADDR)?;
        let new_setting2 = gain_setting(setting2, channel, mode);
        self.write_register(SETTING2_ADDR, new_setting2)
    }

    /// Sets the current of `channel` (1 to 3) in microamps, -2540 to 2540:
    /// first the gain that the current needs (the 10 uA range whenever it
    /// suffices), then the channel's register. The two steps are separate
    /// transactions: a failure of the second leaves the new gain in place.
    pub fn set_current(&mut self, channel: u8, current: i16) -> (r: Result<
        (),
        NCT3933Error<i2c::ErrorKind>,
    >)
        ensures
            final(self).bus_address() == old(self).bus_address(),
            if !valid_channel(channel) {
                r == Err::<(), NCT3933Error<i2c::ErrorKind>>(NCT3933Error::InvalidChannel)
                    && final(self).ops() == old(self).ops()
            } else {
                match current_code(current as int) {
                    None => r == Err::<(), NCT3933Error<i2c::ErrorKind>>(
                        NCT3933Error::InvalidCurrent,
                    ) && final(self).ops() == old(self).ops(),
                    Some((mode, byte)) => current_transactions(
                        old(self).ops(),
                        final(self).ops(),
                        old(self).bus_address(),
                        channel,
                        mode,
                        byte,
                        r,
                    ),
                }
            },
    {
        if channel > 3 || channel < 1 {
            return Err(NCT3933Error::InvalidChannel);
        }
        let (mode, reg_data) = match encode_current(current) {
            Some(code) => code,
            None => return Err(NCT3933Error::InvalidCurrent),
        };
        self.set_gain(channel, mode)?;
        let ghost gain_ops = self.ops();
        let r = self.write_register(channel, reg_data);
        assert(self.ops().drop_last() == gain_ops);
        r
    }
}

} // verus!
