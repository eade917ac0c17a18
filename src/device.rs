use crate::errors::NCT3933Error;
use embedded_hal::i2c;
use embedded_hal::i2c::Error;
use vstd::prelude::*;

verus! {

/// One bus transaction that the driver issued: the bus address it went to,
/// the register, and what the bus answered.
pub enum BusOp {
    /// A register read, with the byte read or the bus's failure.
    Read { address: u8, reg: u8, data: Result<u8, i2c::ErrorKind> },
    /// A register write of `value`, with the bus's answer.
    Write { address: u8, reg: u8, value: u8, outcome: Result<(), i2c::ErrorKind> },
}

/// The bus failure kinds of `embedded_hal`, into which every bus error is
/// turned by `embedded_hal::i2c::Error::kind`.
#[verifier::external_type_specification]
#[verifier::external_body]
pub struct ExErrorKind(i2c::ErrorKind);

/// Relies on embedded_hal's `I2c::write_read`: one transaction that writes the
/// register address and reads one byte back; a failure is reported by its
/// `Error::kind`.
#[verifier::external_body]
fn bus_read<I2C: i2c::I2c>(bus: &mut I2C, address: u8, reg: u8) -> (r: Result<u8, i2c::ErrorKind>)
{
    let mut data = [0u8];
    bus.write_read(address, &[reg], &mut data).map(|_| data[0]).map_err(|e| e.kind())
}

/// Relies on embedded_hal's `I2c::write`: one transaction that writes the
/// register address followed by the value; a failure is reported by its
/// `Error::kind`.
#[verifier::external_body]
fn bus_write<I2C: i2c::I2c>(bus: &mut I2C, address: u8, reg: u8, value: u8) -> (r: Result<
    (),
    i2c::ErrorKind,
>)
{
    bus.write(address, &[reg, value]).map_err(|e| e.kind())
}

/// What the driver returns for a bus answer: the same value, or the bus's
/// failure kind as `I2C`.
pub open spec fn bus_result<T>(res: Result<T, i2c::ErrorKind>) -> Result<
    T,
    NCT3933Error<i2c::ErrorKind>,
> {
    match res {
        Ok(v) => Ok(v),
        Err(k) => Err(NCT3933Error::I2C(k)),
    }
}

/// Driver of one NCT3933 on an I2C bus.
///
/// The device's registers live on the device alone: nothing is cached, every
/// operation reads and writes them afresh. The ghost log records each
/// transaction issued through this handle, which the contracts speak of; only
/// the two register primitives below, each beside its bus call, extend it.
pub struct NCT3933<I2C> {
    /// The bus the device sits on.
    i2c: I2C,
    /// The 7-bit bus address of the device.
    address: u8,
    /// The transactions issued so far.
    log: Ghost<Seq<BusOp>>,
}

impl<I2C: i2c::I2c> NCT3933<I2C> {
    /// The transactions issued through this handle so far, oldest first.
    pub closed spec fn ops(&self) -> Seq<BusOp> {
        self.log@
    }

    /// The 7-bit bus address the handle talks to.
    pub closed spec fn bus_address(&self) -> u8 {
        self.address
    }

    /// A handle for the device whose 8-bit address byte is `address`; the
    /// bus address drops its lowest bit, which is the direction flag.
    pub fn new(i2c: I2C, address: u8) -> (r: Result<Self, i2c::ErrorKind>)
        ensures
            r matches Ok(d) && d.bus_address() == address >> 1u8 && d.ops() == Seq::<
                BusOp,
            >::empty(),
    {
        let nct3933 = NCT3933 { i2c, address: address >> 1u8, log: Ghost(Seq::empty()) };
        Ok(nct3933)
    }

    /// Reads one register in a single write-then-read transaction to the
    /// handle's bus address.
    pub fn read_register(&mut self, reg_addr: u8) -> (r: Result<u8, NCT3933Error<i2c::ErrorKind>>)
        ensures
            final(self).bus_address() == old(self).bus_address(),
            final(self).ops() == old(self).ops().push(
                (BusOp::Read {
                    address: old(self).bus_address(),
                    reg: reg_addr,
                    data: final(self).ops().last()->Read_data,
                }),
            ),
            r == bus_result(final(self).ops().last()->Read_data),
    {
        let res = bus_read(&mut self.i2c, self.address, reg_addr);
        self.log = Ghost(self.log@.push(BusOp::Read { address: self.address, reg: reg_addr, data: res }));
        match res {
            Ok(v) => Ok(v),
            Err(e) => Err(NCT3933Error::I2C(e)),
        }
    }

    /// Writes one register in a single two-byte transaction to the handle's
    /// bus address.
    pub fn write_register(&mut self, reg: u8, value: u8) -> (r: Result<(), NCT3933Error<i2c::ErrorKind>>)
        ensures
            final(self).bus_address() == old(self).bus_address(),
            final(self).ops() == old(self).ops().push(
                (BusOp::Write {
                    address: old(self).bus_address(),
                    reg,
                    value,
                    outcome: final(self).ops().last()->Write_outcome,
                }),
            ),
            r == bus_result(final(self).ops().last()->Write_outcome),
    {
        let res = bus_write(&mut self.i2c, self.address, reg, value);
        self.log = Ghost(
            self.log@.push(BusOp::Write { address: self.address, reg, value, outcome: res }),
        );
        match res {
            Ok(()) => Ok(()),
            Err(e) => Err(NCT3933Error::I2C(e)),
        }
    }
}

} // verus!
