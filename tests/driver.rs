use embedded_hal::i2c::{ErrorKind, ErrorType, I2c, Operation};
use nct3933::{NCT3933Error, NCT3933};

/// A register file behind an I2C bus that records every transaction.
struct FakeBus {
    regs: [u8; 256],
    addresses: Vec<u8>,
    transactions: usize,
    fail_at: Option<usize>,
    fail_kind: ErrorKind,
}

impl FakeBus {
    fn new() -> FakeBus {
        FakeBus { regs: [0; 256], addresses: Vec::new(), transactions: 0, fail_at: None, fail_kind: ErrorKind::Bus }
    }
}

impl ErrorType for FakeBus {
    type Error = ErrorKind;
}

impl I2c for FakeBus {
    fn transaction(&mut self, address: u8, operations: &mut [Operation<'_>]) -> Result<(), ErrorKind> {
        let index = self.transactions;
        self.transactions += 1;
        self.addresses.push(address);
        if self.fail_at == Some(index) {
            return Err(self.fail_kind);
        }
        let mut pointer: usize = 0;
        for op in operations.iter_mut() {
            match op {
                Operation::Write(bytes) => {
                    pointer = bytes[0] as usize;
                    if bytes.len() > 1 {
                        self.regs[pointer] = bytes[1];
                    }
                }
                Operation::Read(buf) => {
                    buf[0] = self.regs[pointer];
                }
            }
        }
        Ok(())
    }
}

#[test]
fn new_drops_direction_bit() {
    let mut bus = FakeBus::new();
    bus.regs[0x5D] = 0x39;
    {
        let mut dev = NCT3933::new(&mut bus, 0x2A).unwrap();
        dev.read_register(0x5D).unwrap();
    }
    assert_eq!(bus.addresses, vec![0x15]);
}

#[test]
fn read_register_returns_device_byte() {
    let mut bus = FakeBus::new();
    bus.regs[0x04] = 0xA7;
    let mut dev = NCT3933::new(&mut bus, 0x2A).unwrap();
    assert_eq!(dev.read_register(0x04), Ok(0xA7));
}

#[test]
fn write_register_stores_byte() {
    let mut bus = FakeBus::new();
    {
        let mut dev = NCT3933::new(&mut bus, 0x2A).unwrap();
        assert_eq!(dev.write_register(0x02, 0x5C), Ok(()));
    }
    assert_eq!(bus.regs[0x02], 0x5C);
}

#[test]
fn bus_failure_is_wrapped() {
    let mut bus = FakeBus::new();
    bus.fail_at = Some(0);
    let mut dev = NCT3933::new(&mut bus, 0x2A).unwrap();
    assert_eq!(dev.read_register(0x04), Err(NCT3933Error::I2C(ErrorKind::Bus)));
}

#[test]
fn check_id_accepts_expected_pair() {
    let mut bus = FakeBus::new();
    bus.regs[0x5D] = 0x39;
    bus.regs[0x5E] = 0x33;
    let mut dev = NCT3933::new(&mut bus, 0x2A).unwrap();
    assert_eq!(dev.check_id(), Ok(()));
}

#[test]
fn check_id_rejects_both_bytes_wrong() {
    let mut bus = FakeBus::new();
    bus.regs[0x5D] = 0x12;
    bus.regs[0x5E] = 0x34;
    let mut dev = NCT3933::new(&mut bus, 0x2A).unwrap();
    assert_eq!(dev.check_id(), Err(NCT3933Error::InvalidID));
}

#[test]
fn check_id_rejects_second_byte_wrong() {
    let mut bus = FakeBus::new();
    bus.regs[0x5D] = 0x39;
    bus.regs[0x5E] = 0x34;
    let mut dev = NCT3933::new(&mut bus, 0x2A).unwrap();
    assert_eq!(dev.check_id(), Err(NCT3933Error::InvalidID));
}

#[test]
fn check_id_stops_after_failed_first_read() {
    let mut bus = FakeBus::new();
    bus.fail_at = Some(0);
    {
        let mut dev = NCT3933::new(&mut bus, 0x2A).unwrap();
        assert_eq!(dev.check_id(), Err(NCT3933Error::I2C(ErrorKind::Bus)));
    }
    assert_eq!(bus.transactions, 1);
}

#[test]
fn read_id_data_is_big_endian() {
    let mut bus = FakeBus::new();
    bus.regs[0x5D] = 0x39;
    bus.regs[0x5E] = 0x33;
    let mut dev = NCT3933::new(&mut bus, 0x2A).unwrap();
    assert_eq!(dev.read_id_data(), Ok(0x3933));
}

#[test]
fn read_wdt_state_reads_bit_six() {
    let mut bus = FakeBus::new();
    bus.regs[0x04] = 0x40;
    {
        let mut dev = NCT3933::new(&mut bus, 0x2A).unwrap();
        assert_eq!(dev.read_wdt_state(), Ok(1));
    }
    bus.regs[0x04] = 0xBF;
    let mut dev = NCT3933::new(&mut bus, 0x2A).unwrap();
    assert_eq!(dev.read_wdt_state(), Ok(0));
}

#[test]
fn set_wdt_state_keeps_low_bits() {
    let mut bus = FakeBus::new();
    bus.regs[0x04] = 0xFF;
    {
        let mut dev = NCT3933::new(&mut bus, 0x2A).unwrap();
        assert_eq!(dev.set_wdt_state(0, 0), Ok(()));
    }
    assert_eq!(bus.regs[0x04], 0x0F);
}

#[test]
fn set_wdt_state_writes_enable_and_delay() {
    let mut bus = FakeBus::new();
    bus.regs[0x04] = 0x05;
    {
        let mut dev = NCT3933::new(&mut bus, 0x2A).unwrap();
        assert_eq!(dev.set_wdt_state(1, 3), Ok(()));
    }
    assert_eq!(bus.regs[0x04], 0xB5);
}

#[test]
fn set_wdt_state_rejects_bad_arguments() {
    let mut bus = FakeBus::new();
    {
        let mut dev = NCT3933::new(&mut bus, 0x2A).unwrap();
        assert_eq!(dev.set_wdt_state(2, 0), Err(NCT3933Error::InvalidChannel));
        assert_eq!(dev.set_wdt_state(0, 4), Err(NCT3933Error::InvalidChannel));
    }
    assert_eq!(bus.transactions, 0);
}

#[test]
fn set_ps_mode_touches_bit_six_only() {
    let mut bus = FakeBus::new();
    bus.regs[0x05] = 0x15;
    {
        let mut dev = NCT3933::new(&mut bus, 0x2A).unwrap();
        assert_eq!(dev.set_ps_mode(1), Ok(()));
    }
    assert_eq!(bus.regs[0x05], 0x55);
    {
        let mut dev = NCT3933::new(&mut bus, 0x2A).unwrap();
        assert_eq!(dev.set_ps_mode(0), Ok(()));
    }
    assert_eq!(bus.regs[0x05], 0x15);
}

#[test]
fn set_ps_mode_rejects_bad_flag() {
    let mut bus = FakeBus::new();
    {
        let mut dev = NCT3933::new(&mut bus, 0x2A).unwrap();
        assert_eq!(dev.set_ps_mode(2), Err(NCT3933Error::InvalidMode));
    }
    assert_eq!(bus.transactions, 0);
}

#[test]
fn set_gain_sets_channel_bits() {
    let mut bus = FakeBus::new();
    bus.regs[0x05] = 0x40;
    {
        let mut dev = NCT3933::new(&mut bus, 0x2A).unwrap();
        assert_eq!(dev.set_gain(1, 1), Ok(()));
        assert_eq!(dev.set_gain(2, 1), Ok(()));
        assert_eq!(dev.set_gain(3, 1), Ok(()));
    }
    assert_eq!(bus.regs[0x05], 0x55);
    {
        let mut dev = NCT3933::new(&mut bus, 0x2A).unwrap();
        assert_eq!(dev.set_gain(2, 0), Ok(()));
    }
    assert_eq!(bus.regs[0x05], 0x51);
}

#[test]
fn set_gain_rejects_bad_arguments() {
    let mut bus = FakeBus::new();
    {
        let mut dev = NCT3933::new(&mut bus, 0x2A).unwrap();
        assert_eq!(dev.set_gain(1, 2), Err(NCT3933Error::InvalidMode));
        assert_eq!(dev.set_gain(0, 1), Err(NCT3933Error::InvalidChannel));
        assert_eq!(dev.set_gain(4, 0), Err(NCT3933Error::InvalidChannel));
    }
    assert_eq!(bus.transactions, 0);
}

#[test]
fn set_gain_twice_equals_once() {
    let mut once = FakeBus::new();
    once.regs[0x05] = 0xA2;
    {
        let mut dev = NCT3933::new(&mut once, 0x2A).unwrap();
        dev.set_gain(3, 1).unwrap();
    }
    let mut twice = FakeBus::new();
    twice.regs[0x05] = 0xA2;
    {
        let mut dev = NCT3933::new(&mut twice, 0x2A).unwrap();
        dev.set_gain(3, 1).unwrap();
        dev.set_gain(3, 1).unwrap();
    }
    assert_eq!(once.regs[0x05], 0xB2);
    assert_eq!(twice.regs[0x05], once.regs[0x05]);
}

fn current_after(channel: u8, current: i16, setting2: u8) -> (Result<(), NCT3933Error<ErrorKind>>, u8, u8) {
    let mut bus = FakeBus::new();
    bus.regs[0x05] = setting2;
    bus.regs[channel as usize & 0xFF] = 0x33;
    let r = {
        let mut dev = NCT3933::new(&mut bus, 0x2A).unwrap();
        dev.set_current(channel, current)
    };
    (r, bus.regs[channel as usize & 0xFF], bus.regs[0x05])
}

#[test]
fn set_current_small_positive() {
    assert_eq!(current_after(1, 10, 0x01), (Ok(()), 0x81, 0x00));
}

#[test]
fn set_current_small_negative() {
    assert_eq!(current_after(2, -10, 0x04), (Ok(()), 0x01, 0x00));
}

#[test]
fn set_current_zero() {
    assert_eq!(current_after(3, 0, 0x10), (Ok(()), 0x00, 0x00));
}

#[test]
fn set_current_truncates_toward_zero() {
    assert_eq!(current_after(1, 1279, 0x00).1, 0xBF);
    assert_eq!(current_after(1, -25, 0x00).1, 0x02);
    assert_eq!(current_after(1, 1270, 0x00), (Ok(()), 0xFF, 0x00));
    assert_eq!(current_after(1, -1270, 0x00), (Ok(()), 0x7F, 0x00));
}

#[test]
fn set_current_wide_range() {
    assert_eq!(current_after(1, 2540, 0x00), (Ok(()), 0xFF, 0x01));
    assert_eq!(current_after(2, -2540, 0x40), (Ok(()), 0x7F, 0x44));
    assert_eq!(current_after(3, -1271, 0x00), (Ok(()), 0x3F, 0x10));
}

#[test]
fn set_current_boundary_1271() {
    assert_eq!(current_after(1, 1271, 0x00), (Ok(()), 0xBF, 0x01));
}

#[test]
fn set_current_rejects_out_of_range() {
    assert_eq!(current_after(1, 2541, 0x00), (Err(NCT3933Error::InvalidCurrent), 0x33, 0x00));
    assert_eq!(current_after(1, -2541, 0x00), (Err(NCT3933Error::InvalidCurrent), 0x33, 0x00));
    assert_eq!(current_after(1, i16::MIN, 0x00), (Err(NCT3933Error::InvalidCurrent), 0x33, 0x00));
}

#[test]
fn set_current_invalid_channel_issues_nothing() {
    let mut bus = FakeBus::new();
    {
        let mut dev = NCT3933::new(&mut bus, 0x2A).unwrap();
        assert_eq!(dev.set_current(0, 100), Err(NCT3933Error::InvalidChannel));
        assert_eq!(dev.set_current(4, 100), Err(NCT3933Error::InvalidChannel));
    }
    assert_eq!(bus.transactions, 0);
}

#[test]
fn set_current_stops_when_gain_fails() {
    let mut bus = FakeBus::new();
    bus.fail_at = Some(1);
    {
        let mut dev = NCT3933::new(&mut bus, 0x2A).unwrap();
        assert_eq!(dev.set_current(1, 100), Err(NCT3933Error::I2C(ErrorKind::Bus)));
    }
    assert_eq!(bus.transactions, 2);
    assert_eq!(bus.regs[0x01], 0x00);
}

#[test]
fn check_id_returns_second_read_failure() {
    let mut bus = FakeBus::new();
    bus.regs[0x5D] = 0x39;
    bus.fail_at = Some(1);
    bus.fail_kind = ErrorKind::Overrun;
    {
        let mut dev = NCT3933::new(&mut bus, 0x2A).unwrap();
        assert_eq!(dev.check_id(), Err(NCT3933Error::I2C(ErrorKind::Overrun)));
    }
    assert_eq!(bus.transactions, 2);
}

#[test]
fn set_wdt_state_read_failure_writes_nothing() {
    let mut bus = FakeBus::new();
    bus.regs[0x04] = 0x3C;
    bus.fail_at = Some(0);
    bus.fail_kind = ErrorKind::Other;
    {
        let mut dev = NCT3933::new(&mut bus, 0x2A).unwrap();
        assert_eq!(dev.set_wdt_state(1, 1), Err(NCT3933Error::I2C(ErrorKind::Other)));
    }
    assert_eq!(bus.transactions, 1);
    assert_eq!(bus.regs[0x04], 0x3C);
}

#[test]
fn set_current_write_failure_keeps_new_gain() {
    let mut bus = FakeBus::new();
    bus.regs[0x03] = 0x22;
    bus.fail_at = Some(2);
    bus.fail_kind = ErrorKind::ArbitrationLoss;
    {
        let mut dev = NCT3933::new(&mut bus, 0x2A).unwrap();
        assert_eq!(dev.set_current(3, 2000), Err(NCT3933Error::I2C(ErrorKind::ArbitrationLoss)));
    }
    assert_eq!(bus.transactions, 3);
    assert_eq!(bus.regs[0x05], 0x10);
    assert_eq!(bus.regs[0x03], 0x22);
}

#[test]
fn set_current_talks_to_handle_address() {
    let mut bus = FakeBus::new();
    {
        let mut dev = NCT3933::new(&mut bus, 0x2B).unwrap();
        assert_eq!(dev.set_current(2, -500), Ok(()));
    }
    assert_eq!(bus.addresses, vec![0x15, 0x15, 0x15]);
    assert_eq!(bus.regs[0x02], 0x32);
}
