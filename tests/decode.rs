use i2cdev::linux::LinuxI2CError;
use waveshare_ups_hat_e::{
    power_off_pending_from_read, validate_block, BatteryState, BatteryTrend, CellVoltage,
    ChargerActivity, ChargingState, CommState, CommunicationState, Error, PowerState, Register,
    UsbCInputState, UsbCPowerDelivery, UsbCVBus, DEFAULT_CELL_LOW_VOLTAGE_THRESHOLD,
    POWEROFF_VALUE,
};

fn le(v: u16) -> [u8; 2] {
    [(v & 0xff) as u8, (v >> 8) as u8]
}

fn battery_block(mv: u16, raw_ma: u16, pct: u16, mah: u16, runtime: u16, to_full: u16) -> Vec<u8> {
    let mut out = Vec::new();
    for v in [mv, raw_ma, pct, mah, runtime, to_full] {
        out.extend_from_slice(&le(v));
    }
    out
}

#[test]
fn register_table() {
    let table = [
        (Register::PowerOff, 0x01, 1),
        (Register::Charging, 0x02, 1),
        (Register::Communication, 0x03, 1),
        (Register::UsbCVBus, 0x10, 6),
        (Register::Battery, 0x20, 12),
        (Register::CellVoltage, 0x30, 8),
    ];
    for (reg, id, len) in table {
        assert_eq!(reg.id(), id);
        assert_eq!(reg.length(), len);
    }
}

#[test]
fn power_state_every_valid_code() {
    let expected = [
        ChargerActivity::Standby,
        ChargerActivity::Trickle,
        ChargerActivity::ConstantCurrent,
        ChargerActivity::ConstantVoltage,
        ChargerActivity::Pending,
        ChargerActivity::Full,
        ChargerActivity::Timeout,
    ];
    for (code, activity) in expected.iter().enumerate() {
        let p = PowerState::decode(code as u8).unwrap();
        assert_eq!(p.charger_activity, *activity);
        assert_eq!(p.charging_state, ChargingState::NotCharging);
        assert_eq!(p.usbc_input_state, UsbCInputState::NoPower);
        assert_eq!(p.usbc_power_delivery, UsbCPowerDelivery::StandardCharging);
    }
}

#[test]
fn power_state_high_bits() {
    let p = PowerState::decode(0b1110_0011).unwrap();
    assert_eq!(p.charging_state, ChargingState::Charging);
    assert_eq!(p.charger_activity, ChargerActivity::ConstantVoltage);
    assert_eq!(p.usbc_input_state, UsbCInputState::Powered);
    assert_eq!(p.usbc_power_delivery, UsbCPowerDelivery::FastCharging);

    let p = PowerState::decode(0b0010_0101).unwrap();
    assert_eq!(p.charging_state, ChargingState::NotCharging);
    assert_eq!(p.charger_activity, ChargerActivity::Full);
    assert_eq!(p.usbc_input_state, UsbCInputState::Powered);
    assert_eq!(p.usbc_power_delivery, UsbCPowerDelivery::StandardCharging);

    // bits 3 and 4 are ignored
    let p = PowerState::decode(0b0101_1000).unwrap();
    assert_eq!(p.charger_activity, ChargerActivity::Standby);
    assert_eq!(p.usbc_power_delivery, UsbCPowerDelivery::FastCharging);
    assert_eq!(p.usbc_input_state, UsbCInputState::NoPower);
}

#[test]
fn power_state_invalid_activity() {
    for byte in [0b0000_0111u8, 0b1111_1111, 0b1000_0111] {
        assert!(matches!(
            PowerState::decode(byte),
            Err(Error::InvalidChargerActivity(0b111))
        ));
    }
    assert!(matches!(
        ChargerActivity::try_from(7u8),
        Err(Error::InvalidChargerActivity(7))
    ));
    assert!(matches!(
        ChargerActivity::try_from(200u8),
        Err(Error::InvalidChargerActivity(200))
    ));
}

#[test]
fn power_state_from_read() {
    let p = PowerState::from_read(Ok(vec![0b1000_0010])).unwrap();
    assert_eq!(p.charging_state, ChargingState::Charging);
    assert_eq!(p.charger_activity, ChargerActivity::ConstantCurrent);
    assert!(matches!(
        PowerState::from_read(Ok(vec![0x07])),
        Err(Error::InvalidChargerActivity(7))
    ));
    assert!(matches!(
        PowerState::from_read(Ok(vec![])),
        Err(Error::InvalidDataLen(0x02, 1, 0))
    ));
}

#[test]
fn bool_conversions() {
    assert_eq!(CommState::from(true), CommState::Normal);
    assert_eq!(CommState::from(false), CommState::Error);
    assert_eq!(UsbCInputState::from(true), UsbCInputState::Powered);
    assert_eq!(UsbCPowerDelivery::from(false), UsbCPowerDelivery::StandardCharging);
    assert_eq!(ChargingState::from(true), ChargingState::Charging);
}

#[test]
fn communication_state_bits() {
    let cases = [
        (0b00u8, CommState::Error, CommState::Error),
        (0b01, CommState::Error, CommState::Normal),
        (0b10, CommState::Normal, CommState::Error),
        (0b1111_1111, CommState::Normal, CommState::Normal),
    ];
    for (byte, bq4050, ip2368) in cases {
        let c = CommunicationState::decode(byte);
        assert_eq!(c.bq4050, bq4050);
        assert_eq!(c.ip2368, ip2368);
    }
    let c = CommunicationState::from_read(Ok(vec![0b10])).unwrap();
    assert_eq!(c, CommunicationState { bq4050: CommState::Normal, ip2368: CommState::Error });
}

#[test]
fn wrong_length_is_refused_for_every_register() {
    let cases: [(Register, u8, usize); 6] = [
        (Register::PowerOff, 0x01, 1),
        (Register::Charging, 0x02, 1),
        (Register::Communication, 0x03, 1),
        (Register::UsbCVBus, 0x10, 6),
        (Register::Battery, 0x20, 12),
        (Register::CellVoltage, 0x30, 8),
    ];
    for (reg, id, len) in cases {
        for got in [0usize, len - 1, len + 1, 32] {
            if got == len {
                continue;
            }
            match validate_block(reg, Ok(vec![0x55; got])) {
                Err(Error::InvalidDataLen(r, e, g)) => {
                    assert_eq!((r, e, g), (id, len, got));
                }
                other => panic!("unexpected {:?}", other),
            }
        }
        assert_eq!(validate_block(reg, Ok(vec![3; len])).unwrap(), vec![3; len]);
    }
    assert!(matches!(
        CellVoltage::from_read(Ok(vec![0; 7])),
        Err(Error::InvalidDataLen(0x30, 8, 7))
    ));
    assert!(matches!(
        UsbCVBus::from_read(Ok(vec![0; 8])),
        Err(Error::InvalidDataLen(0x10, 6, 8))
    ));
    assert!(matches!(
        BatteryState::from_read(Ok(vec![0; 13])),
        Err(Error::InvalidDataLen(0x20, 12, 13))
    ));
    assert!(matches!(
        CommunicationState::from_read(Ok(vec![0; 2])),
        Err(Error::InvalidDataLen(0x03, 1, 2))
    ));
    assert!(matches!(
        power_off_pending_from_read(Ok(vec![0x55, 0x55])),
        Err(Error::InvalidDataLen(0x01, 1, 2))
    ));
}

#[test]
fn bus_error_is_passed_on() {
    assert!(matches!(
        CellVoltage::from_read(Err(LinuxI2CError::Errno(5))),
        Err(Error::I2CError(LinuxI2CError::Errno(5)))
    ));
    assert!(matches!(
        BatteryState::from_read(Err(LinuxI2CError::Errno(121))),
        Err(Error::I2CError(LinuxI2CError::Errno(121)))
    ));
    assert!(matches!(
        power_off_pending_from_read(Err(LinuxI2CError::Errno(6))),
        Err(Error::I2CError(LinuxI2CError::Errno(6)))
    ));
    assert!(matches!(
        Error::from(LinuxI2CError::Errno(1)),
        Error::I2CError(LinuxI2CError::Errno(1))
    ));
}

#[test]
fn battery_current_0x8000_is_minus_32767() {
    let b = BatteryState::decode(&battery_block(0, 0x8000, 0, 0, 0, 0));
    assert_eq!(b.milliamps, -32767);
}

#[test]
fn battery_current_sign_rule() {
    assert_eq!(BatteryState::decode(&battery_block(0, 0x7fff, 0, 0, 0, 0)).milliamps, 32767);
    assert_eq!(BatteryState::decode(&battery_block(0, 0xffff, 0, 0, 0, 0)).milliamps, 0);
    assert_eq!(BatteryState::decode(&battery_block(0, 0xfffe, 0, 0, 0, 0)).milliamps, -1);
    assert_eq!(BatteryState::decode(&battery_block(0, 0xfc18, 0, 0, 0, 0)).milliamps, -999);
    assert_eq!(BatteryState::decode(&battery_block(0, 500, 0, 0, 0, 0)).milliamps, 500);
}

#[test]
fn battery_discharging_reads_runtime() {
    let block = battery_block(16000, 0xfc18, 87, 4200, 95, 33);
    let b = BatteryState::from_read(Ok(block)).unwrap();
    assert_eq!(
        b,
        BatteryState {
            millivolts: 16000,
            milliamps: -999,
            remaining_percent: 87,
            remaining_capacity_milliamphours: 4200,
            remaining_runtime_minutes: 95,
            time_to_full_minutes: 0,
        }
    );
    assert_eq!(b.trend(), BatteryTrend::Discharging { runtime_minutes: 95 });
}

#[test]
fn battery_charging_reads_time_to_full() {
    let block = battery_block(0x1234, 1500, 40, 2000, 95, 33);
    let b = BatteryState::from_read(Ok(block)).unwrap();
    assert_eq!(b.millivolts, 0x1234);
    assert_eq!(b.milliamps, 1500);
    assert_eq!(b.remaining_percent, 40);
    assert_eq!(b.remaining_capacity_milliamphours, 2000);
    assert_eq!(b.remaining_runtime_minutes, 0);
    assert_eq!(b.time_to_full_minutes, 33);
    assert_eq!(b.trend(), BatteryTrend::Charging { time_to_full_minutes: 33 });

    // zero current counts as charging
    let b = BatteryState::decode(&battery_block(0, 0, 0, 0, 95, 33));
    assert_eq!(b.remaining_runtime_minutes, 0);
    assert_eq!(b.time_to_full_minutes, 33);
}

#[test]
fn battery_low_at_default_threshold() {
    let at = CellVoltage {
        cell_1_millivolts: 3400,
        cell_2_millivolts: 3400,
        cell_3_millivolts: 3400,
        cell_4_millivolts: 3400,
    };
    assert_eq!(at.total_millivolts(), 13600);
    assert!(at.is_battery_low());
    let above = CellVoltage { cell_1_millivolts: 3401, ..at };
    assert_eq!(above.total_millivolts(), 13601);
    assert!(!above.is_battery_low());
    assert_eq!(DEFAULT_CELL_LOW_VOLTAGE_THRESHOLD, 3400);
}

#[test]
fn battery_low_custom_threshold_and_large_cells() {
    let cells = CellVoltage {
        cell_1_millivolts: 3000,
        cell_2_millivolts: 3100,
        cell_3_millivolts: 3200,
        cell_4_millivolts: 3300,
    };
    assert!(cells.is_low(3150));
    assert!(!cells.is_low(3149));
    let max = CellVoltage {
        cell_1_millivolts: u16::MAX,
        cell_2_millivolts: u16::MAX,
        cell_3_millivolts: u16::MAX,
        cell_4_millivolts: u16::MAX,
    };
    assert_eq!(max.total_millivolts(), 4 * 65535);
    assert!(!max.is_battery_low());
    assert!(max.is_low(u16::MAX));
}

#[test]
fn power_off_pending_sentinel() {
    assert_eq!(POWEROFF_VALUE, 0x55);
    assert!(power_off_pending_from_read(Ok(vec![0x55])).unwrap());
    assert!(!power_off_pending_from_read(Ok(vec![0x00])).unwrap());
    assert!(!power_off_pending_from_read(Ok(vec![0x54])).unwrap());
}

#[test]
fn cell_voltage_round_trip() {
    let values = [1000u16, 2000, 3000, 4000];
    let mut block = Vec::new();
    for v in values {
        block.extend_from_slice(&le(v));
    }
    let c = CellVoltage::from_read(Ok(block)).unwrap();
    assert_eq!(
        [c.cell_1_millivolts, c.cell_2_millivolts, c.cell_3_millivolts, c.cell_4_millivolts],
        values
    );
}

#[test]
fn cell_voltage_little_endian() {
    let c = CellVoltage::decode(&[0x01, 0x02, 0xff, 0x00, 0x00, 0xff, 0xac, 0x0d]);
    assert_eq!(c.cell_1_millivolts, 0x0201);
    assert_eq!(c.cell_2_millivolts, 0x00ff);
    assert_eq!(c.cell_3_millivolts, 0xff00);
    assert_eq!(c.cell_4_millivolts, 3500);
}

#[test]
fn usbc_vbus_decode() {
    let v = UsbCVBus::from_read(Ok(vec![0x88, 0x13, 0xf4, 0x01, 0xc4, 0x09])).unwrap();
    assert_eq!(v, UsbCVBus { millivolts: 5000, milliamps: 500, milliwatts: 2500 });
}
