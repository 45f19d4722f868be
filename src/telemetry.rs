use crate::error::Error;
use crate::registers::{
    activity_of_code, ChargerActivity, ChargingState, CommState, Register, UsbCInputState,
    UsbCPowerDelivery, POWEROFF_VALUE,
};
use i2cdev::linux::LinuxI2CError;
use vstd::prelude::*;

verus! {

/// Default I2C address of the UPS HAT (E).
pub const DEFAULT_I2C_ADDRESS: u16 = 0x2d;

/// Default low-voltage threshold of one cell, in millivolts. The device cuts off
/// near 3.2 V; 3.4 V leaves enough to run a shutdown.
pub const DEFAULT_CELL_LOW_VOLTAGE_THRESHOLD: u16 = 3400;

/// The little-endian 16-bit value held by bytes `i` and `i + 1`.
pub open spec fn le16_at(data: Seq<u8>, i: int) -> u16 {
    (data[i] + 256 * data[i + 1]) as u16
}

fn le_u16(lo: u8, hi: u8) -> (r: u16)
    ensures
        r == lo + 256 * hi,
{
    let r = lo as u16 | (hi as u16) << 8;
    assert(lo as u16 | (hi as u16) << 8 == lo + 256 * hi) by (bit_vector);
    r
}

/// What a block read from `register` yields once its length is checked: the
/// bus error, a length mismatch, or the bytes.
pub open spec fn checked_block(register: Register, read: Result<Vec<u8>, LinuxI2CError>) -> Result<
    Seq<u8>,
    Error,
> {
    match read {
        Err(e) => Err(Error::I2CError(e)),
        Ok(data) => if data@.len() == register.block_len() {
            Ok(data@)
        } else {
            Err(
                Error::InvalidDataLen(
                    register.address(),
                    register.block_len() as usize,
                    data@.len() as usize,
                ),
            )
        },
    }
}

/// A block of the wrong length is refused with the register's address, its
/// block length and the length read. Every `from_read` of this module returns
/// that error as it is, so no field of such a block is decoded.
pub proof fn lemma_wrong_length_refused(register: Register, data: Vec<u8>)
    requires
        data@.len() != register.block_len(),
    ensures
        checked_block(register, Ok(data)) == Err::<Seq<u8>, Error>(
            Error::InvalidDataLen(register.address(), register.block_len() as usize, data@.len() as usize),
        ),
{
}

/// Checks the outcome of a block read from `register`: a bus error is passed
/// on, a block of the wrong length is refused, and any other block is returned
/// as it is.
pub fn validate_block(register: Register, read: Result<Vec<u8>, LinuxI2CError>) -> (r: Result<
    Vec<u8>,
    Error,
>)
    ensures
        match r {
            Ok(data) => checked_block(register, read) == Ok::<Seq<u8>, Error>(data@),
            Err(e) => checked_block(register, read) == Err::<Seq<u8>, Error>(e),
        },
{
    match read {
        Err(e) => Err(Error::from(e)),
        Ok(data) => {
            let length = register.length();
            if data.len() != length as usize {
                let got = data.len();
                Err(Error::InvalidDataLen(register.id(), length as usize, got))
            } else {
                Ok(data)
            }
        },
    }
}

/// The two bytes, low one first, of the little-endian encoding of `v`.
pub open spec fn le16_bytes(v: u16) -> Seq<u8> {
    seq![(v % 256) as u8, (v / 256) as u8]
}

/// Voltage readings for each of the four battery cells.
#[derive(Debug, Clone, Copy, PartialEq, Eq, Structural)]
pub struct CellVoltage {
    pub cell_1_millivolts: u16,
    pub cell_2_millivolts: u16,
    pub cell_3_millivolts: u16,
    pub cell_4_millivolts: u16,
}

impl CellVoltage {
    /// The cell voltages that an 8-byte block holds.
    pub open spec fn spec_decode(data: Seq<u8>) -> CellVoltage {
        CellVoltage {
            cell_1_millivolts: le16_at(data, 0),
            cell_2_millivolts: le16_at(data, 2),
            cell_3_millivolts: le16_at(data, 4),
            cell_4_millivolts: le16_at(data, 6),
        }
    }

    /// The 8-byte block that holds these cell voltages.
    pub open spec fn spec_encode(self) -> Seq<u8> {
        le16_bytes(self.cell_1_millivolts) + le16_bytes(self.cell_2_millivolts) + le16_bytes(
            self.cell_3_millivolts,
        ) + le16_bytes(self.cell_4_millivolts)
    }

    /// Encoding four cell voltages as a block and decoding that block gives
    /// back the same four voltages in the same order.
    pub proof fn lemma_round_trip(self)
        ensures
            self.spec_encode().len() == 8,
            Self::spec_decode(self.spec_encode()) == self,
    {
        let b = self.spec_encode();
        assert(le16_at(b, 0) == self.cell_1_millivolts);
        assert(le16_at(b, 2) == self.cell_2_millivolts);
        assert(le16_at(b, 4) == self.cell_3_millivolts);
        assert(le16_at(b, 6) == self.cell_4_millivolts);
    }

    /// Sum of the four cell voltages.
    pub open spec fn total(self) -> int {
        self.cell_1_millivolts + self.cell_2_millivolts + self.cell_3_millivolts
            + self.cell_4_millivolts
    }

    pub fn decode(data: &[u8]) -> (r: CellVoltage)
        requires
            data@.len() == 8,
        ensures
            r == Self::spec_decode(data@),
    {
        CellVoltage {
            cell_1_millivolts: le_u16(data[0], data[1]),
            cell_2_millivolts: le_u16(data[2], data[3]),
            cell_3_millivolts: le_u16(data[4], data[5]),
            cell_4_millivolts: le_u16(data[6], data[7]),
        }
    }

    /// Decodes the outcome of a block read from the cell voltage register.
    pub fn from_read(read: Result<Vec<u8>, LinuxI2CError>) -> (r: Result<CellVoltage, Error>)
        ensures
            r == match checked_block(Register::CellVoltage, read) {
                Ok(data) => Ok(Self::spec_decode(data)),
                Err(e) => Err(e),
            },
    {
        match validate_block(Register::CellVoltage, read) {
            Ok(data) => Ok(Self::decode(data.as_slice())),
            Err(e) => Err(e),
        }
    }

    /// Sum of the four cell voltages, in millivolts.
    pub fn total_millivolts(&self) -> (r: u32)
        ensures
            r == self.total(),
    {
        self.cell_1_millivolts as u32 + self.cell_2_millivolts as u32
            + self.cell_3_millivolts as u32 + self.cell_4_millivolts as u32
    }

    /// True iff the four cells together are at or below four times
    /// `cell_threshold_millivolts`.
    pub fn is_low(&self, cell_threshold_millivolts: u16) -> (r: bool)
        ensures
            r == (self.total() <= 4 * cell_threshold_millivolts),
    {
        self.total_millivolts() <= 4 * cell_threshold_millivolts as u32
    }

    /// True iff the four cells together are at or below four times
    /// [`DEFAULT_CELL_LOW_VOLTAGE_THRESHOLD`].
    pub fn is_battery_low(&self) -> (r: bool)
        ensures
            r == (self.total() <= 4 * DEFAULT_CELL_LOW_VOLTAGE_THRESHOLD),
    {
        self.is_low(DEFAULT_CELL_LOW_VOLTAGE_THRESHOLD)
    }
}

/// The signed current that the raw 16-bit reading `raw` stands for. Readings
/// above 0x7fff have 0xffff taken off, as the vendor's own software for the
/// device does; this is one more than two's complement would give, and is kept
/// for agreement with real readings.
pub open spec fn signed_current(raw: int) -> int {
    if raw > 0x7fff {
        raw - 0xffff
    } else {
        raw
    }
}

/// Which of the two estimates a battery reading carries.
#[derive(Debug, Clone, Copy, PartialEq, Eq, Structural)]
pub enum BatteryTrend {
    /// Current flows out of the cells: minutes of runtime left.
    Discharging { runtime_minutes: u16 },
    /// USB-C power is present: minutes until the cells are full.
    Charging { time_to_full_minutes: u16 },
}

/// Aggregate battery state of the UPS HAT (E).
///
/// A negative `milliamps` means that the UPS is discharging the cells; then
/// `remaining_runtime_minutes` is read and `time_to_full_minutes` is 0.
/// Otherwise the UPS has USB-C power, `time_to_full_minutes` is read and
/// `remaining_runtime_minutes` is 0.
#[derive(Debug, Clone, Copy, PartialEq, Eq, Structural)]
pub struct BatteryState {
    pub millivolts: u16,
    pub milliamps: i16,
    pub remaining_percent: u16,
    pub remaining_capacity_milliamphours: u16,
    pub remaining_runtime_minutes: u16,
    pub time_to_full_minutes: u16,
}

impl BatteryState {
    /// The battery state that a 12-byte block holds.
    pub open spec fn spec_decode(data: Seq<u8>) -> BatteryState {
        let milliamps = signed_current(le16_at(data, 2) as int) as i16;
        BatteryState {
            millivolts: le16_at(data, 0),
            milliamps,
            remaining_percent: le16_at(data, 4),
            remaining_capacity_milliamphours: le16_at(data, 6),
            remaining_runtime_minutes: if milliamps < 0 {
                le16_at(data, 8)
            } else {
                0
            },
            time_to_full_minutes: if milliamps < 0 {
                0
            } else {
                le16_at(data, 10)
            },
        }
    }

    pub fn decode(data: &[u8]) -> (r: BatteryState)
        requires
            data@.len() == 12,
        ensures
            r == Self::spec_decode(data@),
            r.milliamps == signed_current(le16_at(data@, 2) as int),
            r.milliamps < 0 ==> r.remaining_runtime_minutes == le16_at(data@, 8)
                && r.time_to_full_minutes == 0,
            r.milliamps >= 0 ==> r.time_to_full_minutes == le16_at(data@, 10)
                && r.remaining_runtime_minutes == 0,
    {
        let mut current: i32 = le_u16(data[2], data[3]) as i32;
        if current > 0x7fff {
            current = current - 0xffff;
        }
        let milliamps = current as i16;

        let mut remaining_runtime_minutes: u16 = 0;
        let mut time_to_full_minutes: u16 = 0;
        if milliamps < 0 {
            remaining_runtime_minutes = le_u16(data[8], data[9]);
        } else {
            time_to_full_minutes = le_u16(data[10], data[11]);
        }

        BatteryState {
            millivolts: le_u16(data[0], data[1]),
            milliamps,
            remaining_percent: le_u16(data[4], data[5]),
            remaining_capacity_milliamphours: le_u16(data[6], data[7]),
            remaining_runtime_minutes,
            time_to_full_minutes,
        }
    }

    /// Decodes the outcome of a block read from the battery register.
    pub fn from_read(read: Result<Vec<u8>, LinuxI2CError>) -> (r: Result<BatteryState, Error>)
        ensures
            r == match checked_block(Register::Battery, read) {
                Ok(data) => Ok(Self::spec_decode(data)),
                Err(e) => Err(e),
            },
    {
        match validate_block(Register::Battery, read) {
            Ok(data) => Ok(Self::decode(data.as_slice())),
            Err(e) => Err(e),
        }
    }

    /// The estimate that this reading carries, chosen by the sign of the current.
    pub fn trend(&self) -> (r: BatteryTrend)
        ensures
            r == (if self.milliamps < 0 {
                BatteryTrend::Discharging { runtime_minutes: self.remaining_runtime_minutes }
            } else {
                BatteryTrend::Charging { time_to_full_minutes: self.time_to_full_minutes }
            }),
    {
        if self.milliamps < 0 {
            BatteryTrend::Discharging { runtime_minutes: self.remaining_runtime_minutes }
        } else {
            BatteryTrend::Charging { time_to_full_minutes: self.time_to_full_minutes }
        }
    }
}

/// Voltage, current and power readings of the USB-C port.
#[derive(Debug, Clone, Copy, PartialEq, Eq, Structural)]
pub struct UsbCVBus {
    pub millivolts: u16,
    pub milliamps: u16,
    pub milliwatts: u16,
}

impl UsbCVBus {
    /// The USB-C readings that a 6-byte block holds.
    pub open spec fn spec_decode(data: Seq<u8>) -> UsbCVBus {
        UsbCVBus {
            millivolts: le16_at(data, 0),
            milliamps: le16_at(data, 2),
            milliwatts: le16_at(data, 4),
        }
    }

    pub fn decode(data: &[u8]) -> (r: UsbCVBus)
        requires
            data@.len() == 6,
        ensures
            r == Self::spec_decode(data@),
    {
        UsbCVBus {
            millivolts: le_u16(data[0], data[1]),
            milliamps: le_u16(data[2], data[3]),
            milliwatts: le_u16(data[4], data[5]),
        }
    }

    /// Decodes the outcome of a block read from the USB-C register.
    pub fn from_read(read: Result<Vec<u8>, LinuxI2CError>) -> (r: Result<UsbCVBus, Error>)
        ensures
            r == match checked_block(Register::UsbCVBus, read) {
                Ok(data) => Ok(Self::spec_decode(data)),
                Err(e) => Err(e),
            },
    {
        match validate_block(Register::UsbCVBus, read) {
            Ok(data) => Ok(Self::decode(data.as_slice())),
            Err(e) => Err(e),
        }
    }
}

/// Composite power state of the UPS HAT (E), read from the charging status byte.
#[derive(Debug, Clone, Copy, PartialEq, Eq, Structural)]
pub struct PowerState {
    pub charging_state: ChargingState,
    pub charger_activity: ChargerActivity,
    pub usbc_input_state: UsbCInputState,
    pub usbc_power_delivery: UsbCPowerDelivery,
}

impl PowerState {
    /// The power state that a charging status byte holds: activity code in bits
    /// 0 to 2, USB-C input in bit 5, power delivery in bit 6, charging in bit 7.
    pub open spec fn spec_decode(byte: u8) -> Result<PowerState, Error> {
        match activity_of_code(byte % 8) {
            None => Err(Error::InvalidChargerActivity(byte % 8)),
            Some(activity) => Ok(
                PowerState {
                    charging_state: if (byte / 128) % 2 == 1 {
                        ChargingState::Charging
                    } else {
                        ChargingState::NotCharging
                    },
                    charger_activity: activity,
                    usbc_input_state: if (byte / 32) % 2 == 1 {
                        UsbCInputState::Powered
                    } else {
                        UsbCInputState::NoPower
                    },
                    usbc_power_delivery: if (byte / 64) % 2 == 1 {
                        UsbCPowerDelivery::FastCharging
                    } else {
                        UsbCPowerDelivery::StandardCharging
                    },
                },
            ),
        }
    }

    pub fn decode(byte: u8) -> (r: Result<PowerState, Error>)
        ensures
            r == Self::spec_decode(byte),
            r is Err <==> byte % 8 == 0b111,
    {
        assert(byte & 0b111 == byte % 8) by (bit_vector);
        assert((byte & 0b0010_0000 != 0) == ((byte / 32) % 2 == 1)) by (bit_vector);
        assert((byte & 0b0100_0000 != 0) == ((byte / 64) % 2 == 1)) by (bit_vector);
        assert((byte & 0b1000_0000 != 0) == ((byte / 128) % 2 == 1)) by (bit_vector);
        let charger_activity = match ChargerActivity::try_from(byte & 0b111) {
            Ok(a) => a,
            Err(e) => {
                return Err(e);
            },
        };
        let usbc_input_state = UsbCInputState::from(byte & 0b0010_0000 != 0);
        let usbc_power_delivery = UsbCPowerDelivery::from(byte & 0b0100_0000 != 0);
        let charging_state = ChargingState::from(byte & 0b1000_0000 != 0);

        Ok(PowerState { charging_state, charger_activity, usbc_input_state, usbc_power_delivery })
    }

    /// Decodes the outcome of a block read from the charging status register.
    pub fn from_read(read: Result<Vec<u8>, LinuxI2CError>) -> (r: Result<PowerState, Error>)
        ensures
            r == match checked_block(Register::Charging, read) {
                Ok(data) => Self::spec_decode(data[0]),
                Err(e) => Err(e),
            },
    {
        match validate_block(Register::Charging, read) {
            Ok(data) => Self::decode(data[0]),
            Err(e) => Err(e),
        }
    }
}

/// Whether the UPS can talk to its on-board BQ4050 gas gauge and IP2368 charge
/// management chips.
#[derive(Debug, Clone, Copy, PartialEq, Eq, Structural)]
pub struct CommunicationState {
    pub bq4050: CommState,
    pub ip2368: CommState,
}

impl CommunicationState {
    /// The link states that a communication status byte holds: the IP2368 in
    /// bit 0, the BQ4050 in bit 1.
    pub open spec fn spec_decode(byte: u8) -> CommunicationState {
        CommunicationState {
            bq4050: if (byte / 2) % 2 == 1 {
                CommState::Normal
            } else {
                CommState::Error
            },
            ip2368: if byte % 2 == 1 {
                CommState::Normal
            } else {
                CommState::Error
            },
        }
    }

    pub fn decode(byte: u8) -> (r: CommunicationState)
        ensures
            r == Self::spec_decode(byte),
    {
        assert((byte & 0b01 != 0) == (byte % 2 == 1)) by (bit_vector);
        assert((byte & 0b10 != 0) == ((byte / 2) % 2 == 1)) by (bit_vector);
        let ip2368 = CommState::from(byte & 0b01 != 0);
        let bq4050 = CommState::from(byte & 0b10 != 0);
        CommunicationState { bq4050, ip2368 }
    }

    /// Decodes the outcome of a block read from the communication status register.
    pub fn from_read(read: Result<Vec<u8>, LinuxI2CError>) -> (r: Result<
        CommunicationState,
        Error,
    >)
        ensures
            r == match checked_block(Register::Communication, read) {
                Ok(data) => Ok(Self::spec_decode(data[0])),
                Err(e) => Err(e),
            },
    {
        match validate_block(Register::Communication, read) {
            Ok(data) => Ok(Self::decode(data[0])),
            Err(e) => Err(e),
        }
    }
}

/// Reads the outcome of a block read from the power-off register: true iff its
/// byte is [`POWEROFF_VALUE`], that is, iff a power-off has been accepted.
pub fn power_off_pending_from_read(read: Result<Vec<u8>, LinuxI2CError>) -> (r: Result<
    bool,
    Error,
>)
    ensures
        r == match checked_block(Register::PowerOff, read) {
            Ok(data) => Ok(data[0] == POWEROFF_VALUE),
            Err(e) => Err(e),
        },
{
    match validate_block(Register::PowerOff, read) {
        Ok(data) => Ok(data[0] == POWEROFF_VALUE),
        Err(e) => Err(e),
    }
}

} // verus!
