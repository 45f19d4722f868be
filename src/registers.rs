use crate::error::Error;
use vstd::prelude::*;

verus! {

/// Value written to the power-off register to start a power-off; read back from
/// it, it says that a power-off is pending.
pub const POWEROFF_VALUE: u8 = 0x55;

/// The register blocks of the UPS, each read whole at a fixed address.
#[derive(Debug, Clone, Copy, PartialEq, Eq, Structural)]
pub enum Register {
    /// Power-off command and status.
    PowerOff,
    /// Plugged in, power delivery detected, charger activity.
    Charging,
    /// Link status of the BQ4050 gas gauge and the IP2368 charge manager.
    Communication,
    /// USB-C bus voltage, current and power.
    UsbCVBus,
    /// Battery voltage, current, charge, runtime and time to full.
    Battery,
    /// Voltages of the four battery cells.
    CellVoltage,
}

impl Register {
    /// Address of the register on the device.
    pub open spec fn address(self) -> u8 {
        match self {
            Register::PowerOff => 0x01,
            Register::Charging => 0x02,
            Register::Communication => 0x03,
            Register::UsbCVBus => 0x10,
            Register::Battery => 0x20,
            Register::CellVoltage => 0x30,
        }
    }

    /// Number of bytes in the register's block.
    pub open spec fn block_len(self) -> u8 {
        match self {
            Register::PowerOff => 1,
            Register::Charging => 1,
            Register::Communication => 1,
            Register::UsbCVBus => 6,
            Register::Battery => 12,
            Register::CellVoltage => 8,
        }
    }

    pub fn id(&self) -> (r: u8)
        ensures
            r == self.address(),
    {
        match self {
            Register::PowerOff => 0x01,
            Register::Charging => 0x02,
            Register::Communication => 0x03,
            Register::UsbCVBus => 0x10,
            Register::Battery => 0x20,
            Register::CellVoltage => 0x30,
        }
    }

    pub fn length(&self) -> (r: u8)
        ensures
            r == self.block_len(),
    {
        match self {
            Register::PowerOff => 1,
            Register::Charging => 1,
            Register::Communication => 1,
            Register::UsbCVBus => 6,
            Register::Battery => 12,
            Register::CellVoltage => 8,
        }
    }
}

/// What kind of charging (if any) is taking place?
#[derive(Debug, Clone, Copy, PartialEq, Eq, Structural)]
pub enum ChargerActivity {
    Standby,
    Trickle,
    ConstantCurrent,
    ConstantVoltage,
    Pending,
    Full,
    Timeout,
}

/// The charger activity that a three-bit code stands for; `None` for the
/// undefined code 0b111 and for anything wider than three bits.
pub open spec fn activity_of_code(code: u8) -> Option<ChargerActivity> {
    if code == 0b000 {
        Some(ChargerActivity::Standby)
    } else if code == 0b001 {
        Some(ChargerActivity::Trickle)
    } else if code == 0b010 {
        Some(ChargerActivity::ConstantCurrent)
    } else if code == 0b011 {
        Some(ChargerActivity::ConstantVoltage)
    } else if code == 0b100 {
        Some(ChargerActivity::Pending)
    } else if code == 0b101 {
        Some(ChargerActivity::Full)
    } else if code == 0b110 {
        Some(ChargerActivity::Timeout)
    } else {
        None
    }
}

impl TryFrom<u8> for ChargerActivity {
    type Error = Error;

    fn try_from(value: u8) -> (r: Result<Self, Self::Error>)
        ensures
            r == (match activity_of_code(value) {
                Some(a) => Ok(a),
                None => Err(Error::InvalidChargerActivity(value)),
            }),
    {
        match value {
            0b000 => Ok(ChargerActivity::Standby),
            0b001 => Ok(ChargerActivity::Trickle),
            0b010 => Ok(ChargerActivity::ConstantCurrent),
            0b011 => Ok(ChargerActivity::ConstantVoltage),
            0b100 => Ok(ChargerActivity::Pending),
            0b101 => Ok(ChargerActivity::Full),
            0b110 => Ok(ChargerActivity::Timeout),
            _ => Err(Error::InvalidChargerActivity(value)),
        }
    }
}

impl vstd::std_specs::convert::TryFromSpecImpl<u8> for ChargerActivity {
    open spec fn obeys_try_from_spec() -> bool {
        true
    }

    open spec fn try_from_spec(value: u8) -> Result<Self, Error> {
        match activity_of_code(value) {
            Some(a) => Ok(a),
            None => Err(Error::InvalidChargerActivity(value)),
        }
    }
}

/// State of the UPS microcontroller's communications with an on-board chip.
#[derive(Debug, Clone, Copy, PartialEq, Eq, Structural)]
pub enum CommState {
    Error,
    Normal,
}

impl From<bool> for CommState {
    fn from(value: bool) -> (r: Self)
        ensures
            r == (if value { CommState::Normal } else { CommState::Error }),
    {
        if value {
            CommState::Normal
        } else {
            CommState::Error
        }
    }
}

impl vstd::std_specs::convert::FromSpecImpl<bool> for CommState {
    open spec fn obeys_from_spec() -> bool {
        true
    }

    open spec fn from_spec(value: bool) -> Self {
        if value {
            CommState::Normal
        } else {
            CommState::Error
        }
    }
}

/// Is USB-C power detected?
#[derive(Debug, Clone, Copy, PartialEq, Eq, Structural)]
pub enum UsbCInputState {
    NoPower,
    Powered,
}

impl From<bool> for UsbCInputState {
    fn from(value: bool) -> (r: Self)
        ensures
            r == (if value { UsbCInputState::Powered } else { UsbCInputState::NoPower }),
    {
        if value {
            UsbCInputState::Powered
        } else {
            UsbCInputState::NoPower
        }
    }
}

impl vstd::std_specs::convert::FromSpecImpl<bool> for UsbCInputState {
    open spec fn obeys_from_spec() -> bool {
        true
    }

    open spec fn from_spec(value: bool) -> Self {
        if value {
            UsbCInputState::Powered
        } else {
            UsbCInputState::NoPower
        }
    }
}

/// Was USB-C power delivery negotiated (`FastCharging`) or not (`StandardCharging`)?
#[derive(Debug, Clone, Copy, PartialEq, Eq, Structural)]
pub enum UsbCPowerDelivery {
    StandardCharging,
    FastCharging,
}

impl From<bool> for UsbCPowerDelivery {
    fn from(value: bool) -> (r: Self)
        ensures
            r == (if value { UsbCPowerDelivery::FastCharging } else { UsbCPowerDelivery::StandardCharging }),
    {
        if value {
            UsbCPowerDelivery::FastCharging
        } else {
            UsbCPowerDelivery::StandardCharging
        }
    }
}

impl vstd::std_specs::convert::FromSpecImpl<bool> for UsbCPowerDelivery {
    open spec fn obeys_from_spec() -> bool {
        true
    }

    open spec fn from_spec(value: bool) -> Self {
        if value {
            UsbCPowerDelivery::FastCharging
        } else {
            UsbCPowerDelivery::StandardCharging
        }
    }
}

/// Is the UPS charging or not?
#[derive(Debug, Clone, Copy, PartialEq, Eq, Structural)]
pub enum ChargingState {
    NotCharging,
    Charging,
}

impl From<bool> for ChargingState {
    fn from(value: bool) -> (r: Self)
        ensures
            r == (if value { ChargingState::Charging } else { ChargingState::NotCharging }),
    {
        if value {
            ChargingState::Charging
        } else {
            ChargingState::NotCharging
        }
    }
}

impl vstd::std_specs::convert::FromSpecImpl<bool> for ChargingState {
    open spec fn obeys_from_spec() -> bool {
        true
    }

    open spec fn from_spec(value: bool) -> Self {
        if value {
            ChargingState::Charging
        } else {
            ChargingState::NotCharging
        }
    }
}

} // verus!
