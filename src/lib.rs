//! Register protocol of the Waveshare UPS HAT (E): decoding of the byte blocks
//! that the device returns over I2C into typed telemetry, and the power-off
//! handshake.

pub mod error;
pub mod registers;
pub mod telemetry;

pub use error::Error;
pub use registers::{
    ChargerActivity, ChargingState, CommState, Register, UsbCInputState, UsbCPowerDelivery,
    POWEROFF_VALUE,
};
pub use telemetry::{
    BatteryState, BatteryTrend, CellVoltage, CommunicationState, PowerState, UsbCVBus,
    DEFAULT_CELL_LOW_VOLTAGE_THRESHOLD, DEFAULT_I2C_ADDRESS, power_off_pending_from_read, validate_block,
};
