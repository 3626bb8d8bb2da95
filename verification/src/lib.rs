//! Power-rail telemetry for an accelerator's onboard power-monitoring IC:
//! device enumeration bookkeeping, I2C read-request construction, and the
//! decoder for the fixed 24-byte telemetry frame.

mod codec;
mod errors;
mod monitor;

pub use codec::FRAME_LEN;
pub use codec::RAIL_COUNT;
pub use codec::RailReading;
pub use codec::decode_frame;
pub use codec::lemma_decode_deterministic;
pub use codec::lemma_pin_rail_reversal;
pub use codec::pin_milliamps;
pub use codec::pin_millivolts;
pub use codec::rail_base;
pub use codec::rail_of_pin;
pub use codec::read_u16_be;
pub use codec::word_be;
pub use errors::MonitorError;
pub use monitor::AstralPowerMonitor;
pub use monitor::I2C_BUFFER_SIZE_FIELD;
pub use monitor::I2C_SPEED_100KHZ_SELECT;
pub use monitor::I2cRequest;
pub use monitor::MAX_PHYSICAL_DEVICES;
pub use monitor::POWER_IC_I2C_ADDRESS;
pub use monitor::POWER_IC_PORT_ID;
pub use monitor::POWER_REG_START;
pub use monitor::STATUS_OK;
