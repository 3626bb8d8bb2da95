//! Device access layer: bookkeeping for the enumerated accelerator
//! handles, construction of the fixed I2C read request against the
//! power-monitoring IC, and the per-poll decode of its response.
//!
//! The hardware transaction itself is performed by the caller (it is a
//! driver call outside this library); this module decides whether a
//! transaction may be attempted, describes it exactly, and interprets
//! its outcome. Each poll is an independent, stateless request/decode
//! cycle with no memory of prior readings.

use vstd::prelude::*;

use crate::codec::decode_frame;
use crate::codec::pin_milliamps;
use crate::codec::pin_millivolts;
use crate::errors::MonitorError;

verus! {

/// Success status of the vendor driver interface.
pub const STATUS_OK: i32 = 0;

/// Fixed cap on the number of enumerated devices; enumeration must never
/// hand this library more handles than this.
pub const MAX_PHYSICAL_DEVICES: usize = 32;

/// I2C address of the power-monitoring IC.
pub const POWER_IC_I2C_ADDRESS: u8 = 0x56;

/// First register of the block holding the power readings.
pub const POWER_REG_START: u8 = 0x80;

/// The driver's bus-speed selector for a 100 kHz transaction.
pub const I2C_SPEED_100KHZ_SELECT: u32 = 4;

/// Logical port the IC is reached through.
pub const POWER_IC_PORT_ID: u8 = 0x01;

/// Value the driver expects in the transaction record's buffer-size
/// field; determined empirically against the working driver version.
pub const I2C_BUFFER_SIZE_FIELD: u32 = 0xFFFF;

/// One fully described I2C read transaction, ready to be handed to the
/// driver. Every field other than `gpu_index` and `gpu_handle` is a
/// constant of the protocol: the record's exact values were validated
/// empirically against the driver and must be reproduced bit-for-bit.
#[derive(Clone, Copy, Debug, PartialEq, Eq, Structural)]
pub struct I2cRequest {
    /// Index of the device to address, already checked against the
    /// enumerated range.
    pub gpu_index: usize,
    /// Opaque handle of that device, as handed in at enumeration.
    pub gpu_handle: u64,
    /// I2C address of the peripheral (the power-monitoring IC).
    pub dev_address: u8,
    /// Register the read starts at.
    pub reg_address: u8,
    /// Size in bytes of the register address.
    pub reg_addr_size: u32,
    /// Exact number of bytes to read.
    pub byte_count: u32,
    /// Display mask field of the driver record; always zero here.
    pub display_mask: u32,
    /// Whether the DDC port is addressed; always false here.
    pub is_ddc_port: bool,
    /// Bus-speed selector handed to the driver.
    pub speed_select: u32,
    /// Logical port id of the transaction.
    pub port_id: u8,
    /// Whether `port_id` is meaningful; always true here.
    pub port_id_set: bool,
    /// Buffer-size field of the driver record (empirical constant).
    pub buffer_size_field: u32,
}

/// Owns the device handles enumerated once at startup; immutable
/// afterwards. All polling decisions are made against this list.
pub struct AstralPowerMonitor {
    gpu_handles: Vec<u64>,
}

impl AstralPowerMonitor {
    /// The enumerated handles, in enumeration order.
    pub closed spec fn handles(&self) -> Seq<u64> {
        self.gpu_handles@
    }

    /// Whether `index` addresses an enumerated device.
    pub open spec fn valid_index(&self, index: int) -> bool {
        0 <= index < self.handles().len()
    }

    /// Builds the monitor from the outcome of the vendor enumeration
    /// call: its status and the handles it produced. Fails with
    /// `InitializationError` on a non-success status and with
    /// `NoDeviceError` when the call succeeded but found no device.
    pub fn new(status: i32, handles: Vec<u64>) -> (r: Result<AstralPowerMonitor, MonitorError>)
        requires
            handles@.len() <= MAX_PHYSICAL_DEVICES,
        ensures
            match r {
                Ok(m) => status == STATUS_OK && handles@.len() > 0 && m.handles() == handles@,
                Err(e) => (status != STATUS_OK && e == (MonitorError::InitializationError {
                    status,
                })) || (status == STATUS_OK && handles@.len() == 0 && e
                    == MonitorError::NoDeviceError),
            },
    {
        if status != STATUS_OK {
            return Err(MonitorError::InitializationError { status });
        }
        if handles.len() == 0 {
            return Err(MonitorError::NoDeviceError);
        }
        Ok(AstralPowerMonitor { gpu_handles: handles })
    }

    /// The number of enumerated devices.
    pub fn gpu_count(&self) -> (r: usize)
        ensures
            r == self.handles().len(),
    {
        self.gpu_handles.len()
    }

    /// Describes the one I2C transaction a poll of device `gpu_index`
    /// performs: a read of the full telemetry frame from the
    /// power-monitoring IC, with every driver-record field fixed. Fails
    /// with `InvalidDeviceIndexError` — and describes no transaction —
    /// when the index is outside the enumerated range.
    pub fn poll_request(&self, gpu_index: i32) -> (r: Result<I2cRequest, MonitorError>)
        ensures
            match r {
                Ok(req) => self.valid_index(gpu_index as int) && req == (I2cRequest {
                    gpu_index: gpu_index as usize,
                    gpu_handle: self.handles()[gpu_index as int],
                    dev_address: POWER_IC_I2C_ADDRESS,
                    reg_address: POWER_REG_START,
                    reg_addr_size: 1,
                    byte_count: crate::codec::FRAME_LEN as u32,
                    display_mask: 0,
                    is_ddc_port: false,
                    speed_select: I2C_SPEED_100KHZ_SELECT,
                    port_id: POWER_IC_PORT_ID,
                    port_id_set: true,
                    buffer_size_field: I2C_BUFFER_SIZE_FIELD,
                }),
                Err(e) => !self.valid_index(gpu_index as int) && match e {
                    MonitorError::InvalidDeviceIndexError { index, count } => index == gpu_index
                        && count == self.handles().len(),
                    _ => false,
                },
            },
    {
        if gpu_index < 0 || gpu_index as usize >= self.gpu_handles.len() {
            return Err(MonitorError::InvalidDeviceIndexError {
                index: gpu_index,
                count: self.gpu_handles.len(),
            });
        }
        let idx = gpu_index as usize;
        Ok(I2cRequest {
            gpu_index: idx,
            gpu_handle: self.gpu_handles[idx],
            dev_address: POWER_IC_I2C_ADDRESS,
            reg_address: POWER_REG_START,
            reg_addr_size: 1,
            byte_count: crate::codec::FRAME_LEN as u32,
            display_mask: 0,
            is_ddc_port: false,
            speed_select: I2C_SPEED_100KHZ_SELECT,
            port_id: POWER_IC_PORT_ID,
            port_id_set: true,
            buffer_size_field: I2C_BUFFER_SIZE_FIELD,
        })
    }

    /// Interprets one poll of device `gpu_index`, given the outcome of
    /// the I2C transaction: the full frame on success, or the driver's
    /// status code on failure. On success the six decoded voltages
    /// (millivolts) and currents (milliamps) are written to the buffers
    /// in pin order; on any failure the buffers are left exactly as they
    /// were, so a failed transaction never overwrites a previous reading.
    pub fn get_power_status(
        &self,
        gpu_index: i32,
        outcome: Result<[u8; 24], i32>,
        voltage_buffer: &mut [u16; 6],
        current_buffer: &mut [u16; 6],
    ) -> (r: Result<(), MonitorError>)
        ensures
            r is Ok <==> self.valid_index(gpu_index as int) && outcome is Ok,
            r is Err ==> final(voltage_buffer)@ == old(voltage_buffer)@ && final(current_buffer)@
                == old(current_buffer)@,
            match r {
                Ok(u) => match outcome {
                    Ok(frame) => forall|p: int|
                        0 <= p < 6 ==> #[trigger] final(voltage_buffer)@[p] == pin_millivolts(
                            frame@,
                            p,
                        ) && #[trigger] final(current_buffer)@[p] == pin_milliamps(frame@, p),
                    Err(status) => false,
                },
                Err(e) => if !self.valid_index(gpu_index as int) {
                    match e {
                        MonitorError::InvalidDeviceIndexError { index, count } => index == gpu_index
                            && count == self.handles().len(),
                        _ => false,
                    }
                } else {
                    match outcome {
                        Err(status) => e == (MonitorError::TransactionError { status }),
                        Ok(frame) => false,
                    }
                },
            },
    {
        if gpu_index < 0 || gpu_index as usize >= self.gpu_handles.len() {
            return Err(MonitorError::InvalidDeviceIndexError {
                index: gpu_index,
                count: self.gpu_handles.len(),
            });
        }
        match outcome {
            Err(status) => Err(MonitorError::TransactionError { status }),
            Ok(frame) => {
                let readings = decode_frame(&frame);
                *voltage_buffer = [
                    readings[0].millivolts,
                    readings[1].millivolts,
                    readings[2].millivolts,
                    readings[3].millivolts,
                    readings[4].millivolts,
                    readings[5].millivolts,
                ];
                *current_buffer = [
                    readings[0].milliamps,
                    readings[1].milliamps,
                    readings[2].milliamps,
                    readings[3].milliamps,
                    readings[4].milliamps,
                    readings[5].milliamps,
                ];
                Ok(())
            },
        }
    }

    /// Like `get_power_status`, but returns the decoded voltages and
    /// currents as two freshly built vectors of six milli-unit values.
    pub fn get_power_status_vec(&self, gpu_idx: i32, outcome: Result<[u8; 24], i32>) -> (r: Result<
        (Vec<u16>, Vec<u16>),
        MonitorError,
    >)
        ensures
            r is Ok <==> self.valid_index(gpu_idx as int) && outcome is Ok,
            match r {
                Ok(vc) => match outcome {
                    Ok(frame) => vc.0@.len() == 6 && vc.1@.len() == 6 && (forall|p: int|
                        0 <= p < 6 ==> #[trigger] vc.0@[p] == pin_millivolts(frame@, p)
                            && #[trigger] vc.1@[p] == pin_milliamps(frame@, p)),
                    Err(status) => false,
                },
                Err(e) => if !self.valid_index(gpu_idx as int) {
                    match e {
                        MonitorError::InvalidDeviceIndexError { index, count } => index == gpu_idx
                            && count == self.handles().len(),
                        _ => false,
                    }
                } else {
                    match outcome {
                        Err(status) => e == (MonitorError::TransactionError { status }),
                        Ok(frame) => false,
                    }
                },
            },
    {
        let mut voltages: [u16; 6] = [0u16; 6];
        let mut currents: [u16; 6] = [0u16; 6];
        match self.get_power_status(gpu_idx, outcome, &mut voltages, &mut currents) {
            Err(e) => Err(e),
            Ok(()) => {
                let v: Vec<u16> = vec![
                    voltages[0],
                    voltages[1],
                    voltages[2],
                    voltages[3],
                    voltages[4],
                    voltages[5],
                ];
                let c: Vec<u16> = vec![
                    currents[0],
                    currents[1],
                    currents[2],
                    currents[3],
                    currents[4],
                    currents[5],
                ];
                Ok((v, c))
            },
        }
    }
}

} // verus!
