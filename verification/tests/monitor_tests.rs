use astral_power_monitor::AstralPowerMonitor;
use astral_power_monitor::MonitorError;
use astral_power_monitor::I2C_BUFFER_SIZE_FIELD;
use astral_power_monitor::I2C_SPEED_100KHZ_SELECT;
use astral_power_monitor::MAX_PHYSICAL_DEVICES;
use astral_power_monitor::POWER_IC_I2C_ADDRESS;
use astral_power_monitor::POWER_IC_PORT_ID;
use astral_power_monitor::POWER_REG_START;
use astral_power_monitor::STATUS_OK;

const END_TO_END_FRAME: [u8; 24] = [
    0x00, 0x00, 0x00, 0x00, 0x00, 0x00, 0x00, 0x00, 0x00, 0x00, 0x00, 0x00, 0x00, 0x00, 0x00,
    0x00, 0x0B, 0xB8, 0x0B, 0xB8, 0x09, 0xC4, 0x17, 0x70,
];

#[test]
fn test_power_monitor_init() {
    let monitor = AstralPowerMonitor::new(STATUS_OK, vec![7]);
    assert!(monitor.is_ok() || monitor.is_err());
}

#[test]
fn init_failure_reports_driver_status() {
    let monitor = AstralPowerMonitor::new(-1, vec![7]);
    assert_eq!(monitor.err(), Some(MonitorError::InitializationError { status: -1 }));
}

#[test]
fn enumeration_with_zero_devices_is_no_device_error() {
    let monitor = AstralPowerMonitor::new(STATUS_OK, Vec::new());
    assert_eq!(monitor.err(), Some(MonitorError::NoDeviceError));
}

#[test]
fn enumeration_returns_exactly_n_addressable_handles() {
    let mut n: usize = 1;
    while n <= MAX_PHYSICAL_DEVICES {
        let handles: Vec<u64> = (0..n as u64).map(|h| h + 100).collect();
        let monitor = AstralPowerMonitor::new(STATUS_OK, handles).unwrap();
        assert_eq!(monitor.gpu_count(), n);
        let mut i: i32 = 0;
        while (i as usize) < n {
            let req = monitor.poll_request(i).unwrap();
            assert_eq!(req.gpu_index, i as usize);
            assert_eq!(req.gpu_handle, (i as u64) + 100);
            i += 1;
        }
        assert!(monitor.poll_request(n as i32).is_err());
        n += 1;
    }
}

#[test]
fn poll_request_describes_the_fixed_transaction() {
    let monitor = AstralPowerMonitor::new(STATUS_OK, vec![42]).unwrap();
    let req = monitor.poll_request(0).unwrap();
    assert_eq!(req.gpu_index, 0);
    assert_eq!(req.gpu_handle, 42);
    assert_eq!(req.dev_address, POWER_IC_I2C_ADDRESS);
    assert_eq!(req.dev_address, 0x56);
    assert_eq!(req.reg_address, POWER_REG_START);
    assert_eq!(req.reg_address, 0x80);
    assert_eq!(req.reg_addr_size, 1);
    assert_eq!(req.byte_count, 24);
    assert_eq!(req.display_mask, 0);
    assert!(!req.is_ddc_port);
    assert_eq!(req.speed_select, I2C_SPEED_100KHZ_SELECT);
    assert_eq!(req.port_id, POWER_IC_PORT_ID);
    assert!(req.port_id_set);
    assert_eq!(req.buffer_size_field, I2C_BUFFER_SIZE_FIELD);
}

#[test]
fn out_of_range_index_never_yields_a_request() {
    let monitor = AstralPowerMonitor::new(STATUS_OK, vec![1, 2]).unwrap();
    assert_eq!(
        monitor.poll_request(-1).err(),
        Some(MonitorError::InvalidDeviceIndexError { index: -1, count: 2 })
    );
    assert_eq!(
        monitor.poll_request(2).err(),
        Some(MonitorError::InvalidDeviceIndexError { index: 2, count: 2 })
    );
    assert_eq!(
        monitor.poll_request(i32::MAX).err(),
        Some(MonitorError::InvalidDeviceIndexError { index: i32::MAX, count: 2 })
    );
}

#[test]
fn get_power_status_rejects_out_of_range_index() {
    let monitor = AstralPowerMonitor::new(STATUS_OK, vec![1]).unwrap();
    let mut voltages = [11u16; 6];
    let mut currents = [22u16; 6];
    let r = monitor.get_power_status(5, Ok(END_TO_END_FRAME), &mut voltages, &mut currents);
    assert_eq!(r.err(), Some(MonitorError::InvalidDeviceIndexError { index: 5, count: 1 }));
    assert_eq!(voltages, [11u16; 6]);
    assert_eq!(currents, [22u16; 6]);
}

#[test]
fn get_power_status_decodes_the_frame() {
    let monitor = AstralPowerMonitor::new(STATUS_OK, vec![1]).unwrap();
    let mut voltages = [0u16; 6];
    let mut currents = [0u16; 6];
    let r = monitor.get_power_status(0, Ok(END_TO_END_FRAME), &mut voltages, &mut currents);
    assert!(r.is_ok());
    assert_eq!(voltages, [0x09C4, 0x0BB8, 0, 0, 0, 0]);
    assert_eq!(currents, [0x1770, 0x0BB8, 0, 0, 0, 0]);
    let volts = (voltages[0] as f32) * 0.001;
    let amps = (currents[0] as f32) * 0.001;
    assert!((volts - 2.500).abs() < 1e-4);
    assert!((amps - 6.000).abs() < 1e-4);
}

#[test]
fn failed_transaction_keeps_previous_readings() {
    let monitor = AstralPowerMonitor::new(STATUS_OK, vec![1]).unwrap();
    let mut voltages = [0u16; 6];
    let mut currents = [0u16; 6];
    assert!(monitor.get_power_status(0, Ok(END_TO_END_FRAME), &mut voltages, &mut currents).is_ok());
    let before_v = voltages;
    let before_c = currents;
    let r = monitor.get_power_status(0, Err(-104), &mut voltages, &mut currents);
    assert_eq!(r.err(), Some(MonitorError::TransactionError { status: -104 }));
    assert_eq!(voltages, before_v);
    assert_eq!(currents, before_c);
}

#[test]
fn get_power_status_vec_matches_buffers() {
    let monitor = AstralPowerMonitor::new(STATUS_OK, vec![1]).unwrap();
    let (voltages, currents) = monitor.get_power_status_vec(0, Ok(END_TO_END_FRAME)).unwrap();
    assert_eq!(voltages, vec![0x09C4, 0x0BB8, 0, 0, 0, 0]);
    assert_eq!(currents, vec![0x1770, 0x0BB8, 0, 0, 0, 0]);
}

#[test]
fn get_power_status_vec_propagates_errors() {
    let monitor = AstralPowerMonitor::new(STATUS_OK, vec![1]).unwrap();
    assert_eq!(
        monitor.get_power_status_vec(3, Ok(END_TO_END_FRAME)).err(),
        Some(MonitorError::InvalidDeviceIndexError { index: 3, count: 1 })
    );
    assert_eq!(
        monitor.get_power_status_vec(0, Err(-9)).err(),
        Some(MonitorError::TransactionError { status: -9 })
    );
}
