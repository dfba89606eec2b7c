use pet_bridge::bluetooth::{
    BluetoothLEConnectionState, BluetoothLEError, BluetoothLEManager, BluetoothLERequest, BluetoothLEResponse, CollarCommand,
    ZephyrCommand, ZephyrResponse,
};
use pet_bridge::device::{create_test_virtual_devices, DeviceId, VirtualCommandHandler};

fn collar_only() -> BluetoothLEManager {
    let mut bt = BluetoothLEManager::new();
    let mut devices = create_test_virtual_devices(42);
    let collar = devices.remove(0);
    bt.handle_request(BluetoothLERequest::EnableVirtualNetwork, 1);
    let r = bt.handle_request(BluetoothLERequest::RegisterVirtualDevice { device: collar }, 2);
    assert_eq!(r.len(), 1);
    match &r[0] {
        BluetoothLEResponse::VirtualDeviceRegistered { device_id } => assert_eq!(device_id.0, "virtual_collar_001"),
        _ => panic!("expected a registration report"),
    }
    bt
}

#[test]
fn virtual_device_is_discovered_by_a_scan() {
    let mut bt = collar_only();
    assert!(bt.discovered_devices.contains_key(&"virtual_collar_001".to_string()));
    let r = bt.handle_request(BluetoothLERequest::StartScan { duration_ms: None, device_filter: None }, 3);
    assert!(bt.scanning);
    assert_eq!(r.len(), 2);
    assert!(matches!(r[0], BluetoothLEResponse::ScanStarted));
    let discovered: Vec<&str> = r
        .iter()
        .filter_map(|e| match e {
            BluetoothLEResponse::DeviceDiscovered { device } => Some(device.id.0.as_str()),
            _ => None,
        })
        .collect();
    assert_eq!(discovered, vec!["virtual_collar_001"]);
    let info = bt.discovered_devices.get(&"virtual_collar_001".to_string()).unwrap();
    assert_eq!(info.name, "Test Smart Collar");
    assert_eq!(info.battery_level, Some(85));
    let r = bt.handle_request(BluetoothLERequest::StopScan, 4);
    assert!(!bt.scanning);
    assert!(matches!(r[0], BluetoothLEResponse::ScanStopped));
}

#[test]
fn scan_without_virtual_network_reports_no_device() {
    let mut bt = BluetoothLEManager::new();
    for d in create_test_virtual_devices(0) {
        bt.register_virtual_device(d);
    }
    let r = bt.start_scan();
    assert_eq!(r.len(), 1);
    assert!(matches!(r[0], BluetoothLEResponse::ScanStarted));
}

#[test]
fn virtual_command_answers_are_deterministic() {
    let mut bt = collar_only();
    let id = DeviceId("virtual_collar_001".to_string());
    let first = bt.execute_virtual_command(&id, "GetBatteryLevel", 10);
    let second = bt.execute_virtual_command(&id, "GetBatteryLevel", 11);
    assert_eq!(first, Some("85%".to_string()));
    assert_eq!(first, second);
    assert_eq!(bt.execute_virtual_command(&id, "CollarCommands Vibrate", 12), Some("Vibrating".to_string()));
    assert_eq!(bt.execute_virtual_command(&id, "Reboot", 13), Some("OK".to_string()));
    assert_eq!(bt.virtual_command_log.len(), 4);
    assert_eq!(bt.virtual_command_log[0].timestamp, 10);
    assert_eq!(bt.virtual_command_log[0].command, "GetBatteryLevel");
    assert_eq!(bt.virtual_command_log[0].response, Some("85%".to_string()));
    assert_eq!(bt.virtual_command_log[3].response, None);
}

#[test]
fn first_declared_handler_wins() {
    let mut bt = collar_only();
    let mut devices = create_test_virtual_devices(0);
    let mut feeder = devices.remove(1);
    feeder.command_handlers.push(VirtualCommandHandler {
        command_pattern: "Food".to_string(),
        response_template: "generic food".to_string(),
        delay_ms: 0,
    });
    feeder.command_handlers.insert(0, VirtualCommandHandler {
        command_pattern: "Level".to_string(),
        response_template: "any level".to_string(),
        delay_ms: 0,
    });
    bt.register_virtual_device(feeder);
    let id = DeviceId("virtual_feeder_001".to_string());
    assert_eq!(bt.execute_virtual_command(&id, "GetFoodLevel", 1), Some("any level".to_string()));
    assert_eq!(bt.execute_virtual_command(&id, "DispenseFood 10g", 2), Some("Food dispensed".to_string()));
    assert_eq!(bt.execute_virtual_command(&id, "FoodX", 3), Some("generic food".to_string()));
}

#[test]
fn unknown_virtual_device_gives_nothing_and_logs_nothing() {
    let mut bt = collar_only();
    let id = DeviceId("nobody".to_string());
    assert_eq!(bt.execute_virtual_command(&id, "GetBatteryLevel", 1), None);
    assert!(bt.virtual_command_log.is_empty());
}

#[test]
fn virtual_device_connects_at_once() {
    let mut bt = collar_only();
    let r = bt.handle_request(BluetoothLERequest::Connect { device_id: DeviceId("virtual_collar_001".to_string()) }, 5);
    assert_eq!(r.len(), 1);
    assert!(matches!(&r[0], BluetoothLEResponse::Connected { device_id } if device_id.0 == "virtual_collar_001"));
    assert!(matches!(
        bt.connection_states.get(&"virtual_collar_001".to_string()),
        Some(BluetoothLEConnectionState::Connected)
    ));
    assert!(bt.connected_devices.contains_key(&"virtual_collar_001".to_string()));
    let r = bt.handle_request(BluetoothLERequest::Connect { device_id: DeviceId("real_device".to_string()) }, 6);
    assert!(r.is_empty());
    assert!(matches!(
        bt.connection_states.get(&"real_device".to_string()),
        Some(BluetoothLEConnectionState::Connecting)
    ));
}

#[test]
fn firmware_commands_to_virtual_devices_are_answered() {
    let mut bt = collar_only();
    let id = DeviceId("virtual_collar_001".to_string());
    let r = bt.handle_request(
        BluetoothLERequest::SendCommand { device_id: id.clone(), command: ZephyrCommand::GetBatteryLevel, timeout_ms: Some(5000) },
        7,
    );
    assert_eq!(r.len(), 1);
    match &r[0] {
        BluetoothLEResponse::CommandResponse { device_id, response, latency_ms, .. } => {
            assert_eq!(device_id.0, "virtual_collar_001");
            assert_eq!(*latency_ms, 50);
            assert!(matches!(response, ZephyrResponse::BatteryLevel { percentage: 85, voltage_mv: 3700 }));
        }
        _ => panic!("expected a command response"),
    }
    assert_eq!(bt.virtual_command_log.last().unwrap().response, Some("85%".to_string()));
    let r = bt.send_command(id.clone(), ZephyrCommand::GetDeviceInfo, 8);
    match &r[0] {
        BluetoothLEResponse::CommandResponse { response: ZephyrResponse::DeviceInfo { firmware_version, hardware_version, serial_number }, .. } => {
            assert_eq!(firmware_version, "1.0.0");
            assert_eq!(hardware_version, "v2.1");
            assert_eq!(serial_number, "VRT001");
        }
        _ => panic!("expected device info"),
    }
    let vibrate = ZephyrCommand::CollarCommands { command: CollarCommand::Vibrate { intensity: 3, duration_ms: 100 } };
    assert_eq!(vibrate.command_text(), "CollarCommands Vibrate");
    bt.send_command(id, vibrate, 9);
    assert_eq!(bt.virtual_command_log.last().unwrap().response, Some("Vibrating".to_string()));
}

#[test]
fn simulated_command_reports_the_answer_and_removed_device_is_gone() {
    let mut bt = collar_only();
    let r = bt.handle_request(
        BluetoothLERequest::SimulateDeviceCommand { device_id: DeviceId("virtual_collar_001".to_string()), command: "Vibrate now".to_string() },
        1,
    );
    match &r[0] {
        BluetoothLEResponse::VirtualCommandExecuted { command, response, .. } => {
            assert_eq!(command, "Vibrate now");
            assert_eq!(response, "Vibrating");
        }
        _ => panic!("expected an execution report"),
    }
    bt.handle_request(BluetoothLERequest::RemoveVirtualDevice { device_id: DeviceId("virtual_collar_001".to_string()) }, 2);
    assert!(!bt.virtual_devices.contains_key(&"virtual_collar_001".to_string()));
    let r = bt.handle_request(
        BluetoothLERequest::SimulateDeviceCommand { device_id: DeviceId("virtual_collar_001".to_string()), command: "Vibrate".to_string() },
        3,
    );
    assert!(r.is_empty());
}

#[test]
fn requests_left_to_the_host_change_nothing() {
    let mut bt = collar_only();
    let r = bt.handle_request(BluetoothLERequest::DisableVirtualNetwork, 1);
    assert!(r.is_empty());
    assert!(bt.virtual_network_enabled);
    let r = bt.handle_request(BluetoothLERequest::Pair { device_id: DeviceId("x".to_string()), pin: None }, 1);
    assert!(r.is_empty());
}

#[test]
fn test_devices_have_their_handlers_in_order() {
    let d = create_test_virtual_devices(99);
    assert_eq!(d.len(), 2);
    assert_eq!(d[0].info.id.0, "virtual_collar_001");
    assert_eq!(d[0].info.last_seen, Some(99));
    assert_eq!(d[0].command_handlers[0].command_pattern, "GetBatteryLevel");
    assert_eq!(d[0].command_handlers[1].response_template, "Vibrating");
    assert_eq!(d[1].info.id.0, "virtual_feeder_001");
    assert_eq!(d[1].info.rssi, -38);
    assert_eq!(d[1].command_handlers[0].response_template, "1200g/2000g");
}

#[test]
fn host_reports_drive_connection_state_and_failures() {
    let mut bt = BluetoothLEManager::new();
    bt.handle_response(BluetoothLEResponse::PairingFailed { device_id: DeviceId("d1".to_string()), error: "bad pin".to_string() });
    match bt.connection_states.get(&"d1".to_string()) {
        Some(BluetoothLEConnectionState::Error(reason)) => assert_eq!(reason, "bad pin"),
        other => panic!("unexpected {:?}", other),
    }
    assert!(matches!(&bt.errors.last_error, Some(BluetoothLEError::PairingFailed { reason }) if reason == "bad pin"));
    bt.handle_response(BluetoothLEResponse::CommandFailed {
        device_id: DeviceId("d1".to_string()),
        command: ZephyrCommand::Reboot,
        error: "lost".to_string(),
    });
    assert!(matches!(&bt.errors.last_error, Some(BluetoothLEError::CommandTimeout { command }) if command == "Reboot"));
    bt.handle_response(BluetoothLEResponse::Error { error: BluetoothLEError::AdapterNotFound });
    assert_eq!(bt.errors.error_count, 3);
    assert_eq!(bt.errors.backoff_ms, 800);
    assert!(!bt.should_retry());
    bt.handle_response(BluetoothLEResponse::Connected { device_id: DeviceId("d1".to_string()) });
    assert_eq!(bt.errors.error_count, 0);
    assert!(bt.should_retry());
    assert!(matches!(bt.connection_states.get(&"d1".to_string()), Some(BluetoothLEConnectionState::Connected)));
    bt.handle_response(BluetoothLEResponse::Disconnected { device_id: DeviceId("d1".to_string()), reason: None });
    assert!(matches!(bt.connection_states.get(&"d1".to_string()), Some(BluetoothLEConnectionState::Disconnected)));
}

#[test]
fn command_text_picks_battery_or_identity() {
    use_command("get battery please", true);
    use_command("info", false);
    use_command("", false);
}

fn use_command(text: &str, battery: bool) {
    let c = pet_bridge::bluetooth::command_from_text(text);
    if battery {
        assert!(matches!(c, ZephyrCommand::GetBatteryLevel));
    } else {
        assert!(matches!(c, ZephyrCommand::GetDeviceInfo));
    }
}

#[test]
fn discovered_report_adds_one_device_and_keeps_others() {
    let mut bt = BluetoothLEManager::new();
    for d in create_test_virtual_devices(0) {
        bt.register_virtual_device(d);
    }
    let mut devices = create_test_virtual_devices(5);
    let mut info = devices.remove(0).info;
    info.id = DeviceId("real_tag".to_string());
    bt.handle_response(BluetoothLEResponse::DeviceDiscovered { device: info });
    assert_eq!(bt.discovered_devices.len(), 3);
    assert!(bt.discovered_devices.contains_key(&"virtual_feeder_001".to_string()));
    assert_eq!(bt.discovered_devices.get(&"real_tag".to_string()).unwrap().last_seen, Some(5));
}
