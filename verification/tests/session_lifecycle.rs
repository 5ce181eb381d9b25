use dnp3_tester::dnp3_service::{
    serial_settings, DataBits, Dnp3Service, LinkState, Parity, ReadStep, StartPlan, StopBits,
    Transport, MASTER_GRACE_MS, OUTSTATION_GRACE_MS,
};
use dnp3_tester::error::{EngineFailure, EngineStage, ServiceError};
use dnp3_tester::models::{
    Configuration, ConnectionType, DataPointType, DataQuality, DeviceRole,
};
use dnp3_tester::point_table::DatabasePoint;
use dnp3_tester::telemetry::{LogDirection, LogStore};

fn failure(stage: EngineStage, detail: &str) -> EngineFailure {
    EngineFailure { stage, detail: detail.to_string() }
}

fn live_master(service: &mut Dnp3Service, store: &mut LogStore) -> StartPlan {
    let plan = service.start_master(&Configuration::default()).expect("a plan");
    service.complete_start_at(store, &plan, Ok(()), 1).expect("started");
    plan
}

fn serial_config() -> Configuration {
    Configuration {
        connection_type: ConnectionType::Serial,
        serial_port: Some("/dev/ttyUSB0".to_string()),
        baud_rate: None,
        ..Configuration::default()
    }
}

#[test]
fn default_configuration_is_a_local_tcp_outstation() {
    let config = Configuration::default();
    assert_eq!(config.role, DeviceRole::Outstation);
    assert_eq!(config.connection_type, ConnectionType::TcpClient);
    assert_eq!(config.ip_address, "127.0.0.1");
    assert_eq!(config.port, 20000);
    assert_eq!(config.local_address, 10);
    assert_eq!(config.remote_address, 1);
    assert!(config.device_config.is_none());
    assert!(config.serial_port.is_none());
    assert_eq!(config.baud_rate, Some(9600));
    assert!(config.data_bits.is_none());
    assert!(config.parity.is_none());
    assert!(config.stop_bits.is_none());
}

#[test]
fn new_session_is_idle() {
    let service = Dnp3Service::new();
    assert_eq!(service.link_state(), LinkState::Idle);
    assert!(!service.is_connected());
    assert!(!service.simulator_continues());
    assert!(service.get_data().is_empty());
    let stats = service.get_stats();
    assert_eq!((stats.tx_count, stats.rx_count, stats.error_count), (0, 0, 0));
}

#[test]
fn master_start_plans_a_tcp_client() {
    let mut service = Dnp3Service::new();
    let mut store = LogStore::new();
    let config = Configuration { ip_address: "10.1.2.3".to_string(), port: 20001, ..Configuration::default() };
    let plan = service.start_master(&config).expect("a plan");
    assert_eq!(plan.role, DeviceRole::Master);
    assert_eq!(plan.grace_ms, 100);
    assert_eq!(MASTER_GRACE_MS, 100);
    assert_eq!(plan.local_address, 10);
    assert_eq!(plan.remote_address, 1);
    assert!(plan.decode_everything);
    assert!(plan.database.is_empty());
    match &plan.transport {
        Transport::Tcp { ip_address, port } => {
            assert_eq!(ip_address, "10.1.2.3");
            assert_eq!(*port, 20001);
        }
        other => panic!("expected TCP, got {:?}", other),
    }
    assert_eq!(service.link_state(), LinkState::Starting(DeviceRole::Master));
    assert!(!service.is_connected());

    service.complete_start_at(&mut store, &plan, Ok(()), 123).expect("started");
    assert_eq!(service.link_state(), LinkState::ActiveMaster);
    assert!(service.is_connected());
    let logs = service.get_logs(&store);
    assert_eq!(logs.len(), 1);
    assert_eq!(logs[0].direction, LogDirection::System);
    assert_eq!(logs[0].message, "Master connected");
    assert_eq!(logs[0].timestamp, 123);
    assert_eq!(logs[0].transaction_id, 0);
}

#[test]
fn every_transport_but_serial_is_tcp() {
    for connection_type in [
        ConnectionType::TcpClient,
        ConnectionType::TcpServer,
        ConnectionType::Udp,
        ConnectionType::Tls,
    ] {
        let mut service = Dnp3Service::new();
        let config = Configuration {
            connection_type,
            serial_port: Some("/dev/ttyS0".to_string()),
            ..Configuration::default()
        };
        let plan = service.start_master(&config).expect("a plan");
        assert!(matches!(plan.transport, Transport::Tcp { .. }));
        let plan = service.start_outstation(&config).expect("a plan");
        assert!(matches!(plan.transport, Transport::Tcp { .. }));
    }
}

#[test]
fn starting_a_master_twice_holds_one_association() {
    let mut service = Dnp3Service::new();
    let mut store = LogStore::new();
    service.add_datapoint_at(DataPointType::AnalogInput, 1, "ai".to_string(), 0).unwrap();
    service.add_datapoint_at(DataPointType::BinaryOutput, 2, "bo".to_string(), 0).unwrap();
    live_master(&mut service, &mut store);
    service.apply_measurement_at(DataPointType::AnalogInput, 1, 5.5f64.to_bits(), 1, 10);
    service.apply_measurement_at(DataPointType::BinaryOutput, 2, 1.0f64.to_bits(), 1, 10);
    assert_eq!(service.link_state(), LinkState::ActiveMaster);

    // second start without a disconnect
    let plan = service.start_master(&Configuration::default()).expect("a plan");
    assert_eq!(service.link_state(), LinkState::Starting(DeviceRole::Master));
    for point in service.get_data() {
        assert_eq!(point.quality, DataQuality::Offline);
        assert_eq!(point.value, 0);
    }
    // the time of the last change is not touched by the reset
    assert_eq!(service.get_data()[0].timestamp, 10);
    service.complete_start_at(&mut store, &plan, Ok(()), 20).expect("started");
    assert_eq!(service.link_state(), LinkState::ActiveMaster);
    assert!(service.is_connected());
    for point in service.get_data() {
        assert_eq!(point.quality, DataQuality::Offline);
    }
}

#[test]
fn reserved_addresses_are_refused_with_the_words_of_the_engine() {
    for address in [0xFFF0u16, 0xFFF5, 0xFFFC, 0xFFFD, 0xFFFE, 0xFFFF] {
        let words = dnp3::link::EndpointAddress::try_new(address).unwrap_err().to_string();
        let mut service = Dnp3Service::new();
        let mut store = LogStore::new();
        live_master(&mut service, &mut store);

        let config = Configuration { local_address: address, ..Configuration::default() };
        let error = service.start_master(&config).unwrap_err();
        assert!(matches!(error, ServiceError::InvalidLocalAddress { .. }));
        assert_eq!(error.message(), format!("Invalid local address: {}", words));
        // the teardown has happened, the connected flag is as it was
        assert_eq!(service.link_state(), LinkState::Idle);
        assert!(service.is_connected());

        let config = Configuration { remote_address: address, ..Configuration::default() };
        let error = service.start_outstation(&config).unwrap_err();
        assert!(matches!(error, ServiceError::InvalidRemoteAddress { .. }));
        assert_eq!(error.message(), format!("Invalid remote address: {}", words));
        assert_eq!(service.link_state(), LinkState::Idle);
    }
}

#[test]
fn address_check_agrees_with_the_engine_on_every_address() {
    let mut service = Dnp3Service::new();
    for address in 0..=u16::MAX {
        let engine = dnp3::link::EndpointAddress::try_new(address);
        let config = Configuration { local_address: address, ..Configuration::default() };
        let ours = service.start_master(&config);
        match (engine, ours) {
            (Ok(_), Ok(plan)) => {
                assert!(address < 0xFFF0);
                assert_eq!(plan.local_address, address);
            }
            (Err(e), Err(ServiceError::InvalidLocalAddress { detail })) => {
                assert!(address >= 0xFFF0);
                assert_eq!(detail, e.to_string());
                assert_eq!(
                    detail,
                    format!("special address ({}) may not be used as a master or outstation address", address)
                );
            }
            (engine, ours) => panic!("{}: engine {:?}, library {:?}", address, engine.is_ok(), ours),
        }
    }
}

#[test]
fn start_is_completed_at_the_time_of_the_clock() {
    let mut service = Dnp3Service::new();
    let mut store = LogStore::new();
    let plan = service.start_master(&Configuration::default()).expect("a plan");
    let before = chrono::Utc::now().timestamp_millis();
    service.complete_start(&mut store, &plan, Ok(())).expect("started");
    service.response_received(&mut store);
    let after = chrono::Utc::now().timestamp_millis();
    assert_eq!(service.link_state(), LinkState::ActiveMaster);
    let logs = store.get_logs();
    assert_eq!(logs[0].message, "Master connected");
    assert_eq!(logs[1].message, "Response received");
    for entry in logs {
        assert!(before <= entry.timestamp && entry.timestamp <= after);
    }
    assert_eq!(service.get_stats().rx_count, 1);
    let error = service
        .complete_start(&mut store, &plan, Err(failure(EngineStage::EnableChannel, "late")))
        .unwrap_err();
    assert!(matches!(error, ServiceError::NotStarting));
    assert_eq!(error.message(), "No connection attempt in progress");
}

#[test]
fn configuration_errors_come_in_their_order() {
    let bad = 0xFFFF;
    let serial_without_port = || Configuration {
        connection_type: ConnectionType::Serial,
        serial_port: None,
        ..Configuration::default()
    };

    // master: local address, then serial port, then remote address
    let mut service = Dnp3Service::new();
    let config = Configuration { local_address: bad, remote_address: bad, ..serial_without_port() };
    assert!(matches!(service.start_master(&config), Err(ServiceError::InvalidLocalAddress { .. })));
    let config = Configuration { remote_address: bad, ..serial_without_port() };
    assert!(matches!(service.start_master(&config), Err(ServiceError::SerialPortNotConfigured)));
    let config = Configuration { remote_address: bad, ..Configuration::default() };
    assert!(matches!(service.start_master(&config), Err(ServiceError::InvalidRemoteAddress { .. })));

    // outstation: local address, then remote address, then serial port
    let config = Configuration { local_address: bad, remote_address: bad, ..serial_without_port() };
    assert!(matches!(service.start_outstation(&config), Err(ServiceError::InvalidLocalAddress { .. })));
    let config = Configuration { remote_address: bad, ..serial_without_port() };
    assert!(matches!(service.start_outstation(&config), Err(ServiceError::InvalidRemoteAddress { .. })));
    let error = service.start_outstation(&serial_without_port()).unwrap_err();
    assert!(matches!(error, ServiceError::SerialPortNotConfigured));
    assert_eq!(error.message(), "Serial port not configured");
    assert_eq!(service.link_state(), LinkState::Idle);
}

#[test]
fn serial_settings_have_their_defaults() {
    let settings = serial_settings(&serial_config());
    assert_eq!(settings.baud_rate, 9600);
    assert_eq!(settings.data_bits, DataBits::Eight);
    assert_eq!(settings.parity, Parity::NoParity);
    assert_eq!(settings.stop_bits, StopBits::One);
}

#[test]
fn serial_settings_are_decoded() {
    let data_bits = [
        (Some(5u8), DataBits::Five),
        (Some(6), DataBits::Six),
        (Some(7), DataBits::Seven),
        (Some(8), DataBits::Eight),
        (Some(0), DataBits::Eight),
        (Some(9), DataBits::Eight),
        (Some(255), DataBits::Eight),
        (None, DataBits::Eight),
    ];
    for (given, expected) in data_bits {
        let config = Configuration { data_bits: given, ..serial_config() };
        assert_eq!(serial_settings(&config).data_bits, expected);
    }
    let parities = [
        (Some("even"), Parity::Even),
        (Some("EVEN"), Parity::Even),
        (Some("Even"), Parity::Even),
        (Some("odd"), Parity::Odd),
        (Some("Odd"), Parity::Odd),
        (Some("none"), Parity::NoParity),
        (Some("mark"), Parity::NoParity),
        (Some(""), Parity::NoParity),
        (Some(" even"), Parity::NoParity),
        (None, Parity::NoParity),
    ];
    for (given, expected) in parities {
        let config = Configuration { parity: given.map(|s| s.to_string()), ..serial_config() };
        assert_eq!(serial_settings(&config).parity, expected, "{:?}", given);
    }
    let stop_bits = [
        (Some(2.0f32), StopBits::Two),
        (Some(1.0), StopBits::One),
        (Some(1.5), StopBits::One),
        (Some(0.0), StopBits::One),
        (Some(2.0000002), StopBits::One),
        (Some(1.9999999), StopBits::One),
        (Some(-2.0), StopBits::One),
        (Some(f32::NAN), StopBits::One),
        (None, StopBits::One),
    ];
    for (given, expected) in stop_bits {
        let config = Configuration { stop_bits: given.map(|x| x.to_bits()), ..serial_config() };
        assert_eq!(serial_settings(&config).stop_bits, expected, "{:?}", given);
        // the rule as it is written for numbers
        if let Some(x) = given {
            let two = (x - 2.0).abs() < f32::EPSILON;
            assert_eq!(expected == StopBits::Two, two, "{:?}", given);
        }
    }
    let config = Configuration { baud_rate: Some(115200), ..serial_config() };
    assert_eq!(serial_settings(&config).baud_rate, 115200);
}

#[test]
fn serial_master_is_planned_on_its_port() {
    let mut service = Dnp3Service::new();
    let config = Configuration {
        data_bits: Some(7),
        parity: Some("Even".to_string()),
        stop_bits: Some(2.0f32.to_bits()),
        baud_rate: Some(19200),
        ..serial_config()
    };
    let plan = service.start_master(&config).expect("a plan");
    match &plan.transport {
        Transport::Serial { path, settings } => {
            assert_eq!(path, "/dev/ttyUSB0");
            assert_eq!(settings.baud_rate, 19200);
            assert_eq!(settings.data_bits, DataBits::Seven);
            assert_eq!(settings.parity, Parity::Even);
            assert_eq!(settings.stop_bits, StopBits::Two);
        }
        other => panic!("expected serial, got {:?}", other),
    }
}

#[test]
fn outstation_start_lists_the_database() {
    let mut service = Dnp3Service::new();
    let mut store = LogStore::new();
    service.add_datapoint_at(DataPointType::BinaryInput, 0, "bi".to_string(), 0).unwrap();
    service.add_datapoint_at(DataPointType::AnalogOutput, 5, "ao".to_string(), 0).unwrap();
    service.add_datapoint_at(DataPointType::Counter, 2, "c".to_string(), 0).unwrap();
    let plan = service.start_outstation(&Configuration::default()).expect("a plan");
    assert_eq!(plan.role, DeviceRole::Outstation);
    assert!(plan.decode_everything);
    assert_eq!(plan.grace_ms, 200);
    assert_eq!(OUTSTATION_GRACE_MS, 200);
    assert_eq!(
        plan.database,
        vec![
            DatabasePoint { point_type: DataPointType::BinaryInput, index: 0 },
            DatabasePoint { point_type: DataPointType::AnalogOutput, index: 5 },
            DatabasePoint { point_type: DataPointType::Counter, index: 2 },
        ]
    );
    for point in service.get_data() {
        assert_eq!(point.quality, DataQuality::Offline);
    }
    assert_eq!(service.link_state(), LinkState::Starting(DeviceRole::Outstation));
    service.complete_start_at(&mut store, &plan, Ok(()), 9).expect("started");
    assert_eq!(service.link_state(), LinkState::ActiveOutstation { listening: true });
    assert!(service.is_connected());
    assert!(service.simulator_continues());
    assert_eq!(store.get_logs()[0].message, "Outstation started");
}

#[test]
fn serial_outstation_has_no_listener() {
    let mut service = Dnp3Service::new();
    let mut store = LogStore::new();
    let plan = service.start_outstation(&serial_config()).expect("a plan");
    service.complete_start_at(&mut store, &plan, Ok(()), 9).expect("started");
    assert_eq!(service.link_state(), LinkState::ActiveOutstation { listening: false });
    assert_eq!(store.get_logs()[0].message, "Outstation started on serial /dev/ttyUSB0");
}

#[test]
fn failed_engine_calls_leave_the_session_idle() {
    let cases = [
        (EngineStage::AddAssociation, "Failed to add association: boom"),
        (EngineStage::EnableChannel, "Failed to enable channel: boom"),
        (EngineStage::ListenAddress, "Invalid address: boom"),
        (EngineStage::AddOutstation, "Failed to add outstation: boom"),
        (EngineStage::BindServer, "Failed to bind server: boom"),
    ];
    for (stage, message) in cases {
        let mut service = Dnp3Service::new();
        let mut store = LogStore::new();
        let plan = service.start_master(&Configuration::default()).expect("a plan");
        let error = service.complete_start_at(&mut store, &plan, Err(failure(stage, "boom")), 1).unwrap_err();
        assert_eq!(error.message(), message);
        assert_eq!(service.link_state(), LinkState::Idle);
        assert!(!service.is_connected());
        assert!(store.get_logs().is_empty());
    }
    let mut service = Dnp3Service::new();
    let mut store = LogStore::new();
    let plan = service.start_outstation(&serial_config()).expect("a plan");
    let error = service
        .complete_start_at(&mut store, &plan, Err(failure(EngineStage::SpawnSerialOutstation, "busy")), 1)
        .unwrap_err();
    assert_eq!(error.message(), "Failed to spawn outstation on serial /dev/ttyUSB0: busy");
    assert_eq!(service.link_state(), LinkState::Idle);
}

#[test]
fn refused_restart_leaves_the_session_idle_and_not_connected() {
    let cases = [
        (DeviceRole::Master, EngineStage::AddAssociation, "Failed to add association: gone"),
        (DeviceRole::Master, EngineStage::EnableChannel, "Failed to enable channel: gone"),
        (DeviceRole::Outstation, EngineStage::AddOutstation, "Failed to add outstation: gone"),
        (DeviceRole::Outstation, EngineStage::BindServer, "Failed to bind server: gone"),
    ];
    for (role, stage, message) in cases {
        let mut service = Dnp3Service::new();
        let mut store = LogStore::new();
        live_master(&mut service, &mut store);
        service.add_datapoint_at(DataPointType::BinaryOutput, 1, "bo".to_string(), 0).unwrap();
        assert!(service.is_connected());

        let plan = match role {
            DeviceRole::Master => service.start_master(&Configuration::default()),
            DeviceRole::Outstation => service.start_outstation(&Configuration::default()),
        }
        .expect("a plan");
        // the plan alone does not touch the flag
        assert!(service.is_connected());
        let logged = store.get_logs().len();
        let error = service.complete_start_at(&mut store, &plan, Err(failure(stage, "gone")), 9).unwrap_err();
        assert_eq!(error.message(), message);
        assert_eq!(service.link_state(), LinkState::Idle);
        assert!(!service.is_connected());
        assert!(!service.simulator_continues());
        assert_eq!(store.get_logs().len(), logged);

        // an idle session simulates nothing
        assert!(matches!(service.read_all(&mut store), Err(ServiceError::NotConnected)));
        let refused = service.execute_control(DataPointType::BinaryOutput, 1, 1.0f64.to_bits(), "Direct");
        assert!(matches!(refused, Err(ServiceError::NotConnected)));
        let stats = service.get_stats();
        assert_eq!((stats.tx_count, stats.rx_count), (0, 0));
        assert_eq!(service.get_data()[0].value, 0);
        assert_eq!(store.get_logs().len(), logged);
    }
}

#[test]
fn completing_a_start_that_was_not_begun_changes_nothing() {
    let mut service = Dnp3Service::new();
    let mut store = LogStore::new();
    let master_plan = live_master(&mut service, &mut store);
    // the same report again
    let error = service.complete_start_at(&mut store, &master_plan, Ok(()), 2).unwrap_err();
    assert!(matches!(error, ServiceError::NotStarting));
    assert_eq!(service.link_state(), LinkState::ActiveMaster);
    assert_eq!(store.get_logs().len(), 1);
    // a report for the other role
    let outstation_plan = service.start_outstation(&Configuration::default()).expect("a plan");
    let error = service.complete_start_at(&mut store, &master_plan, Ok(()), 3).unwrap_err();
    assert!(matches!(error, ServiceError::NotStarting));
    assert_eq!(service.link_state(), LinkState::Starting(DeviceRole::Outstation));
    service.complete_start_at(&mut store, &outstation_plan, Ok(()), 4).expect("started");
    assert_eq!(service.link_state(), LinkState::ActiveOutstation { listening: true });
}

#[test]
fn disconnect_is_idempotent() {
    let mut service = Dnp3Service::new();
    let mut store = LogStore::new();
    live_master(&mut service, &mut store);
    service.disconnect_at(&mut store, 5);
    assert_eq!(service.link_state(), LinkState::Idle);
    assert!(!service.is_connected());
    assert!(!service.simulator_continues());
    service.disconnect(&mut store);
    assert_eq!(service.link_state(), LinkState::Idle);
    assert!(!service.is_connected());
    let logs = store.get_logs();
    let messages: Vec<&str> = logs.iter().map(|e| e.message.as_str()).collect();
    assert_eq!(messages, vec!["Master connected", "Disconnected", "Disconnected"]);
    assert_eq!(logs[1].direction, LogDirection::System);
    assert_eq!(logs[1].timestamp, 5);
    // a disconnect in the middle of a start gives it up
    let plan = service.start_master(&Configuration::default()).expect("a plan");
    service.disconnect_at(&mut store, 6);
    assert!(matches!(
        service.complete_start_at(&mut store, &plan, Ok(()), 7),
        Err(ServiceError::NotStarting)
    ));
    assert_eq!(service.link_state(), LinkState::Idle);
}

#[test]
fn read_needs_a_connection() {
    let mut service = Dnp3Service::new();
    let mut store = LogStore::new();
    let error = service.read_all(&mut store).unwrap_err();
    assert!(matches!(error, ServiceError::NotConnected));
    assert_eq!(error.message(), "Master not connected");
    assert!(store.get_logs().is_empty());
    assert_eq!(service.get_stats().tx_count, 0);
}

#[test]
fn read_with_an_association_goes_to_the_engine() {
    let mut service = Dnp3Service::new();
    let mut store = LogStore::new();
    live_master(&mut service, &mut store);
    assert_eq!(service.read_all_at(&mut store, 30).unwrap(), ReadStep::Scan);
    let logs = store.get_logs();
    assert_eq!(logs[1].direction, LogDirection::Tx);
    assert_eq!(logs[1].message, "READ Class 0,1,2,3 (Integrity Poll)");
    assert_eq!(logs[1].timestamp, 30);
    // nothing is counted before the engine has answered
    assert_eq!(service.get_stats().tx_count, 0);
    service.complete_read(Ok(())).unwrap();
    assert_eq!(service.get_stats().tx_count, 1);
    assert_eq!(service.get_stats().rx_count, 0);

    assert_eq!(service.read_all(&mut store).unwrap(), ReadStep::Scan);
    let error = service.complete_read(Err("timeout".to_string())).unwrap_err();
    assert_eq!(error.message(), "Read failed: timeout");
    assert_eq!(service.get_stats().tx_count, 1);
    assert_eq!(service.link_state(), LinkState::ActiveMaster);

    service.response_received_at(&mut store, 40);
    assert_eq!(service.get_stats().rx_count, 1);
    let last = store.get_logs().pop().unwrap();
    assert_eq!(last.direction, LogDirection::Rx);
    assert_eq!(last.message, "Response received");
    assert_eq!(last.timestamp, 40);
}

#[test]
fn read_without_an_association_is_simulated() {
    let mut service = Dnp3Service::new();
    let mut store = LogStore::new();
    let plan = service.start_outstation(&Configuration::default()).expect("a plan");
    service.complete_start_at(&mut store, &plan, Ok(()), 1).expect("started");
    assert_eq!(service.read_all_at(&mut store, 2).unwrap(), ReadStep::Simulated);
    let stats = service.get_stats();
    assert_eq!((stats.tx_count, stats.rx_count, stats.error_count), (1, 1, 0));
    let last = store.get_logs().pop().unwrap();
    assert_eq!(last.direction, LogDirection::Tx);
    assert_eq!(last.message, "Simulated READ (serial)");
}
