use dnp3_tester::dnp3_service::LinkState;
use dnp3_tester::error::kind_label;
use dnp3_tester::models::{ConnectionType, DataPointType, DataQuality, DeviceRole};
use dnp3_tester::registry::SessionRegistry;
use dnp3_tester::request::{
    event_buffer_config, normalize_address, parse_connection_type, parse_control_point_type,
    parse_point_type, parse_role, quality_label, session_id_or_default, text_is_blank,
    DEFAULT_SESSION,
};

#[test]
fn roles_and_transports_are_read_from_their_words() {
    assert_eq!(parse_role("master"), DeviceRole::Master);
    for other in ["outstation", "Master", "", "slave"] {
        assert_eq!(parse_role(other), DeviceRole::Outstation);
    }
    assert_eq!(parse_connection_type(Some("serial")), ConnectionType::Serial);
    assert_eq!(parse_connection_type(Some("tcp_server")), ConnectionType::TcpServer);
    assert_eq!(parse_connection_type(Some("udp")), ConnectionType::Udp);
    assert_eq!(parse_connection_type(Some("tls")), ConnectionType::Tls);
    assert_eq!(parse_connection_type(Some("tcp")), ConnectionType::TcpClient);
    assert_eq!(parse_connection_type(Some("Serial")), ConnectionType::TcpClient);
    assert_eq!(parse_connection_type(Some("")), ConnectionType::TcpClient);
    assert_eq!(parse_connection_type(None), ConnectionType::TcpClient);
}

#[test]
fn point_kinds_are_read_from_their_names() {
    let kinds = [
        DataPointType::BinaryInput,
        DataPointType::BinaryOutput,
        DataPointType::AnalogInput,
        DataPointType::AnalogOutput,
        DataPointType::Counter,
    ];
    for kind in kinds {
        assert_eq!(kind_label(kind), format!("{:?}", kind));
        assert_eq!(parse_point_type(kind_label(kind)), Some(kind));
        let control = parse_control_point_type(kind_label(kind));
        if kind == DataPointType::BinaryOutput || kind == DataPointType::AnalogOutput {
            assert_eq!(control, Some(kind));
        } else {
            assert_eq!(control, None);
        }
    }
    for other in ["", "binaryinput", "Analog", "Counter ", "FrozenCounter"] {
        assert_eq!(parse_point_type(other), None);
        assert_eq!(parse_control_point_type(other), None);
    }
    for quality in [
        DataQuality::Online,
        DataQuality::Offline,
        DataQuality::CommLost,
        DataQuality::LocalForced,
        DataQuality::RemoteForced,
    ] {
        assert_eq!(quality_label(quality), format!("{:?}", quality));
    }
}

#[test]
fn blank_address_takes_the_default_of_the_role() {
    for blank in ["", " ", "\t \n", "\u{00a0}"] {
        assert!(text_is_blank(blank));
        assert_eq!(blank.trim().is_empty(), true);
        assert_eq!(normalize_address(blank, DeviceRole::Outstation), "0.0.0.0");
        assert_eq!(normalize_address(blank, DeviceRole::Master), "127.0.0.1");
    }
    for given in ["10.0.0.1", " 10.0.0.1 ", "host", "0"] {
        assert!(!text_is_blank(given));
        assert_eq!(normalize_address(given, DeviceRole::Outstation), given);
        assert_eq!(normalize_address(given, DeviceRole::Master), given);
    }
}

#[test]
fn unnamed_requests_belong_to_the_default_session() {
    assert_eq!(DEFAULT_SESSION, "default");
    assert_eq!(session_id_or_default(None), "default");
    assert_eq!(session_id_or_default(Some("tab-2")), "tab-2");
    assert_eq!(session_id_or_default(Some("")), "");
}

#[test]
fn event_buffers_have_their_sizes() {
    let sizes = event_buffer_config();
    assert_eq!(
        (sizes.binary, sizes.double_bit_binary, sizes.binary_output_status, sizes.counter),
        (100, 10, 100, 50)
    );
    assert_eq!(
        (sizes.frozen_counter, sizes.analog, sizes.analog_output_status, sizes.octet_string),
        (10, 100, 100, 10)
    );
}

#[test]
fn sessions_are_made_at_their_first_mention() {
    let mut registry = SessionRegistry::new();
    assert_eq!(registry.len(), 0);
    let a = registry.get_service("default");
    assert_eq!(registry.len(), 1);
    assert_eq!(registry.id_at(a), "default");
    assert_eq!(registry.service(a).link_state(), LinkState::Idle);
    assert!(registry.service(a).get_data().is_empty());

    let b = registry.get_service("tab-2");
    assert_ne!(a, b);
    assert_eq!(registry.len(), 2);
    // a second mention finds the same session
    assert_eq!(registry.get_service("default"), a);
    assert_eq!(registry.get_service("tab-2"), b);
    assert_eq!(registry.len(), 2);
    // identifiers are compared exactly
    let c = registry.get_service("Default");
    assert_eq!(registry.len(), 3);
    assert_ne!(c, a);
}

#[test]
fn sessions_keep_their_own_points_and_counters() {
    let mut registry = SessionRegistry::new();
    let a = registry.get_service("a");
    let b = registry.get_service("b");
    registry
        .service_mut(a)
        .add_datapoint(DataPointType::Counter, 1, "only in a".to_string())
        .unwrap();
    assert_eq!(registry.service(a).get_data().len(), 1);
    assert!(registry.service(b).get_data().is_empty());
    // naming more sessions moves none
    for k in 0..50 {
        registry.get_service(&format!("s{}", k));
    }
    assert_eq!(registry.get_service("a"), a);
    assert_eq!(registry.service(a).get_data()[0].name, "only in a");
    assert_eq!(registry.len(), 52);
}

#[test]
fn work_on_one_session_leaves_the_others_alone() {
    let mut registry = SessionRegistry::new();
    let names = ["default", "a", "b", "c"];
    let slots: Vec<usize> = names.iter().map(|name| registry.get_service(name)).collect();
    for (k, slot) in slots.iter().enumerate() {
        for index in 0..k as u16 {
            registry
                .service_mut(*slot)
                .add_datapoint(DataPointType::Counter, index, format!("{}-{}", names[k], index))
                .unwrap();
        }
    }
    for (k, name) in names.iter().enumerate() {
        let slot = registry.get_service(name);
        assert_eq!(slot, slots[k]);
        assert_eq!(registry.id_at(slot), *name);
        let data = registry.service(slot).get_data();
        assert_eq!(data.len(), k);
        for point in data {
            assert!(point.name.starts_with(name));
        }
    }
}
