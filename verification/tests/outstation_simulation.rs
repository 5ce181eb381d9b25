use dnp3_tester::dnp3_service::{
    CommandStatus, ControlOp, Dnp3Service, SIMULATION_PERIOD_MS,
};
use dnp3_tester::models::{Configuration, DataPointType, DataQuality};
use dnp3_tester::point_table::{sample_kind_for, DatabaseUpdate, SampleKind};
use dnp3_tester::telemetry::{LogDirection, LogStore};

fn outstation() -> (Dnp3Service, LogStore) {
    let mut service = Dnp3Service::new();
    let mut store = LogStore::new();
    service.add_datapoint_at(DataPointType::BinaryInput, 0, "bi".to_string(), 0).unwrap();
    service.add_datapoint_at(DataPointType::BinaryOutput, 0, "bo".to_string(), 0).unwrap();
    service.add_datapoint_at(DataPointType::AnalogInput, 0, "ai".to_string(), 0).unwrap();
    service.add_datapoint_at(DataPointType::AnalogOutput, 0, "ao".to_string(), 0).unwrap();
    service.add_datapoint_at(DataPointType::Counter, 0, "c".to_string(), 0).unwrap();
    let plan = service.start_outstation(&Configuration::default()).expect("a plan");
    service.complete_start_at(&mut store, &plan, Ok(()), 1).expect("started");
    (service, store)
}

fn values(service: &Dnp3Service) -> Vec<f64> {
    service.get_data().iter().map(|p| f64::from_bits(p.value)).collect()
}

#[test]
fn each_kind_asks_for_its_draw() {
    let (service, _store) = outstation();
    let kinds: Vec<SampleKind> =
        service.get_data().iter().map(|point| sample_kind_for(point.point_type)).collect();
    assert_eq!(
        kinds,
        vec![SampleKind::Coin, SampleKind::Hold, SampleKind::Level, SampleKind::Hold, SampleKind::Increment]
    );
    assert_eq!(SIMULATION_PERIOD_MS, 2000);
}

#[test]
fn one_round_moves_inputs_and_mirrors_every_point() {
    let (mut service, mut store) = outstation();
    service.operate_binary_at(&mut store, 0, ControlOp::LatchOn, 5);
    service.operate_analog_at(&mut store, 0, 17.0f64.to_bits(), "17", 6);
    let samples: Vec<u64> = [0.75f64, 99.0, 231.4, 99.0, 6.5].iter().map(|x| x.to_bits()).collect();
    let updates = service.simulate_at(&samples, 1000);
    assert_eq!(values(&service), vec![1.0, 1.0, 231.4, 17.0, 6.5]);
    for point in service.get_data() {
        assert_eq!(point.quality, DataQuality::Online);
        assert_eq!(point.timestamp, 1000);
    }
    let expected: Vec<DatabaseUpdate> = service
        .get_data()
        .iter()
        .map(|p| DatabaseUpdate {
            point_type: p.point_type,
            index: p.index,
            value: p.value,
            state: f64::from_bits(p.value) > 0.5,
            timestamp: 1000,
        })
        .collect();
    assert_eq!(updates, expected);
    assert!(updates[0].state);
    assert!(updates[1].state);
}

#[test]
fn coin_lands_on_either_side_of_one_half() {
    let (mut service, _store) = outstation();
    for (draw, value) in [(0.0f64, 0.0), (0.5, 0.0), (0.5000001, 1.0), (0.99, 1.0), (0.2, 0.0)] {
        let samples = vec![draw.to_bits()];
        service.simulate_at(&samples, 1);
        assert_eq!(values(&service)[0], value, "draw {}", draw);
    }
}

#[test]
fn outputs_never_move_without_a_control() {
    let (mut service, mut store) = outstation();
    service.operate_binary_at(&mut store, 0, ControlOp::LatchOn, 5);
    service.operate_analog_at(&mut store, 0, (-40.0f64).to_bits(), "-40", 6);
    let mut seed: u64 = 7;
    let mut counter = 0.0f64;
    for round in 0..200 {
        let mut draw = || {
            seed = seed.wrapping_mul(6364136223846793005).wrapping_add(1442695040888963407);
            (seed >> 11) as f64 / (1u64 << 53) as f64
        };
        let level = 200.0 + draw() * 50.0 + draw() * 0.99;
        counter += draw() * 10.0 + 0.001;
        let samples: Vec<u64> =
            [draw(), draw() * 1000.0, level, draw() * 1000.0, counter].iter().map(|x| x.to_bits()).collect();
        let before = values(&service);
        service.simulate_at(&samples, 1000 + round);
        let after = values(&service);
        assert_eq!(after[1], 1.0);
        assert_eq!(after[3], -40.0);
        assert_ne!(after[2], before[2]);
        assert!(after[4] > before[4]);
        assert!(200.0 <= after[2] && after[2] < 251.0);
        assert!(after[0] == 0.0 || after[0] == 1.0);
    }
    // the next control moves them
    service.operate_binary_at(&mut store, 0, ControlOp::LatchOff, 9000);
    assert_eq!(values(&service)[1], 0.0);
}

#[test]
fn missing_draws_hold_the_value() {
    let (mut service, _store) = outstation();
    let samples: Vec<u64> = [0.9f64, 0.0, 210.0].iter().map(|x| x.to_bits()).collect();
    service.simulate_at(&samples, 10);
    let first = values(&service);
    assert_eq!(first, vec![1.0, 0.0, 210.0, 0.0, 0.0]);
    service.simulate_at(&Vec::new(), 20);
    // a binary input flips its coin on its own value
    assert_eq!(values(&service), vec![1.0, 0.0, 210.0, 0.0, 0.0]);
    for point in service.get_data() {
        assert_eq!(point.timestamp, 20);
    }
    // more draws than points are of no use
    let many: Vec<u64> = vec![0; 9];
    let updates = service.simulate_at(&many, 30);
    assert_eq!(updates.len(), 5);
}

#[test]
fn outstation_works_at_the_time_of_the_clock() {
    let (mut service, mut store) = outstation();
    let logged = store.get_logs().len();
    let before = chrono::Utc::now().timestamp_millis();
    assert_eq!(service.select_binary(&mut store, 0, ControlOp::LatchOn), CommandStatus::Success);
    let binary = service.operate_binary(&mut store, 0, ControlOp::LatchOn);
    let analog = service.operate_analog(&mut store, 0, 2.5f64.to_bits(), "2.5");
    let samples: Vec<u64> = vec![0.1f64.to_bits()];
    let updates = service.simulate(&samples);
    let after = chrono::Utc::now().timestamp_millis();
    assert_eq!(values(&service), vec![0.0, 1.0, 0.0, 2.5, 0.0]);
    assert_eq!(binary.value, 1.0f64.to_bits());
    assert_eq!(f64::from_bits(analog.value), 2.5);
    for stamp in [binary.timestamp, analog.timestamp, updates[0].timestamp, updates[4].timestamp] {
        assert!(before <= stamp && stamp <= after);
    }
    for point in service.get_data() {
        assert_eq!(point.timestamp, updates[0].timestamp);
    }
    let logs = store.get_logs();
    assert_eq!(logs.len(), logged + 6);
    assert_eq!(logs[logged + 4].message, "[FC=04 OPERATE] AnalogOutput[0] = 2.5");
    for entry in &logs[logged..] {
        assert!(before <= entry.timestamp && entry.timestamp <= after);
    }
}

#[test]
fn simulator_stops_at_a_disconnect() {
    let (mut service, mut store) = outstation();
    assert!(service.simulator_continues());
    service.disconnect_at(&mut store, 3);
    assert!(!service.simulator_continues());
}

#[test]
fn binary_outputs_below_one_hundred_can_be_selected_for_a_latch() {
    let (service, mut store) = outstation();
    let logged = store.get_logs().len();
    assert_eq!(service.select_binary_at(&mut store, 0, ControlOp::LatchOn, 7), CommandStatus::Success);
    assert_eq!(service.select_binary_at(&mut store, 99, ControlOp::LatchOff, 8), CommandStatus::Success);
    assert_eq!(service.select_binary_at(&mut store, 100, ControlOp::LatchOn, 9), CommandStatus::NotSupported);
    assert_eq!(service.select_binary_at(&mut store, 5, ControlOp::Other, 10), CommandStatus::NotSupported);
    let logs = store.get_logs();
    assert_eq!(logs.len(), logged + 8);
    assert_eq!(logs[logged].direction, LogDirection::Rx);
    assert_eq!(logs[logged].message, "[FC=03 SELECT] BinaryOutput[0] = 1");
    assert_eq!(logs[logged].timestamp, 7);
    assert_eq!(logs[logged + 1].direction, LogDirection::Tx);
    assert_eq!(logs[logged + 1].message, "[FC=129] SELECT Success - Status: 0");
    assert_eq!(logs[logged + 2].message, "[FC=03 SELECT] BinaryOutput[99] = 0");
    assert_eq!(logs[logged + 4].message, "[FC=03 SELECT] BinaryOutput[100] = 1");
    assert_eq!(logs[logged + 6].message, "[FC=03 SELECT] BinaryOutput[5] = 0");
    let ids: Vec<u64> = logs.iter().map(|e| e.id).collect();
    assert_eq!(ids, (0..logs.len() as u64).collect::<Vec<u64>>());
    // a select changes no point
    assert_eq!(values(&service), vec![0.0; 5]);
}

#[test]
fn analog_outputs_below_one_hundred_can_be_selected() {
    let (service, _store) = outstation();
    assert_eq!(service.select_analog(0), CommandStatus::Success);
    assert_eq!(service.select_analog(99), CommandStatus::Success);
    assert_eq!(service.select_analog(100), CommandStatus::NotSupported);
    assert_eq!(service.select_analog(65535), CommandStatus::NotSupported);
}

#[test]
fn operate_sets_the_output_and_logs_the_exchange() {
    let (mut service, mut store) = outstation();
    let logged = store.get_logs().len();
    let update = service.operate_binary_at(&mut store, 0, ControlOp::LatchOn, 50);
    assert_eq!(
        update,
        DatabaseUpdate {
            point_type: DataPointType::BinaryOutput,
            index: 0,
            value: 1.0f64.to_bits(),
            state: true,
            timestamp: 50,
        }
    );
    let data = service.get_data();
    assert_eq!(f64::from_bits(data[1].value), 1.0);
    assert_eq!(data[1].quality, DataQuality::Online);
    assert_eq!(data[1].timestamp, 50);
    // the binary input with the same index is another point
    assert_eq!(data[0].value, 0);

    let update = service.operate_analog_at(&mut store, 0, 123.0f64.to_bits(), "123", 60);
    assert_eq!(update.point_type, DataPointType::AnalogOutput);
    assert_eq!(f64::from_bits(update.value), 123.0);
    assert!(update.state);
    assert_eq!(f64::from_bits(service.get_data()[3].value), 123.0);

    // an output that the table lacks is mirrored all the same
    let update = service.operate_binary_at(&mut store, 42, ControlOp::Other, 70);
    assert_eq!(update.index, 42);
    assert_eq!(update.value, 0);
    assert!(!update.state);
    assert_eq!(service.get_data().len(), 5);

    let logs = store.get_logs();
    let messages: Vec<&str> = logs[logged..].iter().map(|e| e.message.as_str()).collect();
    assert_eq!(
        messages,
        vec![
            "[FC=04 OPERATE] BinaryOutput[0] = 1",
            "[FC=129] OPERATE Success - Status: 0",
            "[FC=04 OPERATE] AnalogOutput[0] = 123",
            "[FC=129] OPERATE Success - Status: 0",
            "[FC=04 OPERATE] BinaryOutput[42] = 0",
            "[FC=129] OPERATE Success - Status: 0",
        ]
    );
    assert_eq!(logs[logged].direction, LogDirection::Rx);
    assert_eq!(logs[logged + 1].direction, LogDirection::Tx);
    // the handlers count nothing
    assert_eq!(service.get_stats().tx_count, 0);
    assert_eq!(service.get_stats().rx_count, 0);
}
