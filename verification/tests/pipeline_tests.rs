use water_plant_twin::devices::{BoilerStatus, FlowMeterStatus, MeterStatus, ValveMode, ValveStatus};
use water_plant_twin::hub::BroadcastHub;
use water_plant_twin::node::{Plc1Node, Plc2Node};
use water_plant_twin::plant::{DeviceState, Plant, PlantState};
use water_plant_twin::points::{PointStore, PointValue};
use water_plant_twin::scada;
use water_plant_twin::status_text;

#[test]
fn plant_tick_follows_topology_order_with_same_tick_upstreams() {
    let mut plant = Plant::new();
    plant.tick_with_noise(100, 0, 0, 0, 0);
    // Boiler-1 moved half a degree and produced its pressure.
    assert_eq!(plant.boiler_1.temperature, 20_500);
    let boiler_pressure = plant.boiler_1.pressure;
    assert_eq!(boiler_pressure, 20_500 / 20);
    // The meter read this tick's boiler pressure, not last tick's zero.
    assert_eq!(plant.pressure_meter_1.pressure, boiler_pressure);
    // The valve saw the same fresh pressure: ~1 bar is below the
    // setpoint band, so it closed one step.
    assert_eq!(plant.valve_1.position, 480);
    // The flow meter used this tick's pressure and the just-moved valve
    // position.
    assert_eq!(
        plant.flow_meter_1.flow_rate,
        boiler_pressure * 480 / 100
    );
    // Boiler-2 advanced too.
    assert_eq!(plant.boiler_2.temperature, 20_500);
}

#[test]
fn end_to_end_boiler_reaches_target_exactly_after_130_ticks() {
    let mut plant = Plant::new();
    for _ in 0..130 {
        plant.tick_with_noise(100, 0, 0, 0, 0);
    }
    // 65 degrees at 0.5 degrees per 100 ms tick: exactly 13 seconds.
    assert_eq!(plant.boiler_1.temperature, 85_000);
    assert!(matches!(plant.boiler_1.status, BoilerStatus::Steady));
    // One tick earlier it was still ramping.
    let mut nearly = Plant::new();
    for _ in 0..129 {
        nearly.tick_with_noise(100, 0, 0, 0, 0);
    }
    assert_eq!(nearly.boiler_1.temperature, 84_500);
    assert!(matches!(nearly.boiler_1.status, BoilerStatus::Heating));
}

#[test]
fn snapshot_is_a_fresh_copy_with_one_entry_per_device() {
    let mut plant = Plant::new();
    plant.tick_with_noise(100, 0, 0, 0, 0);
    let state = plant.get_state();
    assert_eq!(state.devices.len(), 5);
    match &state.devices[0] {
        DeviceState::Boiler(b) => {
            assert_eq!(b.id, "boiler-1");
            assert_eq!(b.temperature, plant.boiler_1.temperature);
        },
        _ => panic!("first snapshot entry is not boiler-1"),
    }
    match &state.devices[4] {
        DeviceState::Valve(v) => assert_eq!(v.id, "valve-1"),
        _ => panic!("last snapshot entry is not valve-1"),
    }
}

#[test]
fn status_text_round_trips_for_every_variant() {
    for status in [
        BoilerStatus::Off,
        BoilerStatus::Heating,
        BoilerStatus::Steady,
        BoilerStatus::Overheat,
    ] {
        let text = status_text::boiler_status_text(status);
        assert_eq!(status_text::parse_boiler_status(&text), status);
    }
    for status in [MeterStatus::Normal, MeterStatus::Warning, MeterStatus::Critical] {
        let text = status_text::meter_status_text(status);
        assert_eq!(status_text::parse_meter_status(&text), status);
    }
    for status in [FlowMeterStatus::Normal, FlowMeterStatus::Low, FlowMeterStatus::High] {
        let text = status_text::flow_meter_status_text(status);
        assert_eq!(status_text::parse_flow_meter_status(&text), status);
    }
    for status in [
        ValveStatus::Open,
        ValveStatus::Closed,
        ValveStatus::Partial,
        ValveStatus::Fault,
    ] {
        let text = status_text::valve_status_text(status);
        assert_eq!(status_text::parse_valve_status(&text), status);
    }
    for mode in [ValveMode::Manual, ValveMode::Auto] {
        let text = status_text::valve_mode_text(mode);
        assert_eq!(status_text::parse_valve_mode(&text), mode);
    }
}

#[test]
fn garbled_status_text_decodes_to_the_variant_default() {
    let garbled = "steady".to_string();
    assert_eq!(status_text::parse_boiler_status(&garbled), BoilerStatus::Off);
    assert_eq!(status_text::parse_meter_status(&garbled), MeterStatus::Normal);
    assert_eq!(
        status_text::parse_flow_meter_status(&garbled),
        FlowMeterStatus::Normal
    );
    assert_eq!(status_text::parse_valve_status(&garbled), ValveStatus::Partial);
    assert_eq!(status_text::parse_valve_mode(&garbled), ValveMode::Auto);
}

#[test]
fn point_store_reads_back_what_was_written() {
    let mut store = PointStore::new();
    let path = "PLC1.Boiler1.Temperature".to_string();
    assert!(store.write(&path, PointValue::Float(42_000), 7));
    match store.read(&path) {
        Some((PointValue::Float(v), timestamp)) => {
            assert_eq!(v, 42_000);
            assert_eq!(timestamp, 7);
        },
        _ => panic!("written point not found"),
    }
    // A later write replaces value and timestamp.
    assert!(store.write(&path, PointValue::Float(43_000), 8));
    assert_eq!(store.read_float(&path), 43_000);
}

#[test]
fn point_type_is_fixed_at_creation() {
    let mut store = PointStore::new();
    let path = "PLC1.Valve1.Mode".to_string();
    assert!(store.write(&path, PointValue::Text("Auto".to_string()), 1));
    // A numeric write to a text point is refused and changes nothing.
    assert!(!store.write(&path, PointValue::Float(5), 2));
    match store.read(&path) {
        Some((PointValue::Text(text), timestamp)) => {
            assert_eq!(text, "Auto");
            assert_eq!(timestamp, 1);
        },
        _ => panic!("text point lost its value"),
    }
}

#[test]
fn missing_or_mistyped_reads_fall_back() {
    let store = PointStore::new();
    // A missing numeric point reads as zero, the documented fallback.
    assert_eq!(store.read_float(&"PLC1.Boiler1.Pressure".to_string()), 0);
    // A missing text point reads as nothing.
    assert!(store.read_text(&"PLC1.Boiler1.Status".to_string()).is_none());
    let mut typed = PointStore::new();
    typed.write(&"p".to_string(), PointValue::Text("x".to_string()), 1);
    assert_eq!(typed.read_float(&"p".to_string()), 0);
}

#[test]
fn exposition_and_aggregation_round_trip_the_devices() {
    let mut plant = Plant::new();
    for _ in 0..10 {
        plant.tick_with_noise(100, 0, 0, 0, 0);
    }
    let mut plc1 = Plc1Node::new(&plant);
    let mut plc2 = Plc2Node::new(&plant);
    plc1.refresh_mirror(&plant);
    plc2.refresh_mirror(&plant);
    assert!(plc1.expose(11));
    assert!(plc2.expose(11));

    let snapshot = scada::poll_nodes(Some(&plc1.store), Some(&plc2.store))
        .expect("both nodes answered, a snapshot is owed");
    assert_eq!(snapshot.devices.len(), 5);
    match &snapshot.devices[0] {
        DeviceState::Boiler(b) => {
            assert_eq!(b.id, "boiler-1");
            assert_eq!(b.temperature, plant.boiler_1.temperature);
            assert_eq!(b.target_temperature, 85_000);
            assert_eq!(b.pressure, plant.boiler_1.pressure);
            assert!(matches!(b.status, BoilerStatus::Heating));
        },
        _ => panic!("expected boiler-1 first"),
    }
    match &snapshot.devices[2] {
        DeviceState::Valve(v) => {
            assert_eq!(v.id, "valve-1");
            assert_eq!(v.position, plant.valve_1.position);
            assert!(matches!(v.mode, ValveMode::Auto));
        },
        _ => panic!("expected valve-1 third"),
    }
    match &snapshot.devices[3] {
        DeviceState::Boiler(b) => {
            assert_eq!(b.id, "boiler-2");
            assert_eq!(b.temperature, plant.boiler_2.temperature);
        },
        _ => panic!("expected boiler-2 fourth"),
    }
    match &snapshot.devices[4] {
        DeviceState::FlowMeter(f) => {
            assert_eq!(f.id, "flow-meter-1");
            assert_eq!(f.total_volume, plant.flow_meter_1.total_volume);
        },
        _ => panic!("expected flow-meter-1 last"),
    }
}

#[test]
fn merge_is_the_exact_union_by_id() {
    let plant = Plant::new();
    let mut plc1 = Plc1Node::new(&plant);
    let mut plc2 = Plc2Node::new(&plant);
    assert!(plc1.expose(1));
    assert!(plc2.expose(1));
    let a = scada::read_plc1_data(&plc1.store);
    let b = scada::read_plc2_data(&plc2.store);
    let a_len = a.devices.len();
    let b_len = b.devices.len();
    let merged = scada::merge_node_states(a, b);
    assert_eq!(merged.devices.len(), a_len + b_len);
    let ids: Vec<&str> = merged
        .devices
        .iter()
        .map(|d| match d {
            DeviceState::Boiler(x) => x.id.as_str(),
            DeviceState::PressureMeter(x) => x.id.as_str(),
            DeviceState::FlowMeter(x) => x.id.as_str(),
            DeviceState::Valve(x) => x.id.as_str(),
        })
        .collect();
    assert_eq!(
        ids,
        vec!["boiler-1", "pressure-meter-1", "valve-1", "boiler-2", "flow-meter-1"]
    );
}

#[test]
fn a_cycle_with_one_node_down_publishes_nothing() {
    let plant = Plant::new();
    let mut plc1 = Plc1Node::new(&plant);
    let mut plc2 = Plc2Node::new(&plant);
    assert!(plc1.expose(1));
    assert!(plc2.expose(1));
    assert!(scada::poll_nodes(Some(&plc1.store), None).is_none());
    assert!(scada::poll_nodes(None, Some(&plc2.store)).is_none());
    assert!(scada::poll_nodes(None, None).is_none());

    let a = scada::read_plc1_data(&plc1.store);
    assert!(scada::aggregate_cycle(Some(a), None).is_none());
    let b = scada::read_plc2_data(&plc2.store);
    assert!(scada::aggregate_cycle(None, Some(b)).is_none());
}

#[test]
fn a_skipped_cycle_reaches_no_observer() {
    let mut hub = BroadcastHub::new(4);
    let mut subscriber = hub.subscribe();
    let plant = Plant::new();
    let mut plc1 = Plc1Node::new(&plant);
    assert!(plc1.expose(1));
    // Node 2 is unreachable this cycle: nothing may be published.
    if let Some(snapshot) = scada::poll_nodes(Some(&plc1.store), None) {
        hub.publish(snapshot);
    }
    assert!(hub.recv(&mut subscriber).is_none());
}

#[test]
fn aggregator_falls_back_on_unreadable_points() {
    // Stores that answered the poll but hold nothing: every numeric field
    // reads zero, every status decodes to its variant default.
    let empty1 = PointStore::new();
    let empty2 = PointStore::new();
    let snapshot = scada::poll_nodes(Some(&empty1), Some(&empty2)).unwrap();
    match &snapshot.devices[0] {
        DeviceState::Boiler(b) => {
            assert_eq!(b.temperature, 0);
            assert_eq!(b.pressure, 0);
            assert!(matches!(b.status, BoilerStatus::Off));
        },
        _ => panic!("expected boiler-1 first"),
    }
    match &snapshot.devices[1] {
        DeviceState::PressureMeter(m) => {
            assert!(matches!(m.status, MeterStatus::Normal));
        },
        _ => panic!("expected pressure-meter-1 second"),
    }
    match &snapshot.devices[2] {
        DeviceState::Valve(v) => {
            assert!(matches!(v.status, ValveStatus::Partial));
            assert!(matches!(v.mode, ValveMode::Auto));
        },
        _ => panic!("expected valve-1 third"),
    }
    match &snapshot.devices[4] {
        DeviceState::FlowMeter(f) => {
            assert!(matches!(f.status, FlowMeterStatus::Normal));
        },
        _ => panic!("expected flow-meter-1 last"),
    }
}

#[test]
fn lossy_status_fallback_survives_a_garbled_point() {
    let plant = Plant::new();
    let mut plc1 = Plc1Node::new(&plant);
    assert!(plc1.expose(1));
    // Garble the boiler status text on the wire.
    assert!(plc1.store.write(
        &"PLC1.Boiler1.Status".to_string(),
        PointValue::Text("HEATING".to_string()),
        2
    ));
    let state = scada::read_plc1_data(&plc1.store);
    match &state.devices[0] {
        DeviceState::Boiler(b) => assert!(matches!(b.status, BoilerStatus::Off)),
        _ => panic!("expected boiler-1 first"),
    }
}

#[test]
fn plant_state_clone_is_independent() {
    let plant = Plant::new();
    let state = plant.get_state();
    let copy: PlantState = state.clone();
    assert_eq!(copy.devices.len(), state.devices.len());
    match (&copy.devices[0], &state.devices[0]) {
        (DeviceState::Boiler(a), DeviceState::Boiler(b)) => {
            assert_eq!(a.id, b.id);
            assert_eq!(a.temperature, b.temperature);
        },
        _ => panic!("clone changed the first entry"),
    }
}
