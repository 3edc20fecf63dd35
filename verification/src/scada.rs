//! The aggregator: polls both controller nodes' point stores, rebuilds a
//! typed device record from each node's raw scalar and text reads, and
//! merges the two halves into one unified snapshot.
//!
//! A failed or mistyped numeric read falls back to zero; a failed or
//! unrecognized status read falls back to the variant's default. A cycle
//! in which either node is unreachable publishes nothing at all: no
//! partial snapshot ever goes out.

use vstd::prelude::*;

use crate::devices::{Boiler, BoilerStatus, FlowMeter, PressureMeter, Valve};
use crate::plant::{
    boiler_1_id, boiler_2_id, device_id, distinct_ids, flow_meter_1_id, id_map,
    lemma_id_map_concat, lemma_plant_ids_distinct, pressure_meter_1_id, valve_1_id, DeviceState,
    PlantState,
};
use crate::points::{float_at, text_at, Point, PointStore};
use crate::status_text;
use crate::status_text::{
    parse_boiler_status_text, parse_flow_meter_status_text, parse_meter_status_text,
    parse_valve_mode_text, parse_valve_status_text,
};

verus! {

/// The boiler status a status point decodes to: the parsed text, or the
/// default `Off` when the point is missing or not text.
pub open spec fn boiler_status_from(points: Seq<Point>, path: Seq<char>) -> BoilerStatus {
    match text_at(points, path) {
        Some(t) => parse_boiler_status_text(t),
        None => BoilerStatus::Off,
    }
}

/// The meter status a status point decodes to, default `Normal`.
pub open spec fn meter_status_from(points: Seq<Point>, path: Seq<char>)
    -> crate::devices::MeterStatus {
    match text_at(points, path) {
        Some(t) => parse_meter_status_text(t),
        None => crate::devices::MeterStatus::Normal,
    }
}

/// The flow-meter status a status point decodes to, default `Normal`.
pub open spec fn flow_status_from(points: Seq<Point>, path: Seq<char>)
    -> crate::devices::FlowMeterStatus {
    match text_at(points, path) {
        Some(t) => parse_flow_meter_status_text(t),
        None => crate::devices::FlowMeterStatus::Normal,
    }
}

/// The valve status a status point decodes to, default `Partial`.
pub open spec fn valve_status_from(points: Seq<Point>, path: Seq<char>)
    -> crate::devices::ValveStatus {
    match text_at(points, path) {
        Some(t) => parse_valve_status_text(t),
        None => crate::devices::ValveStatus::Partial,
    }
}

/// The valve mode a mode point decodes to, default `Auto`.
pub open spec fn valve_mode_from(points: Seq<Point>, path: Seq<char>)
    -> crate::devices::ValveMode {
    match text_at(points, path) {
        Some(t) => parse_valve_mode_text(t),
        None => crate::devices::ValveMode::Auto,
    }
}

/// The device records the aggregator rebuilds from node 1's points:
/// Boiler-1, PressureMeter-1, Valve-1, every field from the store with
/// the documented fallbacks.
pub open spec fn plc1_devices_view(points: Seq<Point>, devices: Seq<DeviceState>) -> bool {
    &&& devices.len() == 3
    &&& (devices[0] matches DeviceState::Boiler(b) && {
        &&& b.id@ == boiler_1_id()
        &&& b.temperature as int == float_at(points, "PLC1.Boiler1.Temperature"@)
        &&& b.target_temperature as int == float_at(points, "PLC1.Boiler1.TargetTemperature"@)
        &&& b.pressure as int == float_at(points, "PLC1.Boiler1.Pressure"@)
        &&& b.status == boiler_status_from(points, "PLC1.Boiler1.Status"@)
    })
    &&& (devices[1] matches DeviceState::PressureMeter(m) && {
        &&& m.id@ == pressure_meter_1_id()
        &&& m.pressure as int == float_at(points, "PLC1.PressureMeter1.Pressure"@)
        &&& m.status == meter_status_from(points, "PLC1.PressureMeter1.Status"@)
    })
    &&& (devices[2] matches DeviceState::Valve(v) && {
        &&& v.id@ == valve_1_id()
        &&& v.position as int == float_at(points, "PLC1.Valve1.Position"@)
        &&& v.mode == valve_mode_from(points, "PLC1.Valve1.Mode"@)
        &&& v.status == valve_status_from(points, "PLC1.Valve1.Status"@)
    })
}

/// The device records the aggregator rebuilds from node 2's points:
/// Boiler-2 and FlowMeter-1.
pub open spec fn plc2_devices_view(points: Seq<Point>, devices: Seq<DeviceState>) -> bool {
    &&& devices.len() == 2
    &&& (devices[0] matches DeviceState::Boiler(b) && {
        &&& b.id@ == boiler_2_id()
        &&& b.temperature as int == float_at(points, "PLC2.Boiler2.Temperature"@)
        &&& b.target_temperature as int == float_at(points, "PLC2.Boiler2.TargetTemperature"@)
        &&& b.pressure as int == float_at(points, "PLC2.Boiler2.Pressure"@)
        &&& b.status == boiler_status_from(points, "PLC2.Boiler2.Status"@)
    })
    &&& (devices[1] matches DeviceState::FlowMeter(f) && {
        &&& f.id@ == flow_meter_1_id()
        &&& f.flow_rate as int == float_at(points, "PLC2.FlowMeter1.FlowRate"@)
        &&& f.total_volume as int == float_at(points, "PLC2.FlowMeter1.TotalVolume"@)
        &&& f.status == flow_status_from(points, "PLC2.FlowMeter1.Status"@)
    })
}

/// No id occurs on both sides: the premise under which a union by id is
/// collision-free.
pub open spec fn disjoint_ids(left: Seq<DeviceState>, right: Seq<DeviceState>) -> bool {
    forall|i: int, j: int|
        0 <= i < left.len() && 0 <= j < right.len() ==> device_id(left[i]) != device_id(right[j])
}

/// One batched read of every point of node 1, rebuilt into typed records.
pub fn read_plc1_data(store: &PointStore) -> (state: PlantState)
    requires
        store.wf(),
    ensures
        plc1_devices_view(store.points@, state@),
        distinct_ids(state@),
{
    let boiler = Boiler {
        id: "boiler-1".to_owned(),
        temperature: store.read_float(&"PLC1.Boiler1.Temperature".to_owned()),
        target_temperature: store.read_float(&"PLC1.Boiler1.TargetTemperature".to_owned()),
        pressure: store.read_float(&"PLC1.Boiler1.Pressure".to_owned()),
        status: match store.read_text(&"PLC1.Boiler1.Status".to_owned()) {
            Some(text) => status_text::parse_boiler_status(&text),
            None => BoilerStatus::Off,
        },
    };
    let meter = PressureMeter {
        id: "pressure-meter-1".to_owned(),
        pressure: store.read_float(&"PLC1.PressureMeter1.Pressure".to_owned()),
        status: match store.read_text(&"PLC1.PressureMeter1.Status".to_owned()) {
            Some(text) => status_text::parse_meter_status(&text),
            None => crate::devices::MeterStatus::Normal,
        },
    };
    let valve = Valve {
        id: "valve-1".to_owned(),
        position: store.read_float(&"PLC1.Valve1.Position".to_owned()),
        mode: match store.read_text(&"PLC1.Valve1.Mode".to_owned()) {
            Some(text) => status_text::parse_valve_mode(&text),
            None => crate::devices::ValveMode::Auto,
        },
        status: match store.read_text(&"PLC1.Valve1.Status".to_owned()) {
            Some(text) => status_text::parse_valve_status(&text),
            None => crate::devices::ValveStatus::Partial,
        },
    };
    let mut devices: Vec<DeviceState> = Vec::new();
    devices.push(DeviceState::Boiler(boiler));
    devices.push(DeviceState::PressureMeter(meter));
    devices.push(DeviceState::Valve(valve));
    proof {
        lemma_plant_ids_distinct();
    }
    PlantState { devices }
}

/// One batched read of every point of node 2, rebuilt into typed records.
pub fn read_plc2_data(store: &PointStore) -> (state: PlantState)
    requires
        store.wf(),
    ensures
        plc2_devices_view(store.points@, state@),
        distinct_ids(state@),
{
    let boiler = Boiler {
        id: "boiler-2".to_owned(),
        temperature: store.read_float(&"PLC2.Boiler2.Temperature".to_owned()),
        target_temperature: store.read_float(&"PLC2.Boiler2.TargetTemperature".to_owned()),
        pressure: store.read_float(&"PLC2.Boiler2.Pressure".to_owned()),
        status: match store.read_text(&"PLC2.Boiler2.Status".to_owned()) {
            Some(text) => status_text::parse_boiler_status(&text),
            None => BoilerStatus::Off,
        },
    };
    let flow_meter = FlowMeter {
        id: "flow-meter-1".to_owned(),
        flow_rate: store.read_float(&"PLC2.FlowMeter1.FlowRate".to_owned()),
        total_volume: store.read_float(&"PLC2.FlowMeter1.TotalVolume".to_owned()),
        status: match store.read_text(&"PLC2.FlowMeter1.Status".to_owned()) {
            Some(text) => status_text::parse_flow_meter_status(&text),
            None => crate::devices::FlowMeterStatus::Normal,
        },
    };
    let mut devices: Vec<DeviceState> = Vec::new();
    devices.push(DeviceState::Boiler(boiler));
    devices.push(DeviceState::FlowMeter(flow_meter));
    proof {
        lemma_plant_ids_distinct();
    }
    PlantState { devices }
}

/// The union by id of two per-node device sets whose ids are disjoint:
/// exactly the devices of both, in order, nothing dropped and nothing
/// overwritten.
pub fn merge_node_states(plc1: PlantState, plc2: PlantState) -> (merged: PlantState)
    requires
        distinct_ids(plc1@),
        distinct_ids(plc2@),
        disjoint_ids(plc1@, plc2@),
    ensures
        merged@ == plc1@ + plc2@,
        id_map(merged@) == id_map(plc1@).union_prefer_right(id_map(plc2@)),
        distinct_ids(merged@),
{
    let ghost left = plc1.devices@;
    let ghost right = plc2.devices@;
    let mut devices = plc1.devices;
    let mut rest = plc2.devices;
    devices.append(&mut rest);
    proof {
        assert(devices@ =~= left + right);
        lemma_id_map_concat(left, right);
        assert forall|i: int, j: int|
            0 <= i < j < devices@.len() implies device_id(devices@[i]) != device_id(
            devices@[j],
        ) by {
            if j < left.len() {
                assert(devices@[i] == left[i]);
                assert(devices@[j] == left[j]);
            } else if i >= left.len() {
                assert(devices@[i] == right[i - left.len()]);
                assert(devices@[j] == right[j - left.len()]);
            } else {
                assert(devices@[i] == left[i]);
                assert(devices@[j] == right[j - left.len()]);
            }
        }
    }
    PlantState { devices }
}

/// One aggregation cycle over the two nodes' read results. A snapshot is
/// published exactly when both nodes answered; one missing node skips the
/// cycle entirely, it never yields a partial snapshot.
pub fn aggregate_cycle(plc1: Option<PlantState>, plc2: Option<PlantState>) -> (snapshot: Option<
    PlantState,
>)
    requires
        match (plc1, plc2) {
            (Some(a), Some(b)) => distinct_ids(a@) && distinct_ids(b@) && disjoint_ids(a@, b@),
            _ => true,
        },
    ensures
        snapshot is Some <==> (plc1 is Some && plc2 is Some),
        match (plc1, plc2) {
            (Some(a), Some(b)) => (snapshot matches Some(s) && s@ == a@ + b@ && id_map(s@)
                == id_map(a@).union_prefer_right(id_map(b@)) && distinct_ids(s@)),
            _ => snapshot is None,
        },
{
    match (plc1, plc2) {
        (Some(a), Some(b)) => Some(merge_node_states(a, b)),
        _ => None,
    }
}

/// One full poll: read whichever nodes are reachable and publish their
/// union, or nothing if either side failed this cycle.
pub fn poll_nodes(plc1_store: Option<&PointStore>, plc2_store: Option<&PointStore>) -> (snapshot:
    Option<PlantState>)
    requires
        plc1_store matches Some(s1) ==> s1.wf(),
        plc2_store matches Some(s2) ==> s2.wf(),
    ensures
        snapshot is Some <==> (plc1_store is Some && plc2_store is Some),
        match (plc1_store, plc2_store) {
            (Some(s1), Some(s2)) => (snapshot matches Some(s) && {
                &&& s@.len() == 5
                &&& plc1_devices_view(s1.points@, s@.take(3))
                &&& plc2_devices_view(s2.points@, s@.skip(3))
                &&& distinct_ids(s@)
            }),
            _ => snapshot is None,
        },
{
    match (plc1_store, plc2_store) {
        (Some(s1), Some(s2)) => {
            let a = read_plc1_data(s1);
            let b = read_plc2_data(s2);
            proof {
                lemma_plant_ids_distinct();
            }
            let merged = merge_node_states(a, b);
            proof {
                assert(merged@.take(3) =~= merged@.subrange(0, 3));
                assert(merged@.skip(3) =~= merged@.subrange(3, 5));
            }
            Some(merged)
        },
        _ => None,
    }
}

} // verus!
