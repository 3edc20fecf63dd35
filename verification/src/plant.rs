//! The plant topology engine: the single owner of the authoritative device
//! set, advanced once per tick in the fixed causal order
//! Boiler-1, PressureMeter-1, Valve-1, FlowMeter-1, Boiler-2, each device
//! fed the already-updated output of its upstream neighbour.

use vstd::prelude::*;

use crate::devices::{
    boiler_step, flow_meter_step, meter_step, valve_step, Boiler, FlowMeter, PressureMeter, Valve,
    BOILER_NOISE, DT_LIMIT, FLOW_NOISE, METER_NOISE, TEMP_MAX, TEMP_MIN, TOTAL_VOLUME_LIMIT,
};
use crate::physics;

verus! {

/// One device of the plant, as it appears in a snapshot.
pub enum DeviceState {
    Boiler(Boiler),
    PressureMeter(PressureMeter),
    FlowMeter(FlowMeter),
    Valve(Valve),
}

/// The identifier a snapshot entry is keyed by.
pub open spec fn device_id(device: DeviceState) -> Seq<char> {
    match device {
        DeviceState::Boiler(b) => b.id@,
        DeviceState::PressureMeter(m) => m.id@,
        DeviceState::FlowMeter(f) => f.id@,
        DeviceState::Valve(v) => v.id@,
    }
}

/// No two entries carry the same device id.
pub open spec fn distinct_ids(devices: Seq<DeviceState>) -> bool {
    forall|i: int, j: int|
        0 <= i < j < devices.len() ==> device_id(devices[i]) != device_id(devices[j])
}

/// A snapshot as the mapping it stands for: each device under its id,
/// a later entry winning over an earlier one with the same id.
pub open spec fn id_map(devices: Seq<DeviceState>) -> Map<Seq<char>, DeviceState>
    decreases devices.len(),
{
    if devices.len() == 0 {
        Map::empty()
    } else {
        id_map(devices.drop_last()).insert(device_id(devices.last()), devices.last())
    }
}

/// Concatenating two snapshots unions their mappings, the right side
/// winning where ids collide; over disjoint ids it is the exact union.
pub proof fn lemma_id_map_concat(left: Seq<DeviceState>, right: Seq<DeviceState>)
    ensures
        id_map(left + right) == id_map(left).union_prefer_right(id_map(right)),
    decreases right.len(),
{
    if right.len() == 0 {
        assert(left + right =~= left);
        assert(id_map(left).union_prefer_right(id_map(right)) =~= id_map(left));
    } else {
        lemma_id_map_concat(left, right.drop_last());
        assert((left + right).drop_last() =~= left + right.drop_last());
        assert(id_map(left).union_prefer_right(id_map(right.drop_last())).insert(
            device_id(right.last()),
            right.last(),
        ) =~= id_map(left).union_prefer_right(
            id_map(right.drop_last()).insert(device_id(right.last()), right.last()),
        ));
    }
}

impl Clone for DeviceState {
    fn clone(&self) -> (copy: Self)
        ensures
            copy == *self,
    {
        match self {
            DeviceState::Boiler(b) => DeviceState::Boiler(b.clone()),
            DeviceState::PressureMeter(m) => DeviceState::PressureMeter(m.clone()),
            DeviceState::FlowMeter(f) => DeviceState::FlowMeter(f.clone()),
            DeviceState::Valve(v) => DeviceState::Valve(v.clone()),
        }
    }
}

/// A complete, immutable picture of the plant at one instant: one entry
/// per known device. Consumers replace the snapshot they hold, they never
/// mutate one in place.
pub struct PlantState {
    pub devices: Vec<DeviceState>,
}

impl View for PlantState {
    type V = Seq<DeviceState>;

    open spec fn view(&self) -> Seq<DeviceState> {
        self.devices@
    }
}

impl Clone for PlantState {
    fn clone(&self) -> (copy: Self)
        ensures
            copy@ == self@,
    {
        let devices = self.devices.clone();
        proof {
            assert(devices@ =~= self.devices@);
        }
        PlantState { devices }
    }
}

pub open spec fn boiler_1_id() -> Seq<char> {
    "boiler-1"@
}

pub open spec fn boiler_2_id() -> Seq<char> {
    "boiler-2"@
}

pub open spec fn pressure_meter_1_id() -> Seq<char> {
    "pressure-meter-1"@
}

pub open spec fn flow_meter_1_id() -> Seq<char> {
    "flow-meter-1"@
}

pub open spec fn valve_1_id() -> Seq<char> {
    "valve-1"@
}

/// The authoritative simulation state: five devices in a fixed topology.
pub struct Plant {
    pub boiler_1: Boiler,
    pub boiler_2: Boiler,
    pub pressure_meter_1: PressureMeter,
    pub flow_meter_1: FlowMeter,
    pub valve_1: Valve,
}

/// The whole plant after one deterministic tick. The devices advance in
/// the fixed order Boiler-1, PressureMeter-1, Valve-1, FlowMeter-1,
/// Boiler-2, and every upstream argument is the output the predecessor
/// produced in this same tick, never a stale value.
pub open spec fn plant_step(p: Plant, dt: int, n1: int, n2: int, n3: int, n4: int) -> Plant {
    let boiler_1 = boiler_step(p.boiler_1, dt, n1);
    let pressure_meter_1 = meter_step(p.pressure_meter_1, boiler_1.pressure as int, n2);
    let valve_1 = valve_step(p.valve_1, boiler_1.pressure as int);
    let flow_meter_1 = flow_meter_step(
        p.flow_meter_1,
        dt,
        boiler_1.pressure as int,
        valve_1.position as int,
        n3,
    );
    let boiler_2 = boiler_step(p.boiler_2, dt, n4);
    Plant { boiler_1, boiler_2, pressure_meter_1, flow_meter_1, valve_1 }
}

impl Plant {
    /// Every device is within its physical ranges and keeps its assigned,
    /// globally unique id.
    pub open spec fn wf(&self) -> bool {
        &&& self.boiler_1.wf()
        &&& self.boiler_2.wf()
        &&& self.pressure_meter_1.wf()
        &&& self.flow_meter_1.wf()
        &&& self.valve_1.wf()
        &&& self.boiler_1.id@ == boiler_1_id()
        &&& self.boiler_2.id@ == boiler_2_id()
        &&& self.pressure_meter_1.id@ == pressure_meter_1_id()
        &&& self.flow_meter_1.id@ == flow_meter_1_id()
        &&& self.valve_1.id@ == valve_1_id()
    }

    pub fn new() -> (plant: Plant)
        ensures
            plant.wf(),
            plant.boiler_1.temperature == 20_000,
            plant.boiler_1.target_temperature == 85_000,
            plant.boiler_1.pressure == 0,
            plant.boiler_1.status == crate::devices::BoilerStatus::Off,
            plant.boiler_2.temperature == 20_000,
            plant.boiler_2.target_temperature == 75_000,
            plant.boiler_2.pressure == 0,
            plant.boiler_2.status == crate::devices::BoilerStatus::Off,
            plant.pressure_meter_1.pressure == 0,
            plant.pressure_meter_1.status == crate::devices::MeterStatus::Normal,
            plant.flow_meter_1.flow_rate == 0,
            plant.flow_meter_1.total_volume == 0,
            plant.flow_meter_1.status == crate::devices::FlowMeterStatus::Normal,
            plant.valve_1.position == 500,
            plant.valve_1.mode == crate::devices::ValveMode::Auto,
            plant.valve_1.status == crate::devices::ValveStatus::Partial,
    {
        Plant {
            boiler_1: Boiler::new("boiler-1".to_owned(), 85_000),
            boiler_2: Boiler::new("boiler-2".to_owned(), 75_000),
            pressure_meter_1: PressureMeter::new("pressure-meter-1".to_owned()),
            flow_meter_1: FlowMeter::new("flow-meter-1".to_owned()),
            valve_1: Valve::new("valve-1".to_owned()),
        }
    }

    /// One deterministic tick with the four measurement disturbances
    /// injected: the reproducible seam for testing.
    pub fn tick_with_noise(&mut self, dt: i64, n1: i64, n2: i64, n3: i64, n4: i64)
        requires
            old(self).wf(),
            old(self).flow_meter_1.total_volume <= TOTAL_VOLUME_LIMIT,
            0 <= dt <= DT_LIMIT,
            -BOILER_NOISE <= n1 <= BOILER_NOISE,
            -METER_NOISE <= n2 <= METER_NOISE,
            -FLOW_NOISE <= n3 <= FLOW_NOISE,
            -BOILER_NOISE <= n4 <= BOILER_NOISE,
        ensures
            *final(self) == plant_step(*old(self), dt as int, n1 as int, n2 as int, n3 as int, n4 as int),
            final(self).wf(),
    {
        self.boiler_1.tick_with_noise(dt, n1);
        let upstream_pressure: i64 = self.boiler_1.pressure;
        self.pressure_meter_1.tick_with_noise(upstream_pressure, n2);
        self.valve_1.tick(upstream_pressure);
        let valve_position: i64 = self.valve_1.position;
        self.flow_meter_1.tick_with_noise(dt, upstream_pressure, valve_position, n3);
        self.boiler_2.tick_with_noise(dt, n4);
    }

    /// One tick of `dt` milliseconds with freshly drawn disturbances, in
    /// the fixed topology order, each device fed its predecessor's
    /// same-tick output.
    pub fn tick(&mut self, dt: i64)
        requires
            old(self).wf(),
            old(self).flow_meter_1.total_volume <= TOTAL_VOLUME_LIMIT,
            0 <= dt <= DT_LIMIT,
        ensures
            exists|n1: int, n2: int, n3: int, n4: int|
                {
                    &&& -BOILER_NOISE <= n1 <= BOILER_NOISE
                    &&& -METER_NOISE <= n2 <= METER_NOISE
                    &&& -FLOW_NOISE <= n3 <= FLOW_NOISE
                    &&& -BOILER_NOISE <= n4 <= BOILER_NOISE
                    &&& *final(self) == plant_step(*old(self), dt as int, n1, n2, n3, n4)
                },
            final(self).wf(),
    {
        let n1: i64 = physics::draw_noise(BOILER_NOISE);
        let n2: i64 = physics::draw_noise(METER_NOISE);
        let n3: i64 = physics::draw_noise(FLOW_NOISE);
        let n4: i64 = physics::draw_noise(BOILER_NOISE);
        self.tick_with_noise(dt, n1, n2, n3, n4);
    }

    /// A fresh snapshot of the current device states. Nothing in the
    /// result aliases the plant's own devices: a reader holds a copy.
    pub fn get_state(&self) -> (state: PlantState)
        requires
            self.wf(),
        ensures
            state@ == seq![
                DeviceState::Boiler(self.boiler_1),
                DeviceState::Boiler(self.boiler_2),
                DeviceState::PressureMeter(self.pressure_meter_1),
                DeviceState::FlowMeter(self.flow_meter_1),
                DeviceState::Valve(self.valve_1),
            ],
            distinct_ids(state@),
    {
        let mut devices: Vec<DeviceState> = Vec::new();
        devices.push(DeviceState::Boiler(self.boiler_1.clone()));
        devices.push(DeviceState::Boiler(self.boiler_2.clone()));
        devices.push(DeviceState::PressureMeter(self.pressure_meter_1.clone()));
        devices.push(DeviceState::FlowMeter(self.flow_meter_1.clone()));
        devices.push(DeviceState::Valve(self.valve_1.clone()));
        proof {
            assert(devices@ =~= seq![
                DeviceState::Boiler(self.boiler_1),
                DeviceState::Boiler(self.boiler_2),
                DeviceState::PressureMeter(self.pressure_meter_1),
                DeviceState::FlowMeter(self.flow_meter_1),
                DeviceState::Valve(self.valve_1),
            ]);
            lemma_plant_ids_distinct();
        }
        PlantState { devices }
    }
}

/// The five device identifiers of the plant are pairwise distinct, so a
/// snapshot keyed by id never collides.
pub proof fn lemma_plant_ids_distinct()
    ensures
        boiler_1_id() != boiler_2_id(),
        boiler_1_id() != pressure_meter_1_id(),
        boiler_1_id() != flow_meter_1_id(),
        boiler_1_id() != valve_1_id(),
        boiler_2_id() != pressure_meter_1_id(),
        boiler_2_id() != flow_meter_1_id(),
        boiler_2_id() != valve_1_id(),
        pressure_meter_1_id() != flow_meter_1_id(),
        pressure_meter_1_id() != valve_1_id(),
        flow_meter_1_id() != valve_1_id(),
{
    reveal_strlit("boiler-1");
    reveal_strlit("boiler-2");
    reveal_strlit("pressure-meter-1");
    reveal_strlit("flow-meter-1");
    reveal_strlit("valve-1");
    assert(boiler_1_id().len() == 8);
    assert(boiler_2_id().len() == 8);
    assert(pressure_meter_1_id().len() == 16);
    assert(flow_meter_1_id().len() == 12);
    assert(valve_1_id().len() == 7);
    assert(boiler_1_id()[7] == '1');
    assert(boiler_2_id()[7] == '2');
}

} // verus!
