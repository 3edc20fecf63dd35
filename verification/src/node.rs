//! Controller nodes: each owns a disjoint subset of the plant's devices,
//! mirrors them on its own cadence, and exposes every attribute of the
//! mirror as a named, typed, timestamped point.
//!
//! Node 1 owns Boiler-1, PressureMeter-1 and Valve-1; node 2 owns Boiler-2
//! and FlowMeter-1.

use vstd::prelude::*;

use crate::devices::{Boiler, FlowMeter, PressureMeter, Valve};
use crate::plant::Plant;
use crate::points::{accepts_float, accepts_text, float_at, lookup, text_at, PointStore, PointValue};
use crate::status_text;
use crate::status_text::{
    boiler_status_name, flow_meter_status_name, meter_status_name, valve_mode_name,
    valve_status_name,
};

verus! {

/// One of the paths node 1 exposes.
pub open spec fn is_plc1_path(path: Seq<char>) -> bool {
    ||| path == "PLC1.Boiler1.Temperature"@
    ||| path == "PLC1.Boiler1.TargetTemperature"@
    ||| path == "PLC1.Boiler1.Pressure"@
    ||| path == "PLC1.Boiler1.Status"@
    ||| path == "PLC1.PressureMeter1.Pressure"@
    ||| path == "PLC1.PressureMeter1.Status"@
    ||| path == "PLC1.Valve1.Position"@
    ||| path == "PLC1.Valve1.Mode"@
    ||| path == "PLC1.Valve1.Status"@
}

/// One of the paths node 2 exposes.
pub open spec fn is_plc2_path(path: Seq<char>) -> bool {
    ||| path == "PLC2.Boiler2.Temperature"@
    ||| path == "PLC2.Boiler2.TargetTemperature"@
    ||| path == "PLC2.Boiler2.Pressure"@
    ||| path == "PLC2.Boiler2.Status"@
    ||| path == "PLC2.FlowMeter1.FlowRate"@
    ||| path == "PLC2.FlowMeter1.TotalVolume"@
    ||| path == "PLC2.FlowMeter1.Status"@
}

/// The nine paths of node 1 are pairwise distinct.
pub proof fn lemma_plc1_paths_distinct()
    ensures
        "PLC1.Boiler1.Temperature"@.len() == 24,
        "PLC1.Boiler1.TargetTemperature"@.len() == 30,
        "PLC1.Boiler1.Pressure"@.len() == 21,
        "PLC1.Boiler1.Status"@.len() == 19,
        "PLC1.PressureMeter1.Pressure"@.len() == 28,
        "PLC1.PressureMeter1.Status"@.len() == 26,
        "PLC1.Valve1.Position"@.len() == 20,
        "PLC1.Valve1.Mode"@.len() == 16,
        "PLC1.Valve1.Status"@.len() == 18,
{
    reveal_strlit("PLC1.Boiler1.Temperature");
    reveal_strlit("PLC1.Boiler1.TargetTemperature");
    reveal_strlit("PLC1.Boiler1.Pressure");
    reveal_strlit("PLC1.Boiler1.Status");
    reveal_strlit("PLC1.PressureMeter1.Pressure");
    reveal_strlit("PLC1.PressureMeter1.Status");
    reveal_strlit("PLC1.Valve1.Position");
    reveal_strlit("PLC1.Valve1.Mode");
    reveal_strlit("PLC1.Valve1.Status");
}

/// The seven paths of node 2 are pairwise distinct: all lengths differ
/// but one pair, which differs in its sixth character.
pub proof fn lemma_plc2_paths_distinct()
    ensures
        "PLC2.Boiler2.Temperature"@.len() == 24,
        "PLC2.Boiler2.TargetTemperature"@.len() == 30,
        "PLC2.Boiler2.Pressure"@.len() == 21,
        "PLC2.Boiler2.Status"@.len() == 19,
        "PLC2.FlowMeter1.FlowRate"@.len() == 24,
        "PLC2.FlowMeter1.TotalVolume"@.len() == 27,
        "PLC2.FlowMeter1.Status"@.len() == 22,
        "PLC2.Boiler2.Temperature"@ != "PLC2.FlowMeter1.FlowRate"@,
{
    reveal_strlit("PLC2.Boiler2.Temperature");
    reveal_strlit("PLC2.Boiler2.TargetTemperature");
    reveal_strlit("PLC2.Boiler2.Pressure");
    reveal_strlit("PLC2.Boiler2.Status");
    reveal_strlit("PLC2.FlowMeter1.FlowRate");
    reveal_strlit("PLC2.FlowMeter1.TotalVolume");
    reveal_strlit("PLC2.FlowMeter1.Status");
    assert("PLC2.Boiler2.Temperature"@[5] == 'B');
    assert("PLC2.FlowMeter1.FlowRate"@[5] == 'F');
}

/// Every point of node 1 can be written: it is either still missing or
/// already of the type this node writes there.
pub open spec fn plc1_accepts(points: Seq<crate::points::Point>) -> bool {
    &&& accepts_float(points, "PLC1.Boiler1.Temperature"@)
    &&& accepts_float(points, "PLC1.Boiler1.TargetTemperature"@)
    &&& accepts_float(points, "PLC1.Boiler1.Pressure"@)
    &&& accepts_text(points, "PLC1.Boiler1.Status"@)
    &&& accepts_float(points, "PLC1.PressureMeter1.Pressure"@)
    &&& accepts_text(points, "PLC1.PressureMeter1.Status"@)
    &&& accepts_float(points, "PLC1.Valve1.Position"@)
    &&& accepts_text(points, "PLC1.Valve1.Mode"@)
    &&& accepts_text(points, "PLC1.Valve1.Status"@)
}

/// Every point of node 2 can be written: it is either still missing or
/// already of the type this node writes there.
pub open spec fn plc2_accepts(points: Seq<crate::points::Point>) -> bool {
    &&& accepts_float(points, "PLC2.Boiler2.Temperature"@)
    &&& accepts_float(points, "PLC2.Boiler2.TargetTemperature"@)
    &&& accepts_float(points, "PLC2.Boiler2.Pressure"@)
    &&& accepts_text(points, "PLC2.Boiler2.Status"@)
    &&& accepts_float(points, "PLC2.FlowMeter1.FlowRate"@)
    &&& accepts_float(points, "PLC2.FlowMeter1.TotalVolume"@)
    &&& accepts_text(points, "PLC2.FlowMeter1.Status"@)
}

/// The point store reflects the given devices of node 1, every point
/// stamped with the given write time.
pub open spec fn plc1_exposed(
    points: Seq<crate::points::Point>,
    boiler: Boiler,
    meter: PressureMeter,
    valve: Valve,
    timestamp: u64,
) -> bool {
    &&& float_at(points, "PLC1.Boiler1.Temperature"@) == boiler.temperature as int
    &&& float_at(points, "PLC1.Boiler1.TargetTemperature"@) == boiler.target_temperature as int
    &&& float_at(points, "PLC1.Boiler1.Pressure"@) == boiler.pressure as int
    &&& text_at(points, "PLC1.Boiler1.Status"@) == Some(boiler_status_name(boiler.status))
    &&& float_at(points, "PLC1.PressureMeter1.Pressure"@) == meter.pressure as int
    &&& text_at(points, "PLC1.PressureMeter1.Status"@) == Some(meter_status_name(meter.status))
    &&& float_at(points, "PLC1.Valve1.Position"@) == valve.position as int
    &&& text_at(points, "PLC1.Valve1.Mode"@) == Some(valve_mode_name(valve.mode))
    &&& text_at(points, "PLC1.Valve1.Status"@) == Some(valve_status_name(valve.status))
    &&& forall|q: Seq<char>|
        is_plc1_path(q) ==> (lookup(points, q) matches Some(p) && p.timestamp == timestamp)
    &&& plc1_accepts(points)
}

/// The point store reflects the given devices of node 2, every point
/// stamped with the given write time.
pub open spec fn plc2_exposed(
    points: Seq<crate::points::Point>,
    boiler: Boiler,
    flow_meter: FlowMeter,
    timestamp: u64,
) -> bool {
    &&& float_at(points, "PLC2.Boiler2.Temperature"@) == boiler.temperature as int
    &&& float_at(points, "PLC2.Boiler2.TargetTemperature"@) == boiler.target_temperature as int
    &&& float_at(points, "PLC2.Boiler2.Pressure"@) == boiler.pressure as int
    &&& text_at(points, "PLC2.Boiler2.Status"@) == Some(boiler_status_name(boiler.status))
    &&& float_at(points, "PLC2.FlowMeter1.FlowRate"@) == flow_meter.flow_rate as int
    &&& float_at(points, "PLC2.FlowMeter1.TotalVolume"@) == flow_meter.total_volume as int
    &&& text_at(points, "PLC2.FlowMeter1.Status"@) == Some(
        flow_meter_status_name(flow_meter.status),
    )
    &&& forall|q: Seq<char>|
        is_plc2_path(q) ==> (lookup(points, q) matches Some(p) && p.timestamp == timestamp)
    &&& plc2_accepts(points)
}

/// A node's sweep is owed success on its own store: a fresh store has no
/// point yet, and `plc1_exposed` / `plc2_exposed` carry `plc1_accepts` /
/// `plc2_accepts`, so once a sweep succeeds every later sweep does too.
pub proof fn lemma_fresh_store_accepts_exposition()
    ensures
        plc1_accepts(Seq::<crate::points::Point>::empty()),
        plc2_accepts(Seq::<crate::points::Point>::empty()),
{
}

/// Controller node 1: a read-only mirror of its owned devices and the
/// point store it exposes them through.
pub struct Plc1Node {
    pub boiler: Boiler,
    pub pressure_meter: PressureMeter,
    pub valve: Valve,
    pub store: PointStore,
}

impl Plc1Node {
    pub open spec fn wf(&self) -> bool {
        self.store.wf()
    }

    /// A new node whose mirror is copied from the plant and whose store
    /// is still empty.
    pub fn new(plant: &Plant) -> (node: Plc1Node)
        ensures
            node.wf(),
            node.boiler == plant.boiler_1,
            node.pressure_meter == plant.pressure_meter_1,
            node.valve == plant.valve_1,
            node.store.points@ == Seq::<crate::points::Point>::empty(),
    {
        Plc1Node {
            boiler: plant.boiler_1.clone(),
            pressure_meter: plant.pressure_meter_1.clone(),
            valve: plant.valve_1.clone(),
            store: PointStore::new(),
        }
    }

    /// Refreshes the mirror from the plant: a whole-device copy, never a
    /// partial one, and no alias back into the plant.
    pub fn refresh_mirror(&mut self, plant: &Plant)
        ensures
            final(self).boiler == plant.boiler_1,
            final(self).pressure_meter == plant.pressure_meter_1,
            final(self).valve == plant.valve_1,
            final(self).store == old(self).store,
    {
        self.boiler = plant.boiler_1.clone();
        self.pressure_meter = plant.pressure_meter_1.clone();
        self.valve = plant.valve_1.clone();
    }

    /// Pushes the mirror into the point store, one fresh timestamp for
    /// the whole sweep. Returns false only if some point already exists
    /// with the wrong type, which a store written solely by this node
    /// never has; paths outside this node's set are untouched either way.
    pub fn expose(&mut self, timestamp: u64) -> (accepted: bool)
        requires
            old(self).wf(),
        ensures
            final(self).wf(),
            final(self).boiler == old(self).boiler,
            final(self).pressure_meter == old(self).pressure_meter,
            final(self).valve == old(self).valve,
            accepted == plc1_accepts(old(self).store.points@),
            accepted ==> plc1_exposed(
                final(self).store.points@,
                old(self).boiler,
                old(self).pressure_meter,
                old(self).valve,
                timestamp,
            ),
            forall|q: Seq<char>|
                !is_plc1_path(q) ==> lookup(final(self).store.points@, q) == lookup(
                    old(self).store.points@,
                    q,
                ),
    {
        proof {
            lemma_plc1_paths_distinct();
        }
        let ok1 = self.store.write(
            &"PLC1.Boiler1.Temperature".to_owned(),
            PointValue::Float(self.boiler.temperature),
            timestamp,
        );
        let ok2 = self.store.write(
            &"PLC1.Boiler1.TargetTemperature".to_owned(),
            PointValue::Float(self.boiler.target_temperature),
            timestamp,
        );
        let ok3 = self.store.write(
            &"PLC1.Boiler1.Pressure".to_owned(),
            PointValue::Float(self.boiler.pressure),
            timestamp,
        );
        let ok4 = self.store.write(
            &"PLC1.Boiler1.Status".to_owned(),
            PointValue::Text(status_text::boiler_status_text(self.boiler.status)),
            timestamp,
        );
        let ok5 = self.store.write(
            &"PLC1.PressureMeter1.Pressure".to_owned(),
            PointValue::Float(self.pressure_meter.pressure),
            timestamp,
        );
        let ok6 = self.store.write(
            &"PLC1.PressureMeter1.Status".to_owned(),
            PointValue::Text(status_text::meter_status_text(self.pressure_meter.status)),
            timestamp,
        );
        let ok7 = self.store.write(
            &"PLC1.Valve1.Position".to_owned(),
            PointValue::Float(self.valve.position),
            timestamp,
        );
        let ok8 = self.store.write(
            &"PLC1.Valve1.Mode".to_owned(),
            PointValue::Text(status_text::valve_mode_text(self.valve.mode)),
            timestamp,
        );
        let ok9 = self.store.write(
            &"PLC1.Valve1.Status".to_owned(),
            PointValue::Text(status_text::valve_status_text(self.valve.status)),
            timestamp,
        );
        ok1 && ok2 && ok3 && ok4 && ok5 && ok6 && ok7 && ok8 && ok9
    }
}

/// Controller node 2: a read-only mirror of its owned devices and the
/// point store it exposes them through.
pub struct Plc2Node {
    pub boiler: Boiler,
    pub flow_meter: FlowMeter,
    pub store: PointStore,
}

impl Plc2Node {
    pub open spec fn wf(&self) -> bool {
        self.store.wf()
    }

    /// A new node whose mirror is copied from the plant and whose store
    /// is still empty.
    pub fn new(plant: &Plant) -> (node: Plc2Node)
        ensures
            node.wf(),
            node.boiler == plant.boiler_2,
            node.flow_meter == plant.flow_meter_1,
            node.store.points@ == Seq::<crate::points::Point>::empty(),
    {
        Plc2Node {
            boiler: plant.boiler_2.clone(),
            flow_meter: plant.flow_meter_1.clone(),
            store: PointStore::new(),
        }
    }

    /// Refreshes the mirror from the plant: a whole-device copy.
    pub fn refresh_mirror(&mut self, plant: &Plant)
        ensures
            final(self).boiler == plant.boiler_2,
            final(self).flow_meter == plant.flow_meter_1,
            final(self).store == old(self).store,
    {
        self.boiler = plant.boiler_2.clone();
        self.flow_meter = plant.flow_meter_1.clone();
    }

    /// Pushes the mirror into the point store, one fresh timestamp for
    /// the whole sweep.
    pub fn expose(&mut self, timestamp: u64) -> (accepted: bool)
        requires
            old(self).wf(),
        ensures
            final(self).wf(),
            final(self).boiler == old(self).boiler,
            final(self).flow_meter == old(self).flow_meter,
            accepted == plc2_accepts(old(self).store.points@),
            accepted ==> plc2_exposed(
                final(self).store.points@,
                old(self).boiler,
                old(self).flow_meter,
                timestamp,
            ),
            forall|q: Seq<char>|
                !is_plc2_path(q) ==> lookup(final(self).store.points@, q) == lookup(
                    old(self).store.points@,
                    q,
                ),
    {
        proof {
            lemma_plc2_paths_distinct();
        }
        let ok1 = self.store.write(
            &"PLC2.Boiler2.Temperature".to_owned(),
            PointValue::Float(self.boiler.temperature),
            timestamp,
        );
        let ok2 = self.store.write(
            &"PLC2.Boiler2.TargetTemperature".to_owned(),
            PointValue::Float(self.boiler.target_temperature),
            timestamp,
        );
        let ok3 = self.store.write(
            &"PLC2.Boiler2.Pressure".to_owned(),
            PointValue::Float(self.boiler.pressure),
            timestamp,
        );
        let ok4 = self.store.write(
            &"PLC2.Boiler2.Status".to_owned(),
            PointValue::Text(status_text::boiler_status_text(self.boiler.status)),
            timestamp,
        );
        let ok5 = self.store.write(
            &"PLC2.FlowMeter1.FlowRate".to_owned(),
            PointValue::Float(self.flow_meter.flow_rate),
            timestamp,
        );
        let ok6 = self.store.write(
            &"PLC2.FlowMeter1.TotalVolume".to_owned(),
            PointValue::Float(self.flow_meter.total_volume),
            timestamp,
        );
        let ok7 = self.store.write(
            &"PLC2.FlowMeter1.Status".to_owned(),
            PointValue::Text(status_text::flow_meter_status_text(self.flow_meter.status)),
            timestamp,
        );
        ok1 && ok2 && ok3 && ok4 && ok5 && ok6 && ok7
    }
}

} // verus!
