//! Status values as text, the way a controller node exposes them and the
//! aggregator reads them back.
//!
//! Encoding is exact; decoding matches case-sensitively against the known
//! names of the variant and falls back to the variant's documented default
//! on anything else. The fallback is deliberately lossy: a garbled status
//! is replaced by the default, never reported as an error.

use vstd::prelude::*;

use crate::devices::{BoilerStatus, FlowMeterStatus, MeterStatus, ValveMode, ValveStatus};

verus! {

pub open spec fn boiler_status_name(status: BoilerStatus) -> Seq<char> {
    match status {
        BoilerStatus::Off => "Off"@,
        BoilerStatus::Heating => "Heating"@,
        BoilerStatus::Steady => "Steady"@,
        BoilerStatus::Overheat => "Overheat"@,
    }
}

pub open spec fn meter_status_name(status: MeterStatus) -> Seq<char> {
    match status {
        MeterStatus::Normal => "Normal"@,
        MeterStatus::Warning => "Warning"@,
        MeterStatus::Critical => "Critical"@,
    }
}

pub open spec fn flow_meter_status_name(status: FlowMeterStatus) -> Seq<char> {
    match status {
        FlowMeterStatus::Normal => "Normal"@,
        FlowMeterStatus::Low => "Low"@,
        FlowMeterStatus::High => "High"@,
    }
}

pub open spec fn valve_status_name(status: ValveStatus) -> Seq<char> {
    match status {
        ValveStatus::Open => "Open"@,
        ValveStatus::Closed => "Closed"@,
        ValveStatus::Partial => "Partial"@,
        ValveStatus::Fault => "Fault"@,
    }
}

pub open spec fn valve_mode_name(mode: ValveMode) -> Seq<char> {
    match mode {
        ValveMode::Manual => "Manual"@,
        ValveMode::Auto => "Auto"@,
    }
}

/// Case-sensitive decoding of a boiler status; anything unrecognized is
/// the default `Off`.
pub open spec fn parse_boiler_status_text(text: Seq<char>) -> BoilerStatus {
    if text == "Off"@ {
        BoilerStatus::Off
    } else if text == "Heating"@ {
        BoilerStatus::Heating
    } else if text == "Steady"@ {
        BoilerStatus::Steady
    } else if text == "Overheat"@ {
        BoilerStatus::Overheat
    } else {
        BoilerStatus::Off
    }
}

/// Case-sensitive decoding of a meter status; the default is `Normal`.
pub open spec fn parse_meter_status_text(text: Seq<char>) -> MeterStatus {
    if text == "Normal"@ {
        MeterStatus::Normal
    } else if text == "Warning"@ {
        MeterStatus::Warning
    } else if text == "Critical"@ {
        MeterStatus::Critical
    } else {
        MeterStatus::Normal
    }
}

/// Case-sensitive decoding of a flow-meter status; the default is
/// `Normal`.
pub open spec fn parse_flow_meter_status_text(text: Seq<char>) -> FlowMeterStatus {
    if text == "Normal"@ {
        FlowMeterStatus::Normal
    } else if text == "Low"@ {
        FlowMeterStatus::Low
    } else if text == "High"@ {
        FlowMeterStatus::High
    } else {
        FlowMeterStatus::Normal
    }
}

/// Case-sensitive decoding of a valve status; the default is `Partial`.
pub open spec fn parse_valve_status_text(text: Seq<char>) -> ValveStatus {
    if text == "Open"@ {
        ValveStatus::Open
    } else if text == "Closed"@ {
        ValveStatus::Closed
    } else if text == "Partial"@ {
        ValveStatus::Partial
    } else if text == "Fault"@ {
        ValveStatus::Fault
    } else {
        ValveStatus::Partial
    }
}

/// Case-sensitive decoding of a valve mode; the default is `Auto`.
pub open spec fn parse_valve_mode_text(text: Seq<char>) -> ValveMode {
    if text == "Manual"@ {
        ValveMode::Manual
    } else if text == "Auto"@ {
        ValveMode::Auto
    } else {
        ValveMode::Auto
    }
}

pub fn boiler_status_text(status: BoilerStatus) -> (text: String)
    ensures
        text@ == boiler_status_name(status),
{
    match status {
        BoilerStatus::Off => "Off".to_owned(),
        BoilerStatus::Heating => "Heating".to_owned(),
        BoilerStatus::Steady => "Steady".to_owned(),
        BoilerStatus::Overheat => "Overheat".to_owned(),
    }
}

pub fn meter_status_text(status: MeterStatus) -> (text: String)
    ensures
        text@ == meter_status_name(status),
{
    match status {
        MeterStatus::Normal => "Normal".to_owned(),
        MeterStatus::Warning => "Warning".to_owned(),
        MeterStatus::Critical => "Critical".to_owned(),
    }
}

pub fn flow_meter_status_text(status: FlowMeterStatus) -> (text: String)
    ensures
        text@ == flow_meter_status_name(status),
{
    match status {
        FlowMeterStatus::Normal => "Normal".to_owned(),
        FlowMeterStatus::Low => "Low".to_owned(),
        FlowMeterStatus::High => "High".to_owned(),
    }
}

pub fn valve_status_text(status: ValveStatus) -> (text: String)
    ensures
        text@ == valve_status_name(status),
{
    match status {
        ValveStatus::Open => "Open".to_owned(),
        ValveStatus::Closed => "Closed".to_owned(),
        ValveStatus::Partial => "Partial".to_owned(),
        ValveStatus::Fault => "Fault".to_owned(),
    }
}

pub fn valve_mode_text(mode: ValveMode) -> (text: String)
    ensures
        text@ == valve_mode_name(mode),
{
    match mode {
        ValveMode::Manual => "Manual".to_owned(),
        ValveMode::Auto => "Auto".to_owned(),
    }
}

pub fn parse_boiler_status(text: &String) -> (status: BoilerStatus)
    ensures
        status == parse_boiler_status_text(text@),
{
    if *text == "Off".to_owned() {
        BoilerStatus::Off
    } else if *text == "Heating".to_owned() {
        BoilerStatus::Heating
    } else if *text == "Steady".to_owned() {
        BoilerStatus::Steady
    } else if *text == "Overheat".to_owned() {
        BoilerStatus::Overheat
    } else {
        BoilerStatus::Off
    }
}

pub fn parse_meter_status(text: &String) -> (status: MeterStatus)
    ensures
        status == parse_meter_status_text(text@),
{
    if *text == "Normal".to_owned() {
        MeterStatus::Normal
    } else if *text == "Warning".to_owned() {
        MeterStatus::Warning
    } else if *text == "Critical".to_owned() {
        MeterStatus::Critical
    } else {
        MeterStatus::Normal
    }
}

pub fn parse_flow_meter_status(text: &String) -> (status: FlowMeterStatus)
    ensures
        status == parse_flow_meter_status_text(text@),
{
    if *text == "Normal".to_owned() {
        FlowMeterStatus::Normal
    } else if *text == "Low".to_owned() {
        FlowMeterStatus::Low
    } else if *text == "High".to_owned() {
        FlowMeterStatus::High
    } else {
        FlowMeterStatus::Normal
    }
}

pub fn parse_valve_status(text: &String) -> (status: ValveStatus)
    ensures
        status == parse_valve_status_text(text@),
{
    if *text == "Open".to_owned() {
        ValveStatus::Open
    } else if *text == "Closed".to_owned() {
        ValveStatus::Closed
    } else if *text == "Partial".to_owned() {
        ValveStatus::Partial
    } else if *text == "Fault".to_owned() {
        ValveStatus::Fault
    } else {
        ValveStatus::Partial
    }
}

pub fn parse_valve_mode(text: &String) -> (mode: ValveMode)
    ensures
        mode == parse_valve_mode_text(text@),
{
    if *text == "Manual".to_owned() {
        ValveMode::Manual
    } else if *text == "Auto".to_owned() {
        ValveMode::Auto
    } else {
        ValveMode::Auto
    }
}

/// Encoding a boiler status and decoding the text gives the status back,
/// for every variant: the text round-trip loses nothing on valid names.
pub proof fn lemma_boiler_status_round_trip(status: BoilerStatus)
    ensures
        parse_boiler_status_text(boiler_status_name(status)) == status,
{
    reveal_strlit("Off");
    reveal_strlit("Heating");
    reveal_strlit("Steady");
    reveal_strlit("Overheat");
    assert("Off"@.len() == 3);
    assert("Heating"@.len() == 7);
    assert("Steady"@.len() == 6);
    assert("Overheat"@.len() == 8);
}

/// The meter status text round-trip loses nothing on valid names.
pub proof fn lemma_meter_status_round_trip(status: MeterStatus)
    ensures
        parse_meter_status_text(meter_status_name(status)) == status,
{
    reveal_strlit("Normal");
    reveal_strlit("Warning");
    reveal_strlit("Critical");
    assert("Normal"@.len() == 6);
    assert("Warning"@.len() == 7);
    assert("Critical"@.len() == 8);
}

/// The flow-meter status text round-trip loses nothing on valid names.
pub proof fn lemma_flow_meter_status_round_trip(status: FlowMeterStatus)
    ensures
        parse_flow_meter_status_text(flow_meter_status_name(status)) == status,
{
    reveal_strlit("Normal");
    reveal_strlit("Low");
    reveal_strlit("High");
    assert("Normal"@.len() == 6);
    assert("Low"@.len() == 3);
    assert("High"@.len() == 4);
}

/// The valve status text round-trip loses nothing on valid names.
pub proof fn lemma_valve_status_round_trip(status: ValveStatus)
    ensures
        parse_valve_status_text(valve_status_name(status)) == status,
{
    reveal_strlit("Open");
    reveal_strlit("Closed");
    reveal_strlit("Partial");
    reveal_strlit("Fault");
    assert("Open"@.len() == 4);
    assert("Closed"@.len() == 6);
    assert("Partial"@.len() == 7);
    assert("Fault"@.len() == 5);
}

/// The valve mode text round-trip loses nothing on valid names.
pub proof fn lemma_valve_mode_round_trip(mode: ValveMode)
    ensures
        parse_valve_mode_text(valve_mode_name(mode)) == mode,
{
    reveal_strlit("Manual");
    reveal_strlit("Auto");
    assert("Manual"@.len() == 6);
    assert("Auto"@.len() == 4);
}

} // verus!
