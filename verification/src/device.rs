//! Device types of the fleet and per-device work modes, with the textual
//! forms the configuration and the kernel use.

use vstd::prelude::*;
use crate::text::str_eq;

verus! {

/// Kind of a device in the topology.
#[derive(Clone, Copy, PartialEq, Eq, Structural, Debug)]
pub enum DeviceType {
    /// A bus.
    Node,
    Line,
    Transformer,
    Switch,
    /// A photovoltaic generator.
    Pv,
    Storage,
    Load,
    Charger,
    Meter,
    ExternalGrid,
}

/// How a device's simulated data is produced.
#[derive(Clone, Copy, PartialEq, Eq, Structural, Debug)]
pub enum WorkMode {
    RandomData,
    Manual,
    Remote,
    HistoricalData,
}

/// Whether `a` reads as `b` once ASCII upper-case letters are lowered;
/// `b` is expected lower-case already.
pub open spec fn lower_eq(a: Seq<char>, b: Seq<char>) -> bool {
    a.len() == b.len() && forall|i: int|
        0 <= i < a.len() ==> lower_char_eq(#[trigger] a[i], b[i])
}

/// Whether lowering `x` yields `y`.
pub open spec fn lower_char_eq(x: char, y: char) -> bool {
    if 'A' <= x && x <= 'Z' {
        y as u32 == x as u32 + 32
    } else {
        y == x
    }
}

/// Compares a string against a lower-case one, ignoring ASCII case.
fn str_eq_lower(s: &str, lower: &str) -> (r: bool)
    ensures
        r == lower_eq(s@, lower@),
{
    let n = s.unicode_len();
    if n != lower.unicode_len() {
        return false;
    }
    let mut i: usize = 0;
    while i < n
        invariant
            i <= n,
            n == s@.len(),
            n == lower@.len(),
            forall|j: int| 0 <= j < i ==> lower_char_eq(#[trigger] s@[j], lower@[j]),
        decreases n - i,
    {
        let c = s.get_char(i);
        let l = lower.get_char(i);
        let cu = c as u32;
        let lu = l as u32;
        let matches_here: bool = if cu >= 65 && cu <= 90 {
            lu == cu + 32
        } else {
            lu == cu
        };
        proof {
            assert(('A' <= c && c <= 'Z') <==> (65 <= cu <= 90));
            assert((l as u32 == c as u32 + 32) <==> (lu == cu + 32));
            assert((l == c) <==> (lu == cu));
        }
        if !matches_here {
            return false;
        }
        i += 1;
    }
    true
}

/// The device type a configuration name denotes, compared without regard
/// to ASCII case; several aliases are accepted.
pub open spec fn spec_parse_device_type(s: Seq<char>) -> Option<DeviceType> {
    if lower_eq(s, "bus"@) || lower_eq(s, "node"@) {
        Some(DeviceType::Node)
    } else if lower_eq(s, "line"@) {
        Some(DeviceType::Line)
    } else if lower_eq(s, "transformer"@) {
        Some(DeviceType::Transformer)
    } else if lower_eq(s, "switch"@) {
        Some(DeviceType::Switch)
    } else if lower_eq(s, "static_generator"@) || lower_eq(s, "pv"@) {
        Some(DeviceType::Pv)
    } else if lower_eq(s, "storage"@) {
        Some(DeviceType::Storage)
    } else if lower_eq(s, "load"@) {
        Some(DeviceType::Load)
    } else if lower_eq(s, "charger"@) {
        Some(DeviceType::Charger)
    } else if lower_eq(s, "meter"@) {
        Some(DeviceType::Meter)
    } else if lower_eq(s, "external_grid"@) || lower_eq(s, "externalgrid"@) {
        Some(DeviceType::ExternalGrid)
    } else {
        None
    }
}

/// Parses a device-type name; an unknown name is an error, never a panic.
pub fn parse_device_type(s: &str) -> (r: Result<DeviceType, String>)
    ensures
        match r {
            Ok(t) => spec_parse_device_type(s@) == Some(t),
            Err(_) => spec_parse_device_type(s@) is None,
        },
{
    if str_eq_lower(s, "bus") || str_eq_lower(s, "node") {
        Ok(DeviceType::Node)
    } else if str_eq_lower(s, "line") {
        Ok(DeviceType::Line)
    } else if str_eq_lower(s, "transformer") {
        Ok(DeviceType::Transformer)
    } else if str_eq_lower(s, "switch") {
        Ok(DeviceType::Switch)
    } else if str_eq_lower(s, "static_generator") || str_eq_lower(s, "pv") {
        Ok(DeviceType::Pv)
    } else if str_eq_lower(s, "storage") {
        Ok(DeviceType::Storage)
    } else if str_eq_lower(s, "load") {
        Ok(DeviceType::Load)
    } else if str_eq_lower(s, "charger") {
        Ok(DeviceType::Charger)
    } else if str_eq_lower(s, "meter") {
        Ok(DeviceType::Meter)
    } else if str_eq_lower(s, "external_grid") || str_eq_lower(s, "externalgrid") {
        Ok(DeviceType::ExternalGrid)
    } else {
        Err(String::from_str("Unknown device type: ").concat(s))
    }
}

/// The configuration name of a device type.
pub open spec fn spec_device_type_name(t: DeviceType) -> Seq<char> {
    match t {
        DeviceType::Node => "bus"@,
        DeviceType::Line => "line"@,
        DeviceType::Transformer => "transformer"@,
        DeviceType::Switch => "switch"@,
        DeviceType::Pv => "static_generator"@,
        DeviceType::Storage => "storage"@,
        DeviceType::Load => "load"@,
        DeviceType::Charger => "charger"@,
        DeviceType::Meter => "meter"@,
        DeviceType::ExternalGrid => "external_grid"@,
    }
}

/// The configuration name of a device type.
pub fn device_type_to_string(device_type: &DeviceType) -> (r: String)
    ensures
        r@ == spec_device_type_name(*device_type),
{
    match device_type {
        DeviceType::Node => String::from_str("bus"),
        DeviceType::Line => String::from_str("line"),
        DeviceType::Transformer => String::from_str("transformer"),
        DeviceType::Switch => String::from_str("switch"),
        DeviceType::Pv => String::from_str("static_generator"),
        DeviceType::Storage => String::from_str("storage"),
        DeviceType::Load => String::from_str("load"),
        DeviceType::Charger => String::from_str("charger"),
        DeviceType::Meter => String::from_str("meter"),
        DeviceType::ExternalGrid => String::from_str("external_grid"),
    }
}

/// The work mode a name denotes; an unknown name falls back to random data.
pub open spec fn spec_work_mode_of(s: Seq<char>) -> WorkMode {
    if s == "random_data"@ {
        WorkMode::RandomData
    } else if s == "manual"@ {
        WorkMode::Manual
    } else if s == "remote"@ {
        WorkMode::Remote
    } else if s == "historical_data"@ {
        WorkMode::HistoricalData
    } else {
        WorkMode::RandomData
    }
}

impl From<String> for WorkMode {
    fn from(s: String) -> (r: WorkMode) {
        if str_eq(s.as_str(), "random_data") {
            WorkMode::RandomData
        } else if str_eq(s.as_str(), "manual") {
            WorkMode::Manual
        } else if str_eq(s.as_str(), "remote") {
            WorkMode::Remote
        } else if str_eq(s.as_str(), "historical_data") {
            WorkMode::HistoricalData
        } else {
            WorkMode::RandomData
        }
    }
}

impl vstd::std_specs::convert::FromSpecImpl<String> for WorkMode {
    open spec fn obeys_from_spec() -> bool {
        true
    }

    open spec fn from_spec(s: String) -> WorkMode {
        spec_work_mode_of(s@)
    }
}

} // verus!
