//! The device catalog and live readings as the vendor API describes them.
use vstd::prelude::*;

verus! {

/// Product family of a wiring box.
#[derive(Clone, Copy, Debug, PartialEq, Eq, Structural)]
pub enum Family {
    VegaB,
}

/// What a point measures, as the vendor classifies it; not used when translating.
#[derive(Clone, Copy, Debug, PartialEq, Eq, Structural)]
pub enum TypeIo {
    In,
    Out,
    Other,
    Integer,
    Statistics,
}

/// Number of output phases of an inverter.
#[derive(Clone, Copy, Debug, PartialEq, Eq, Structural)]
pub enum Phase {
    One,
    Three,
}

/// Hardware description of one unit.
pub struct Unit {
    pub model_id: String,
    pub model_id_descr: String,
    pub family: Family,
    pub meter_compatibility: bool,
    pub device_id: String,
    pub wiring_box_pn: String,
    pub input_channel_number: i8,
    pub output_phase_number: i8,
    pub ethernet_presence: bool,
}

/// Measurement unit of a point; `Unitless` is the empty unit.
#[allow(non_camel_case_types)]
#[derive(Clone, Copy, Debug, PartialEq, Eq, Structural)]
pub enum Units {
    Wh,
    W,
    Var,
    A,
    uA,
    MOhm,
    V,
    Hz,
    DegC,
    Unitless,
}

/// One measurement point of a device; `name` identifies it on every topic.
pub struct Point {
    pub name: String,
    pub unit: Units,
    pub description: String,
    pub type_io: TypeIo,
    pub kind: String,
    pub decimal_precision: i8,
}

/// A device of the catalog with its ordered points.
pub struct Device {
    pub device_id: String,
    pub type_device: String,
    pub device_type: Option<String>,
    pub device_model: Option<String>,
    pub points: Vec<Point>,
}

impl Device {
    pub fn get_id(&self) -> (r: &str)
        ensures
            r@ == self.device_id@,
    {
        self.device_id.as_str()
    }

    /// Whether no two points of the device share a name. Readings are matched
    /// to points by name, so a device whose names repeat is ambiguous.
    pub fn has_unique_point_names(&self) -> (r: bool)
        ensures
            r == names_unique(self.points@),
    {
        let n = self.points.len();
        let mut i: usize = 0;
        while i < n
            invariant
                n == self.points.len(),
                i <= n,
                forall|a: int, b: int|
                    0 <= a < i && a < b < n ==> #[trigger] self.points[a].name@
                        != #[trigger] self.points[b].name@,
            decreases n - i,
        {
            let mut j: usize = i + 1;
            while j < n
                invariant
                    n == self.points.len(),
                    i < n,
                    i < j <= n,
                    forall|a: int, b: int|
                        0 <= a < i && a < b < n ==> #[trigger] self.points[a].name@
                            != #[trigger] self.points[b].name@,
                    forall|b: int| i < b < j ==> self.points[i as int].name@ != #[trigger] self.points[b].name@,
                decreases n - j,
            {
                if self.points[i].name == self.points[j].name {
                    return false;
                }
                j = j + 1;
            }
            i = i + 1;
        }
        true
    }
}

/// No two of `points` share a name.
pub open spec fn names_unique(points: Seq<Point>) -> bool {
    forall|a: int, b: int|
        0 <= a < b < points.len() ==> #[trigger] points[a].name@ != #[trigger] points[b].name@
}

/// The answer of the catalog endpoint.
pub struct DeviceResponse {
    pub devices: Vec<Device>,
}

/// A reading of one point. `value` holds the reading as the text of a JSON
/// number, exactly as it is to be republished.
pub struct LivePoint {
    pub name: String,
    pub value: String,
}

/// The readings of one device at one moment.
pub struct LiveDevice {
    pub device_id: String,
    pub device_type: Option<String>,
    pub timestamp: String,
    pub device_model: Option<String>,
    pub points: Vec<LivePoint>,
}

} // verus!
