//! Home Assistant MQTT discovery documents built from the device's points.
use vstd::prelude::*;
use vstd::string::StringExecFns;

use crate::fimer;

verus! {

/// Home Assistant's sensor class; `Unclassified` is serialised as the empty class.
#[derive(Clone, Copy, Debug, PartialEq, Eq, Structural)]
pub enum DeviceClass {
    Voltage,
    Temperature,
    ReactivePower,
    Power,
    PowerFactor,
    Energy,
    Duration,
    ApparentPower,
    Current,
    Frequency,
    Unclassified,
}

/// Display unit of a sensor; `Unitless` is serialised as the empty unit.
#[derive(Clone, Copy, Debug, PartialEq, Eq, Structural)]
pub enum Units {
    Wh,
    W,
    Var,
    A,
    V,
    Hz,
    DegC,
    Unitless,
}

/// The one table from a vendor unit to its sensor class, display unit and
/// state class. Only energy is a cumulative counter (`"total"`).
pub open spec fn unit_mapping(u: fimer::Units) -> (DeviceClass, Units, Option<Seq<char>>) {
    match u {
        fimer::Units::Wh => (DeviceClass::Energy, Units::Wh, Some("total"@)),
        fimer::Units::W => (DeviceClass::Power, Units::W, None),
        fimer::Units::Var => (DeviceClass::ReactivePower, Units::Var, None),
        fimer::Units::A => (DeviceClass::Current, Units::A, None),
        fimer::Units::V => (DeviceClass::Voltage, Units::V, None),
        fimer::Units::Hz => (DeviceClass::Frequency, Units::Hz, None),
        fimer::Units::DegC => (DeviceClass::Temperature, Units::DegC, None),
        fimer::Units::uA => (DeviceClass::Unclassified, Units::Unitless, None),
        fimer::Units::MOhm => (DeviceClass::Unclassified, Units::Unitless, None),
        fimer::Units::Unitless => (DeviceClass::Unclassified, Units::Unitless, None),
    }
}

/// An optional string as an optional sequence of characters.
pub open spec fn opt_view(o: Option<String>) -> Option<Seq<char>> {
    match o {
        Some(s) => Some(s@),
        None => None,
    }
}

impl fimer::Units {
    /// Sensor class, display unit and state class of this unit.
    pub fn to_comp(&self) -> (r: (DeviceClass, Units, Option<String>))
        ensures
            r.0 == unit_mapping(*self).0,
            r.1 == unit_mapping(*self).1,
            opt_view(r.2) == unit_mapping(*self).2,
    {
        match self {
            fimer::Units::Wh => (DeviceClass::Energy, Units::Wh, Some(String::from_str("total"))),
            fimer::Units::W => (DeviceClass::Power, Units::W, None),
            fimer::Units::Var => (DeviceClass::ReactivePower, Units::Var, None),
            fimer::Units::A => (DeviceClass::Current, Units::A, None),
            fimer::Units::Hz => (DeviceClass::Frequency, Units::Hz, None),
            fimer::Units::DegC => (DeviceClass::Temperature, Units::DegC, None),
            fimer::Units::V => (DeviceClass::Voltage, Units::V, None),
            _ => (DeviceClass::Unclassified, Units::Unitless, None),
        }
    }
}

impl From<fimer::Units> for DeviceClass {
    /// The sensor class that the unit table gives.
    fn from(value: fimer::Units) -> (r: Self)
        ensures
            r == unit_mapping(value).0,
    {
        value.to_comp().0
    }
}

impl vstd::std_specs::convert::FromSpecImpl<fimer::Units> for DeviceClass {
    open spec fn obeys_from_spec() -> bool {
        true
    }

    open spec fn from_spec(v: fimer::Units) -> DeviceClass {
        unit_mapping(v).0
    }
}

impl From<fimer::Units> for Units {
    /// The display unit that the unit table gives.
    fn from(value: fimer::Units) -> (r: Self)
        ensures
            r == unit_mapping(value).1,
    {
        value.to_comp().1
    }
}

impl vstd::std_specs::convert::FromSpecImpl<fimer::Units> for Units {
    open spec fn obeys_from_spec() -> bool {
        true
    }

    open spec fn from_spec(v: fimer::Units) -> Units {
        unit_mapping(v).1
    }
}

/// The device descriptor that every discovery document carries.
pub struct Device {
    pub ids: String,
    pub name: String,
    pub mf: String,
    pub mdl: String,
    pub sw: String,
    pub hw: String,
}

impl View for Device {
    type V = Seq<Seq<char>>;

    open spec fn view(&self) -> Seq<Seq<char>> {
        seq![self.ids@, self.name@, self.mf@, self.mdl@, self.sw@, self.hw@]
    }
}

/// The fields of the fixed device descriptor.
pub open spec fn default_device() -> Seq<Seq<char>> {
    seq!["some_id_4_lam"@, "fimer at 4 "@, "firm"@, "could be better"@, "0.1"@, "0.1"@]
}

impl Default for Device {
    fn default() -> (r: Self)
        ensures
            r@ == default_device(),
    {
        Device {
            ids: String::from_str("some_id_4_lam"),
            name: String::from_str("fimer at 4 "),
            mf: String::from_str("firm"),
            mdl: String::from_str("could be better"),
            sw: String::from_str("0.1"),
            hw: String::from_str("0.1"),
        }
    }
}

/// The origin descriptor that every discovery document carries.
pub struct Origin {
    pub name: String,
    pub sw: String,
    pub url: String,
}

impl View for Origin {
    type V = Seq<Seq<char>>;

    open spec fn view(&self) -> Seq<Seq<char>> {
        seq![self.name@, self.sw@, self.url@]
    }
}

/// The fields of the fixed origin descriptor.
pub open spec fn default_origin() -> Seq<Seq<char>> {
    seq!["rnlm_fimer"@, "0.1"@, "https://github.com"@]
}

impl Default for Origin {
    fn default() -> (r: Self)
        ensures
            r@ == default_origin(),
    {
        Origin {
            name: String::from_str("rnlm_fimer"),
            sw: String::from_str("0.1"),
            url: String::from_str("https://github.com"),
        }
    }
}


/// Topic on which the readings of the point `name` are published.
pub open spec fn state_topic_of(name: Seq<char>) -> Seq<char> {
    "fimer/"@ + name + "/state"@
}

/// Topic on which the discovery document of the sensor `name` is published.
pub open spec fn config_topic_of(name: Seq<char>) -> Seq<char> {
    "homeassistant/sensor/"@ + name + "/config"@
}

/// Template that tells the hub where the value sits in a state message.
pub open spec fn value_template() -> Seq<char> {
    "{{ value_json.value }}"@
}

/// Returns `"fimer/{name}/state"`.
pub fn state_topic(name: &str) -> (r: String)
    ensures
        r@ == state_topic_of(name@),
{
    let mut t = String::from_str("fimer/");
    t.append(name);
    t.append("/state");
    t
}

/// Returns `"homeassistant/sensor/{name}/config"`.
pub fn config_topic(name: &str) -> (r: String)
    ensures
        r@ == config_topic_of(name@),
{
    let mut t = String::from_str("homeassistant/sensor/");
    t.append(name);
    t.append("/config");
    t
}

/// The sensor-specific part of a discovery document.
pub struct SensorComponent {
    pub device_class: DeviceClass,
    pub unit_of_measurement: Units,
    pub value_template: String,
    pub unique_id: String,
    pub state_topic: String,
    pub qos: i8,
    pub state_class: Option<String>,
}

/// A sensor component with its strings as sequences of characters.
pub struct ComponentView {
    pub device_class: DeviceClass,
    pub unit_of_measurement: Units,
    pub value_template: Seq<char>,
    pub unique_id: Seq<char>,
    pub state_topic: Seq<char>,
    pub qos: i8,
    pub state_class: Option<Seq<char>>,
}

impl View for SensorComponent {
    type V = ComponentView;

    open spec fn view(&self) -> ComponentView {
        ComponentView {
            device_class: self.device_class,
            unit_of_measurement: self.unit_of_measurement,
            value_template: self.value_template@,
            unique_id: self.unique_id@,
            state_topic: self.state_topic@,
            qos: self.qos,
            state_class: opt_view(self.state_class),
        }
    }
}

/// The sensor component that describes the point `p`.
pub open spec fn component_of(p: fimer::Point) -> ComponentView {
    ComponentView {
        device_class: unit_mapping(p.unit).0,
        unit_of_measurement: unit_mapping(p.unit).1,
        value_template: value_template(),
        unique_id: p.name@,
        state_topic: state_topic_of(p.name@),
        qos: 0,
        state_class: unit_mapping(p.unit).2,
    }
}

impl SensorComponent {
    /// The sensor component of a point: class, unit and state class from the
    /// unit table, the point's name as id and its state topic.
    pub fn from_point(p: &fimer::Point) -> (r: SensorComponent)
        ensures
            r@ == component_of(*p),
    {
        let (device_class, unit_of_measurement, state_class) = p.unit.to_comp();
        SensorComponent {
            device_class,
            unit_of_measurement,
            value_template: String::from_str("{{ value_json.value }}"),
            unique_id: p.name.clone(),
            state_topic: state_topic(p.name.as_str()),
            qos: 0,
            state_class,
        }
    }
}



impl From<fimer::Point> for SensorComponent {
    fn from(value: fimer::Point) -> (r: Self)
        ensures
            r@ == component_of(value),
    {
        SensorComponent::from_point(&value)
    }
}

// A component holds strings, which no spec function can build; what `from`
// returns is stated over its view, by its own `ensures`.
impl vstd::std_specs::convert::FromSpecImpl<fimer::Point> for SensorComponent {
    open spec fn obeys_from_spec() -> bool {
        false
    }

    open spec fn from_spec(v: fimer::Point) -> SensorComponent {
        arbitrary()
    }
}

/// A discovery document for one sensor; `name` is the sensor's id and is not
/// part of the document.
pub struct DiscoverSensor {
    pub name: String,
    pub device: Device,
    pub origin: Origin,
    pub sensor_component: SensorComponent,
}

/// A discovery document with its strings as sequences of characters.
pub struct SensorView {
    pub name: Seq<char>,
    pub device: Seq<Seq<char>>,
    pub origin: Seq<Seq<char>>,
    pub component: ComponentView,
}

impl View for DiscoverSensor {
    type V = SensorView;

    open spec fn view(&self) -> SensorView {
        SensorView {
            name: self.name@,
            device: self.device@,
            origin: self.origin@,
            component: self.sensor_component@,
        }
    }
}

/// The discovery document of the point `p`.
pub open spec fn discovery_of(p: fimer::Point) -> SensorView {
    SensorView {
        name: p.name@,
        device: default_device(),
        origin: default_origin(),
        component: component_of(p),
    }
}

/// `out` holds one discovery document per point of `points`, in their order.
pub open spec fn discovery_built(points: Seq<fimer::Point>, out: Seq<DiscoverSensor>) -> bool {
    &&& out.len() == points.len()
    &&& forall|i: int| 0 <= i < out.len() ==> #[trigger] out[i]@ == discovery_of(points[i])
}

impl DiscoverSensor {
    /// Wraps a sensor component with the fixed device and origin descriptors.
    pub fn new(sensor_component: SensorComponent) -> (r: Self)
        ensures
            r.name@ == sensor_component.unique_id@,
            r.device@ == default_device(),
            r.origin@ == default_origin(),
            r.sensor_component == sensor_component,
    {
        DiscoverSensor {
            name: sensor_component.unique_id.clone(),
            device: Device::default(),
            origin: Origin::default(),
            sensor_component,
        }
    }

    /// The topic on which this document is published.
    pub fn config_topic(&self) -> (r: String)
        ensures
            r@ == config_topic_of(self.name@),
    {
        config_topic(self.name.as_str())
    }
}

/// One discovery document per point, in the points' order.
pub fn build_discovery(points: &Vec<fimer::Point>) -> (r: Vec<DiscoverSensor>)
    ensures
        discovery_built(points@, r@),
{
    let mut out: Vec<DiscoverSensor> = Vec::new();
    let mut i: usize = 0;
    while i < points.len()
        invariant
            i <= points.len(),
            discovery_built(points@.take(i as int), out@),
        decreases points.len() - i,
    {
        let s = DiscoverSensor::new(SensorComponent::from_point(&points[i]));
        out.push(s);
        i = i + 1;
        assert(forall|k: int| 0 <= k < i ==> points@.take(i as int)[k] == points@[k]);
    }
    assert(points@.take(i as int) =~= points@);
    out
}

/// Each document of a built list has the id of its point and the point's
/// state topic.
pub proof fn discovery_ids_follow_points(points: Seq<fimer::Point>, out: Seq<DiscoverSensor>)
    requires
        discovery_built(points, out),
    ensures
        out.len() == points.len(),
        forall|i: int|
            #![trigger out[i]]
            0 <= i < out.len() ==> out[i].sensor_component.unique_id@ == points[i].name@
                && out[i].name@ == points[i].name@
                && out[i].sensor_component.state_topic@ == state_topic_of(points[i].name@),
{
    assert forall|i: int| #![trigger out[i]] 0 <= i < out.len() implies out[i].sensor_component.unique_id@
        == points[i].name@ && out[i].name@ == points[i].name@
        && out[i].sensor_component.state_topic@ == state_topic_of(points[i].name@) by {
        assert(out[i]@ == discovery_of(points[i]));
    }
}

/// Building the documents twice from the same points gives the same documents:
/// nothing in them depends on anything but the points.
pub proof fn discovery_is_idempotent(
    points: Seq<fimer::Point>,
    first: Seq<DiscoverSensor>,
    second: Seq<DiscoverSensor>,
)
    requires
        discovery_built(points, first),
        discovery_built(points, second),
    ensures
        first.len() == second.len(),
        forall|i: int| 0 <= i < first.len() ==> #[trigger] first[i]@ == second[i]@,
{
    assert forall|i: int| 0 <= i < first.len() implies #[trigger] first[i]@ == second[i]@ by {
        assert(first[i]@ == discovery_of(points[i]));
        assert(second[i]@ == discovery_of(points[i]));
    }
}

/// A discovery document for a whole device, one component per point.
pub struct DiscoverDevice {
    pub device: Device,
    pub origin: Origin,
    pub components: Vec<SensorComponent>,
}

impl DiscoverDevice {
    /// One component per point, in the points' order, with the fixed device
    /// and origin descriptors.
    pub fn new(points: Vec<fimer::Point>) -> (r: Self)
        ensures
            r.device@ == default_device(),
            r.origin@ == default_origin(),
            r.components.len() == points.len(),
            forall|i: int|
                0 <= i < points.len() ==> #[trigger] r.components[i]@ == component_of(points[i]),
    {
        let mut components: Vec<SensorComponent> = Vec::new();
        let mut i: usize = 0;
        while i < points.len()
            invariant
                i <= points.len(),
                components.len() == i,
                forall|k: int| 0 <= k < i ==> #[trigger] components[k]@ == component_of(points[k]),
            decreases points.len() - i,
        {
            components.push(SensorComponent::from_point(&points[i]));
            i = i + 1;
        }
        DiscoverDevice { device: Device::default(), origin: Origin::default(), components }
    }
}

} // verus!
