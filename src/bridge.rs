//! The bridge's decisions: which state messages a live snapshot gives, and how
//! the scheduler moves between waiting for a device and running its loops.
use vstd::prelude::*;
use vstd::string::StringExecFns;

use crate::fimer::{Device, LiveDevice, LivePoint, Point};
use crate::hass_mqtt::{component_of, state_topic, state_topic_of};

verus! {

/// Seconds to wait before asking for the catalog again.
pub const IDLE_BACKOFF_SECS: u64 = 3600;

/// Milliseconds between two discovery publishes.
pub const DISCOVERY_PAUSE_MS: u64 = 10;

/// Seconds between two rounds of discovery publishes.
pub const DISCOVERY_PERIOD_SECS: u64 = 36000;

/// Seconds between two rounds of state publishes.
pub const STATE_PERIOD_SECS: u64 = 30;

/// Lower-case hexadecimal digit of `n`, for `n < 16`.
pub open spec fn hex_digit(n: u32) -> char {
    seq!['0', '1', '2', '3', '4', '5', '6', '7', '8', '9', 'a', 'b', 'c', 'd', 'e', 'f'][n as int]
}

/// How one character stands inside a JSON string: quote and backslash get a
/// backslash, backspace, tab, line feed, form feed and carriage return their
/// short escapes, other control characters `\u00XX`, and the rest themselves.
pub open spec fn json_escape_char(c: char) -> Seq<char> {
    if c == '"' {
        seq!['\\', '"']
    } else if c == '\\' {
        seq!['\\', '\\']
    } else if c == '\u{8}' {
        seq!['\\', 'b']
    } else if c == '\t' {
        seq!['\\', 't']
    } else if c == '\n' {
        seq!['\\', 'n']
    } else if c == '\u{c}' {
        seq!['\\', 'f']
    } else if c == '\r' {
        seq!['\\', 'r']
    } else if (c as u32) < 0x20 {
        seq!['\\', 'u', '0', '0', hex_digit((c as u32) / 16), hex_digit((c as u32) % 16)]
    } else {
        seq![c]
    }
}

/// The characters of `s`, each escaped for a JSON string.
pub open spec fn json_escape(s: Seq<char>) -> Seq<char>
    decreases s.len(),
{
    if s.len() == 0 {
        Seq::empty()
    } else {
        json_escape(s.drop_last()) + json_escape_char(s.last())
    }
}

/// `s` as a JSON string literal.
pub open spec fn json_quoted(s: Seq<char>) -> Seq<char> {
    seq!['"'] + json_escape(s) + seq!['"']
}

/// Relies on serde_json::to_string: a string serialises, without fail, to a
/// quote, its characters escaped, and a quote.
#[verifier::external_body]
fn json_string(s: &str) -> (r: Option<String>)
    ensures
        r.is_some(),
        r matches Some(q) ==> q@ == json_quoted(s@),
{
    serde_json::to_string(s).ok()
}

/// Body of a state message: `{"name":<quoted name>,"value":<value>}`.
pub open spec fn state_body_of(quoted_name: Seq<char>, value: Seq<char>) -> Seq<char> {
    "{\"name\":"@ + quoted_name + ",\"value\":"@ + value + "}"@
}

/// Writes the body of a state message from the name already quoted as a JSON
/// string and the value as JSON number text.
pub fn state_body(quoted_name: &str, value: &str) -> (r: String)
    ensures
        r@ == state_body_of(quoted_name@, value@),
{
    let mut b = String::from_str("{\"name\":");
    b.append(quoted_name);
    b.append(",\"value\":");
    b.append(value);
    b.append("}");
    b
}

/// A message for the broker.
pub struct StateMessage {
    pub topic: String,
    pub payload: String,
}

/// The state message that republishes the reading `p`.
pub open spec fn is_state_message_of(m: StateMessage, p: LivePoint) -> bool {
    &&& m.topic@ == state_topic_of(p.name@)
    &&& m.payload@ == state_body_of(json_quoted(p.name@), p.value@)
}

/// The state message of one reading: its state topic, and its name and
/// value as a JSON object.
pub fn state_message(p: &LivePoint) -> (r: StateMessage)
    ensures
        is_state_message_of(r, *p),
{
    let quoted = json_string(p.name.as_str()).unwrap();
    StateMessage {
        topic: state_topic(p.name.as_str()),
        payload: state_body(quoted.as_str(), p.value.as_str()),
    }
}

/// The state topic that a point's discovery document announces is the topic
/// on which the state round republishes a reading of the same name:
/// `fimer/{name}/state`.
pub proof fn state_topics_agree(p: Point, reading: LivePoint, m: StateMessage)
    requires
        p.name@ == reading.name@,
        is_state_message_of(m, reading),
    ensures
        component_of(p).state_topic == m.topic@,
        m.topic@ == "fimer/"@ + p.name@ + "/state"@,
{
}

/// `out` holds one state message per reading of `points`, the `j`-th for
/// the `j`-th reading.
pub open spec fn publishes_all(out: Seq<StateMessage>, points: Seq<LivePoint>) -> bool {
    &&& out.len() == points.len()
    &&& forall|j: int| 0 <= j < out.len() ==> is_state_message_of(#[trigger] out[j], points[j])
}

/// Two state rounds over the same readings publish the same messages.
pub proof fn state_rounds_agree(points: Seq<LivePoint>, first: Seq<StateMessage>, second: Seq<StateMessage>)
    requires
        publishes_all(first, points),
        publishes_all(second, points),
    ensures
        first.len() == second.len(),
        forall|j: int|
            #![trigger first[j]]
            0 <= j < first.len() ==> first[j].topic@ == second[j].topic@
                && first[j].payload@ == second[j].payload@,
{
    assert forall|j: int| #![trigger first[j]] 0 <= j < first.len() implies first[j].topic@
        == second[j].topic@ && first[j].payload@ == second[j].payload@ by {
        assert(is_state_message_of(first[j], points[j]));
        assert(is_state_message_of(second[j], points[j]));
    }
}

/// The position of the first entry of the snapshot keyed by `id`.
pub open spec fn first_key(snapshot: Seq<(String, LiveDevice)>, id: Seq<char>, i: int) -> bool {
    &&& 0 <= i < snapshot.len()
    &&& snapshot[i].0@ == id
    &&& forall|k: int| 0 <= k < i ==> (#[trigger] snapshot[k]).0@ != id
}

/// The state messages of one state round: one per reading of the device keyed
/// `device_id`, in their order. Where the snapshot has no entry for it there are
/// none. A snapshot read from a JSON object has one entry per id; where ids
/// repeat, the first entry counts.
pub fn state_cycle(device_id: &String, snapshot: &Vec<(String, LiveDevice)>) -> (r: Vec<StateMessage>)
    ensures
        (forall|k: int| 0 <= k < snapshot.len() ==> (#[trigger] snapshot[k]).0@ != device_id@)
            ==> r.len() == 0,
        forall|i: int|
            first_key(snapshot@, device_id@, i) ==> publishes_all(r@, snapshot[i].1.points@),
{
    let mut i: usize = 0;
    while i < snapshot.len()
        invariant
            i <= snapshot.len(),
            forall|k: int| 0 <= k < i ==> (#[trigger] snapshot[k]).0@ != device_id@,
        decreases snapshot.len() - i,
    {
        if snapshot[i].0 == *device_id {
            let points = &snapshot[i].1.points;
            let mut out: Vec<StateMessage> = Vec::new();
            let mut j: usize = 0;
            while j < points.len()
                invariant
                    j <= points.len(),
                    publishes_all(out@, points@.take(j as int)),
                decreases points.len() - j,
            {
                out.push(state_message(&points[j]));
                j = j + 1;
                assert(forall|k: int| 0 <= k < j ==> points@.take(j as int)[k] == points@[k]);
            }
            assert(points@.take(j as int) =~= points@);
            return out;
        }
        i = i + 1;
    }
    Vec::new()
}

/// The scheduler: waiting for a device, or running the loops of one.
pub enum Bridge {
    Idle,
    Running { device: Device },
}

/// What the scheduler learns from outside.
pub enum Event {
    /// The answer to a catalog request: the devices, or `None` where it failed.
    Catalog { devices: Option<Vec<Device>> },
    /// The broker connection failed beyond repair.
    ConnectionLost,
}

/// What the scheduler asks to be done next.
#[derive(Clone, Copy, Debug, PartialEq, Eq, Structural)]
pub enum Command {
    /// Wait this long, then ask for the catalog.
    SleepThenFetch { secs: u64 },
    /// Ask for the catalog now.
    FetchCatalog,
    /// Start the discovery and state loops of the running device and pump
    /// the broker connection.
    StartLoops,
    /// Nothing changes.
    Continue,
}

/// Whether a catalog answer holds at least one device.
pub open spec fn has_device(devices: Option<Vec<Device>>) -> bool {
    devices matches Some(ds) && ds.len() > 0
}

impl Bridge {
    /// One step of the scheduler. While idle, a catalog with a device starts
    /// the first device's loops; a failed or empty one waits out the backoff
    /// and stays idle. A lost connection returns a running bridge to idle.
    pub fn step(self, event: Event) -> (r: (Bridge, Command))
        ensures
            match (self, event) {
                (Bridge::Idle, Event::Catalog { devices }) => if has_device(devices) {
                    r.0 == (Bridge::Running { device: devices.unwrap()[0] }) && r.1
                        == Command::StartLoops
                } else {
                    r.0 == Bridge::Idle && r.1 == (Command::SleepThenFetch {
                        secs: IDLE_BACKOFF_SECS,
                    })
                },
                (Bridge::Running { device }, Event::ConnectionLost) => r.0 == Bridge::Idle
                    && r.1 == Command::FetchCatalog,
                (s, Event::ConnectionLost) => r.0 == s && r.1 == Command::Continue,
                (s, Event::Catalog { .. }) => r.0 == s && r.1 == Command::Continue,
            },
    {
        match (self, event) {
            (Bridge::Idle, Event::Catalog { devices }) => match devices {
                Some(mut ds) => {
                    if ds.len() > 0 {
                        let device = ds.remove(0);
                        (Bridge::Running { device }, Command::StartLoops)
                    } else {
                        (Bridge::Idle, Command::SleepThenFetch { secs: IDLE_BACKOFF_SECS })
                    }
                },
                None => (Bridge::Idle, Command::SleepThenFetch { secs: IDLE_BACKOFF_SECS }),
            },
            (Bridge::Running { .. }, Event::ConnectionLost) => (Bridge::Idle, Command::FetchCatalog),
            (s, Event::ConnectionLost) => (s, Command::Continue),
            (s, Event::Catalog { .. }) => (s, Command::Continue),
        }
    }
}

} // verus!
