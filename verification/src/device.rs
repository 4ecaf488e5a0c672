//! Choosing the capture device: a hint where one is given, else a scan of
//! the enumerated audio sources for a monitor of the system's output.

use crate::config::Platform;
use crate::decimal::{parse_i32, parsed_i32};
use crate::seqs::{
    first_index, is_first, lemma_first_index_exists, lemma_first_index_is, lemma_first_index_none,
};
use crate::text::{
    contains, contains_ignoring_case, contains_nocase, contains_seq, lowercase, text_of,
    to_lowercase,
};
use vstd::prelude::*;

verus! {

/// The descriptive properties of an enumerated device that the scan reads.
#[derive(Clone, Debug, PartialEq, Eq)]
pub struct DeviceProps {
    /// The raw device string that the capture backend connects to.
    pub device: Option<String>,
    /// The name of the device's node in the audio server.
    pub node_name: Option<String>,
    /// The description shown to users.
    pub description: Option<String>,
}

/// One enumerated audio device, as it was at the time of the scan.
#[derive(Clone, Debug, PartialEq, Eq)]
pub struct DeviceEntry {
    /// The name shown to users.
    pub display_name: String,
    /// The class of the device, such as `Audio/Source`.
    pub device_class: String,
    /// The descriptive properties, where the device has any.
    pub props: Option<DeviceProps>,
}

/// A concrete capture device.
#[derive(Clone, Debug, PartialEq, Eq)]
pub enum DeviceRef {
    /// A device that the backend finds by name.
    Name(String),
    /// A device that the backend finds by index.
    Index(i32),
}

/// What a `DeviceRef` stands for.
pub enum DeviceId {
    Name(Seq<char>),
    Index(int),
}

impl View for DeviceRef {
    type V = DeviceId;

    open spec fn view(&self) -> DeviceId {
        match self {
            DeviceRef::Name(name) => DeviceId::Name(name@),
            DeviceRef::Index(index) => DeviceId::Index(*index as int),
        }
    }
}

/// The view of an optional device.
pub open spec fn device_of(o: Option<DeviceRef>) -> Option<DeviceId> {
    match o {
        Some(d) => Some(d@),
        None => None,
    }
}

/// The view of an optional borrowed text.
pub open spec fn hint_of(o: Option<&str>) -> Option<Seq<char>> {
    match o {
        Some(s) => Some(s@),
        None => None,
    }
}

/// The text holds the word "monitor", in any letter case.
pub open spec fn mentions_monitor(text: Seq<char>) -> bool {
    contains_seq(lowercase(text), "monitor"@)
}

/// An optional text is given and holds the word "monitor".
pub open spec fn may_mention_monitor(text: Option<String>) -> bool {
    text is Some && mentions_monitor(text->0@)
}

impl DeviceEntry {
    /// The device mirrors the system's output: its name, its description or
    /// its node name says so.
    pub open spec fn is_monitor(self) -> bool {
        ||| mentions_monitor(self.display_name@)
        ||| self.props is Some && may_mention_monitor(self.props->0.description)
        ||| self.props is Some && may_mention_monitor(self.props->0.node_name)
    }

    /// The identifier to connect by: the raw device string, else the node
    /// name, else the display name.
    pub open spec fn connect_id(self) -> Seq<char> {
        if self.props is Some && self.props->0.device is Some {
            self.props->0.device->0@
        } else if self.props is Some && self.props->0.node_name is Some {
            self.props->0.node_name->0@
        } else {
            self.display_name@
        }
    }

    /// The device is a monitor whose name or identifier holds `hint`, in any
    /// letter case.
    pub open spec fn preferred_by(self, hint: Seq<char>) -> bool {
        &&& self.is_monitor()
        &&& (contains_ignoring_case(self.display_name@, hint) || contains_ignoring_case(
            self.connect_id(),
            hint,
        ))
    }

    /// Whether the device is a monitor.
    pub fn monitor(&self) -> (b: bool)
        ensures
            b == self.is_monitor(),
    {
        if says_monitor(self.display_name.as_str()) {
            return true;
        }
        match &self.props {
            Some(p) => {
                let by_description = match &p.description {
                    Some(d) => says_monitor(d.as_str()),
                    None => false,
                };
                let by_node = match &p.node_name {
                    Some(n) => says_monitor(n.as_str()),
                    None => false,
                };
                by_description || by_node
            },
            None => false,
        }
    }

    /// The identifier to connect by.
    pub fn identifier(&self) -> (id: String)
        ensures
            id@ == self.connect_id(),
    {
        match &self.props {
            Some(p) => match &p.device {
                Some(d) => d.clone(),
                None => match &p.node_name {
                    Some(n) => n.clone(),
                    None => self.display_name.clone(),
                },
            },
            None => self.display_name.clone(),
        }
    }
}

/// Whether the text holds the word "monitor", in any letter case.
pub fn says_monitor(text: &str) -> (b: bool)
    ensures
        b == mentions_monitor(text@),
{
    let lowered = to_lowercase(text);
    contains(lowered.as_str(), "monitor")
}

/// The devices that are monitors.
pub open spec fn monitors() -> spec_fn(DeviceEntry) -> bool {
    |d: DeviceEntry| d.is_monitor()
}

/// The monitors that `hint` prefers.
pub open spec fn preferred(hint: Seq<char>) -> spec_fn(DeviceEntry) -> bool {
    |d: DeviceEntry| d.preferred_by(hint)
}

/// The place of the first monitor that the hint prefers, if a hint is given
/// and prefers one.
pub open spec fn first_preferred(devices: Seq<DeviceEntry>, hint: Option<Seq<char>>) -> Option<
    int,
> {
    match hint {
        Some(h) => first_index(devices, preferred(h)),
        None => None,
    }
}

/// The identifier that the scan settles on: that of the first preferred
/// monitor, else that of the first monitor, else none.
pub open spec fn selection(devices: Seq<DeviceEntry>, hint: Option<Seq<char>>) -> Option<
    Seq<char>,
> {
    match first_preferred(devices, hint) {
        Some(i) => Some(devices[i].connect_id()),
        None => match first_index(devices, monitors()) {
            Some(i) => Some(devices[i].connect_id()),
            None => None,
        },
    }
}

/// A scan finds a device exactly when some enumerated device is a monitor.
pub proof fn lemma_selection_found(devices: Seq<DeviceEntry>, hint: Option<Seq<char>>)
    ensures
        selection(devices, hint) is Some <==> exists|i: int|
            0 <= i < devices.len() && (#[trigger] devices[i]).is_monitor(),
{
    if exists|i: int| 0 <= i < devices.len() && (#[trigger] devices[i]).is_monitor() {
        let k = choose|i: int| 0 <= i < devices.len() && (#[trigger] devices[i]).is_monitor();
        lemma_first_index_exists(devices, monitors(), k);
    }
    if selection(devices, hint) is Some {
        if first_preferred(devices, hint) is Some {
            let i = first_preferred(devices, hint)->0;
            assert(is_first(devices, preferred(hint->0), i));
            assert(devices[i].is_monitor());
        } else {
            let i = first_index(devices, monitors())->0;
            assert(is_first(devices, monitors(), i));
            assert(devices[i].is_monitor());
        }
    }
}

/// What a scan selects is the identifier of a monitor among the devices,
/// never that of another device.
pub proof fn lemma_selection_is_a_monitor(devices: Seq<DeviceEntry>, hint: Option<Seq<char>>)
    requires
        selection(devices, hint) is Some,
    ensures
        exists|i: int|
            0 <= i < devices.len() && (#[trigger] devices[i]).is_monitor() && selection(
                devices,
                hint,
            ) == Some(devices[i].connect_id()),
{
    if first_preferred(devices, hint) is Some {
        let i = first_preferred(devices, hint)->0;
        assert(is_first(devices, preferred(hint->0), i));
        assert(devices[i].is_monitor());
    } else {
        let i = first_index(devices, monitors())->0;
        assert(is_first(devices, monitors(), i));
        assert(devices[i].is_monitor());
    }
}

/// A preference that a single monitor meets selects that monitor, whatever
/// was enumerated before it.
pub proof fn lemma_sole_preference_wins(
    devices: Seq<DeviceEntry>,
    hint: Seq<char>,
    k: int,
    platform: Platform,
)
    requires
        0 <= k < devices.len(),
        devices[k].preferred_by(hint),
        forall|j: int|
            0 <= j < devices.len() && j != k ==> !(#[trigger] devices[j]).preferred_by(hint),
    ensures
        selection(devices, Some(hint)) == Some(devices[k].connect_id()),
        resolved(None, platform, Some(hint), devices) == Some(
            DeviceId::Name(devices[k].connect_id()),
        ),
{
    assert(is_first(devices, preferred(hint), k));
    lemma_first_index_is(devices, preferred(hint), k);
}

/// Without a hint a device is resolved exactly when some enumerated device
/// is a monitor.
pub proof fn lemma_resolved_iff_monitor(
    devices: Seq<DeviceEntry>,
    prefer_contains: Option<Seq<char>>,
    platform: Platform,
)
    ensures
        resolved(None, platform, prefer_contains, devices) is Some <==> exists|i: int|
            0 <= i < devices.len() && (#[trigger] devices[i]).is_monitor(),
{
    lemma_selection_found(devices, prefer_contains);
}

/// Scans the enumerated audio sources for a monitor. The first monitor
/// whose name or identifier holds `prefer_contains` wins; without such a
/// one the first monitor does; without a monitor there is no result.
pub fn pick_pulse_monitor(devices: &Vec<DeviceEntry>, prefer_contains: Option<&str>) -> (r: Option<
    String,
>)
    ensures
        text_of(r) == selection(devices@, hint_of(prefer_contains)),
        r is Some <==> exists|i: int|
            0 <= i < devices.len() && (#[trigger] devices@[i]).is_monitor(),
{
    let mut first: Option<String> = None;
    let ghost mut first_at: int = 0;
    let mut i: usize = 0;
    while i < devices.len()
        invariant
            i <= devices.len(),
            prefer_contains is Some ==> forall|j: int|
                0 <= j < i ==> !preferred(prefer_contains->0@)(#[trigger] devices@[j]),
            first is None ==> forall|j: int| 0 <= j < i ==> !monitors()(#[trigger] devices@[j]),
            first is Some ==> is_first(devices@, monitors(), first_at) && first->0@
                == devices@[first_at].connect_id(),
        decreases devices.len() - i,
    {
        let d = &devices[i];
        if d.monitor() {
            let id = d.identifier();
            if first.is_none() {
                first = Some(id.clone());
                proof {
                    first_at = i as int;
                }
            }
            match prefer_contains {
                Some(hint) => {
                    if contains_nocase(d.display_name.as_str(), hint) || contains_nocase(
                        id.as_str(),
                        hint,
                    ) {
                        proof {
                            assert(is_first(devices@, preferred(hint@), i as int));
                            lemma_first_index_is(devices@, preferred(hint@), i as int);
                            lemma_selection_found(devices@, hint_of(prefer_contains));
                        }
                        return Some(id);
                    }
                },
                None => {},
            }
        }
        i = i + 1;
    }
    proof {
        lemma_selection_found(devices@, hint_of(prefer_contains));
        if prefer_contains is Some {
            lemma_first_index_none(devices@, preferred(prefer_contains->0@));
        }
        if first is Some {
            lemma_first_index_is(devices@, monitors(), first_at);
        } else {
            lemma_first_index_none(devices@, monitors());
        }
    }
    first
}

/// The device that a hint, or the scan in its absence, stands for.
///
/// A hint names the device where devices go by name. Where they go by
/// index the hint has to be a number, and any other hint selects nothing.
/// Without a hint the scan decides.
pub open spec fn resolved(
    hint: Option<Seq<char>>,
    platform: Platform,
    prefer_contains: Option<Seq<char>>,
    devices: Seq<DeviceEntry>,
) -> Option<DeviceId> {
    match hint {
        Some(text) => match platform {
            Platform::Linux => Some(DeviceId::Name(text)),
            Platform::MacOs => match parsed_i32(text) {
                Some(index) => Some(DeviceId::Index(index)),
                None => None,
            },
        },
        None => match selection(devices, prefer_contains) {
            Some(id) => Some(DeviceId::Name(id)),
            None => None,
        },
    }
}

/// Resolves the capture device from a hint, or from a scan of `devices`
/// where no hint is given. No result means that the backend's own default
/// is used.
pub fn resolve_capture(
    hint: Option<&str>,
    platform: Platform,
    prefer_contains: Option<&str>,
    devices: &Vec<DeviceEntry>,
) -> (r: Option<DeviceRef>)
    ensures
        device_of(r) == resolved(hint_of(hint), platform, hint_of(prefer_contains), devices@),
        hint is None ==> (r is Some <==> exists|i: int|
            0 <= i < devices.len() && (#[trigger] devices@[i]).is_monitor()),
{
    match hint {
        Some(text) => match platform {
            Platform::Linux => Some(DeviceRef::Name(String::from_str(text))),
            Platform::MacOs => match parse_i32(text) {
                Some(index) => Some(DeviceRef::Index(index)),
                None => None,
            },
        },
        None => match pick_pulse_monitor(devices, prefer_contains) {
            Some(id) => Some(DeviceRef::Name(id)),
            None => None,
        },
    }
}

} // verus!
