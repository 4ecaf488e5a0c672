//! The configuration surface: the platform, the recognised settings as they
//! were found in the environment, and the rules that turn their text into
//! values.

use crate::decimal::{parse_u32, parse_u64, parsed_unsigned};
use crate::text::{same_text, text_of};
use vstd::prelude::*;

verus! {

/// The operating system family that the pipelines are built for.
#[derive(Clone, Copy, Debug, PartialEq, Eq, Structural)]
pub enum Platform {
    /// Devices are addressed by name; audio goes through the desktop audio
    /// server.
    Linux,
    /// Devices are addressed by index; audio goes through the native backend.
    MacOs,
}

/// A recognised setting.
#[derive(Clone, Copy, Debug, PartialEq, Eq, Structural)]
pub enum Key {
    CaptureBufferUs,
    CaptureLatencyUs,
    MonitorHint,
    JitterMs,
    DropOnLate,
    LossConcealment,
    PulseSink,
    AutoSink,
    RenderBufferUs,
    RenderLatencyUs,
    RenderSync,
}

impl Key {
    /// The name under which the setting is looked up.
    pub open spec fn name_text(self) -> Seq<char> {
        match self {
            Key::CaptureBufferUs => "AB_SRC_BUFFER_US"@,
            Key::CaptureLatencyUs => "AB_SRC_LATENCY_US"@,
            Key::MonitorHint => "MONITOR_HINT"@,
            Key::JitterMs => "JITTER_MS"@,
            Key::DropOnLate => "DROP_ON_LATE"@,
            Key::LossConcealment => "PLC"@,
            Key::PulseSink => "PULSE_SINK"@,
            Key::AutoSink => "AUTO_SINK"@,
            Key::RenderBufferUs => "SINK_BUFFER_US"@,
            Key::RenderLatencyUs => "SINK_LATENCY_US"@,
            Key::RenderSync => "SINK_SYNC"@,
        }
    }

    /// The name under which the setting is looked up.
    pub fn name(self) -> (r: &'static str)
        ensures
            r@ == self.name_text(),
    {
        match self {
            Key::CaptureBufferUs => "AB_SRC_BUFFER_US",
            Key::CaptureLatencyUs => "AB_SRC_LATENCY_US",
            Key::MonitorHint => "MONITOR_HINT",
            Key::JitterMs => "JITTER_MS",
            Key::DropOnLate => "DROP_ON_LATE",
            Key::LossConcealment => "PLC",
            Key::PulseSink => "PULSE_SINK",
            Key::AutoSink => "AUTO_SINK",
            Key::RenderBufferUs => "SINK_BUFFER_US",
            Key::RenderLatencyUs => "SINK_LATENCY_US",
            Key::RenderSync => "SINK_SYNC",
        }
    }
}

/// The value of the first pair whose name is `key`.
pub open spec fn first_value(pairs: Seq<(String, String)>, key: Seq<char>) -> Option<Seq<char>>
    decreases pairs.len(),
{
    if pairs.len() == 0 {
        None
    } else if pairs[0].0@ == key {
        Some(pairs[0].1@)
    } else {
        first_value(pairs.skip(1), key)
    }
}

/// Looks a name up in a list of name and value pairs.
pub fn lookup(pairs: &Vec<(String, String)>, key: &str) -> (r: Option<String>)
    ensures
        text_of(r) == first_value(pairs@, key@),
{
    let mut i: usize = 0;
    assert(pairs@.skip(0) =~= pairs@);
    while i < pairs.len()
        invariant
            i <= pairs.len(),
            first_value(pairs@, key@) == first_value(pairs@.skip(i as int), key@),
        decreases pairs.len() - i,
    {
        proof {
            assert(pairs@.skip(i as int)[0] == pairs@[i as int]);
            assert(pairs@.skip(i as int).skip(1) =~= pairs@.skip(i + 1));
        }
        if same_text(pairs[i].0.as_str(), key) {
            return Some(pairs[i].1.clone());
        }
        i = i + 1;
    }
    None
}

/// The recognised settings, each as the text that was found for it, if any.
#[derive(Clone, Debug, PartialEq, Eq)]
pub struct Environment {
    /// Capture-side buffer, in microseconds.
    pub capture_buffer_us: Option<String>,
    /// Capture-side latency, in microseconds.
    pub capture_latency_us: Option<String>,
    /// A text that the monitor source to pick should contain.
    pub monitor_hint: Option<String>,
    /// Target latency of the jitter buffer, in milliseconds.
    pub jitter_ms: Option<String>,
    /// Whether packets that arrive too late are dropped.
    pub drop_on_late: Option<String>,
    /// Whether the decoder conceals lost packets.
    pub loss_concealment: Option<String>,
    /// The device of the audio server to render to.
    pub pulse_sink: Option<String>,
    /// Whether the render backend is chosen automatically.
    pub auto_sink: Option<String>,
    /// Render-side buffer, in microseconds.
    pub render_buffer_us: Option<String>,
    /// Render-side latency, in microseconds.
    pub render_latency_us: Option<String>,
    /// Whether rendering is paced by the clock.
    pub render_sync: Option<String>,
}

impl Environment {
    /// The text found for `key`.
    pub open spec fn value(self, key: Key) -> Option<Seq<char>> {
        match key {
            Key::CaptureBufferUs => text_of(self.capture_buffer_us),
            Key::CaptureLatencyUs => text_of(self.capture_latency_us),
            Key::MonitorHint => text_of(self.monitor_hint),
            Key::JitterMs => text_of(self.jitter_ms),
            Key::DropOnLate => text_of(self.drop_on_late),
            Key::LossConcealment => text_of(self.loss_concealment),
            Key::PulseSink => text_of(self.pulse_sink),
            Key::AutoSink => text_of(self.auto_sink),
            Key::RenderBufferUs => text_of(self.render_buffer_us),
            Key::RenderLatencyUs => text_of(self.render_latency_us),
            Key::RenderSync => text_of(self.render_sync),
        }
    }

    /// No setting is given: every default applies.
    pub fn empty() -> (e: Environment)
        ensures
            forall|key: Key| e.value(key) is None,
    {
        Environment {
            capture_buffer_us: None,
            capture_latency_us: None,
            monitor_hint: None,
            jitter_ms: None,
            drop_on_late: None,
            loss_concealment: None,
            pulse_sink: None,
            auto_sink: None,
            render_buffer_us: None,
            render_latency_us: None,
            render_sync: None,
        }
    }

    /// Picks the recognised settings out of a list of name and value pairs.
    /// Where a name occurs more than once, its first value counts.
    pub fn from_pairs(pairs: &Vec<(String, String)>) -> (e: Environment)
        ensures
            forall|key: Key| e.value(key) == first_value(pairs@, key.name_text()),
    {
        Environment {
            capture_buffer_us: lookup(pairs, Key::CaptureBufferUs.name()),
            capture_latency_us: lookup(pairs, Key::CaptureLatencyUs.name()),
            monitor_hint: lookup(pairs, Key::MonitorHint.name()),
            jitter_ms: lookup(pairs, Key::JitterMs.name()),
            drop_on_late: lookup(pairs, Key::DropOnLate.name()),
            loss_concealment: lookup(pairs, Key::LossConcealment.name()),
            pulse_sink: lookup(pairs, Key::PulseSink.name()),
            auto_sink: lookup(pairs, Key::AutoSink.name()),
            render_buffer_us: lookup(pairs, Key::RenderBufferUs.name()),
            render_latency_us: lookup(pairs, Key::RenderLatencyUs.name()),
            render_sync: lookup(pairs, Key::RenderSync.name()),
        }
    }
}

/// A switch that is on exactly when its text is `1`, and `default` when no
/// text is given.
pub open spec fn switch_on_one(value: Option<Seq<char>>, default: bool) -> bool {
    match value {
        Some(text) => text == "1"@,
        None => default,
    }
}

/// A switch that is off exactly when its text is `0`, and `default` when no
/// text is given.
pub open spec fn switch_off_zero(value: Option<Seq<char>>, default: bool) -> bool {
    match value {
        Some(text) => text != "0"@,
        None => default,
    }
}

/// The number that the text writes, if a text is given and writes one of at
/// most `max`.
pub open spec fn number_in(value: Option<Seq<char>>, max: nat) -> Option<nat> {
    match value {
        Some(text) => parsed_unsigned(text, max),
        None => None,
    }
}

/// The number that the text writes, or `default` where there is none.
pub open spec fn number_or(value: Option<Seq<char>>, max: nat, default: nat) -> nat {
    match number_in(value, max) {
        Some(n) => n,
        None => default,
    }
}

/// Reads a switch that only the text `1` turns on.
pub fn read_switch_on_one(value: &Option<String>, default: bool) -> (b: bool)
    ensures
        b == switch_on_one(text_of(*value), default),
{
    match value {
        Some(text) => same_text(text.as_str(), "1"),
        None => default,
    }
}

/// Reads a switch that only the text `0` turns off.
pub fn read_switch_off_zero(value: &Option<String>, default: bool) -> (b: bool)
    ensures
        b == switch_off_zero(text_of(*value), default),
{
    match value {
        Some(text) => !same_text(text.as_str(), "0"),
        None => default,
    }
}

/// Reads a 64-bit number, if one is given.
pub fn read_u64(value: &Option<String>) -> (r: Option<u64>)
    ensures
        r is Some <==> number_in(text_of(*value), u64::MAX as nat) is Some,
        r is Some ==> r->0 == number_in(text_of(*value), u64::MAX as nat)->0,
{
    match value {
        Some(text) => parse_u64(text.as_str()),
        None => None,
    }
}

/// Reads a 64-bit number; `default` stands in for a missing or unreadable
/// one.
pub fn read_u64_or(value: &Option<String>, default: u64) -> (n: u64)
    ensures
        n == number_or(text_of(*value), u64::MAX as nat, default as nat),
{
    match read_u64(value) {
        Some(n) => n,
        None => default,
    }
}

/// Reads a 32-bit number; `default` stands in for a missing or unreadable
/// one.
pub fn read_u32_or(value: &Option<String>, default: u32) -> (n: u32)
    ensures
        n == number_or(text_of(*value), u32::MAX as nat, default as nat),
{
    match value {
        Some(text) => match parse_u32(text.as_str()) {
            Some(n) => n,
            None => default,
        },
        None => default,
    }
}

} // verus!
