//! Stages and their parameters, and what the engine offers of them on this
//! machine.

use crate::format::MediaFormat;
use vstd::prelude::*;

verus! {

/// A kind of stage that the engine may be able to make.
#[derive(Clone, Copy, Debug, PartialEq, Eq, Structural)]
pub enum Factory {
    /// Capture through the native macOS backend.
    OsxAudioSrc,
    /// Capture through the desktop audio server.
    PulseSrc,
    /// A decoupling buffer.
    Queue,
    /// Conversion between sample encodings.
    AudioConvert,
    /// Conversion between sample rates.
    AudioResample,
    /// A filter that lets one format pass.
    CapsFilter,
    /// A level meter.
    Level,
    /// The Opus encoder.
    OpusEnc,
    /// The RTP packetizer for Opus.
    RtpOpusPay,
    /// Transmission over UDP.
    UdpSink,
    /// Reception over UDP.
    UdpSrc,
    /// The jitter buffer.
    RtpJitterBuffer,
    /// The RTP depacketizer for Opus.
    RtpOpusDepay,
    /// The Opus decoder.
    OpusDec,
    /// Rendering through the native macOS backend.
    OsxAudioSink,
    /// Rendering through the desktop audio server.
    PulseSink,
    /// Rendering through whatever backend is found.
    AutoAudioSink,
}

impl Factory {
    /// The name by which the engine knows the kind.
    pub open spec fn name_text(self) -> Seq<char> {
        match self {
            Factory::OsxAudioSrc => "osxaudiosrc"@,
            Factory::PulseSrc => "pulsesrc"@,
            Factory::Queue => "queue"@,
            Factory::AudioConvert => "audioconvert"@,
            Factory::AudioResample => "audioresample"@,
            Factory::CapsFilter => "capsfilter"@,
            Factory::Level => "level"@,
            Factory::OpusEnc => "opusenc"@,
            Factory::RtpOpusPay => "rtpopuspay"@,
            Factory::UdpSink => "udpsink"@,
            Factory::UdpSrc => "udpsrc"@,
            Factory::RtpJitterBuffer => "rtpjitterbuffer"@,
            Factory::RtpOpusDepay => "rtpopusdepay"@,
            Factory::OpusDec => "opusdec"@,
            Factory::OsxAudioSink => "osxaudiosink"@,
            Factory::PulseSink => "pulsesink"@,
            Factory::AutoAudioSink => "autoaudiosink"@,
        }
    }

    /// The name by which the engine knows the kind.
    pub fn name(self) -> (r: &'static str)
        ensures
            r@ == self.name_text(),
    {
        match self {
            Factory::OsxAudioSrc => "osxaudiosrc",
            Factory::PulseSrc => "pulsesrc",
            Factory::Queue => "queue",
            Factory::AudioConvert => "audioconvert",
            Factory::AudioResample => "audioresample",
            Factory::CapsFilter => "capsfilter",
            Factory::Level => "level",
            Factory::OpusEnc => "opusenc",
            Factory::RtpOpusPay => "rtpopuspay",
            Factory::UdpSink => "udpsink",
            Factory::UdpSrc => "udpsrc",
            Factory::RtpJitterBuffer => "rtpjitterbuffer",
            Factory::RtpOpusDepay => "rtpopusdepay",
            Factory::OpusDec => "opusdec",
            Factory::OsxAudioSink => "osxaudiosink",
            Factory::PulseSink => "pulsesink",
            Factory::AutoAudioSink => "autoaudiosink",
        }
    }
}

/// The place of a stage in a pipeline.
#[derive(Clone, Copy, Debug, PartialEq, Eq, Structural)]
pub enum Role {
    /// The audio source of the sender.
    Capture,
    /// The decoupling buffer behind the source.
    CaptureQueue,
    /// Sample encoding conversion.
    Convert,
    /// Sample rate conversion.
    Resample,
    /// The filter that forces the normalized raw format.
    FormatFilter,
    /// The level meter of the sender.
    CaptureMeter,
    /// Opus encoding.
    Encode,
    /// RTP packetizing.
    Packetize,
    /// UDP transmission.
    Transmit,
    /// UDP reception.
    Receive,
    /// The decoupling buffer behind the socket.
    NetworkQueue,
    /// The jitter buffer.
    Jitter,
    /// RTP depacketizing.
    Depacketize,
    /// Opus decoding.
    Decode,
    /// The level meter of the receiver.
    RenderMeter,
    /// The decoupling buffer before the sink.
    RenderQueue,
    /// The audio sink of the receiver.
    Render,
}

impl Role {
    /// The name that the stage carries inside its pipeline.
    pub open spec fn name_text(self) -> Seq<char> {
        match self {
            Role::Capture => "src"@,
            Role::CaptureQueue => "q_src"@,
            Role::Convert => "aconv"@,
            Role::Resample => "ares"@,
            Role::FormatFilter => "acaps"@,
            Role::CaptureMeter => "level_tx"@,
            Role::Encode => "opusenc"@,
            Role::Packetize => "pay"@,
            Role::Transmit => "udpsink"@,
            Role::Receive => "udpsrc"@,
            Role::NetworkQueue => "q_net"@,
            Role::Jitter => "jbuf"@,
            Role::Depacketize => "depay"@,
            Role::Decode => "opusdec"@,
            Role::RenderMeter => "level"@,
            Role::RenderQueue => "q_sink"@,
            Role::Render => "sink"@,
        }
    }

    /// The name that the stage carries inside its pipeline.
    pub fn name(self) -> (r: &'static str)
        ensures
            r@ == self.name_text(),
    {
        match self {
            Role::Capture => "src",
            Role::CaptureQueue => "q_src",
            Role::Convert => "aconv",
            Role::Resample => "ares",
            Role::FormatFilter => "acaps",
            Role::CaptureMeter => "level_tx",
            Role::Encode => "opusenc",
            Role::Packetize => "pay",
            Role::Transmit => "udpsink",
            Role::Receive => "udpsrc",
            Role::NetworkQueue => "q_net",
            Role::Jitter => "jbuf",
            Role::Depacketize => "depay",
            Role::Decode => "opusdec",
            Role::RenderMeter => "level",
            Role::RenderQueue => "q_sink",
            Role::Render => "sink",
        }
    }
}

/// A tunable parameter of a stage.
#[derive(Clone, Copy, Debug, PartialEq, Eq, Structural)]
pub enum Param {
    BufferTime,
    LatencyTime,
    Device,
    MaxSizeBuffers,
    MaxSizeBytes,
    MaxSizeTime,
    Caps,
    Interval,
    PostMessages,
    Bitrate,
    InbandFec,
    FrameSize,
    Complexity,
    Pt,
    Host,
    Port,
    Sync,
    Async,
    Latency,
    DropOnLate,
    DoLost,
    Plc,
}

impl Param {
    /// The name by which the engine knows the parameter.
    pub open spec fn name_text(self) -> Seq<char> {
        match self {
            Param::BufferTime => "buffer-time"@,
            Param::LatencyTime => "latency-time"@,
            Param::Device => "device"@,
            Param::MaxSizeBuffers => "max-size-buffers"@,
            Param::MaxSizeBytes => "max-size-bytes"@,
            Param::MaxSizeTime => "max-size-time"@,
            Param::Caps => "caps"@,
            Param::Interval => "interval"@,
            Param::PostMessages => "post-messages"@,
            Param::Bitrate => "bitrate"@,
            Param::InbandFec => "inband-fec"@,
            Param::FrameSize => "frame-size"@,
            Param::Complexity => "complexity"@,
            Param::Pt => "pt"@,
            Param::Host => "host"@,
            Param::Port => "port"@,
            Param::Sync => "sync"@,
            Param::Async => "async"@,
            Param::Latency => "latency"@,
            Param::DropOnLate => "drop-on-late"@,
            Param::DoLost => "do-lost"@,
            Param::Plc => "plc"@,
        }
    }

    /// The name by which the engine knows the parameter.
    pub fn name(self) -> (r: &'static str)
        ensures
            r@ == self.name_text(),
    {
        match self {
            Param::BufferTime => "buffer-time",
            Param::LatencyTime => "latency-time",
            Param::Device => "device",
            Param::MaxSizeBuffers => "max-size-buffers",
            Param::MaxSizeBytes => "max-size-bytes",
            Param::MaxSizeTime => "max-size-time",
            Param::Caps => "caps",
            Param::Interval => "interval",
            Param::PostMessages => "post-messages",
            Param::Bitrate => "bitrate",
            Param::InbandFec => "inband-fec",
            Param::FrameSize => "frame-size",
            Param::Complexity => "complexity",
            Param::Pt => "pt",
            Param::Host => "host",
            Param::Port => "port",
            Param::Sync => "sync",
            Param::Async => "async",
            Param::Latency => "latency",
            Param::DropOnLate => "drop-on-late",
            Param::DoLost => "do-lost",
            Param::Plc => "plc",
        }
    }
}

impl Param {
    /// Every parameter, each once.
    pub fn all() -> (params: Vec<Param>)
        ensures
            forall|p: Param| params@.contains(p),
            params@.no_duplicates(),
    {
        let mut params: Vec<Param> = Vec::new();
        params.push(Param::BufferTime);
        params.push(Param::LatencyTime);
        params.push(Param::Device);
        params.push(Param::MaxSizeBuffers);
        params.push(Param::MaxSizeBytes);
        params.push(Param::MaxSizeTime);
        params.push(Param::Caps);
        params.push(Param::Interval);
        params.push(Param::PostMessages);
        params.push(Param::Bitrate);
        params.push(Param::InbandFec);
        params.push(Param::FrameSize);
        params.push(Param::Complexity);
        params.push(Param::Pt);
        params.push(Param::Host);
        params.push(Param::Port);
        params.push(Param::Sync);
        params.push(Param::Async);
        params.push(Param::Latency);
        params.push(Param::DropOnLate);
        params.push(Param::DoLost);
        params.push(Param::Plc);
        assert forall|p: Param| params@.contains(p) by {
            match p {
                Param::BufferTime => assert(params@[0] == p),
                Param::LatencyTime => assert(params@[1] == p),
                Param::Device => assert(params@[2] == p),
                Param::MaxSizeBuffers => assert(params@[3] == p),
                Param::MaxSizeBytes => assert(params@[4] == p),
                Param::MaxSizeTime => assert(params@[5] == p),
                Param::Caps => assert(params@[6] == p),
                Param::Interval => assert(params@[7] == p),
                Param::PostMessages => assert(params@[8] == p),
                Param::Bitrate => assert(params@[9] == p),
                Param::InbandFec => assert(params@[10] == p),
                Param::FrameSize => assert(params@[11] == p),
                Param::Complexity => assert(params@[12] == p),
                Param::Pt => assert(params@[13] == p),
                Param::Host => assert(params@[14] == p),
                Param::Port => assert(params@[15] == p),
                Param::Sync => assert(params@[16] == p),
                Param::Async => assert(params@[17] == p),
                Param::Latency => assert(params@[18] == p),
                Param::DropOnLate => assert(params@[19] == p),
                Param::DoLost => assert(params@[20] == p),
                Param::Plc => assert(params@[21] == p),
            }
        }
        params
    }
}

impl Role {
    /// A pipeline does without the stage where the engine cannot make it:
    /// this holds of the decoupling buffers and of the level meters.
    pub open spec fn is_optional(self) -> bool {
        match self {
            Role::CaptureQueue => true,
            Role::CaptureMeter => true,
            Role::NetworkQueue => true,
            Role::RenderMeter => true,
            Role::RenderQueue => true,
            _ => false,
        }
    }

    /// Whether a pipeline does without the stage where the engine cannot
    /// make it.
    pub fn optional(self) -> (b: bool)
        ensures
            b == self.is_optional(),
    {
        match self {
            Role::CaptureQueue => true,
            Role::CaptureMeter => true,
            Role::NetworkQueue => true,
            Role::RenderMeter => true,
            Role::RenderQueue => true,
            _ => false,
        }
    }
}

/// The length of the audio that one encoded frame holds.
#[derive(Clone, Copy, Debug, PartialEq, Eq, Structural)]
pub enum FrameDuration {
    /// Two and a half milliseconds.
    Ms2_5,
}

impl FrameDuration {
    /// The duration as the encoder reads it.
    pub open spec fn text(self) -> Seq<char> {
        match self {
            FrameDuration::Ms2_5 => "2.5"@,
        }
    }

    /// The duration as the encoder reads it.
    pub fn as_str(self) -> (r: &'static str)
        ensures
            r@ == self.text(),
    {
        match self {
            FrameDuration::Ms2_5 => "2.5",
        }
    }
}

/// A value for one parameter of a stage.
#[derive(Clone, Debug, PartialEq, Eq)]
pub enum Setting {
    /// Size of the device buffer, in microseconds.
    BufferTimeUs(u64),
    /// Period of the device, in microseconds.
    LatencyTimeUs(u64),
    /// The device, by name.
    DeviceName(String),
    /// The device, by index.
    DeviceIndex(i32),
    /// The most buffers that a decoupling buffer holds; 0 for no limit.
    MaxSizeBuffers(u32),
    /// The most bytes that a decoupling buffer holds; 0 for no limit.
    MaxSizeBytes(u32),
    /// The most audio that a decoupling buffer holds, in nanoseconds.
    MaxSizeTimeNs(u64),
    /// The one format that passes.
    Caps(MediaFormat),
    /// The time between two level reports, in nanoseconds.
    IntervalNs(u64),
    /// Whether level reports are posted as events.
    PostMessages(bool),
    /// The encoder's bit rate, in bits per second.
    Bitrate(i32),
    /// Whether the encoder adds forward error correction.
    InbandFec(bool),
    /// The duration of an encoded frame.
    FrameSize(FrameDuration),
    /// The encoder's effort, from 0 to 10.
    Complexity(i32),
    /// The RTP payload type.
    PayloadType(u32),
    /// The host to transmit to.
    Host(String),
    /// The UDP port.
    Port(i32),
    /// Whether the stage paces itself by the clock.
    Sync(bool),
    /// Whether the stage changes state asynchronously.
    Async(bool),
    /// How long the jitter buffer holds packets, in milliseconds.
    JitterLatencyMs(u32),
    /// Whether packets that arrive too late are dropped.
    DropOnLate(bool),
    /// Whether lost packets are announced downstream.
    DoLost(bool),
    /// Whether the decoder conceals lost packets.
    Plc(bool),
}

/// What a setting assigns.
pub enum Value {
    Flag(bool),
    Number(int),
    Text(Seq<char>),
    Format(MediaFormat),
    Frame(FrameDuration),
}

/// What a `Setting` stands for: a parameter and the value assigned to it.
pub struct SettingView {
    pub param: Param,
    pub value: Value,
}

impl View for Setting {
    type V = SettingView;

    open spec fn view(&self) -> SettingView {
        match self {
            Setting::BufferTimeUs(n) => SettingView {
                param: Param::BufferTime,
                value: Value::Number(*n as int),
            },
            Setting::LatencyTimeUs(n) => SettingView {
                param: Param::LatencyTime,
                value: Value::Number(*n as int),
            },
            Setting::DeviceName(s) => SettingView { param: Param::Device, value: Value::Text(s@) },
            Setting::DeviceIndex(n) => SettingView {
                param: Param::Device,
                value: Value::Number(*n as int),
            },
            Setting::MaxSizeBuffers(n) => SettingView {
                param: Param::MaxSizeBuffers,
                value: Value::Number(*n as int),
            },
            Setting::MaxSizeBytes(n) => SettingView {
                param: Param::MaxSizeBytes,
                value: Value::Number(*n as int),
            },
            Setting::MaxSizeTimeNs(n) => SettingView {
                param: Param::MaxSizeTime,
                value: Value::Number(*n as int),
            },
            Setting::Caps(f) => SettingView { param: Param::Caps, value: Value::Format(*f) },
            Setting::IntervalNs(n) => SettingView {
                param: Param::Interval,
                value: Value::Number(*n as int),
            },
            Setting::PostMessages(b) => SettingView {
                param: Param::PostMessages,
                value: Value::Flag(*b),
            },
            Setting::Bitrate(n) => SettingView {
                param: Param::Bitrate,
                value: Value::Number(*n as int),
            },
            Setting::InbandFec(b) => SettingView { param: Param::InbandFec, value: Value::Flag(*b) },
            Setting::FrameSize(d) => SettingView {
                param: Param::FrameSize,
                value: Value::Frame(*d),
            },
            Setting::Complexity(n) => SettingView {
                param: Param::Complexity,
                value: Value::Number(*n as int),
            },
            Setting::PayloadType(n) => SettingView {
                param: Param::Pt,
                value: Value::Number(*n as int),
            },
            Setting::Host(s) => SettingView { param: Param::Host, value: Value::Text(s@) },
            Setting::Port(n) => SettingView { param: Param::Port, value: Value::Number(*n as int) },
            Setting::Sync(b) => SettingView { param: Param::Sync, value: Value::Flag(*b) },
            Setting::Async(b) => SettingView { param: Param::Async, value: Value::Flag(*b) },
            Setting::JitterLatencyMs(n) => SettingView {
                param: Param::Latency,
                value: Value::Number(*n as int),
            },
            Setting::DropOnLate(b) => SettingView {
                param: Param::DropOnLate,
                value: Value::Flag(*b),
            },
            Setting::DoLost(b) => SettingView { param: Param::DoLost, value: Value::Flag(*b) },
            Setting::Plc(b) => SettingView { param: Param::Plc, value: Value::Flag(*b) },
        }
    }
}

impl Setting {
    /// The parameter that the setting assigns.
    pub fn param(&self) -> (p: Param)
        ensures
            p == self@.param,
    {
        match self {
            Setting::BufferTimeUs(_) => Param::BufferTime,
            Setting::LatencyTimeUs(_) => Param::LatencyTime,
            Setting::DeviceName(_) => Param::Device,
            Setting::DeviceIndex(_) => Param::Device,
            Setting::MaxSizeBuffers(_) => Param::MaxSizeBuffers,
            Setting::MaxSizeBytes(_) => Param::MaxSizeBytes,
            Setting::MaxSizeTimeNs(_) => Param::MaxSizeTime,
            Setting::Caps(_) => Param::Caps,
            Setting::IntervalNs(_) => Param::Interval,
            Setting::PostMessages(_) => Param::PostMessages,
            Setting::Bitrate(_) => Param::Bitrate,
            Setting::InbandFec(_) => Param::InbandFec,
            Setting::FrameSize(_) => Param::FrameSize,
            Setting::Complexity(_) => Param::Complexity,
            Setting::PayloadType(_) => Param::Pt,
            Setting::Host(_) => Param::Host,
            Setting::Port(_) => Param::Port,
            Setting::Sync(_) => Param::Sync,
            Setting::Async(_) => Param::Async,
            Setting::JitterLatencyMs(_) => Param::Latency,
            Setting::DropOnLate(_) => Param::DropOnLate,
            Setting::DoLost(_) => Param::DoLost,
            Setting::Plc(_) => Param::Plc,
        }
    }
}

impl Setting {
    /// A copy of the setting.
    pub fn duplicate(&self) -> (r: Setting)
        ensures
            r@ == self@,
    {
        match self {
            Setting::BufferTimeUs(n) => Setting::BufferTimeUs(*n),
            Setting::LatencyTimeUs(n) => Setting::LatencyTimeUs(*n),
            Setting::DeviceName(s) => Setting::DeviceName(s.clone()),
            Setting::DeviceIndex(n) => Setting::DeviceIndex(*n),
            Setting::MaxSizeBuffers(n) => Setting::MaxSizeBuffers(*n),
            Setting::MaxSizeBytes(n) => Setting::MaxSizeBytes(*n),
            Setting::MaxSizeTimeNs(n) => Setting::MaxSizeTimeNs(*n),
            Setting::Caps(f) => Setting::Caps(*f),
            Setting::IntervalNs(n) => Setting::IntervalNs(*n),
            Setting::PostMessages(b) => Setting::PostMessages(*b),
            Setting::Bitrate(n) => Setting::Bitrate(*n),
            Setting::InbandFec(b) => Setting::InbandFec(*b),
            Setting::FrameSize(d) => Setting::FrameSize(*d),
            Setting::Complexity(n) => Setting::Complexity(*n),
            Setting::PayloadType(n) => Setting::PayloadType(*n),
            Setting::Host(s) => Setting::Host(s.clone()),
            Setting::Port(n) => Setting::Port(*n),
            Setting::Sync(b) => Setting::Sync(*b),
            Setting::Async(b) => Setting::Async(*b),
            Setting::JitterLatencyMs(n) => Setting::JitterLatencyMs(*n),
            Setting::DropOnLate(b) => Setting::DropOnLate(*b),
            Setting::DoLost(b) => Setting::DoLost(*b),
            Setting::Plc(b) => Setting::Plc(*b),
        }
    }
}

/// The views of a run of settings.
pub open spec fn setting_views(settings: Seq<Setting>) -> Seq<SettingView> {
    settings.map_values(|s: Setting| s@)
}

/// One stage of a pipeline: its place, its kind and the values of its
/// parameters, in the order in which they are applied.
#[derive(Clone, Debug, PartialEq, Eq)]
pub struct Stage {
    pub role: Role,
    pub factory: Factory,
    pub settings: Vec<Setting>,
}

/// What a `Stage` stands for.
pub struct StageView {
    pub role: Role,
    pub factory: Factory,
    pub settings: Seq<SettingView>,
}

impl View for Stage {
    type V = StageView;

    open spec fn view(&self) -> StageView {
        StageView {
            role: self.role,
            factory: self.factory,
            settings: setting_views(self.settings@),
        }
    }
}

/// The views of a run of stages.
pub open spec fn stage_views(stages: Seq<Stage>) -> Seq<StageView> {
    stages.map_values(|s: Stage| s@)
}

/// The parameters that one kind of stage has on this machine.
#[derive(Clone, Debug, PartialEq, Eq)]
pub struct FactoryCaps {
    pub factory: Factory,
    pub params: Vec<Param>,
}

/// What the engine offers on this machine, as a scan found it: the kinds of
/// stage that it can make, the parameters that each has, and the pairs of
/// kinds that cannot agree on a format.
#[derive(Clone, Debug, PartialEq, Eq)]
pub struct Capabilities {
    entries: Vec<FactoryCaps>,
    refused: Vec<(Factory, Factory)>,
}

/// What a `Capabilities` value stands for.
pub struct CapabilitiesView {
    /// The kinds of stage that can be made.
    pub offered: Set<Factory>,
    /// The parameters that the kinds have.
    pub params: Set<(Factory, Param)>,
    /// The pairs of an upstream and a downstream kind that cannot be linked.
    pub refused: Set<(Factory, Factory)>,
}

impl CapabilitiesView {
    /// A stage of kind `factory` has the parameter `param`.
    pub open spec fn supports(self, factory: Factory, param: Param) -> bool {
        self.params.contains((factory, param))
    }

    /// A stage of kind `up` can feed a stage of kind `down`.
    pub open spec fn links(self, up: Factory, down: Factory) -> bool {
        !self.refused.contains((up, down))
    }
}

impl View for Capabilities {
    type V = CapabilitiesView;

    closed spec fn view(&self) -> CapabilitiesView {
        CapabilitiesView {
            offered: Set::new(|f: Factory| self.has_entry(f)),
            params: Set::new(|fp: (Factory, Param)| self.has_entry_with(fp.0, fp.1)),
            refused: Set::new(|l: (Factory, Factory)| self.refused@.contains(l)),
        }
    }
}

impl Capabilities {
    spec fn has_entry(self, factory: Factory) -> bool {
        exists|i: int| 0 <= i < self.entries.len() && (#[trigger] self.entries[i]).factory == factory
    }

    spec fn has_entry_with(self, factory: Factory, param: Param) -> bool {
        exists|i: int|
            0 <= i < self.entries.len() && (#[trigger] self.entries[i]).factory == factory
                && self.entries[i].params@.contains(param)
    }

    /// An engine that offers nothing and refuses no link.
    pub fn new() -> (c: Capabilities)
        ensures
            c@.offered == Set::<Factory>::empty(),
            c@.params == Set::<(Factory, Param)>::empty(),
            c@.refused == Set::<(Factory, Factory)>::empty(),
    {
        let c = Capabilities { entries: Vec::new(), refused: Vec::new() };
        assert(c@.offered =~= Set::<Factory>::empty());
        assert(c@.params =~= Set::<(Factory, Param)>::empty());
        assert(c@.refused =~= Set::<(Factory, Factory)>::empty());
        c
    }

    /// Records that the engine can make stages of kind `factory`, with the
    /// parameters `params`.
    pub fn offer(&mut self, factory: Factory, params: Vec<Param>)
        ensures
            final(self)@.offered == old(self)@.offered.insert(factory),
            final(self)@.params == old(self)@.params.union(
                Set::new(|fp: (Factory, Param)| fp.0 == factory && params@.contains(fp.1)),
            ),
            final(self)@.refused == old(self)@.refused,
    {
        let ghost before = *self;
        let ghost added = params@;
        self.entries.push(FactoryCaps { factory, params });
        proof {
            let after = *self;
            assert(after.entries@.drop_last() =~= before.entries@);
            assert forall|f: Factory| after.has_entry(f) == (before.has_entry(f) || f == factory) by {
                if before.has_entry(f) {
                    let i = choose|i: int|
                        0 <= i < before.entries.len() && (#[trigger] before.entries[i]).factory == f;
                    assert(after.entries[i] == before.entries[i]);
                }
                if f == factory {
                    assert(after.entries[after.entries.len() - 1].factory == f);
                }
                if after.has_entry(f) {
                    let i = choose|i: int|
                        0 <= i < after.entries.len() && (#[trigger] after.entries[i]).factory == f;
                    if i < before.entries.len() {
                        assert(before.entries[i] == after.entries[i]);
                    }
                }
            }
            assert forall|f: Factory, p: Param|
                after.has_entry_with(f, p) == (before.has_entry_with(f, p) || (f == factory
                    && added.contains(p))) by {
                if before.has_entry_with(f, p) {
                    let i = choose|i: int|
                        0 <= i < before.entries.len() && (#[trigger] before.entries[i]).factory == f
                            && before.entries[i].params@.contains(p);
                    assert(after.entries[i] == before.entries[i]);
                }
                if f == factory && added.contains(p) {
                    assert(after.entries[after.entries.len() - 1].factory == f);
                }
                if after.has_entry_with(f, p) {
                    let i = choose|i: int|
                        0 <= i < after.entries.len() && (#[trigger] after.entries[i]).factory == f
                            && after.entries[i].params@.contains(p);
                    if i < before.entries.len() {
                        assert(before.entries[i] == after.entries[i]);
                    }
                }
            }
            assert(after@.offered =~= before@.offered.insert(factory));
            assert(after@.params =~= before@.params.union(
                Set::new(|fp: (Factory, Param)| fp.0 == factory && added.contains(fp.1)),
            ));
            assert(after@.refused =~= before@.refused);
        }
    }

    /// Records that a stage of kind `up` cannot feed a stage of kind `down`:
    /// the two have no format in common.
    pub fn refuse_link(&mut self, up: Factory, down: Factory)
        ensures
            final(self)@.offered == old(self)@.offered,
            final(self)@.params == old(self)@.params,
            final(self)@.refused == old(self)@.refused.insert((up, down)),
    {
        let ghost before = *self;
        self.refused.push((up, down));
        proof {
            let after = *self;
            assert(after.entries == before.entries);
            assert forall|f: Factory| after.has_entry(f) == before.has_entry(f) by {}
            assert forall|f: Factory, p: Param|
                after.has_entry_with(f, p) == before.has_entry_with(f, p) by {}
            assert forall|l: (Factory, Factory)|
                after.refused@.contains(l) == (before.refused@.contains(l) || l == (up, down)) by {
                if before.refused@.contains(l) {
                    let k = choose|k: int| 0 <= k < before.refused@.len() && before.refused@[k] == l;
                    assert(after.refused@[k] == l);
                }
                if l == (up, down) {
                    assert(after.refused@[after.refused@.len() - 1] == l);
                }
            }
            assert(after@.offered =~= before@.offered);
            assert(after@.params =~= before@.params);
            assert(after@.refused =~= before@.refused.insert((up, down)));
        }
    }

    /// Whether the engine can make stages of kind `factory`.
    pub fn has_factory(&self, factory: Factory) -> (b: bool)
        ensures
            b == self@.offered.contains(factory),
    {
        let mut i: usize = 0;
        while i < self.entries.len()
            invariant
                i <= self.entries.len(),
                forall|j: int| 0 <= j < i ==> (#[trigger] self.entries[j]).factory != factory,
            decreases self.entries.len() - i,
        {
            if self.entries[i].factory == factory {
                return true;
            }
            i = i + 1;
        }
        false
    }

    /// Whether stages of kind `factory` have the parameter `param`.
    pub fn has_param(&self, factory: Factory, param: Param) -> (b: bool)
        ensures
            b == self@.supports(factory, param),
    {
        let mut i: usize = 0;
        while i < self.entries.len()
            invariant
                i <= self.entries.len(),
                forall|j: int|
                    0 <= j < i ==> !((#[trigger] self.entries[j]).factory == factory
                        && self.entries[j].params@.contains(param)),
            decreases self.entries.len() - i,
        {
            if self.entries[i].factory == factory && holds_param(&self.entries[i].params, param) {
                return true;
            }
            i = i + 1;
        }
        false
    }

    /// Whether a stage of kind `up` can feed a stage of kind `down`.
    pub fn can_link(&self, up: Factory, down: Factory) -> (b: bool)
        ensures
            b == self@.links(up, down),
    {
        let mut k: usize = 0;
        while k < self.refused.len()
            invariant
                k <= self.refused.len(),
                forall|j: int| 0 <= j < k ==> self.refused@[j] != (up, down),
            decreases self.refused.len() - k,
        {
            if self.refused[k].0 == up && self.refused[k].1 == down {
                return false;
            }
            k = k + 1;
        }
        true
    }
}

/// Whether `param` is among `params`.
fn holds_param(params: &Vec<Param>, param: Param) -> (b: bool)
    ensures
        b == params@.contains(param),
{
    let mut j: usize = 0;
    while j < params.len()
        invariant
            j <= params.len(),
            forall|k: int| 0 <= k < j ==> params@[k] != param,
        decreases params.len() - j,
    {
        if params[j] == param {
            return true;
        }
        j = j + 1;
    }
    false
}

} // verus!
