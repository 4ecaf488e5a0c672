//! What each pipeline is meant to consist of: the stages in their fixed
//! order, each with the values wanted for its parameters. Whether the engine
//! can make a stage, and which parameters it has there, is settled later.

use crate::config::{
    number_in, number_or, read_switch_off_zero, read_switch_on_one, read_u32_or, read_u64,
    read_u64_or, switch_off_zero, switch_on_one, Environment, Key, Platform,
};
use crate::device::{DeviceId, DeviceRef};
use crate::device::device_of;
use crate::format::{
    network_audio, network_audio_format, normalized_audio, normalized_audio_format, PAYLOAD_TYPE,
};
use crate::stage::{
    stage_views, Factory, FrameDuration, Param, Role, Setting, SettingView, Stage, StageView,
    Value,
};
use crate::text::chars_of;
use vstd::prelude::*;

verus! {

/// A switch for `param`.
pub open spec fn flag(param: Param, on: bool) -> SettingView {
    SettingView { param, value: Value::Flag(on) }
}

/// A number for `param`.
pub open spec fn number(param: Param, n: int) -> SettingView {
    SettingView { param, value: Value::Number(n) }
}

/// A text for `param`.
pub open spec fn text(param: Param, s: Seq<char>) -> SettingView {
    SettingView { param, value: Value::Text(s) }
}

/// A number for `param` where there is one, nothing where there is none.
pub open spec fn number_if_given(param: Param, n: Option<nat>) -> Seq<SettingView> {
    match n {
        Some(n) => seq![number(param, n as int)],
        None => seq![],
    }
}

/// Encoder bit rate, in bits per second.
pub const ENCODER_BITRATE: i32 = 256_000;

/// Effort of the encoder.
pub const ENCODER_COMPLEXITY: i32 = 5;

/// Time between two level reports, in nanoseconds: a tenth of a second.
pub const METER_INTERVAL_NS: u64 = 100_000_000;

/// Audio that a decoupling buffer holds at most, in nanoseconds: 20 ms.
pub const QUEUE_TIME_NS: u64 = 20_000_000;

/// Jitter buffer latency where none is configured, in milliseconds.
pub const DEFAULT_JITTER_MS: u32 = 30;

/// Capture buffer on macOS where none is configured, in microseconds.
pub const DEFAULT_CAPTURE_BUFFER_US: u64 = 200_000;

/// Capture latency on macOS where none is configured, in microseconds.
pub const DEFAULT_CAPTURE_LATENCY_US: u64 = 10_000;

/// Render buffer where none is configured, in microseconds.
pub const DEFAULT_RENDER_BUFFER_US: u64 = 70_000;

/// Render latency where none is configured, in microseconds.
pub const DEFAULT_RENDER_LATENCY_US: u64 = 15_000;

/// `c` may stand in a host: an ASCII letter or digit, or one of `.`, `-`,
/// `_`, `:` and `%`, which covers DNS names and IP addresses.
pub open spec fn is_host_char(c: char) -> bool {
    ||| 48 <= c as u32 <= 57
    ||| 65 <= c as u32 <= 90
    ||| 97 <= c as u32 <= 122
    ||| c == '.'
    ||| c == '-'
    ||| c == '_'
    ||| c == ':'
    ||| c == '%'
}

/// `host` is written like a host: 1 to 253 characters, each of which may
/// stand in a host.
pub open spec fn valid_host(host: Seq<char>) -> bool {
    &&& 1 <= host.len() <= 253
    &&& forall|i: int| 0 <= i < host.len() ==> is_host_char(#[trigger] host[i])
}

/// Packets can be addressed to `host` and `port`.
pub open spec fn valid_destination(host: Seq<char>, port: u16) -> bool {
    valid_host(host) && port != 0
}

/// Whether packets can be addressed to `host` and `port`.
pub fn check_destination(host: &str, port: u16) -> (b: bool)
    ensures
        b == valid_destination(host@, port),
{
    let chars = chars_of(host);
    if port == 0 || chars.len() < 1 || chars.len() > 253 {
        return false;
    }
    let mut i: usize = 0;
    while i < chars.len()
        invariant
            chars@ == host@,
            port != 0,
            1 <= chars.len() <= 253,
            i <= chars.len(),
            forall|j: int| 0 <= j < i ==> is_host_char(#[trigger] chars@[j]),
        decreases chars.len() - i,
    {
        let c: char = chars[i];
        let n: u32 = c as u32;
        let ok = (48 <= n && n <= 57) || (65 <= n && n <= 90) || (97 <= n && n <= 122) || c == '.'
            || c == '-' || c == '_' || c == ':' || c == '%';
        if !ok {
            return false;
        }
        i = i + 1;
    }
    true
}

/// The capture stage: the native source on macOS, the audio server's
/// elsewhere.
///
/// On macOS buffer and latency are always set, to 200 ms and 10 ms unless
/// configured, and the device only where it is given by index. On Linux the
/// device is set where it is given by name, and buffer and latency only
/// where they are configured.
pub open spec fn capture_plan(platform: Platform, device: Option<DeviceId>, env: Environment)
    -> StageView {
    match platform {
        Platform::MacOs => StageView {
            role: Role::Capture,
            factory: Factory::OsxAudioSrc,
            settings: seq![
                number(
                    Param::BufferTime,
                    number_or(env.value(Key::CaptureBufferUs), u64::MAX as nat, 200_000) as int,
                ),
                number(
                    Param::LatencyTime,
                    number_or(env.value(Key::CaptureLatencyUs), u64::MAX as nat, 10_000) as int,
                ),
            ] + (match device {
                Some(DeviceId::Index(index)) => seq![number(Param::Device, index)],
                _ => seq![],
            }),
        },
        Platform::Linux => StageView {
            role: Role::Capture,
            factory: Factory::PulseSrc,
            settings: (match device {
                Some(DeviceId::Name(name)) => seq![text(Param::Device, name)],
                _ => seq![],
            }) + number_if_given(
                Param::BufferTime,
                number_in(env.value(Key::CaptureBufferUs), u64::MAX as nat),
            ) + number_if_given(
                Param::LatencyTime,
                number_in(env.value(Key::CaptureLatencyUs), u64::MAX as nat),
            ),
        },
    }
}

/// A decoupling buffer: bounded by 20 ms of audio, by no count and by no
/// size.
pub open spec fn queue_plan(role: Role) -> StageView {
    StageView {
        role,
        factory: Factory::Queue,
        settings: seq![
            number(Param::MaxSizeBuffers, 0),
            number(Param::MaxSizeBytes, 0),
            number(Param::MaxSizeTime, 20_000_000),
        ],
    }
}

/// A stage that runs as the engine made it.
pub open spec fn plain_plan(role: Role, factory: Factory) -> StageView {
    StageView { role, factory, settings: seq![] }
}

/// The filter that lets only the normalized raw format pass.
pub open spec fn format_filter_plan() -> StageView {
    StageView {
        role: Role::FormatFilter,
        factory: Factory::CapsFilter,
        settings: seq![
            SettingView { param: Param::Caps, value: Value::Format(normalized_audio()) },
        ],
    }
}

/// A level meter that posts a report every tenth of a second.
pub open spec fn meter_plan(role: Role) -> StageView {
    StageView {
        role,
        factory: Factory::Level,
        settings: seq![number(Param::Interval, 100_000_000), flag(Param::PostMessages, true)],
    }
}

/// The encoder: 256 kbit/s, no forward error correction, frames of 2.5 ms,
/// effort 5.
pub open spec fn encode_plan() -> StageView {
    StageView {
        role: Role::Encode,
        factory: Factory::OpusEnc,
        settings: seq![
            number(Param::Bitrate, 256_000),
            flag(Param::InbandFec, false),
            SettingView { param: Param::FrameSize, value: Value::Frame(FrameDuration::Ms2_5) },
            number(Param::Complexity, 5),
        ],
    }
}

/// The packetizer, with payload type 97.
pub open spec fn packetize_plan() -> StageView {
    StageView {
        role: Role::Packetize,
        factory: Factory::RtpOpusPay,
        settings: seq![number(Param::Pt, 97)],
    }
}

/// The transmitter: to `host` and `port`, neither paced by the clock nor
/// asynchronous.
pub open spec fn transmit_plan(host: Seq<char>, port: u16) -> StageView {
    StageView {
        role: Role::Transmit,
        factory: Factory::UdpSink,
        settings: seq![
            text(Param::Host, host),
            number(Param::Port, port as int),
            flag(Param::Sync, false),
            flag(Param::Async, false),
        ],
    }
}

/// The stages of a sender, first to last: capture, decoupling buffer,
/// conversion, resampling, format filter, level meter, encoder, packetizer,
/// transmitter.
pub open spec fn sender_plan(
    platform: Platform,
    device: Option<DeviceId>,
    host: Seq<char>,
    port: u16,
    env: Environment,
) -> Seq<StageView> {
    seq![
        capture_plan(platform, device, env),
        queue_plan(Role::CaptureQueue),
        plain_plan(Role::Convert, Factory::AudioConvert),
        plain_plan(Role::Resample, Factory::AudioResample),
        format_filter_plan(),
        meter_plan(Role::CaptureMeter),
        encode_plan(),
        packetize_plan(),
        transmit_plan(host, port),
    ]
}

/// The receiving socket: bound to `port`, open to the network format only.
pub open spec fn receive_plan(port: u16) -> StageView {
    StageView {
        role: Role::Receive,
        factory: Factory::UdpSrc,
        settings: seq![
            number(Param::Port, port as int),
            SettingView { param: Param::Caps, value: Value::Format(network_audio()) },
        ],
    }
}

/// The jitter buffer: 30 ms unless configured, late packets dropped unless
/// configured otherwise, losses announced.
pub open spec fn jitter_plan(env: Environment) -> StageView {
    StageView {
        role: Role::Jitter,
        factory: Factory::RtpJitterBuffer,
        settings: seq![
            number(Param::Latency, number_or(env.value(Key::JitterMs), u32::MAX as nat, 30) as int),
            flag(Param::DropOnLate, switch_on_one(env.value(Key::DropOnLate), true)),
            flag(Param::DoLost, true),
        ],
    }
}

/// The decoder, which conceals losses only where that is configured.
pub open spec fn decode_plan(env: Environment) -> StageView {
    StageView {
        role: Role::Decode,
        factory: Factory::OpusDec,
        settings: seq![flag(Param::Plc, switch_on_one(env.value(Key::LossConcealment), false))],
    }
}

/// The kind of the render stage: the native sink on macOS; elsewhere the
/// audio server's, unless no device of it is configured and the automatic
/// sink is asked for.
pub open spec fn render_factory(platform: Platform, env: Environment) -> Factory {
    match platform {
        Platform::MacOs => Factory::OsxAudioSink,
        Platform::Linux => if env.value(Key::PulseSink) is Some {
            Factory::PulseSink
        } else if env.value(Key::AutoSink) == Some("1"@) {
            Factory::AutoAudioSink
        } else {
            Factory::PulseSink
        },
    }
}

/// The render stage: the configured device of the audio server where there
/// is one, then buffer (70 ms), latency (15 ms) and pacing by the clock (on),
/// each unless configured.
pub open spec fn render_plan(platform: Platform, env: Environment) -> StageView {
    StageView {
        role: Role::Render,
        factory: render_factory(platform, env),
        settings: (if platform == Platform::Linux && env.value(Key::PulseSink) is Some {
            seq![text(Param::Device, env.value(Key::PulseSink)->0)]
        } else {
            seq![]
        }) + seq![
            number(
                Param::BufferTime,
                number_or(env.value(Key::RenderBufferUs), u64::MAX as nat, 70_000) as int,
            ),
            number(
                Param::LatencyTime,
                number_or(env.value(Key::RenderLatencyUs), u64::MAX as nat, 15_000) as int,
            ),
            flag(Param::Sync, switch_off_zero(env.value(Key::RenderSync), true)),
        ],
    }
}

/// The stages of a receiver, first to last: socket, decoupling buffer,
/// jitter buffer, depacketizer, decoder, conversion, resampling, level
/// meter, decoupling buffer, render.
pub open spec fn receiver_plan(platform: Platform, port: u16, env: Environment) -> Seq<StageView> {
    seq![
        receive_plan(port),
        queue_plan(Role::NetworkQueue),
        jitter_plan(env),
        plain_plan(Role::Depacketize, Factory::RtpOpusDepay),
        decode_plan(env),
        plain_plan(Role::Convert, Factory::AudioConvert),
        plain_plan(Role::Resample, Factory::AudioResample),
        meter_plan(Role::RenderMeter),
        queue_plan(Role::RenderQueue),
        render_plan(platform, env),
    ]
}

/// Plans the capture stage.
pub fn plan_capture(platform: Platform, device: &Option<DeviceRef>, env: &Environment) -> (s: Stage)
    ensures
        s@ == capture_plan(platform, device_of(*device), *env),
{
    let mut settings: Vec<Setting> = Vec::new();
    match platform {
        Platform::MacOs => {
            settings.push(
                Setting::BufferTimeUs(
                    read_u64_or(&env.capture_buffer_us, DEFAULT_CAPTURE_BUFFER_US),
                ),
            );
            settings.push(
                Setting::LatencyTimeUs(
                    read_u64_or(&env.capture_latency_us, DEFAULT_CAPTURE_LATENCY_US),
                ),
            );
            match device {
                Some(DeviceRef::Index(index)) => {
                    settings.push(Setting::DeviceIndex(*index));
                },
                _ => {},
            }
            let s = Stage { role: Role::Capture, factory: Factory::OsxAudioSrc, settings };
            assert(s@.settings =~= capture_plan(
                platform,
                device_of(*device),
                *env,
            ).settings);
            s
        },
        Platform::Linux => {
            match device {
                Some(DeviceRef::Name(name)) => {
                    settings.push(Setting::DeviceName(name.clone()));
                },
                _ => {},
            }
            match read_u64(&env.capture_buffer_us) {
                Some(n) => {
                    settings.push(Setting::BufferTimeUs(n));
                },
                None => {},
            }
            match read_u64(&env.capture_latency_us) {
                Some(n) => {
                    settings.push(Setting::LatencyTimeUs(n));
                },
                None => {},
            }
            let s = Stage { role: Role::Capture, factory: Factory::PulseSrc, settings };
            assert(s@.settings =~= capture_plan(
                platform,
                device_of(*device),
                *env,
            ).settings);
            s
        },
    }
}

/// Plans a decoupling buffer.
pub fn plan_queue(role: Role) -> (s: Stage)
    ensures
        s@ == queue_plan(role),
{
    let mut settings: Vec<Setting> = Vec::new();
    settings.push(Setting::MaxSizeBuffers(0));
    settings.push(Setting::MaxSizeBytes(0));
    settings.push(Setting::MaxSizeTimeNs(QUEUE_TIME_NS));
    let s = Stage { role, factory: Factory::Queue, settings };
    assert(s@.settings =~= queue_plan(role).settings);
    s
}

/// Plans a stage that runs as the engine made it.
pub fn plan_plain(role: Role, factory: Factory) -> (s: Stage)
    ensures
        s@ == plain_plan(role, factory),
{
    let s = Stage { role, factory, settings: Vec::new() };
    assert(s@.settings =~= plain_plan(role, factory).settings);
    s
}

/// Plans the filter for the normalized raw format.
pub fn plan_format_filter() -> (s: Stage)
    ensures
        s@ == format_filter_plan(),
{
    let mut settings: Vec<Setting> = Vec::new();
    settings.push(Setting::Caps(normalized_audio_format()));
    let s = Stage { role: Role::FormatFilter, factory: Factory::CapsFilter, settings };
    assert(s@.settings =~= format_filter_plan().settings);
    s
}

/// Plans a level meter.
pub fn plan_meter(role: Role) -> (s: Stage)
    ensures
        s@ == meter_plan(role),
{
    let mut settings: Vec<Setting> = Vec::new();
    settings.push(Setting::IntervalNs(METER_INTERVAL_NS));
    settings.push(Setting::PostMessages(true));
    let s = Stage { role, factory: Factory::Level, settings };
    assert(s@.settings =~= meter_plan(role).settings);
    s
}

/// Plans the encoder.
pub fn plan_encode() -> (s: Stage)
    ensures
        s@ == encode_plan(),
{
    let mut settings: Vec<Setting> = Vec::new();
    settings.push(Setting::Bitrate(ENCODER_BITRATE));
    settings.push(Setting::InbandFec(false));
    settings.push(Setting::FrameSize(FrameDuration::Ms2_5));
    settings.push(Setting::Complexity(ENCODER_COMPLEXITY));
    let s = Stage { role: Role::Encode, factory: Factory::OpusEnc, settings };
    assert(s@.settings =~= encode_plan().settings);
    s
}

/// Plans the packetizer.
pub fn plan_packetize() -> (s: Stage)
    ensures
        s@ == packetize_plan(),
{
    let mut settings: Vec<Setting> = Vec::new();
    settings.push(Setting::PayloadType(PAYLOAD_TYPE));
    let s = Stage { role: Role::Packetize, factory: Factory::RtpOpusPay, settings };
    assert(s@.settings =~= packetize_plan().settings);
    s
}

/// Plans the transmitter.
pub fn plan_transmit(host: &str, port: u16) -> (s: Stage)
    ensures
        s@ == transmit_plan(host@, port),
{
    let mut settings: Vec<Setting> = Vec::new();
    settings.push(Setting::Host(String::from_str(host)));
    settings.push(Setting::Port(port as i32));
    settings.push(Setting::Sync(false));
    settings.push(Setting::Async(false));
    let s = Stage { role: Role::Transmit, factory: Factory::UdpSink, settings };
    assert(s@.settings =~= transmit_plan(host@, port).settings);
    s
}

/// Plans the stages of a sender.
pub fn plan_sender(
    platform: Platform,
    device: &Option<DeviceRef>,
    host: &str,
    port: u16,
    env: &Environment,
) -> (stages: Vec<Stage>)
    ensures
        stage_views(stages@) == sender_plan(
            platform,
            device_of(*device),
            host@,
            port,
            *env,
        ),
{
    let mut stages: Vec<Stage> = Vec::new();
    stages.push(plan_capture(platform, device, env));
    stages.push(plan_queue(Role::CaptureQueue));
    stages.push(plan_plain(Role::Convert, Factory::AudioConvert));
    stages.push(plan_plain(Role::Resample, Factory::AudioResample));
    stages.push(plan_format_filter());
    stages.push(plan_meter(Role::CaptureMeter));
    stages.push(plan_encode());
    stages.push(plan_packetize());
    stages.push(plan_transmit(host, port));
    assert(stage_views(stages@) =~= sender_plan(
        platform,
        device_of(*device),
        host@,
        port,
        *env,
    ));
    stages
}

/// Plans the receiving socket.
pub fn plan_receive(port: u16) -> (s: Stage)
    ensures
        s@ == receive_plan(port),
{
    let mut settings: Vec<Setting> = Vec::new();
    settings.push(Setting::Port(port as i32));
    settings.push(Setting::Caps(network_audio_format()));
    let s = Stage { role: Role::Receive, factory: Factory::UdpSrc, settings };
    assert(s@.settings =~= receive_plan(port).settings);
    s
}

/// Plans the jitter buffer.
pub fn plan_jitter(env: &Environment) -> (s: Stage)
    ensures
        s@ == jitter_plan(*env),
{
    let mut settings: Vec<Setting> = Vec::new();
    settings.push(Setting::JitterLatencyMs(read_u32_or(&env.jitter_ms, DEFAULT_JITTER_MS)));
    settings.push(Setting::DropOnLate(read_switch_on_one(&env.drop_on_late, true)));
    settings.push(Setting::DoLost(true));
    let s = Stage { role: Role::Jitter, factory: Factory::RtpJitterBuffer, settings };
    assert(s@.settings =~= jitter_plan(*env).settings);
    s
}

/// Plans the decoder.
pub fn plan_decode(env: &Environment) -> (s: Stage)
    ensures
        s@ == decode_plan(*env),
{
    let mut settings: Vec<Setting> = Vec::new();
    settings.push(Setting::Plc(read_switch_on_one(&env.loss_concealment, false)));
    let s = Stage { role: Role::Decode, factory: Factory::OpusDec, settings };
    assert(s@.settings =~= decode_plan(*env).settings);
    s
}

/// Plans the render stage.
pub fn plan_render(platform: Platform, env: &Environment) -> (s: Stage)
    ensures
        s@ == render_plan(platform, *env),
{
    let mut settings: Vec<Setting> = Vec::new();
    let factory = match platform {
        Platform::MacOs => Factory::OsxAudioSink,
        Platform::Linux => match &env.pulse_sink {
            Some(device) => {
                settings.push(Setting::DeviceName(device.clone()));
                Factory::PulseSink
            },
            None => if read_switch_on_one(&env.auto_sink, false) {
                Factory::AutoAudioSink
            } else {
                Factory::PulseSink
            },
        },
    };
    settings.push(
        Setting::BufferTimeUs(read_u64_or(&env.render_buffer_us, DEFAULT_RENDER_BUFFER_US)),
    );
    settings.push(
        Setting::LatencyTimeUs(read_u64_or(&env.render_latency_us, DEFAULT_RENDER_LATENCY_US)),
    );
    settings.push(Setting::Sync(read_switch_off_zero(&env.render_sync, true)));
    let s = Stage { role: Role::Render, factory, settings };
    assert(s@.settings =~= render_plan(platform, *env).settings);
    s
}

/// Plans the stages of a receiver.
pub fn plan_receiver(platform: Platform, port: u16, env: &Environment) -> (stages: Vec<Stage>)
    ensures
        stage_views(stages@) == receiver_plan(platform, port, *env),
{
    let mut stages: Vec<Stage> = Vec::new();
    stages.push(plan_receive(port));
    stages.push(plan_queue(Role::NetworkQueue));
    stages.push(plan_jitter(env));
    stages.push(plan_plain(Role::Depacketize, Factory::RtpOpusDepay));
    stages.push(plan_decode(env));
    stages.push(plan_plain(Role::Convert, Factory::AudioConvert));
    stages.push(plan_plain(Role::Resample, Factory::AudioResample));
    stages.push(plan_meter(Role::RenderMeter));
    stages.push(plan_queue(Role::RenderQueue));
    stages.push(plan_render(platform, env));
    assert(stage_views(stages@) =~= receiver_plan(platform, port, *env));
    stages
}

/// Sender and receiver agree on the network format, whatever the platform
/// and the configuration: the payload type that the sender's packetizer
/// stamps is the one that the receiver's socket lets pass, with Opus at a
/// clock rate of 48 kHz.
pub proof fn lemma_network_format_agrees(
    sender_platform: Platform,
    device: Option<DeviceId>,
    host: Seq<char>,
    port: u16,
    sender_env: Environment,
    receiver_platform: Platform,
    listen_port: u16,
    receiver_env: Environment,
)
    ensures
        sender_plan(sender_platform, device, host, port, sender_env)[7].role == Role::Packetize,
        sender_plan(sender_platform, device, host, port, sender_env)[7].settings[0] == number(
            Param::Pt,
            97,
        ),
        receiver_plan(receiver_platform, listen_port, receiver_env)[0].role == Role::Receive,
        receiver_plan(receiver_platform, listen_port, receiver_env)[0].settings[1] == (SettingView {
            param: Param::Caps,
            value: Value::Format(
                crate::format::MediaFormat::Rtp {
                    codec: crate::format::Codec::Opus,
                    clock_rate: 48_000,
                    payload_type: 97,
                },
            ),
        }),
{
}

} // verus!
