use ab_core::config::{Environment, Platform};
use ab_core::device::{DeviceEntry, DeviceProps};
use ab_core::format::{ChannelLayout, Codec, MediaFormat, SampleEncoding};
use ab_core::pipeline::{
    assemble, build_receiver, build_sender, BuildError, Direction, Engine, Label, Lifecycle, Notice,
    Pad, Probe, ProbeKind, StartError, Verdict,
};
use ab_core::plan::{check_destination, plan_receiver, plan_sender};
use ab_core::stage::{Capabilities, Factory, FrameDuration, Param, Role, Setting, Stage};

fn all_factories() -> Vec<Factory> {
    vec![
        Factory::OsxAudioSrc,
        Factory::PulseSrc,
        Factory::Queue,
        Factory::AudioConvert,
        Factory::AudioResample,
        Factory::CapsFilter,
        Factory::Level,
        Factory::OpusEnc,
        Factory::RtpOpusPay,
        Factory::UdpSink,
        Factory::UdpSrc,
        Factory::RtpJitterBuffer,
        Factory::RtpOpusDepay,
        Factory::OpusDec,
        Factory::OsxAudioSink,
        Factory::PulseSink,
        Factory::AutoAudioSink,
    ]
}

fn all_params() -> Vec<Param> {
    vec![
        Param::BufferTime,
        Param::LatencyTime,
        Param::Device,
        Param::MaxSizeBuffers,
        Param::MaxSizeBytes,
        Param::MaxSizeTime,
        Param::Caps,
        Param::Interval,
        Param::PostMessages,
        Param::Bitrate,
        Param::InbandFec,
        Param::FrameSize,
        Param::Complexity,
        Param::Pt,
        Param::Host,
        Param::Port,
        Param::Sync,
        Param::Async,
        Param::Latency,
        Param::DropOnLate,
        Param::DoLost,
        Param::Plc,
    ]
}

fn capabilities_without(missing: &[Factory]) -> Capabilities {
    let mut caps = Capabilities::new();
    for factory in all_factories() {
        if !missing.contains(&factory) {
            caps.offer(factory, all_params());
        }
    }
    caps
}

fn engine(platform: Platform, capabilities: Capabilities) -> Engine {
    Engine { platform, capabilities, sources: Vec::new() }
}

fn full_engine(platform: Platform) -> Engine {
    engine(platform, capabilities_without(&[]))
}

fn monitor(name: &str, device: &str) -> DeviceEntry {
    DeviceEntry {
        display_name: name.to_string(),
        device_class: "Audio/Source".to_string(),
        props: Some(DeviceProps { device: Some(device.to_string()), node_name: None, description: None }),
    }
}

fn stage(role: Role, factory: Factory, settings: Vec<Setting>) -> Stage {
    Stage { role, factory, settings }
}

fn queue(role: Role) -> Stage {
    stage(
        role,
        Factory::Queue,
        vec![Setting::MaxSizeBuffers(0), Setting::MaxSizeBytes(0), Setting::MaxSizeTimeNs(20_000_000)],
    )
}

fn meter(role: Role) -> Stage {
    stage(role, Factory::Level, vec![Setting::IntervalNs(100_000_000), Setting::PostMessages(true)])
}

fn raw_audio() -> MediaFormat {
    MediaFormat::RawAudio {
        rate: 48_000,
        channels: 2,
        encoding: SampleEncoding::S16Le,
        layout: ChannelLayout::Interleaved,
    }
}

fn rtp_opus() -> MediaFormat {
    MediaFormat::Rtp { codec: Codec::Opus, clock_rate: 48_000, payload_type: 97 }
}

fn sender_tail(host: &str, port: i32) -> Vec<Stage> {
    vec![
        queue(Role::CaptureQueue),
        stage(Role::Convert, Factory::AudioConvert, vec![]),
        stage(Role::Resample, Factory::AudioResample, vec![]),
        stage(Role::FormatFilter, Factory::CapsFilter, vec![Setting::Caps(raw_audio())]),
        meter(Role::CaptureMeter),
        stage(
            Role::Encode,
            Factory::OpusEnc,
            vec![
                Setting::Bitrate(256_000),
                Setting::InbandFec(false),
                Setting::FrameSize(FrameDuration::Ms2_5),
                Setting::Complexity(5),
            ],
        ),
        stage(Role::Packetize, Factory::RtpOpusPay, vec![Setting::PayloadType(97)]),
        stage(
            Role::Transmit,
            Factory::UdpSink,
            vec![
                Setting::Host(host.to_string()),
                Setting::Port(port),
                Setting::Sync(false),
                Setting::Async(false),
            ],
        ),
    ]
}

fn with_head(head: Stage, tail: Vec<Stage>) -> Vec<Stage> {
    let mut stages = vec![head];
    stages.extend(tail);
    stages
}

fn default_receiver_stages(port: i32, render: Stage) -> Vec<Stage> {
    vec![
        stage(Role::Receive, Factory::UdpSrc, vec![Setting::Port(port), Setting::Caps(rtp_opus())]),
        queue(Role::NetworkQueue),
        stage(
            Role::Jitter,
            Factory::RtpJitterBuffer,
            vec![Setting::JitterLatencyMs(30), Setting::DropOnLate(true), Setting::DoLost(true)],
        ),
        stage(Role::Depacketize, Factory::RtpOpusDepay, vec![]),
        stage(Role::Decode, Factory::OpusDec, vec![Setting::Plc(false)]),
        stage(Role::Convert, Factory::AudioConvert, vec![]),
        stage(Role::Resample, Factory::AudioResample, vec![]),
        meter(Role::RenderMeter),
        queue(Role::RenderQueue),
        render,
    ]
}

fn default_render(factory: Factory) -> Stage {
    stage(
        Role::Render,
        factory,
        vec![Setting::BufferTimeUs(70_000), Setting::LatencyTimeUs(15_000), Setting::Sync(true)],
    )
}

fn roles(stages: &Vec<Stage>) -> Vec<Role> {
    stages.iter().map(|s| s.role).collect()
}

#[test]
fn names_of_factories_roles_and_params_are_the_engines() {
    assert_eq!(Factory::OsxAudioSrc.name(), "osxaudiosrc");
    assert_eq!(Factory::PulseSrc.name(), "pulsesrc");
    assert_eq!(Factory::Queue.name(), "queue");
    assert_eq!(Factory::AudioConvert.name(), "audioconvert");
    assert_eq!(Factory::AudioResample.name(), "audioresample");
    assert_eq!(Factory::CapsFilter.name(), "capsfilter");
    assert_eq!(Factory::Level.name(), "level");
    assert_eq!(Factory::OpusEnc.name(), "opusenc");
    assert_eq!(Factory::RtpOpusPay.name(), "rtpopuspay");
    assert_eq!(Factory::UdpSink.name(), "udpsink");
    assert_eq!(Factory::UdpSrc.name(), "udpsrc");
    assert_eq!(Factory::RtpJitterBuffer.name(), "rtpjitterbuffer");
    assert_eq!(Factory::RtpOpusDepay.name(), "rtpopusdepay");
    assert_eq!(Factory::OpusDec.name(), "opusdec");
    assert_eq!(Factory::OsxAudioSink.name(), "osxaudiosink");
    assert_eq!(Factory::PulseSink.name(), "pulsesink");
    assert_eq!(Factory::AutoAudioSink.name(), "autoaudiosink");
    assert_eq!(Role::Capture.name(), "src");
    assert_eq!(Role::CaptureQueue.name(), "q_src");
    assert_eq!(Role::CaptureMeter.name(), "level_tx");
    assert_eq!(Role::RenderMeter.name(), "level");
    assert_eq!(Role::Jitter.name(), "jbuf");
    assert_eq!(Role::Render.name(), "sink");
    assert_eq!(Param::BufferTime.name(), "buffer-time");
    assert_eq!(Param::MaxSizeTime.name(), "max-size-time");
    assert_eq!(Param::Pt.name(), "pt");
    assert_eq!(Param::DropOnLate.name(), "drop-on-late");
    assert_eq!(FrameDuration::Ms2_5.as_str(), "2.5");
    assert_eq!(Direction::Send.tag(), "sender");
    assert_eq!(Direction::Receive.tag(), "receiver");
    assert_eq!(Pad::Src.name(), "src");
    assert_eq!(Pad::Sink.name(), "sink");
    assert_eq!(Label::SenderSource.as_str(), "snd/src");
    assert_eq!(Label::SenderOpus.as_str(), "snd/opus");
    assert_eq!(Label::SenderRtp.as_str(), "snd/rtp");
    assert_eq!(Label::SenderRate.as_str(), "sender");
    assert_eq!(Label::ReceiverOpus.as_str(), "rcv/opus");
    assert_eq!(Label::ReceiverSink.as_str(), "rcv/sink");
}

#[test]
fn only_buffers_and_meters_are_optional() {
    let optional = vec![
        Role::CaptureQueue,
        Role::CaptureMeter,
        Role::NetworkQueue,
        Role::RenderMeter,
        Role::RenderQueue,
    ];
    let every = vec![
        Role::Capture,
        Role::CaptureQueue,
        Role::Convert,
        Role::Resample,
        Role::FormatFilter,
        Role::CaptureMeter,
        Role::Encode,
        Role::Packetize,
        Role::Transmit,
        Role::Receive,
        Role::NetworkQueue,
        Role::Jitter,
        Role::Depacketize,
        Role::Decode,
        Role::RenderMeter,
        Role::RenderQueue,
        Role::Render,
    ];
    for role in every {
        assert_eq!(role.optional(), optional.contains(&role), "{:?}", role);
    }
}

#[test]
fn capabilities_answer_what_was_recorded() {
    let mut caps = Capabilities::new();
    assert!(!caps.has_factory(Factory::Queue));
    assert!(!caps.has_param(Factory::Queue, Param::MaxSizeTime));
    assert!(caps.can_link(Factory::Queue, Factory::AudioConvert));
    caps.offer(Factory::Queue, vec![Param::MaxSizeTime]);
    caps.offer(Factory::Level, vec![]);
    caps.offer(Factory::Queue, vec![Param::MaxSizeBytes]);
    caps.refuse_link(Factory::Queue, Factory::Level);
    assert!(caps.has_factory(Factory::Queue));
    assert!(caps.has_factory(Factory::Level));
    assert!(!caps.has_factory(Factory::OpusEnc));
    assert!(caps.has_param(Factory::Queue, Param::MaxSizeTime));
    assert!(caps.has_param(Factory::Queue, Param::MaxSizeBytes));
    assert!(!caps.has_param(Factory::Queue, Param::MaxSizeBuffers));
    assert!(!caps.has_param(Factory::Level, Param::MaxSizeTime));
    assert!(!caps.has_param(Factory::OpusEnc, Param::Bitrate));
    assert!(!caps.can_link(Factory::Queue, Factory::Level));
    assert!(caps.can_link(Factory::Level, Factory::Queue));
    assert!(caps.can_link(Factory::Queue, Factory::Queue));
}

#[test]
fn check_destination_wants_a_host_and_a_port() {
    assert!(check_destination("192.168.1.20", 5002));
    assert!(check_destination("localhost", 1));
    assert!(check_destination("studio-pc.local", 65535));
    assert!(check_destination("fe80::1%eth0", 5002));
    assert!(check_destination("my_host", 5002));
    assert!(!check_destination("", 5002));
    assert!(!check_destination("192.168.1.20", 0));
    assert!(!check_destination("not a host", 5002));
    assert!(!check_destination("host/path", 5002));
    assert!(!check_destination("höst", 5002));
    assert!(!check_destination("host\n", 5002));
    assert!(check_destination(&"a".repeat(253), 5002));
    assert!(!check_destination(&"a".repeat(254), 5002));
}

#[test]
fn sender_on_linux_with_a_named_device() {
    let sender = build_sender(
        Some("alsa_output.usb.monitor"),
        "192.168.1.20",
        5002,
        &Environment::empty(),
        &full_engine(Platform::Linux),
    )
    .unwrap();
    let capture = stage(
        Role::Capture,
        Factory::PulseSrc,
        vec![Setting::DeviceName("alsa_output.usb.monitor".to_string())],
    );
    assert_eq!(sender.pipeline().stages(), &with_head(capture, sender_tail("192.168.1.20", 5002)));
    assert_eq!(sender.pipeline().state(), Lifecycle::Idle);
    assert_eq!(sender.pipeline().direction(), Direction::Send);
}

#[test]
fn sender_stages_stand_in_their_fixed_order() {
    let sender =
        build_sender(None, "10.0.0.2", 5002, &Environment::empty(), &full_engine(Platform::Linux)).unwrap();
    assert_eq!(
        roles(sender.pipeline().stages()),
        vec![
            Role::Capture,
            Role::CaptureQueue,
            Role::Convert,
            Role::Resample,
            Role::FormatFilter,
            Role::CaptureMeter,
            Role::Encode,
            Role::Packetize,
            Role::Transmit,
        ]
    );
}

#[test]
fn sender_probes_watch_source_encoder_and_packetizer() {
    let sender =
        build_sender(None, "10.0.0.2", 5002, &Environment::empty(), &full_engine(Platform::Linux)).unwrap();
    assert_eq!(
        sender.pipeline().probes(),
        &vec![
            Probe { role: Role::Capture, pad: Pad::Src, kind: ProbeKind::Format, label: Label::SenderSource },
            Probe { role: Role::Encode, pad: Pad::Src, kind: ProbeKind::Format, label: Label::SenderOpus },
            Probe { role: Role::Packetize, pad: Pad::Src, kind: ProbeKind::Format, label: Label::SenderRtp },
            Probe { role: Role::Packetize, pad: Pad::Src, kind: ProbeKind::Throughput, label: Label::SenderRate },
        ]
    );
}

#[test]
fn sender_without_a_hint_captures_from_the_monitor_that_the_scan_finds() {
    let mut machine = full_engine(Platform::Linux);
    machine.sources = vec![
        monitor("Built-in Microphone", "alsa_input.builtin"),
        monitor("Monitor of HDMI", "hdmi.monitor"),
        monitor("Monitor of Speakers", "speakers.monitor"),
    ];
    let sender = build_sender(None, "10.0.0.2", 5002, &Environment::empty(), &machine).unwrap();
    assert_eq!(
        sender.pipeline().stages()[0],
        stage(Role::Capture, Factory::PulseSrc, vec![Setting::DeviceName("hdmi.monitor".to_string())])
    );
    let mut env = Environment::empty();
    env.monitor_hint = Some("Speakers".to_string());
    let preferred = build_sender(None, "10.0.0.2", 5002, &env, &machine).unwrap();
    assert_eq!(
        preferred.pipeline().stages()[0],
        stage(Role::Capture, Factory::PulseSrc, vec![Setting::DeviceName("speakers.monitor".to_string())])
    );
}

#[test]
fn sender_without_a_hint_and_without_a_monitor_leaves_the_device_to_the_backend() {
    let mut machine = full_engine(Platform::Linux);
    machine.sources = vec![monitor("Built-in Microphone", "alsa_input.builtin")];
    let sender = build_sender(None, "10.0.0.2", 5002, &Environment::empty(), &machine).unwrap();
    assert_eq!(sender.pipeline().stages()[0], stage(Role::Capture, Factory::PulseSrc, vec![]));
}

#[test]
fn sender_on_linux_sets_capture_timing_only_where_configured() {
    let mut env = Environment::empty();
    env.capture_buffer_us = Some("5000".to_string());
    env.capture_latency_us = Some("soon".to_string());
    let sender = build_sender(Some("dev"), "10.0.0.2", 5002, &env, &full_engine(Platform::Linux)).unwrap();
    assert_eq!(
        sender.pipeline().stages()[0],
        stage(
            Role::Capture,
            Factory::PulseSrc,
            vec![Setting::DeviceName("dev".to_string()), Setting::BufferTimeUs(5000)]
        )
    );
    env.capture_latency_us = Some("2500".to_string());
    let both = build_sender(None, "10.0.0.2", 5002, &env, &full_engine(Platform::Linux)).unwrap();
    assert_eq!(
        both.pipeline().stages()[0],
        stage(
            Role::Capture,
            Factory::PulseSrc,
            vec![Setting::BufferTimeUs(5000), Setting::LatencyTimeUs(2500)]
        )
    );
}

#[test]
fn sender_on_macos_sets_capture_timing_always_and_the_device_by_index() {
    let machine = full_engine(Platform::MacOs);
    let sender = build_sender(Some("2"), "10.0.0.2", 5002, &Environment::empty(), &machine).unwrap();
    assert_eq!(
        sender.pipeline().stages()[0],
        stage(
            Role::Capture,
            Factory::OsxAudioSrc,
            vec![Setting::BufferTimeUs(200_000), Setting::LatencyTimeUs(10_000), Setting::DeviceIndex(2)]
        )
    );
    let mut env = Environment::empty();
    env.capture_buffer_us = Some("50000".to_string());
    env.capture_latency_us = Some("x".to_string());
    let named = build_sender(Some("BlackHole 2ch"), "10.0.0.2", 5002, &env, &machine).unwrap();
    assert_eq!(
        named.pipeline().stages()[0],
        stage(
            Role::Capture,
            Factory::OsxAudioSrc,
            vec![Setting::BufferTimeUs(50_000), Setting::LatencyTimeUs(10_000)]
        )
    );
}

#[test]
fn sender_fails_on_the_first_needed_stage_that_cannot_be_made() {
    let cases = vec![
        (Factory::PulseSrc, Role::Capture),
        (Factory::AudioConvert, Role::Convert),
        (Factory::AudioResample, Role::Resample),
        (Factory::CapsFilter, Role::FormatFilter),
        (Factory::OpusEnc, Role::Encode),
        (Factory::RtpOpusPay, Role::Packetize),
        (Factory::UdpSink, Role::Transmit),
    ];
    for (factory, role) in cases {
        let machine = engine(Platform::Linux, capabilities_without(&[factory]));
        assert_eq!(
            build_sender(None, "10.0.0.2", 5002, &Environment::empty(), &machine).err(),
            Some(BuildError::MissingStage(role, factory))
        );
    }
    let several = engine(Platform::Linux, capabilities_without(&[Factory::UdpSink, Factory::OpusEnc]));
    assert_eq!(
        build_sender(None, "10.0.0.2", 5002, &Environment::empty(), &several).err(),
        Some(BuildError::MissingStage(Role::Encode, Factory::OpusEnc))
    );
    let nothing = engine(Platform::MacOs, Capabilities::new());
    assert_eq!(
        build_sender(None, "10.0.0.2", 5002, &Environment::empty(), &nothing).err(),
        Some(BuildError::MissingStage(Role::Capture, Factory::OsxAudioSrc))
    );
}

#[test]
fn sender_does_without_buffers_and_meters_that_cannot_be_made() {
    let machine = engine(Platform::Linux, capabilities_without(&[Factory::Queue, Factory::Level]));
    let sender = build_sender(None, "10.0.0.2", 5002, &Environment::empty(), &machine).unwrap();
    assert_eq!(
        roles(sender.pipeline().stages()),
        vec![
            Role::Capture,
            Role::Convert,
            Role::Resample,
            Role::FormatFilter,
            Role::Encode,
            Role::Packetize,
            Role::Transmit,
        ]
    );
}

#[test]
fn settings_without_a_parameter_are_left_out() {
    let mut caps = Capabilities::new();
    for factory in all_factories() {
        if factory == Factory::OpusEnc {
            caps.offer(factory, vec![Param::Bitrate, Param::InbandFec]);
        } else if factory == Factory::Level {
            caps.offer(factory, vec![]);
        } else if factory == Factory::PulseSrc {
            caps.offer(factory, vec![Param::BufferTime]);
        } else {
            caps.offer(factory, all_params());
        }
    }
    let sender =
        build_sender(Some("dev"), "10.0.0.2", 5002, &Environment::empty(), &engine(Platform::Linux, caps))
            .unwrap();
    let stages = sender.pipeline().stages();
    assert_eq!(stages[0], stage(Role::Capture, Factory::PulseSrc, vec![]));
    assert_eq!(stages[5], stage(Role::CaptureMeter, Factory::Level, vec![]));
    assert_eq!(
        stages[6],
        stage(Role::Encode, Factory::OpusEnc, vec![Setting::Bitrate(256_000), Setting::InbandFec(false)])
    );
    assert_eq!(stages[1], queue(Role::CaptureQueue));
}

#[test]
fn sender_to_an_invalid_destination_is_not_built() {
    let machine = full_engine(Platform::Linux);
    let env = Environment::empty();
    assert_eq!(build_sender(None, "", 5002, &env, &machine).err(), Some(BuildError::InvalidDestination));
    assert_eq!(
        build_sender(None, "no such host!", 5002, &env, &machine).err(),
        Some(BuildError::InvalidDestination)
    );
    assert_eq!(
        build_sender(None, "192.168.1.20", 0, &env, &machine).err(),
        Some(BuildError::InvalidDestination)
    );
    assert!(build_sender(None, "192.168.1.20", 5002, &env, &machine).is_ok());
}

#[test]
fn a_missing_stage_is_reported_before_an_invalid_destination() {
    let machine = engine(Platform::Linux, capabilities_without(&[Factory::UdpSink]));
    assert_eq!(
        build_sender(None, "", 0, &Environment::empty(), &machine).err(),
        Some(BuildError::MissingStage(Role::Transmit, Factory::UdpSink))
    );
}

#[test]
fn stages_that_cannot_agree_on_a_format_fail_the_build() {
    let mut caps = capabilities_without(&[]);
    caps.refuse_link(Factory::OpusEnc, Factory::RtpOpusPay);
    caps.refuse_link(Factory::RtpOpusPay, Factory::UdpSink);
    caps.refuse_link(Factory::UdpSink, Factory::OpusEnc);
    let machine = engine(Platform::Linux, caps);
    assert_eq!(
        build_sender(None, "10.0.0.2", 5002, &Environment::empty(), &machine).err(),
        Some(BuildError::FormatMismatch(Role::Encode, Role::Packetize))
    );
    assert_eq!(
        build_sender(None, "", 5002, &Environment::empty(), &machine).err(),
        Some(BuildError::InvalidDestination)
    );
    assert!(build_receiver(5004, &Environment::empty(), &machine).is_ok());
}

#[test]
fn links_are_judged_between_the_stages_that_are_there() {
    let mut caps = capabilities_without(&[Factory::Queue]);
    caps.refuse_link(Factory::PulseSrc, Factory::Queue);
    let without_queue = engine(Platform::Linux, caps);
    assert!(build_sender(None, "10.0.0.2", 5002, &Environment::empty(), &without_queue).is_ok());
    let mut caps = capabilities_without(&[Factory::Queue]);
    caps.refuse_link(Factory::PulseSrc, Factory::AudioConvert);
    let direct = engine(Platform::Linux, caps);
    assert_eq!(
        build_sender(None, "10.0.0.2", 5002, &Environment::empty(), &direct).err(),
        Some(BuildError::FormatMismatch(Role::Capture, Role::Convert))
    );
}

#[test]
fn receiver_on_port_5004_expects_opus_at_48000_with_payload_type_97() {
    let receiver = build_receiver(5004, &Environment::empty(), &full_engine(Platform::Linux)).unwrap();
    let stages = receiver.pipeline().stages();
    assert_eq!(stages, &default_receiver_stages(5004, default_render(Factory::PulseSink)));
    assert_eq!(
        stages[0],
        stage(
            Role::Receive,
            Factory::UdpSrc,
            vec![
                Setting::Port(5004),
                Setting::Caps(MediaFormat::Rtp { codec: Codec::Opus, clock_rate: 48_000, payload_type: 97 })
            ]
        )
    );
    assert_eq!(
        roles(stages),
        vec![
            Role::Receive,
            Role::NetworkQueue,
            Role::Jitter,
            Role::Depacketize,
            Role::Decode,
            Role::Convert,
            Role::Resample,
            Role::RenderMeter,
            Role::RenderQueue,
            Role::Render,
        ]
    );
    assert_eq!(receiver.pipeline().state(), Lifecycle::Idle);
    assert_eq!(receiver.pipeline().direction(), Direction::Receive);
    assert_eq!(
        receiver.pipeline().probes(),
        &vec![
            Probe { role: Role::Depacketize, pad: Pad::Src, kind: ProbeKind::Format, label: Label::ReceiverOpus },
            Probe { role: Role::Render, pad: Pad::Sink, kind: ProbeKind::Format, label: Label::ReceiverSink },
        ]
    );
}

#[test]
fn sender_and_receiver_agree_on_the_payload_type() {
    let machine = full_engine(Platform::Linux);
    let sender = build_sender(None, "10.0.0.2", 5004, &Environment::empty(), &machine).unwrap();
    let receiver = build_receiver(5004, &Environment::empty(), &machine).unwrap();
    assert_eq!(sender.pipeline().stages()[7].settings, vec![Setting::PayloadType(97)]);
    assert_eq!(receiver.pipeline().stages()[0].settings[1], Setting::Caps(rtp_opus()));
}

#[test]
fn receiver_follows_the_configuration() {
    let env = Environment {
        capture_buffer_us: None,
        capture_latency_us: None,
        monitor_hint: None,
        jitter_ms: Some("10".to_string()),
        drop_on_late: Some("0".to_string()),
        loss_concealment: Some("1".to_string()),
        pulse_sink: None,
        auto_sink: None,
        render_buffer_us: Some("10000".to_string()),
        render_latency_us: Some("5000".to_string()),
        render_sync: Some("0".to_string()),
    };
    let receiver = build_receiver(6000, &env, &full_engine(Platform::Linux)).unwrap();
    let stages = receiver.pipeline().stages();
    assert_eq!(
        stages[2],
        stage(
            Role::Jitter,
            Factory::RtpJitterBuffer,
            vec![Setting::JitterLatencyMs(10), Setting::DropOnLate(false), Setting::DoLost(true)]
        )
    );
    assert_eq!(stages[4], stage(Role::Decode, Factory::OpusDec, vec![Setting::Plc(true)]));
    assert_eq!(
        stages[9],
        stage(
            Role::Render,
            Factory::PulseSink,
            vec![Setting::BufferTimeUs(10_000), Setting::LatencyTimeUs(5000), Setting::Sync(false)]
        )
    );
    assert_eq!(stages[0].settings[0], Setting::Port(6000));
}

#[test]
fn receiver_keeps_its_defaults_where_the_configuration_cannot_be_read() {
    let mut env = Environment::empty();
    env.jitter_ms = Some("fast".to_string());
    env.drop_on_late = Some("yes".to_string());
    env.loss_concealment = Some("on".to_string());
    env.render_buffer_us = Some("-1".to_string());
    env.render_latency_us = Some("".to_string());
    env.render_sync = Some("no".to_string());
    let receiver = build_receiver(5004, &env, &full_engine(Platform::Linux)).unwrap();
    let stages = receiver.pipeline().stages();
    assert_eq!(
        stages[2].settings,
        vec![Setting::JitterLatencyMs(30), Setting::DropOnLate(false), Setting::DoLost(true)]
    );
    assert_eq!(stages[4].settings, vec![Setting::Plc(false)]);
    assert_eq!(
        stages[9].settings,
        vec![Setting::BufferTimeUs(70_000), Setting::LatencyTimeUs(15_000), Setting::Sync(true)]
    );
}

#[test]
fn render_backend_follows_platform_and_configuration() {
    let mut env = Environment::empty();
    let linux = full_engine(Platform::Linux);
    let mac = full_engine(Platform::MacOs);
    let render = |env: &Environment, machine: &Engine| -> Stage {
        build_receiver(5004, env, machine).unwrap().pipeline().stages()[9].clone()
    };
    assert_eq!(render(&env, &linux), default_render(Factory::PulseSink));
    assert_eq!(render(&env, &mac), default_render(Factory::OsxAudioSink));
    env.auto_sink = Some("1".to_string());
    assert_eq!(render(&env, &linux), default_render(Factory::AutoAudioSink));
    assert_eq!(render(&env, &mac), default_render(Factory::OsxAudioSink));
    env.auto_sink = Some("0".to_string());
    assert_eq!(render(&env, &linux), default_render(Factory::PulseSink));
    env.auto_sink = Some("1".to_string());
    env.pulse_sink = Some("alsa_output.usb".to_string());
    assert_eq!(
        render(&env, &linux),
        stage(
            Role::Render,
            Factory::PulseSink,
            vec![
                Setting::DeviceName("alsa_output.usb".to_string()),
                Setting::BufferTimeUs(70_000),
                Setting::LatencyTimeUs(15_000),
                Setting::Sync(true)
            ]
        )
    );
    assert_eq!(render(&env, &mac), default_render(Factory::OsxAudioSink));
}

#[test]
fn receiver_fails_on_the_first_needed_stage_that_cannot_be_made() {
    let cases = vec![
        (Factory::UdpSrc, Role::Receive),
        (Factory::RtpJitterBuffer, Role::Jitter),
        (Factory::RtpOpusDepay, Role::Depacketize),
        (Factory::OpusDec, Role::Decode),
        (Factory::AudioConvert, Role::Convert),
        (Factory::AudioResample, Role::Resample),
        (Factory::PulseSink, Role::Render),
    ];
    for (factory, role) in cases {
        let machine = engine(Platform::Linux, capabilities_without(&[factory]));
        assert_eq!(
            build_receiver(5004, &Environment::empty(), &machine).err(),
            Some(BuildError::MissingStage(role, factory))
        );
    }
    let mac = engine(Platform::MacOs, capabilities_without(&[Factory::OsxAudioSink]));
    assert_eq!(
        build_receiver(5004, &Environment::empty(), &mac).err(),
        Some(BuildError::MissingStage(Role::Render, Factory::OsxAudioSink))
    );
    let without_optional = engine(Platform::Linux, capabilities_without(&[Factory::Queue, Factory::Level]));
    let receiver = build_receiver(5004, &Environment::empty(), &without_optional).unwrap();
    assert_eq!(
        roles(receiver.pipeline().stages()),
        vec![
            Role::Receive,
            Role::Jitter,
            Role::Depacketize,
            Role::Decode,
            Role::Convert,
            Role::Resample,
            Role::Render,
        ]
    );
}

#[test]
fn plans_hold_every_stage_whatever_the_engine_offers() {
    let sender = plan_sender(Platform::Linux, &None, "h", 1, &Environment::empty());
    assert_eq!(sender, with_head(stage(Role::Capture, Factory::PulseSrc, vec![]), sender_tail("h", 1)));
    let receiver = plan_receiver(Platform::MacOs, 7, &Environment::empty());
    assert_eq!(receiver, default_receiver_stages(7, default_render(Factory::OsxAudioSink)));
}

#[test]
fn assemble_of_nothing_is_an_empty_pipeline() {
    assert_eq!(assemble(&Vec::new(), &Capabilities::new(), true), Ok((Vec::new(), Vec::new())));
    assert_eq!(assemble(&Vec::new(), &Capabilities::new(), false), Err(BuildError::InvalidDestination));
    let one = vec![stage(Role::Convert, Factory::AudioConvert, vec![])];
    assert_eq!(assemble(&one, &Capabilities::new(), true), Err(BuildError::MissingStage(Role::Convert, Factory::AudioConvert)));
    assert_eq!(assemble(&one, &capabilities_without(&[]), true), Ok((one.clone(), Vec::new())));
}

#[test]
fn start_follows_the_engines_verdict() {
    let machine = full_engine(Platform::Linux);
    let mut sender = build_sender(None, "10.0.0.2", 5002, &Environment::empty(), &machine).unwrap();
    let built = sender.pipeline().stages().clone();
    assert_eq!(sender.start(Verdict::Refused), Err(StartError::Refused));
    assert_eq!(sender.pipeline().state(), Lifecycle::Idle);
    assert_eq!(sender.start(Verdict::Accepted), Ok(()));
    assert_eq!(sender.pipeline().state(), Lifecycle::Running);
    assert_eq!(sender.start(Verdict::Accepted), Ok(()));
    assert_eq!(sender.pipeline().state(), Lifecycle::Running);
    assert_eq!(sender.start(Verdict::Refused), Err(StartError::Refused));
    assert_eq!(sender.pipeline().state(), Lifecycle::Running);
    assert_eq!(sender.pipeline().stages(), &built);
    let mut receiver = build_receiver(5004, &Environment::empty(), &machine).unwrap();
    assert_eq!(receiver.start(Verdict::Accepted), Ok(()));
    assert_eq!(receiver.pipeline().state(), Lifecycle::Running);
    receiver.stop();
    assert_eq!(receiver.pipeline().state(), Lifecycle::Idle);
    assert_eq!(receiver.start(Verdict::Accepted), Ok(()));
    assert_eq!(receiver.pipeline().state(), Lifecycle::Running);
}

#[test]
fn stop_before_start_and_stop_twice_end_idle() {
    let machine = full_engine(Platform::Linux);
    let mut sender = build_sender(None, "10.0.0.2", 5002, &Environment::empty(), &machine).unwrap();
    let built = sender.clone();
    sender.stop();
    assert_eq!(sender, built);
    sender.stop();
    assert_eq!(sender, built);
    assert_eq!(sender.start(Verdict::Accepted), Ok(()));
    sender.stop();
    assert_eq!(sender.pipeline().state(), Lifecycle::Idle);
    sender.stop();
    assert_eq!(sender.pipeline().state(), Lifecycle::Idle);
    assert_eq!(sender, built);
    let mut receiver = build_receiver(5004, &Environment::empty(), &machine).unwrap();
    receiver.stop();
    receiver.stop();
    assert_eq!(receiver.pipeline().state(), Lifecycle::Idle);
    assert_eq!(receiver.start(Verdict::Refused), Err(StartError::Refused));
    receiver.stop();
    assert_eq!(receiver.pipeline().state(), Lifecycle::Idle);
}

#[test]
fn a_pipeline_built_as_wanted_has_nothing_noted() {
    let machine = full_engine(Platform::Linux);
    let sender = build_sender(Some("dev"), "10.0.0.2", 5002, &Environment::empty(), &machine).unwrap();
    assert_eq!(sender.pipeline().notices(), &Vec::<Notice>::new());
    let receiver = build_receiver(5004, &Environment::empty(), &machine).unwrap();
    assert_eq!(receiver.pipeline().notices(), &Vec::<Notice>::new());
}

#[test]
fn the_fallback_to_the_default_capture_device_is_noted() {
    let env = Environment::empty();
    let mut linux = full_engine(Platform::Linux);
    let none_found = build_sender(None, "10.0.0.2", 5002, &env, &linux).unwrap();
    assert_eq!(none_found.pipeline().notices(), &vec![Notice::NoMonitorFound]);
    linux.sources = vec![monitor("Monitor of Speakers", "speakers.monitor")];
    let found = build_sender(None, "10.0.0.2", 5002, &env, &linux).unwrap();
    assert_eq!(found.pipeline().notices(), &Vec::<Notice>::new());
    let mac = full_engine(Platform::MacOs);
    let discarded = build_sender(Some("BlackHole 2ch"), "10.0.0.2", 5002, &env, &mac).unwrap();
    assert_eq!(discarded.pipeline().notices(), &vec![Notice::HintDiscarded]);
    let by_index = build_sender(Some("1"), "10.0.0.2", 5002, &env, &mac).unwrap();
    assert_eq!(by_index.pipeline().notices(), &Vec::<Notice>::new());
    let default_input = build_sender(None, "10.0.0.2", 5002, &env, &mac).unwrap();
    assert_eq!(default_input.pipeline().notices(), &Vec::<Notice>::new());
}

#[test]
fn stages_and_settings_that_were_left_out_are_noted_in_order() {
    let mut caps = Capabilities::new();
    for factory in all_factories() {
        if factory == Factory::OpusEnc {
            caps.offer(factory, vec![Param::Bitrate, Param::FrameSize]);
        } else if factory == Factory::Queue {
            caps.offer(factory, vec![Param::MaxSizeTime]);
        } else if factory != Factory::Level {
            caps.offer(factory, all_params());
        }
    }
    let machine = engine(Platform::Linux, caps);
    let sender = build_sender(None, "10.0.0.2", 5002, &Environment::empty(), &machine).unwrap();
    assert_eq!(
        sender.pipeline().notices(),
        &vec![
            Notice::NoMonitorFound,
            Notice::SettingSkipped(Role::CaptureQueue, Param::MaxSizeBuffers),
            Notice::SettingSkipped(Role::CaptureQueue, Param::MaxSizeBytes),
            Notice::StageSkipped(Role::CaptureMeter),
            Notice::SettingSkipped(Role::Encode, Param::InbandFec),
            Notice::SettingSkipped(Role::Encode, Param::Complexity),
        ]
    );
    let receiver = build_receiver(5004, &Environment::empty(), &machine).unwrap();
    assert_eq!(
        receiver.pipeline().notices(),
        &vec![
            Notice::SettingSkipped(Role::NetworkQueue, Param::MaxSizeBuffers),
            Notice::SettingSkipped(Role::NetworkQueue, Param::MaxSizeBytes),
            Notice::StageSkipped(Role::RenderMeter),
            Notice::SettingSkipped(Role::RenderQueue, Param::MaxSizeBuffers),
            Notice::SettingSkipped(Role::RenderQueue, Param::MaxSizeBytes),
        ]
    );
}

#[test]
fn errors_are_described_in_words() {
    assert_eq!(
        BuildError::MissingStage(Role::Capture, Factory::PulseSrc).describe(),
        "failed to make element 'pulsesrc' as 'src'"
    );
    assert_eq!(BuildError::InvalidDestination.describe(), "the destination is no host with a port");
    assert_eq!(
        BuildError::FormatMismatch(Role::Encode, Role::Packetize).describe(),
        "'opusenc' and 'pay' cannot agree on a format"
    );
    assert_eq!(StartError::Refused.describe(), "the engine refused to start the pipeline");
}

#[test]
fn formats_have_the_engines_names() {
    assert_eq!(raw_audio().media_type(), "audio/x-raw");
    assert_eq!(rtp_opus().media_type(), "application/x-rtp");
    assert_eq!(SampleEncoding::S16Le.name(), "S16LE");
    assert_eq!(ChannelLayout::Interleaved.name(), "interleaved");
    assert_eq!(Codec::Opus.name(), "OPUS");
    assert_eq!(ab_core::format::normalized_audio_format(), raw_audio());
    assert_eq!(ab_core::format::network_audio_format(), rtp_opus());
}

#[test]
fn every_parameter_is_listed_once() {
    let listed = Param::all();
    assert_eq!(listed, all_params());
    for (i, p) in listed.iter().enumerate() {
        assert!(!listed[..i].contains(p), "{:?} is listed twice", p);
    }
}
