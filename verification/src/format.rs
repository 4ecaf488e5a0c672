//! The media formats that stages agree on at their boundaries.

use vstd::prelude::*;

verus! {

/// How one raw sample is stored.
#[derive(Clone, Copy, Debug, PartialEq, Eq, Structural)]
pub enum SampleEncoding {
    /// Signed 16-bit integers, least significant byte first.
    S16Le,
}

/// How the samples of several channels follow each other.
#[derive(Clone, Copy, Debug, PartialEq, Eq, Structural)]
pub enum ChannelLayout {
    /// One sample of each channel in turn.
    Interleaved,
}

/// The codec of a network stream.
#[derive(Clone, Copy, Debug, PartialEq, Eq, Structural)]
pub enum Codec {
    Opus,
}

/// A format that two adjacent stages exchange.
#[derive(Clone, Copy, Debug, PartialEq, Eq, Structural)]
pub enum MediaFormat {
    /// Raw audio between the local stages.
    RawAudio { rate: i32, channels: i32, encoding: SampleEncoding, layout: ChannelLayout },
    /// RTP audio packets on the network side.
    Rtp { codec: Codec, clock_rate: i32, payload_type: u32 },
}

impl SampleEncoding {
    /// The name by which the engine knows the encoding.
    pub open spec fn name_text(self) -> Seq<char> {
        match self {
            SampleEncoding::S16Le => "S16LE"@,
        }
    }

    /// The name by which the engine knows the encoding.
    pub fn name(self) -> (r: &'static str)
        ensures
            r@ == self.name_text(),
    {
        match self {
            SampleEncoding::S16Le => "S16LE",
        }
    }
}

impl ChannelLayout {
    /// The name by which the engine knows the layout.
    pub open spec fn name_text(self) -> Seq<char> {
        match self {
            ChannelLayout::Interleaved => "interleaved"@,
        }
    }

    /// The name by which the engine knows the layout.
    pub fn name(self) -> (r: &'static str)
        ensures
            r@ == self.name_text(),
    {
        match self {
            ChannelLayout::Interleaved => "interleaved",
        }
    }
}

impl Codec {
    /// The encoding name of the codec in an RTP stream.
    pub open spec fn name_text(self) -> Seq<char> {
        match self {
            Codec::Opus => "OPUS"@,
        }
    }

    /// The encoding name of the codec in an RTP stream.
    pub fn name(self) -> (r: &'static str)
        ensures
            r@ == self.name_text(),
    {
        match self {
            Codec::Opus => "OPUS",
        }
    }
}

impl MediaFormat {
    /// The media type of the format.
    pub open spec fn media_type_text(self) -> Seq<char> {
        match self {
            MediaFormat::RawAudio { .. } => "audio/x-raw"@,
            MediaFormat::Rtp { .. } => "application/x-rtp"@,
        }
    }

    /// The media type of the format.
    pub fn media_type(&self) -> (r: &'static str)
        ensures
            r@ == self.media_type_text(),
    {
        match self {
            MediaFormat::RawAudio { .. } => "audio/x-raw",
            MediaFormat::Rtp { .. } => "application/x-rtp",
        }
    }
}

/// Samples per second of the audio that is sent and received.
pub const SAMPLE_RATE: i32 = 48_000;

/// Channels of the audio that is sent and received.
pub const CHANNELS: i32 = 2;

/// RTP payload type of the audio packets.
pub const PAYLOAD_TYPE: u32 = 97;

/// The raw format that every capture is brought to before encoding:
/// 48 kHz, two channels, 16-bit samples, interleaved.
pub open spec fn normalized_audio() -> MediaFormat {
    MediaFormat::RawAudio {
        rate: 48_000,
        channels: 2,
        encoding: SampleEncoding::S16Le,
        layout: ChannelLayout::Interleaved,
    }
}

/// The format on the network: Opus in RTP at a clock rate of 48 kHz, payload
/// type 97. The sender emits it and the receiver accepts nothing else.
pub open spec fn network_audio() -> MediaFormat {
    MediaFormat::Rtp { codec: Codec::Opus, clock_rate: 48_000, payload_type: 97 }
}

/// The raw format that every capture is brought to before encoding.
pub fn normalized_audio_format() -> (f: MediaFormat)
    ensures
        f == normalized_audio(),
{
    MediaFormat::RawAudio {
        rate: SAMPLE_RATE,
        channels: CHANNELS,
        encoding: SampleEncoding::S16Le,
        layout: ChannelLayout::Interleaved,
    }
}

/// The format on the network.
pub fn network_audio_format() -> (f: MediaFormat)
    ensures
        f == network_audio(),
{
    MediaFormat::Rtp { codec: Codec::Opus, clock_rate: SAMPLE_RATE, payload_type: PAYLOAD_TYPE }
}

} // verus!
