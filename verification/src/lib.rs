//! A validation layer for the raw Opus interface.
//!
//! The native codec speaks in raw `i32` codes and (pointer, length) pairs
//! and performs no range checking of its own: an out-of-domain code, an
//! empty packet, or a buffer longer than the 32-bit signed maximum causes
//! undefined behaviour once it crosses the native boundary. Every type in
//! this crate can therefore only be built through a fallible conversion
//! that enforces the documented preconditions, and every rejected input
//! is reported as a typed [`Error`] instead of reaching that boundary.
//!
//! The closed-domain enumerations ([`Signal`], [`Bitrate`], [`SampleRate`],
//! [`Application`], [`Channels`], [`Bandwidth`]) each pair a fallible
//! `from_raw` with an infallible `to_raw` that is its exact inverse on the
//! valid domain. The buffer guards ([`Packet`], [`MutPacket`],
//! [`MutSignals`]) prove at construction that a borrowed buffer's length
//! fits the native call convention, so the narrowing to a 32-bit signed
//! length cannot truncate.

use vstd::prelude::*;

pub mod error;
pub mod packet;

pub use crate::error::{Error, ErrorCode};
pub use crate::packet::{MutPacket, Packet};

verus! {

/// Raw code of the `auto` sentinel shared by several native controls.
pub const OPUS_AUTO: i32 = -1000;

/// Raw code asking for the maximum bitrate the packet size allows.
pub const OPUS_BITRATE_MAX: i32 = -1;

/// Raw code of the voice signal hint.
pub const OPUS_SIGNAL_VOICE: i32 = 3001;

/// Raw code of the music signal hint.
pub const OPUS_SIGNAL_MUSIC: i32 = 3002;

/// Raw code of the VoIP application profile.
pub const OPUS_APPLICATION_VOIP: i32 = 2048;

/// Raw code of the broadcast/high-fidelity application profile.
pub const OPUS_APPLICATION_AUDIO: i32 = 2049;

/// Raw code of the restricted low-delay application profile.
pub const OPUS_APPLICATION_RESTRICTED_LOWDELAY: i32 = 2051;

/// Raw code of the 4 kHz bandwidth.
pub const OPUS_BANDWIDTH_NARROWBAND: i32 = 1101;

/// Raw code of the 6 kHz bandwidth.
pub const OPUS_BANDWIDTH_MEDIUMBAND: i32 = 1102;

/// Raw code of the 8 kHz bandwidth.
pub const OPUS_BANDWIDTH_WIDEBAND: i32 = 1103;

/// Raw code of the 12 kHz bandwidth.
pub const OPUS_BANDWIDTH_SUPERWIDEBAND: i32 = 1104;

/// Raw code of the 20 kHz bandwidth.
pub const OPUS_BANDWIDTH_FULLBAND: i32 = 1105;

/// The signal-type hint an encoder can be configured with.
#[derive(Clone, Copy, Debug, Eq, PartialEq, Hash, Structural)]
pub enum Signal {
    /// Let the encoder detect the signal type.
    Auto,
    /// Bias thresholds towards choosing LPC or hybrid modes.
    Voice,
    /// Bias thresholds towards choosing MDCT modes.
    Music,
}

impl Signal {
    /// The fixed native code of each hint.
    pub open spec fn raw_spec(self) -> i32 {
        match self {
            Signal::Auto => OPUS_AUTO,
            Signal::Voice => OPUS_SIGNAL_VOICE,
            Signal::Music => OPUS_SIGNAL_MUSIC,
        }
    }

    /// Which hint a raw code denotes, if any.
    pub open spec fn from_raw_spec(value: i32) -> Option<Signal> {
        if value == OPUS_AUTO {
            Some(Signal::Auto)
        } else if value == OPUS_SIGNAL_VOICE {
            Some(Signal::Voice)
        } else if value == OPUS_SIGNAL_MUSIC {
            Some(Signal::Music)
        } else {
            None
        }
    }

    /// Accepts exactly the three fixed signal codes; any other value is
    /// rejected with the offending raw value.
    pub fn from_raw(value: i32) -> (r: Result<Signal, Error>)
        ensures
            r == match Signal::from_raw_spec(value) {
                Some(s) => Ok::<Signal, Error>(s),
                None => Err::<Signal, Error>(Error::InvalidSignal(value)),
            },
    {
        match value {
            OPUS_AUTO => Ok(Signal::Auto),
            OPUS_SIGNAL_VOICE => Ok(Signal::Voice),
            OPUS_SIGNAL_MUSIC => Ok(Signal::Music),
            _ => Err(Error::InvalidSignal(value)),
        }
    }

    /// The raw code of this hint; total, and the exact inverse of
    /// `from_raw` on the valid domain.
    pub fn to_raw(self) -> (r: i32)
        ensures
            r == self.raw_spec(),
    {
        match self {
            Signal::Auto => OPUS_AUTO,
            Signal::Voice => OPUS_SIGNAL_VOICE,
            Signal::Music => OPUS_SIGNAL_MUSIC,
        }
    }
}

/// Law: converting any signal hint to its raw code and back reproduces it.
pub proof fn lemma_signal_round_trip(v: Signal)
    ensures
        Signal::from_raw_spec(v.raw_spec()) == Some(v),
{
}

/// The target bitrate of an encoder.
#[derive(Clone, Copy, Debug, Eq, PartialEq, Hash, Structural)]
pub enum Bitrate {
    /// Explicit bitrate choice (in bits/second).
    BitsPerSecond(i32),
    /// Maximum bitrate allowed (up to maximum number of bytes for the packet).
    Max,
    /// Default bitrate decided by the encoder (not recommended).
    Auto,
}

impl Bitrate {
    /// The raw code of each mode; an explicit rate passes through unchanged.
    pub open spec fn raw_spec(self) -> i32 {
        match self {
            Bitrate::Auto => OPUS_AUTO,
            Bitrate::Max => OPUS_BITRATE_MAX,
            Bitrate::BitsPerSecond(bits) => bits,
        }
    }

    /// Which mode a raw value denotes: the two sentinels, or any strictly
    /// positive bits-per-second value. This layer places no upper bound on
    /// an explicit rate; the native codec enforces its own.
    pub open spec fn from_raw_spec(value: i32) -> Option<Bitrate> {
        if value == OPUS_AUTO {
            Some(Bitrate::Auto)
        } else if value == OPUS_BITRATE_MAX {
            Some(Bitrate::Max)
        } else if value > 0 {
            Some(Bitrate::BitsPerSecond(value))
        } else {
            None
        }
    }

    /// Accepts the two sentinels and any strictly positive bits-per-second
    /// value; any other value is rejected with the offending raw value.
    pub fn from_raw(value: i32) -> (r: Result<Bitrate, Error>)
        ensures
            r == match Bitrate::from_raw_spec(value) {
                Some(b) => Ok::<Bitrate, Error>(b),
                None => Err::<Bitrate, Error>(Error::InvalidBandwidth(value)),
            },
    {
        if value == OPUS_AUTO {
            Ok(Bitrate::Auto)
        } else if value == OPUS_BITRATE_MAX {
            Ok(Bitrate::Max)
        } else if value > 0 {
            Ok(Bitrate::BitsPerSecond(value))
        } else {
            Err(Error::InvalidBandwidth(value))
        }
    }

    /// The raw value of this mode; total.
    pub fn to_raw(self) -> (r: i32)
        ensures
            r == self.raw_spec(),
    {
        match self {
            Bitrate::Auto => OPUS_AUTO,
            Bitrate::Max => OPUS_BITRATE_MAX,
            Bitrate::BitsPerSecond(bits) => bits,
        }
    }
}

/// Law: converting any bitrate mode to its raw value and back reproduces
/// it, provided an explicit rate is strictly positive — the only explicit
/// rates that `from_raw` ever produces.
pub proof fn lemma_bitrate_round_trip(v: Bitrate)
    requires
        v matches Bitrate::BitsPerSecond(bits) ==> bits > 0,
    ensures
        Bitrate::from_raw_spec(v.raw_spec()) == Some(v),
{
}

/// A sample rate the codec supports, in Hertz.
#[derive(Debug, Clone, Copy, Eq, PartialEq, Hash, Structural)]
pub enum SampleRate {
    /// 8000 Hz.
    Hz8000,
    /// 12000 Hz.
    Hz12000,
    /// 16000 Hz.
    Hz16000,
    /// 24000 Hz.
    Hz24000,
    /// 48000 Hz.
    Hz48000,
}

impl SampleRate {
    /// The rate in Hertz of each variant.
    pub open spec fn raw_spec(self) -> i32 {
        match self {
            SampleRate::Hz8000 => 8000,
            SampleRate::Hz12000 => 12000,
            SampleRate::Hz16000 => 16000,
            SampleRate::Hz24000 => 24000,
            SampleRate::Hz48000 => 48000,
        }
    }

    /// Which supported rate a raw value denotes, if any.
    pub open spec fn from_raw_spec(value: i32) -> Option<SampleRate> {
        if value == 8000 {
            Some(SampleRate::Hz8000)
        } else if value == 12000 {
            Some(SampleRate::Hz12000)
        } else if value == 16000 {
            Some(SampleRate::Hz16000)
        } else if value == 24000 {
            Some(SampleRate::Hz24000)
        } else if value == 48000 {
            Some(SampleRate::Hz48000)
        } else {
            None
        }
    }

    /// Accepts exactly the five documented rates; any other value is
    /// rejected with the offending raw value.
    pub fn from_raw(value: i32) -> (r: Result<SampleRate, Error>)
        ensures
            r == match SampleRate::from_raw_spec(value) {
                Some(s) => Ok::<SampleRate, Error>(s),
                None => Err::<SampleRate, Error>(Error::InvalidSampleRate(value)),
            },
    {
        match value {
            8000 => Ok(SampleRate::Hz8000),
            12000 => Ok(SampleRate::Hz12000),
            16000 => Ok(SampleRate::Hz16000),
            24000 => Ok(SampleRate::Hz24000),
            48000 => Ok(SampleRate::Hz48000),
            _ => Err(Error::InvalidSampleRate(value)),
        }
    }

    /// The rate in Hertz; total, and the exact inverse of `from_raw` on
    /// the valid domain.
    pub fn to_raw(self) -> (r: i32)
        ensures
            r == self.raw_spec(),
    {
        match self {
            SampleRate::Hz8000 => 8000,
            SampleRate::Hz12000 => 12000,
            SampleRate::Hz16000 => 16000,
            SampleRate::Hz24000 => 24000,
            SampleRate::Hz48000 => 48000,
        }
    }
}

/// Law: converting any sample rate to Hertz and back reproduces it.
pub proof fn lemma_sample_rate_round_trip(v: SampleRate)
    ensures
        SampleRate::from_raw_spec(v.raw_spec()) == Some(v),
{
}

/// The optimization target a coder is created for.
#[derive(Debug, Clone, Copy, Eq, PartialEq, Hash, Structural)]
pub enum Application {
    /// Best for most VoIP/videoconference applications where listening
    /// quality and intelligibility matter most.
    Voip,
    /// Best for broadcast/high-fidelity application where the decoded
    /// audio should be as close as possible to the input.
    Audio,
    /// Only use when lowest-achievable latency is what matters most.
    LowDelay,
}

impl Application {
    /// The fixed native code of each profile.
    pub open spec fn raw_spec(self) -> i32 {
        match self {
            Application::Voip => OPUS_APPLICATION_VOIP,
            Application::Audio => OPUS_APPLICATION_AUDIO,
            Application::LowDelay => OPUS_APPLICATION_RESTRICTED_LOWDELAY,
        }
    }

    /// Which profile a raw code denotes, if any.
    pub open spec fn from_raw_spec(value: i32) -> Option<Application> {
        if value == OPUS_APPLICATION_VOIP {
            Some(Application::Voip)
        } else if value == OPUS_APPLICATION_AUDIO {
            Some(Application::Audio)
        } else if value == OPUS_APPLICATION_RESTRICTED_LOWDELAY {
            Some(Application::LowDelay)
        } else {
            None
        }
    }

    /// Accepts exactly the three fixed profile codes, even though the
    /// native interface reserves a wider integer space around them; any
    /// other value is rejected.
    pub fn from_raw(value: i32) -> (r: Result<Application, Error>)
        ensures
            r == match Application::from_raw_spec(value) {
                Some(a) => Ok::<Application, Error>(a),
                None => Err::<Application, Error>(Error::InvalidApplication),
            },
    {
        match value {
            OPUS_APPLICATION_VOIP => Ok(Application::Voip),
            OPUS_APPLICATION_AUDIO => Ok(Application::Audio),
            OPUS_APPLICATION_RESTRICTED_LOWDELAY => Ok(Application::LowDelay),
            _ => Err(Error::InvalidApplication),
        }
    }

    /// The raw code of this profile; total, and the exact inverse of
    /// `from_raw` on the valid domain.
    pub fn to_raw(self) -> (r: i32)
        ensures
            r == self.raw_spec(),
    {
        match self {
            Application::Voip => OPUS_APPLICATION_VOIP,
            Application::Audio => OPUS_APPLICATION_AUDIO,
            Application::LowDelay => OPUS_APPLICATION_RESTRICTED_LOWDELAY,
        }
    }
}

/// Law: converting any application profile to its raw code and back
/// reproduces it.
pub proof fn lemma_application_round_trip(v: Application)
    ensures
        Application::from_raw_spec(v.raw_spec()) == Some(v),
{
}

/// The channel layout of a stream.
#[derive(Clone, Copy, Debug, Eq, PartialEq, Hash, Structural)]
pub enum Channels {
    /// Not supported when constructing encoders or decoders.
    Auto,
    /// One channel.
    Mono,
    /// Two channels.
    Stereo,
}

impl Channels {
    /// The fixed native code of each layout; `Auto` is the shared
    /// sentinel, not zero.
    pub open spec fn raw_spec(self) -> i32 {
        match self {
            Channels::Auto => OPUS_AUTO,
            Channels::Mono => 1,
            Channels::Stereo => 2,
        }
    }

    /// Which layout a raw code denotes, if any.
    pub open spec fn from_raw_spec(value: i32) -> Option<Channels> {
        if value == OPUS_AUTO {
            Some(Channels::Auto)
        } else if value == 1 {
            Some(Channels::Mono)
        } else if value == 2 {
            Some(Channels::Stereo)
        } else {
            None
        }
    }

    /// Accepts exactly the sentinel and the two channel counts; any other
    /// value is rejected with the offending raw value.
    pub fn from_raw(value: i32) -> (r: Result<Channels, Error>)
        ensures
            r == match Channels::from_raw_spec(value) {
                Some(c) => Ok::<Channels, Error>(c),
                None => Err::<Channels, Error>(Error::InvalidChannels(value)),
            },
    {
        match value {
            OPUS_AUTO => Ok(Channels::Auto),
            1 => Ok(Channels::Mono),
            2 => Ok(Channels::Stereo),
            _ => Err(Error::InvalidChannels(value)),
        }
    }

    /// The raw code of this layout; total, and the exact inverse of
    /// `from_raw` on the valid domain.
    pub fn to_raw(self) -> (r: i32)
        ensures
            r == self.raw_spec(),
    {
        match self {
            Channels::Auto => OPUS_AUTO,
            Channels::Mono => 1,
            Channels::Stereo => 2,
        }
    }

    /// Answers true exactly for the mono layout; `Auto` answers false.
    pub fn is_mono(self) -> (r: bool)
        ensures
            r == (self is Mono),
    {
        if let Channels::Mono = self {
            return true;
        }
        false
    }

    /// Answers true exactly for the stereo layout; `Auto` answers false.
    pub fn is_stereo(self) -> (r: bool)
        ensures
            r == (self is Stereo),
    {
        if let Channels::Stereo = self {
            return true;
        }
        false
    }
}

/// Law: converting any channel layout to its raw code and back
/// reproduces it.
pub proof fn lemma_channels_round_trip(v: Channels)
    ensures
        Channels::from_raw_spec(v.raw_spec()) == Some(v),
{
}

/// The bandwidth of a stream.
#[derive(Clone, Copy, Debug, Eq, PartialEq, Hash, Structural)]
pub enum Bandwidth {
    /// Pick the bandwidth automatically.
    Auto,
    /// A 4 kHz bandwidth.
    Narrowband,
    /// A 6 kHz bandwidth.
    Mediumband,
    /// A 8 kHz bandwidth.
    Wideband,
    /// A 12 kHz bandwidth.
    Superwideband,
    /// A 20 kHz bandwidth.
    Fullband,
}

impl Bandwidth {
    /// The fixed native code of each bandwidth; the ladder ascends from
    /// narrowband to fullband, and `Auto` is the sentinel outside it.
    pub open spec fn raw_spec(self) -> i32 {
        match self {
            Bandwidth::Auto => OPUS_AUTO,
            Bandwidth::Narrowband => OPUS_BANDWIDTH_NARROWBAND,
            Bandwidth::Mediumband => OPUS_BANDWIDTH_MEDIUMBAND,
            Bandwidth::Wideband => OPUS_BANDWIDTH_WIDEBAND,
            Bandwidth::Superwideband => OPUS_BANDWIDTH_SUPERWIDEBAND,
            Bandwidth::Fullband => OPUS_BANDWIDTH_FULLBAND,
        }
    }

    /// Which bandwidth a raw code denotes, if any; the sentinel is
    /// decided before the ladder.
    pub open spec fn from_raw_spec(value: i32) -> Option<Bandwidth> {
        if value == OPUS_AUTO {
            Some(Bandwidth::Auto)
        } else if value == OPUS_BANDWIDTH_NARROWBAND {
            Some(Bandwidth::Narrowband)
        } else if value == OPUS_BANDWIDTH_MEDIUMBAND {
            Some(Bandwidth::Mediumband)
        } else if value == OPUS_BANDWIDTH_WIDEBAND {
            Some(Bandwidth::Wideband)
        } else if value == OPUS_BANDWIDTH_SUPERWIDEBAND {
            Some(Bandwidth::Superwideband)
        } else if value == OPUS_BANDWIDTH_FULLBAND {
            Some(Bandwidth::Fullband)
        } else {
            None
        }
    }

    /// Accepts exactly the sentinel and the five ladder codes; any other
    /// value is rejected with the offending raw value. The sentinel is
    /// tested unconditionally first: its code lies outside the ladder
    /// here, but which codes a native build assigns to the ladder is not
    /// this layer's to assume.
    pub fn from_raw(value: i32) -> (r: Result<Bandwidth, Error>)
        ensures
            r == match Bandwidth::from_raw_spec(value) {
                Some(b) => Ok::<Bandwidth, Error>(b),
                None => Err::<Bandwidth, Error>(Error::InvalidBandwidth(value)),
            },
    {
        if value == OPUS_AUTO {
            return Ok(Bandwidth::Auto);
        }
        match value {
            OPUS_BANDWIDTH_NARROWBAND => Ok(Bandwidth::Narrowband),
            OPUS_BANDWIDTH_MEDIUMBAND => Ok(Bandwidth::Mediumband),
            OPUS_BANDWIDTH_WIDEBAND => Ok(Bandwidth::Wideband),
            OPUS_BANDWIDTH_SUPERWIDEBAND => Ok(Bandwidth::Superwideband),
            OPUS_BANDWIDTH_FULLBAND => Ok(Bandwidth::Fullband),
            _ => Err(Error::InvalidBandwidth(value)),
        }
    }

    /// The raw code of this bandwidth; total, and the exact inverse of
    /// `from_raw` on the valid domain.
    pub fn to_raw(self) -> (r: i32)
        ensures
            r == self.raw_spec(),
    {
        match self {
            Bandwidth::Auto => OPUS_AUTO,
            Bandwidth::Narrowband => OPUS_BANDWIDTH_NARROWBAND,
            Bandwidth::Mediumband => OPUS_BANDWIDTH_MEDIUMBAND,
            Bandwidth::Wideband => OPUS_BANDWIDTH_WIDEBAND,
            Bandwidth::Superwideband => OPUS_BANDWIDTH_SUPERWIDEBAND,
            Bandwidth::Fullband => OPUS_BANDWIDTH_FULLBAND,
        }
    }
}

/// Law: converting any bandwidth to its raw code and back reproduces it.
pub proof fn lemma_bandwidth_round_trip(v: Bandwidth)
    ensures
        Bandwidth::from_raw_spec(v.raw_spec()) == Some(v),
{
}

/// A mutably borrowed signal buffer that the codec fills, for example
/// with decoded samples. Unlike a packet, it may legitimately be empty —
/// a caller may probe capacity with a zero-sized output buffer — so
/// construction only bounds the length by the 32-bit signed maximum.
#[derive(Debug)]
pub struct MutSignals<'a, T> {
    data: &'a mut [T],
}

impl<'a, T> MutSignals<'a, T> {
    /// The values this guard wraps.
    pub closed spec fn view(&self) -> Seq<T> {
        self.data@
    }

    /// The length bound that construction establishes.
    pub open spec fn is_valid(&self) -> bool {
        self@.len() <= packet::MAX_NATIVE_LEN
    }

    /// Wraps a mutably borrowed slice, rejecting only a buffer longer
    /// than the 32-bit signed maximum; a zero-length buffer is accepted.
    pub fn try_from(value: &'a mut [T]) -> (r: Result<Self, Error>)
        ensures
            match r {
                Ok(s) => s@ == old(value)@ && s.is_valid(),
                Err(e) => old(value)@.len() > packet::MAX_NATIVE_LEN
                    && e == Error::SignalsTooLarge,
            },
    {
        if value.len() > packet::MAX_NATIVE_LEN {
            return Err(Error::SignalsTooLarge);
        }
        Ok(MutSignals { data: value })
    }

    /// Convenience form of [`MutSignals::try_from`] for a borrowed
    /// growable buffer; forwards to the slice conversion.
    pub fn try_from_vec(value: &'a mut Vec<T>) -> (r: Result<Self, Error>)
        ensures
            match r {
                Ok(s) => s@ == old(value)@ && s.is_valid(),
                Err(e) => old(value)@.len() > packet::MAX_NATIVE_LEN
                    && e == Error::SignalsTooLarge,
            },
    {
        Self::try_from(value.as_mut_slice())
    }

    /// The validated length, already narrowed to the native length type.
    /// The cast cannot truncate: construction proved the bound.
    pub fn i32_len(&self) -> (r: i32)
        requires
            self.is_valid(),
        ensures
            r == self@.len(),
            0 <= r <= packet::MAX_NATIVE_LEN,
    {
        self.data.len() as i32
    }

    /// Surrenders the validated buffer, for the caller that makes the
    /// native call from this guard.
    pub fn into_mut_slice(self) -> (r: &'a mut [T])
        ensures
            r@ == self@,
    {
        self.data
    }
}

/// How many leading bytes of a native, null-terminated byte sequence
/// carry text: everything before the first null, or the whole sequence
/// when no null occurs.
pub open spec fn c_text_end(bytes: Seq<u8>) -> int
    decreases bytes.len(),
{
    if bytes.len() == 0 || bytes[0] == 0 {
        0
    } else {
        1 + c_text_end(bytes.subrange(1, bytes.len() as int))
    }
}

proof fn lemma_c_text_end(bytes: Seq<u8>, i: int)
    requires
        0 <= i <= bytes.len(),
        forall|j: int| 0 <= j < i ==> bytes[j] != 0,
        i == bytes.len() || bytes[i] == 0,
    ensures
        c_text_end(bytes) == i,
    decreases i,
{
    if i > 0 {
        let tail = bytes.subrange(1, bytes.len() as int);
        lemma_c_text_end(tail, i - 1);
    }
}

/// Relies on `String::from_utf8` from std: it succeeds exactly on byte
/// sequences that are valid UTF-8, and decodes them.
#[verifier::external_body]
fn utf8_to_string(bytes: Vec<u8>) -> (r: Option<String>)
    ensures
        match r {
            Some(s) => vstd::utf8::valid_utf8(bytes@) && s@ == vstd::utf8::decode_utf8(bytes@),
            None => !vstd::utf8::valid_utf8(bytes@),
        },
{
    String::from_utf8(bytes).ok()
}

/// The text portion of a native, null-terminated byte sequence.
pub open spec fn c_text(bytes: Seq<u8>) -> Seq<u8> {
    bytes.take(c_text_end(bytes))
}

/// Decodes the version text that the native version query hands back as
/// a null-terminated byte sequence: the bytes before the first null,
/// decoded as UTF-8. A sequence whose text portion is not valid UTF-8 is
/// rejected instead of aborting, unlike anything else the native codec
/// would do with it.
pub fn version_from_bytes(bytes: &[u8]) -> (r: Result<String, Error>)
    ensures
        match r {
            Ok(s) => vstd::utf8::valid_utf8(c_text(bytes@))
                && s@ == vstd::utf8::decode_utf8(c_text(bytes@)),
            Err(e) => !vstd::utf8::valid_utf8(c_text(bytes@)) && e == Error::MalformedVersion,
        },
{
    let mut text: Vec<u8> = Vec::new();
    let mut i: usize = 0;
    while i < bytes.len() && bytes[i] != 0
        invariant
            0 <= i <= bytes@.len(),
            text@ == bytes@.take(i as int),
            forall|j: int| 0 <= j < i ==> bytes@[j] != 0,
        decreases bytes@.len() - i,
    {
        text.push(bytes[i]);
        i += 1;
    }
    proof {
        lemma_c_text_end(bytes@, i as int);
    }
    match utf8_to_string(text) {
        Some(s) => Ok(s),
        None => Err(Error::MalformedVersion),
    }
}

} // verus!
