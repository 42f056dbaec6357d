//! Round-trip and rejection behaviour of the closed-domain enumerations.

use audiopus::{Application, Bandwidth, Bitrate, Channels, Error, SampleRate, Signal};

#[test]
fn signal_round_trips() {
    for v in [Signal::Auto, Signal::Voice, Signal::Music] {
        assert_eq!(Signal::from_raw(v.to_raw()), Ok(v));
    }
}

#[test]
fn signal_raw_codes() {
    assert_eq!(Signal::Auto.to_raw(), -1000);
    assert_eq!(Signal::Voice.to_raw(), 3001);
    assert_eq!(Signal::Music.to_raw(), 3002);
}

#[test]
fn signal_rejects_out_of_domain() {
    assert_eq!(Signal::from_raw(5), Err(Error::InvalidSignal(5)));
    assert_eq!(Signal::from_raw(0), Err(Error::InvalidSignal(0)));
    assert_eq!(Signal::from_raw(3003), Err(Error::InvalidSignal(3003)));
}

#[test]
fn bitrate_round_trips() {
    for v in [Bitrate::Auto, Bitrate::Max, Bitrate::BitsPerSecond(64000)] {
        assert_eq!(Bitrate::from_raw(v.to_raw()), Ok(v));
    }
}

#[test]
fn bitrate_raw_codes() {
    assert_eq!(Bitrate::Auto.to_raw(), -1000);
    assert_eq!(Bitrate::Max.to_raw(), -1);
    assert_eq!(Bitrate::BitsPerSecond(510_000).to_raw(), 510_000);
}

#[test]
fn bitrate_accepts_any_positive_rate() {
    assert_eq!(Bitrate::from_raw(1), Ok(Bitrate::BitsPerSecond(1)));
    assert_eq!(
        Bitrate::from_raw(i32::MAX),
        Ok(Bitrate::BitsPerSecond(i32::MAX))
    );
}

#[test]
fn bitrate_rejects_out_of_domain() {
    assert_eq!(Bitrate::from_raw(0), Err(Error::InvalidBandwidth(0)));
    assert_eq!(Bitrate::from_raw(-5), Err(Error::InvalidBandwidth(-5)));
}

#[test]
fn sample_rate_round_trips() {
    for v in [
        SampleRate::Hz8000,
        SampleRate::Hz12000,
        SampleRate::Hz16000,
        SampleRate::Hz24000,
        SampleRate::Hz48000,
    ] {
        assert_eq!(SampleRate::from_raw(v.to_raw()), Ok(v));
    }
}

#[test]
fn sample_rate_rejects_out_of_domain() {
    assert_eq!(
        SampleRate::from_raw(44100),
        Err(Error::InvalidSampleRate(44100))
    );
    assert_eq!(SampleRate::from_raw(0), Err(Error::InvalidSampleRate(0)));
    assert_eq!(
        SampleRate::from_raw(-8000),
        Err(Error::InvalidSampleRate(-8000))
    );
}

#[test]
fn application_round_trips() {
    for v in [
        Application::Voip,
        Application::Audio,
        Application::LowDelay,
    ] {
        assert_eq!(Application::from_raw(v.to_raw()), Ok(v));
    }
}

#[test]
fn application_rejects_out_of_domain() {
    assert_eq!(Application::from_raw(0), Err(Error::InvalidApplication));
    assert_eq!(Application::from_raw(2050), Err(Error::InvalidApplication));
    assert_eq!(Application::from_raw(2052), Err(Error::InvalidApplication));
}

#[test]
fn application_scenario_voip() {
    assert_eq!(Application::from_raw(2048), Ok(Application::Voip));
    assert_eq!(Application::Voip.to_raw(), 2048);
    assert_eq!(Application::from_raw(9999), Err(Error::InvalidApplication));
}

#[test]
fn channels_round_trips() {
    for v in [Channels::Auto, Channels::Mono, Channels::Stereo] {
        assert_eq!(Channels::from_raw(v.to_raw()), Ok(v));
    }
}

#[test]
fn channels_raw_codes() {
    assert_eq!(Channels::Auto.to_raw(), -1000);
    assert_eq!(Channels::Mono.to_raw(), 1);
    assert_eq!(Channels::Stereo.to_raw(), 2);
}

#[test]
fn channels_rejects_out_of_domain() {
    assert_eq!(Channels::from_raw(0), Err(Error::InvalidChannels(0)));
    assert_eq!(Channels::from_raw(3), Err(Error::InvalidChannels(3)));
    assert_eq!(Channels::from_raw(-1), Err(Error::InvalidChannels(-1)));
}

#[test]
fn channels_predicates_match_variants() {
    assert!(Channels::Mono.is_mono());
    assert!(!Channels::Mono.is_stereo());
    assert!(Channels::Stereo.is_stereo());
    assert!(!Channels::Stereo.is_mono());
    assert!(!Channels::Auto.is_mono());
    assert!(!Channels::Auto.is_stereo());
}

#[test]
fn bandwidth_round_trips() {
    for v in [
        Bandwidth::Auto,
        Bandwidth::Narrowband,
        Bandwidth::Mediumband,
        Bandwidth::Wideband,
        Bandwidth::Superwideband,
        Bandwidth::Fullband,
    ] {
        assert_eq!(Bandwidth::from_raw(v.to_raw()), Ok(v));
    }
}

#[test]
fn bandwidth_raw_codes_ascend() {
    assert_eq!(Bandwidth::Narrowband.to_raw(), 1101);
    assert_eq!(Bandwidth::Mediumband.to_raw(), 1102);
    assert_eq!(Bandwidth::Wideband.to_raw(), 1103);
    assert_eq!(Bandwidth::Superwideband.to_raw(), 1104);
    assert_eq!(Bandwidth::Fullband.to_raw(), 1105);
    assert_eq!(Bandwidth::Auto.to_raw(), -1000);
}

#[test]
fn bandwidth_rejects_out_of_domain() {
    assert_eq!(Bandwidth::from_raw(1100), Err(Error::InvalidBandwidth(1100)));
    assert_eq!(Bandwidth::from_raw(1106), Err(Error::InvalidBandwidth(1106)));
    assert_eq!(Bandwidth::from_raw(0), Err(Error::InvalidBandwidth(0)));
}
