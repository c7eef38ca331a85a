//! Media command kinds of the runtime's media events, and the mixer buses
//! they drive.
use vstd::prelude::*;
use crate::text::str_eq;
use super::ArtemisError;

verus! {

/// The mixer's audio buses.
#[derive(Debug, Clone, Copy, PartialEq, Eq, Structural)]
pub enum ArtemisChannel {
    Bgm,
    Se,
    Voice,
}

/// The bus a volume command names.
pub open spec fn spec_channel_of(name: Seq<char>) -> Option<ArtemisChannel> {
    if name == "bgm"@ {
        Some(ArtemisChannel::Bgm)
    } else if name == "se"@ {
        Some(ArtemisChannel::Se)
    } else if name == "voice"@ {
        Some(ArtemisChannel::Voice)
    } else {
        None
    }
}

/// The bus a volume command names, if any.
pub fn channel_of(name: &str) -> (r: Option<ArtemisChannel>)
    ensures
        r == spec_channel_of(name@),
{
    if str_eq(name, "bgm") {
        Some(ArtemisChannel::Bgm)
    } else if str_eq(name, "se") {
        Some(ArtemisChannel::Se)
    } else if str_eq(name, "voice") {
        Some(ArtemisChannel::Voice)
    } else {
        None
    }
}

/// The mixer track of a bus.
pub open spec fn spec_bus(channel: ArtemisChannel) -> int {
    match channel {
        ArtemisChannel::Bgm => 0,
        ArtemisChannel::Se => 1,
        ArtemisChannel::Voice => 2,
    }
}

/// The mixer track of a bus.
pub fn bus(channel: ArtemisChannel) -> (r: usize)
    ensures
        r == spec_bus(channel),
{
    match channel {
        ArtemisChannel::Bgm => 0,
        ArtemisChannel::Se => 1,
        ArtemisChannel::Voice => 2,
    }
}

/// What a media event asks of the mixer.
#[derive(Debug, Clone, Copy, PartialEq, Eq, Structural)]
pub enum ArtemisMediaKind {
    /// Stops video playback; no video is ever started, so nothing is sent.
    VideoStopAll,
    SetVolume,
    Play(ArtemisChannel),
    Stop,
    Fade,
    Pan,
    StopAll,
}

/// The mixer request of a media event kind; other kinds are not connected.
pub open spec fn spec_media_kind_of(kind: Seq<char>) -> Option<ArtemisMediaKind> {
    if kind == "video_stop_all"@ {
        Some(ArtemisMediaKind::VideoStopAll)
    } else if kind == "audio_set_volume"@ {
        Some(ArtemisMediaKind::SetVolume)
    } else if kind == "audio_bgm_play"@ {
        Some(ArtemisMediaKind::Play(ArtemisChannel::Bgm))
    } else if kind == "audio_se_play"@ {
        Some(ArtemisMediaKind::Play(ArtemisChannel::Se))
    } else if kind == "audio_voice_play"@ {
        Some(ArtemisMediaKind::Play(ArtemisChannel::Voice))
    } else if kind == "audio_bgm_stop"@ || kind == "audio_se_stop"@ {
        Some(ArtemisMediaKind::Stop)
    } else if kind == "audio_bgm_fade"@ || kind == "audio_se_fade"@ {
        Some(ArtemisMediaKind::Fade)
    } else if kind == "audio_bgm_pan"@ || kind == "audio_se_pan"@ {
        Some(ArtemisMediaKind::Pan)
    } else if kind == "audio_stop_all"@ {
        Some(ArtemisMediaKind::StopAll)
    } else {
        None
    }
}

/// The mixer request of a media event kind; a kind that is not connected
/// fails.
pub fn media_kind_of(kind: &str) -> (r: Result<ArtemisMediaKind, ArtemisError>)
    ensures
        match spec_media_kind_of(kind@) {
            Some(k) => r == Ok::<ArtemisMediaKind, ArtemisError>(k),
            None => r == Err::<ArtemisMediaKind, ArtemisError>(ArtemisError::MediaUnsupported),
        },
{
    if str_eq(kind, "video_stop_all") {
        Ok(ArtemisMediaKind::VideoStopAll)
    } else if str_eq(kind, "audio_set_volume") {
        Ok(ArtemisMediaKind::SetVolume)
    } else if str_eq(kind, "audio_bgm_play") {
        Ok(ArtemisMediaKind::Play(ArtemisChannel::Bgm))
    } else if str_eq(kind, "audio_se_play") {
        Ok(ArtemisMediaKind::Play(ArtemisChannel::Se))
    } else if str_eq(kind, "audio_voice_play") {
        Ok(ArtemisMediaKind::Play(ArtemisChannel::Voice))
    } else if str_eq(kind, "audio_bgm_stop") || str_eq(kind, "audio_se_stop") {
        Ok(ArtemisMediaKind::Stop)
    } else if str_eq(kind, "audio_bgm_fade") || str_eq(kind, "audio_se_fade") {
        Ok(ArtemisMediaKind::Fade)
    } else if str_eq(kind, "audio_bgm_pan") || str_eq(kind, "audio_se_pan") {
        Ok(ArtemisMediaKind::Pan)
    } else if str_eq(kind, "audio_stop_all") {
        Ok(ArtemisMediaKind::StopAll)
    } else {
        Err(ArtemisError::MediaUnsupported)
    }
}

/// The voice a play command names: background music has a single voice,
/// so its id is dropped.
pub fn play_voice_id(channel: ArtemisChannel, id: Option<String>) -> (r: Option<String>)
    ensures
        channel == ArtemisChannel::Bgm ==> r is None,
        channel != ArtemisChannel::Bgm ==> r == id,
{
    match channel {
        ArtemisChannel::Bgm => None,
        _ => id,
    }
}

} // verus!
