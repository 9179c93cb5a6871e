//! Decisions that coordinate a session with the external playback
//! transport: when playback must (re)start, and which command inputs
//! are rejected before anything is forwarded. The transport itself is
//! driven by the caller, which probes it and performs the actions these
//! functions decide on.

use crate::player::{advance_result, advance_spec, PlayerState};
use crate::track::VideoInfo;
use vstd::prelude::*;

verus! {

/// What an external playback object reports about itself.
#[derive(PartialEq, Eq, Structural, Clone, Copy, Debug)]
pub enum PlayStatus {
    Playing,
    Paused,
    Stopped,
    Ended,
}

/// What probing a session's playback object observed: none is bound,
/// one is bound but its report could not be read, or one is bound and
/// reported a status.
#[derive(PartialEq, Eq, Structural, Clone, Copy, Debug)]
pub enum HandleProbe {
    NoHandle,
    Unavailable,
    Reported(PlayStatus),
}

/// Playback must (re)start when no playback object is bound, when the
/// bound one cannot be read, or when it reports that playback stopped
/// or ended.
pub open spec fn should_start_spec(p: HandleProbe) -> bool {
    match p {
        HandleProbe::NoHandle => true,
        HandleProbe::Unavailable => true,
        HandleProbe::Reported(s) => s == PlayStatus::Stopped || s == PlayStatus::Ended,
    }
}

pub fn should_start(p: &HandleProbe) -> (r: bool)
    ensures
        r == should_start_spec(*p),
{
    match p {
        HandleProbe::NoHandle => true,
        HandleProbe::Unavailable => true,
        HandleProbe::Reported(s) => match s {
            PlayStatus::Stopped => true,
            PlayStatus::Ended => true,
            PlayStatus::Playing => false,
            PlayStatus::Paused => false,
        },
    }
}

/// The "maybe start" step evaluated after an enqueue or a skip: when
/// the probe shows playback must (re)start, advance the session and
/// hand back the track for which the caller should bind a fresh
/// playback object; otherwise leave the session exactly as it is.
pub fn maybe_start<H>(state: &mut PlayerState<H>, probe: &HandleProbe) -> (r: Option<VideoInfo>)
    ensures
        !should_start_spec(*probe) ==> *final(state) == *old(state) && r is None,
        should_start_spec(*probe) ==> final(state)@ == advance_spec(old(state)@) && r
            == advance_result(old(state)@) && final(state).current_handle is None,
{
    if should_start(probe) {
        state.pop_next()
    } else {
        None
    }
}

/// A command input rejected before anything was forwarded to the
/// playback transport; nothing was mutated.
#[derive(PartialEq, Eq, Structural, Clone, Copy, Debug)]
pub struct ValidationError {
    pub level: u32,
}

pub const MAX_VOLUME: u32 = 100;

/// Validates a volume command: a level above 100 is rejected and
/// nothing is forwarded; a level within 0..=100 passes through
/// unchanged for the transport to apply.
pub fn validate_volume(level: u32) -> (r: Result<u32, ValidationError>)
    ensures
        level <= MAX_VOLUME ==> r == Ok::<u32, ValidationError>(level),
        level > MAX_VOLUME ==> r == Err::<u32, ValidationError>((ValidationError { level })),
{
    if level > MAX_VOLUME {
        Err(ValidationError { level })
    } else {
        Ok(level)
    }
}

} // verus!
