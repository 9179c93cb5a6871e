//! The read-through metadata cache policy: consult the external store
//! first, fall back to the resolver on any miss or store fault, and
//! write a fresh result back on a best-effort basis. The store and the
//! resolver are driven by the caller; these functions decide each step.

use crate::track::VideoInfo;
use vstd::prelude::*;

verus! {

/// A failure of the external resolver; fatal to the command that
/// triggered the resolution.
#[derive(Debug)]
pub struct ResolutionError {
    pub message: String,
}

/// What querying the external store yielded once deserialized. Any
/// store fault or malformed entry counts as a miss: store failures are
/// absorbed, never surfaced.
#[derive(Debug)]
pub enum StoreReply {
    Found(VideoInfo),
    Miss,
}

/// The step the cache takes after the store replies.
#[derive(Debug)]
pub enum CacheStep {
    Done(VideoInfo),
    NeedResolver,
}

/// A successful resolution: the track to return, and whether a
/// write-back to the store must be attempted.
#[derive(Debug)]
pub struct ResolveOutcome {
    pub track: VideoInfo,
    pub write_back: bool,
}

/// A found, well-formed entry is returned as is; anything else sends
/// the cache to the resolver.
pub open spec fn store_step_spec(r: StoreReply) -> CacheStep {
    match r {
        StoreReply::Found(t) => CacheStep::Done(t),
        StoreReply::Miss => CacheStep::NeedResolver,
    }
}

pub fn on_store_reply(reply: StoreReply) -> (s: CacheStep)
    ensures
        s == store_step_spec(reply),
{
    match reply {
        StoreReply::Found(t) => CacheStep::Done(t),
        StoreReply::Miss => CacheStep::NeedResolver,
    }
}

/// A fresh track from the resolver is returned and written back
/// exactly once; a resolver failure is the only failure of the
/// resolution as a whole.
pub open spec fn resolver_step_spec(r: Result<VideoInfo, ResolutionError>) -> Result<
    ResolveOutcome,
    ResolutionError,
> {
    match r {
        Ok(t) => Ok(ResolveOutcome { track: t, write_back: true }),
        Err(e) => Err(e),
    }
}

/// The write-back named in the result is an attempt only: its outcome
/// is nowhere consumed, so a store failure there cannot change what
/// the resolution returns.
pub fn on_resolver_reply(reply: Result<VideoInfo, ResolutionError>) -> (r: Result<
    ResolveOutcome,
    ResolutionError,
>)
    ensures
        r == resolver_step_spec(reply),
{
    match reply {
        Ok(t) => Ok(ResolveOutcome { track: t, write_back: true }),
        Err(e) => Err(e),
    }
}

} // verus!
