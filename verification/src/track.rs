//! Resolved, playable metadata for one media item.

use vstd::prelude::*;

verus! {

/// Metadata for one resolved media item. Immutable once resolved; the
/// duration is kept in whole seconds.
#[derive(Debug)]
pub struct VideoInfo {
    pub title: String,
    pub url: String,
    pub audio_url: String,
    pub duration: u64,
}

impl Clone for VideoInfo {
    fn clone(&self) -> (r: Self)
        ensures
            r == *self,
    {
        VideoInfo {
            title: self.title.clone(),
            url: self.url.clone(),
            audio_url: self.audio_url.clone(),
            duration: self.duration,
        }
    }
}

} // verus!
