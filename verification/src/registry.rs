//! Mapping from session key to exactly one lazily created playback
//! state: a session is created on first reference and never replaced.

use crate::player::{advance_result, advance_spec, empty_view, enqueue_spec, PlayerState, PlayerView};
use crate::track::VideoInfo;
use std::collections::HashMap;
use vstd::prelude::*;

verus! {

broadcast use vstd::std_specs::hash::group_hash_axioms;

/// What resolving a key does to the registry's model: an absent key is
/// bound to a fresh empty session; a present key keeps its session
/// exactly as it is.
pub open spec fn get_or_create_spec(m: Map<u64, PlayerView>, key: u64) -> Map<u64, PlayerView> {
    if m.contains_key(key) {
        m
    } else {
        m.insert(key, empty_view())
    }
}

/// The session registry, keyed by session identifier.
pub struct SessionRegistry<H> {
    sessions: HashMap<u64, PlayerState<H>>,
}

impl<H> View for SessionRegistry<H> {
    type V = Map<u64, PlayerView>;

    closed spec fn view(&self) -> Map<u64, PlayerView> {
        self.sessions@.map_values(|p: PlayerState<H>| p@)
    }
}

impl<H> SessionRegistry<H> {
    pub fn new() -> (r: Self)
        ensures
            r@ == Map::<u64, PlayerView>::empty(),
    {
        let r = SessionRegistry { sessions: HashMap::new() };
        proof {
            assert(r@ =~= Map::<u64, PlayerView>::empty());
        }
        r
    }

    pub fn is_registered(&self, key: u64) -> (r: bool)
        ensures
            r == self@.contains_key(key),
    {
        self.sessions.contains_key(&key)
    }

    /// Resolves the session for `key`, creating it on first reference;
    /// a session already present is left untouched.
    pub fn get_or_create(&mut self, key: u64)
        ensures
            final(self)@ == get_or_create_spec(old(self)@, key),
    {
        if !self.sessions.contains_key(&key) {
            self.sessions.insert(key, PlayerState::new());
            proof {
                assert(self@ =~= get_or_create_spec(old(self)@, key));
            }
        }
    }

    /// Appends a track to the session for `key`, creating the session
    /// on first reference.
    pub fn enqueue_track(&mut self, key: u64, track: VideoInfo)
        ensures
            final(self)@ == ({
                let m = get_or_create_spec(old(self)@, key);
                m.insert(key, enqueue_spec(m[key], track))
            }),
    {
        let mut st = match self.sessions.remove(&key) {
            Some(s) => s,
            None => PlayerState::new(),
        };
        st.add_track(track);
        self.sessions.insert(key, st);
        proof {
            assert(self@ =~= ({
                let m = get_or_create_spec(old(self)@, key);
                m.insert(key, enqueue_spec(m[key], track))
            }));
        }
    }

    /// Advances the session for `key`, creating it on first reference,
    /// and hands back the track that playback should move to.
    pub fn advance_session(&mut self, key: u64) -> (r: Option<VideoInfo>)
        ensures
            final(self)@ == ({
                let m = get_or_create_spec(old(self)@, key);
                m.insert(key, advance_spec(m[key]))
            }),
            r == advance_result(get_or_create_spec(old(self)@, key)[key]),
    {
        let mut st = match self.sessions.remove(&key) {
            Some(s) => s,
            None => PlayerState::new(),
        };
        let r = st.pop_next();
        self.sessions.insert(key, st);
        proof {
            assert(self@ =~= ({
                let m = get_or_create_spec(old(self)@, key);
                m.insert(key, advance_spec(m[key]))
            }));
        }
        r
    }
}

} // verus!
