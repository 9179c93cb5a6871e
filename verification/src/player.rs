//! The per-session playback state machine: playlist history, pending
//! queue, current item, shuffle flag, and the bound playback object.

use crate::shuffle::{new_rng, shuffle_tracks};
use crate::track::VideoInfo;
use vstd::prelude::*;

verus! {

/// Mathematical model of one session's playback state. The bound
/// external playback object is abstracted to whether one is bound.
pub ghost struct PlayerView {
    pub playlist: Seq<VideoInfo>,
    pub queue: Seq<VideoInfo>,
    pub current: Option<VideoInfo>,
    pub shuffled: bool,
    pub has_handle: bool,
}

/// The state a session starts in: nothing recorded, nothing queued,
/// nothing playing.
pub open spec fn empty_view() -> PlayerView {
    PlayerView {
        playlist: Seq::empty(),
        queue: Seq::empty(),
        current: None,
        shuffled: false,
        has_handle: false,
    }
}

/// Appending a track records it at the end of the playlist and of the
/// queue; nothing else moves.
pub open spec fn enqueue_spec(v: PlayerView, t: VideoInfo) -> PlayerView {
    PlayerView {
        playlist: v.playlist.push(t),
        queue: v.queue.push(t),
        current: v.current,
        shuffled: v.shuffled,
        has_handle: v.has_handle,
    }
}

/// What advancing hands back: the front of the queue, or nothing.
pub open spec fn advance_result(v: PlayerView) -> Option<VideoInfo> {
    if v.queue.len() == 0 {
        None
    } else {
        Some(v.queue[0])
    }
}

/// Advancing removes the front of the queue, makes it the current
/// track (none when the queue is empty), and unbinds any playback
/// object.
pub open spec fn advance_spec(v: PlayerView) -> PlayerView {
    PlayerView {
        playlist: v.playlist,
        queue: if v.queue.len() == 0 {
            v.queue
        } else {
            v.queue.drop_first()
        },
        current: advance_result(v),
        shuffled: v.shuffled,
        has_handle: false,
    }
}

/// The same state with the playback object bound or unbound.
pub open spec fn set_handle_spec(v: PlayerView, b: bool) -> PlayerView {
    PlayerView {
        playlist: v.playlist,
        queue: v.queue,
        current: v.current,
        shuffled: v.shuffled,
        has_handle: b,
    }
}

/// Position of the first playlist entry with the given identifier.
pub open spec fn first_index_with_url(pl: Seq<VideoInfo>, url: Seq<char>) -> Option<int>
    decreases pl.len(),
{
    if pl.len() == 0 {
        None
    } else if pl[0].url@ == url {
        Some(0int)
    } else {
        match first_index_with_url(pl.drop_first(), url) {
            Some(i) => Some(i + 1),
            None => None,
        }
    }
}

/// The queue that turning shuffle off rebuilds: the playlist entries
/// strictly after the first occurrence of the current track's
/// identifier, in add order. Without a current track, or with one
/// whose identifier the playlist does not hold, the queue is kept.
pub open spec fn rebuilt_queue(v: PlayerView) -> Seq<VideoInfo> {
    match v.current {
        Some(c) => match first_index_with_url(v.playlist, c.url@) {
            Some(i) => v.playlist.skip(i + 1),
            None => v.queue,
        },
        None => v.queue,
    }
}

/// The full effect of turning shuffle off.
pub open spec fn toggle_off_spec(v: PlayerView) -> PlayerView {
    PlayerView {
        playlist: v.playlist,
        queue: rebuilt_queue(v),
        current: v.current,
        shuffled: false,
        has_handle: v.has_handle,
    }
}

/// `first_index_with_url` returns the position of the first match, and
/// nothing when no entry matches.
pub proof fn lemma_first_index_characterizes(pl: Seq<VideoInfo>, url: Seq<char>)
    ensures
        match first_index_with_url(pl, url) {
            Some(i) => 0 <= i < pl.len() && pl[i].url@ == url && (forall|j: int|
                0 <= j < i ==> pl[j].url@ != url),
            None => forall|j: int| 0 <= j < pl.len() ==> pl[j].url@ != url,
        },
    decreases pl.len(),
{
    if pl.len() == 0 {
    } else if pl[0].url@ == url {
    } else {
        lemma_first_index_characterizes(pl.drop_first(), url);
        match first_index_with_url(pl.drop_first(), url) {
            Some(i) => {
                assert(pl.drop_first()[i] == pl[i + 1]);
                assert forall|j: int| 0 <= j < i + 1 implies pl[j].url@ != url by {
                    if j > 0 {
                        assert(pl.drop_first()[j - 1] == pl[j]);
                    }
                }
            },
            None => {
                assert forall|j: int| 0 <= j < pl.len() implies pl[j].url@ != url by {
                    if j > 0 {
                        assert(pl.drop_first()[j - 1] == pl[j]);
                    }
                }
            },
        }
    }
}

/// A position that matches, with no earlier match, is exactly what
/// `first_index_with_url` returns.
pub proof fn lemma_first_index_of_match(pl: Seq<VideoInfo>, url: Seq<char>, i: int)
    requires
        0 <= i < pl.len(),
        pl[i].url@ == url,
        forall|j: int| 0 <= j < i ==> pl[j].url@ != url,
    ensures
        first_index_with_url(pl, url) == Some(i),
    decreases pl.len(),
{
    if i == 0 {
    } else {
        assert(pl[0].url@ != url);
        assert(forall|j: int| 0 <= j < pl.len() - 1 ==> pl.drop_first()[j] == pl[j + 1]);
        lemma_first_index_of_match(pl.drop_first(), url, i - 1);
    }
}

/// One session's playback state. `H` is the (opaque) reference to an
/// active external playback object.
pub struct PlayerState<H> {
    pub playlist: Vec<VideoInfo>,
    pub queue: Vec<VideoInfo>,
    pub current_track: Option<VideoInfo>,
    pub is_shuffled: bool,
    pub current_handle: Option<H>,
}

impl<H> View for PlayerState<H> {
    type V = PlayerView;

    open spec fn view(&self) -> PlayerView {
        PlayerView {
            playlist: self.playlist@,
            queue: self.queue@,
            current: self.current_track,
            shuffled: self.is_shuffled,
            has_handle: self.current_handle is Some,
        }
    }
}

impl<H> PlayerState<H> {
    pub fn new() -> (r: Self)
        ensures
            r@ == empty_view(),
            r.current_handle is None,
    {
        let r = PlayerState {
            playlist: Vec::new(),
            queue: Vec::new(),
            current_track: None,
            is_shuffled: false,
            current_handle: None,
        };
        proof {
            assert(r@.playlist =~= empty_view().playlist);
            assert(r@.queue =~= empty_view().queue);
        }
        r
    }

    /// Appends the track to the playlist record and to the pending
    /// queue; always succeeds.
    pub fn add_track(&mut self, track: VideoInfo)
        ensures
            final(self)@ == enqueue_spec(old(self)@, track),
            final(self).current_handle == old(self).current_handle,
    {
        let copy = track.clone();
        self.playlist.push(copy);
        self.queue.push(track);
    }

    /// Removes and returns the front of the queue, makes it the
    /// current track (none when the queue is empty), and unbinds any
    /// playback object.
    pub fn pop_next(&mut self) -> (r: Option<VideoInfo>)
        ensures
            final(self)@ == advance_spec(old(self)@),
            r == advance_result(old(self)@),
            final(self).current_handle is None,
    {
        self.current_handle = None;
        if self.queue.len() == 0 {
            self.current_track = None;
            None
        } else {
            let t = self.queue.remove(0);
            self.current_track = Some(t.clone());
            proof {
                assert(old(self)@.queue.remove(0) =~= old(self)@.queue.drop_first());
            }
            Some(t)
        }
    }

    /// Stores the playback object for the track most recently handed
    /// out by `pop_next`. Calling without a current track is permitted
    /// but meaningless; the caller is responsible for ordering.
    pub fn bind_handle(&mut self, h: H)
        ensures
            final(self)@ == set_handle_spec(old(self)@, true),
            final(self).current_handle == Some(h),
    {
        self.current_handle = Some(h);
    }

    /// Unbinds the playback object, if any.
    pub fn clear_handle(&mut self)
        ensures
            final(self)@ == set_handle_spec(old(self)@, false),
            final(self).current_handle is None,
    {
        self.current_handle = None;
    }

    /// Removes and returns the bound playback object so the caller can
    /// stop it.
    pub fn take_handle(&mut self) -> (r: Option<H>)
        ensures
            r == old(self).current_handle,
            final(self)@ == set_handle_spec(old(self)@, false),
            final(self).current_handle is None,
    {
        self.current_handle.take()
    }

    pub fn has_handle(&self) -> (r: bool)
        ensures
            r == self@.has_handle,
    {
        self.current_handle.is_some()
    }

    /// Flips the shuffle flag. Turning shuffle on replaces the queue
    /// with a permutation of itself; turning it off rebuilds the queue
    /// from the playlist after the current track's first occurrence.
    /// Playlist, current track and playback object are untouched.
    pub fn toggle_shuffle(&mut self) -> (r: bool)
        ensures
            r == final(self).is_shuffled,
            final(self).is_shuffled == !old(self).is_shuffled,
            final(self).current_handle == old(self).current_handle,
            final(self)@.playlist == old(self)@.playlist,
            final(self)@.current == old(self)@.current,
            final(self)@.has_handle == old(self)@.has_handle,
            !old(self).is_shuffled ==> final(self)@.queue.to_multiset()
                == old(self)@.queue.to_multiset() && final(self)@.queue.len()
                == old(self)@.queue.len(),
            old(self).is_shuffled ==> final(self)@ == toggle_off_spec(old(self)@),
    {
        self.is_shuffled = !self.is_shuffled;
        if self.is_shuffled {
            let mut rng = new_rng();
            shuffle_tracks(&mut self.queue, &mut rng);
        } else {
            let cur_url = match &self.current_track {
                Some(c) => Some(c.url.clone()),
                None => None,
            };
            if let Some(url) = cur_url {
                if let Some(idx) = find_url_index(&self.playlist, &url) {
                    let plen = self.playlist.len();
                    proof {
                        lemma_first_index_characterizes(self.playlist@, url@);
                        assert(idx < plen);
                    }
                    let mut q: Vec<VideoInfo> = Vec::new();
                    let mut j: usize = idx + 1;
                    while j < self.playlist.len()
                        invariant
                            idx + 1 <= j <= self.playlist@.len(),
                            q@ =~= self.playlist@.subrange(idx + 1, j as int),
                        decreases self.playlist@.len() - j,
                    {
                        let t = self.playlist[j].clone();
                        q.push(t);
                        j += 1;
                    }
                    proof {
                        assert(q@ =~= self.playlist@.skip(idx + 1));
                    }
                    self.queue = q;
                }
            }
        }
        self.is_shuffled
    }

    /// The titles of the first `limit` queued tracks, in queue order.
    pub fn queue_titles(&self, limit: usize) -> (r: Vec<String>)
        ensures
            r@.len() == if self@.queue.len() <= limit {
                self@.queue.len()
            } else {
                limit as nat
            },
            forall|i: int| 0 <= i < r@.len() ==> r@[i]@ == self@.queue[i].title@,
    {
        let mut r: Vec<String> = Vec::new();
        let mut i: usize = 0;
        let n = if self.queue.len() <= limit {
            self.queue.len()
        } else {
            limit
        };
        while i < n
            invariant
                0 <= i <= n,
                n == if self@.queue.len() <= limit {
                    self@.queue.len()
                } else {
                    limit as nat
                },
                n <= self@.queue.len(),
                r@.len() == i,
                forall|k: int| 0 <= k < i ==> r@[k]@ == self@.queue[k].title@,
            decreases n - i,
        {
            r.push(self.queue[i].title.clone());
            i += 1;
        }
        r
    }

    pub fn queue_len(&self) -> (r: usize)
        ensures
            r == self@.queue.len(),
    {
        self.queue.len()
    }

    pub fn playlist_len(&self) -> (r: usize)
        ensures
            r == self@.playlist.len(),
    {
        self.playlist.len()
    }
}

/// Position of the first playlist entry whose identifier equals
/// `url`, scanning from the front.
fn find_url_index(pl: &Vec<VideoInfo>, url: &String) -> (r: Option<usize>)
    ensures
        match r {
            Some(i) => first_index_with_url(pl@, url@) == Some(i as int),
            None => first_index_with_url(pl@, url@) is None,
        },
{
    let mut i: usize = 0;
    while i < pl.len()
        invariant
            0 <= i <= pl@.len(),
            forall|j: int| 0 <= j < i ==> pl@[j].url@ != url@,
        decreases pl@.len() - i,
    {
        if pl[i].url == *url {
            proof {
                lemma_first_index_of_match(pl@, url@, i as int);
            }
            return Some(i);
        }
        i += 1;
    }
    proof {
        lemma_first_index_characterizes(pl@, url@);
    }
    None
}

} // verus!
