//! Properties that relate several operations of the library, proved
//! over the same models that the operations' contracts use.

use crate::cache::{
    store_step_spec, resolver_step_spec, CacheStep, ResolutionError, ResolveOutcome, StoreReply,
};
use crate::player::{
    advance_result, advance_spec, enqueue_spec, first_index_with_url, toggle_off_spec, PlayerView,
};
use crate::registry::get_or_create_spec;
use crate::track::VideoInfo;
use vstd::prelude::*;

verus! {

/// How a run of enqueue operations acts on a session, first track
/// first.
pub open spec fn enqueue_all_spec(v: PlayerView, ts: Seq<VideoInfo>) -> PlayerView
    decreases ts.len(),
{
    if ts.len() == 0 {
        v
    } else {
        enqueue_all_spec(enqueue_spec(v, ts[0]), ts.drop_first())
    }
}

/// Accumulation: a run of enqueue operations grows the playlist by
/// exactly the number of tracks enqueued, and advancing or rebuilding
/// the queue never changes the playlist, so its length never
/// decreases.
pub proof fn lemma_playlist_accumulation(v: PlayerView, ts: Seq<VideoInfo>)
    ensures
        enqueue_all_spec(v, ts).playlist.len() == v.playlist.len() + ts.len(),
        enqueue_all_spec(v, ts).queue.len() == v.queue.len() + ts.len(),
        advance_spec(v).playlist == v.playlist,
        toggle_off_spec(v).playlist == v.playlist,
    decreases ts.len(),
{
    if ts.len() == 0 {
    } else {
        lemma_playlist_accumulation(enqueue_spec(v, ts[0]), ts.drop_first());
    }
}

/// Default order is first-in, first-out: three tracks enqueued in
/// order into an empty queue are handed back by three advances in the
/// same order, and a fourth advance hands back nothing.
pub proof fn lemma_fifo_order(v: PlayerView, a: VideoInfo, b: VideoInfo, c: VideoInfo)
    requires
        v.queue.len() == 0,
    ensures
        ({
            let v3 = enqueue_spec(enqueue_spec(enqueue_spec(v, a), b), c);
            let v4 = advance_spec(v3);
            let v5 = advance_spec(v4);
            let v6 = advance_spec(v5);
            advance_result(v3) == Some(a) && advance_result(v4) == Some(b) && advance_result(v5)
                == Some(c) && advance_result(v6) == None::<VideoInfo>
        }),
{
    let v3 = enqueue_spec(enqueue_spec(enqueue_spec(v, a), b), c);
    assert(v3.queue =~= seq![a, b, c]);
    assert(advance_spec(v3).queue =~= seq![b, c]);
    assert(advance_spec(advance_spec(v3)).queue =~= seq![c]);
    assert(advance_spec(advance_spec(advance_spec(v3))).queue =~= Seq::<VideoInfo>::empty());
}

/// A queue holding the same two tracks as `[b, c]`, counted with
/// multiplicity, is one of the two orders of those tracks.
pub proof fn lemma_two_track_permutation(q: Seq<VideoInfo>, b: VideoInfo, c: VideoInfo)
    requires
        q.to_multiset() == seq![b, c].to_multiset(),
    ensures
        q == seq![b, c] || q == seq![c, b],
{
    broadcast use vstd::seq_lib::group_to_multiset_ensures;
    broadcast use vstd::multiset::group_multiset_axioms;

    let s = seq![b, c];
    assert(q.to_multiset().len() == q.len());
    assert(s.to_multiset().len() == s.len());
    assert(q.len() == 2);
    assert(s[0] == b);
    assert(s.contains(b));
    assert(q.to_multiset().count(b) > 0);
    assert(q.contains(b));
    let i = choose|i: int| 0 <= i < q.len() && q[i] == b;
    let qr = q.remove(i);
    assert(qr.to_multiset() =~= q.to_multiset().remove(b));
    assert(s.remove(0) =~= seq![c]);
    assert(s.remove(0).to_multiset() =~= s.to_multiset().remove(b));
    assert(qr.to_multiset() == seq![c].to_multiset());
    assert(qr.len() == 1);
    assert(qr.contains(qr[0]));
    assert(seq![c].to_multiset().count(qr[0]) > 0);
    assert(seq![c].contains(qr[0]));
    assert(qr[0] == c);
    if i == 0 {
        assert(q[1] == qr[0]);
        assert(q =~= seq![b, c]);
    } else {
        assert(i == 1);
        assert(q[0] == qr[0]);
        assert(q =~= seq![c, b]);
    }
}

/// Unshuffle reconstruction: with playlist `[a, b, c, d]` and current
/// track `a`, turning shuffle off rebuilds the queue as exactly
/// `[b, c, d]`, whatever order a prior shuffle left it in, and touches
/// neither the playlist nor the current track.
pub proof fn lemma_unshuffle_reconstruction(
    v: PlayerView,
    a: VideoInfo,
    b: VideoInfo,
    c: VideoInfo,
    d: VideoInfo,
)
    requires
        v.playlist == seq![a, b, c, d],
        v.current == Some(a),
    ensures
        toggle_off_spec(v).queue == seq![b, c, d],
        toggle_off_spec(v).playlist == v.playlist,
        toggle_off_spec(v).current == v.current,
        !toggle_off_spec(v).shuffled,
{
    assert(v.playlist[0] == a);
    assert(first_index_with_url(v.playlist, a.url@) == Some(0int));
    assert(toggle_off_spec(v).queue =~= seq![b, c, d]);
}

/// The registry holds exactly one session per key: resolving a key
/// creates its session at most once, a later resolution returns the
/// registry unchanged, and no other key's session is ever touched.
pub proof fn lemma_registry_singleton(m: Map<u64, PlayerView>, key: u64)
    ensures
        get_or_create_spec(m, key).contains_key(key),
        get_or_create_spec(get_or_create_spec(m, key), key) == get_or_create_spec(m, key),
        m.contains_key(key) ==> get_or_create_spec(m, key) == m,
        !m.contains_key(key) ==> get_or_create_spec(m, key)[key] == crate::player::empty_view(),
        forall|k: u64|
            k != key && m.contains_key(k) ==> #[trigger] get_or_create_spec(m, key).contains_key(k)
                && get_or_create_spec(m, key)[k] == m[k],
{
}

/// Read-through fallback: a hit is returned without consulting the
/// resolver; a miss sends the cache to the resolver, whose successful
/// reply is returned as the result together with exactly one
/// write-back attempt; a resolver failure is the only failure of the
/// resolution.
pub proof fn lemma_cache_fallback(t: VideoInfo, e: ResolutionError)
    ensures
        store_step_spec(StoreReply::Found(t)) == CacheStep::Done(t),
        store_step_spec(StoreReply::Miss) == CacheStep::NeedResolver,
        resolver_step_spec(Ok::<VideoInfo, ResolutionError>(t)) matches Ok(o) && o.track == t
            && o.write_back,
        resolver_step_spec(Err::<VideoInfo, ResolutionError>(e)) == Err::<
            ResolveOutcome,
            ResolutionError,
        >(e),
{
}

} // verus!
