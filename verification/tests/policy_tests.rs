use jukebox::cache::{CacheStep, ResolutionError, StoreReply};
use jukebox::cache::{on_resolver_reply, on_store_reply};
use jukebox::orchestrator::{maybe_start, should_start, validate_volume, HandleProbe, PlayStatus};
use jukebox::player::PlayerState;
use jukebox::registry::SessionRegistry;
use jukebox::track::VideoInfo;

fn track(tag: &str) -> VideoInfo {
    VideoInfo {
        title: format!("title-{}", tag),
        url: format!("https://example.test/watch?v={}", tag),
        audio_url: format!("https://audio.example.test/{}", tag),
        duration: 90,
    }
}

#[test]
fn registry_creates_each_session_once() {
    let mut reg: SessionRegistry<u32> = SessionRegistry::new();
    assert!(!reg.is_registered(7));
    reg.get_or_create(7);
    assert!(reg.is_registered(7));
    reg.enqueue_track(7, track("a"));
    // A later resolution of the same key must keep the same session,
    // so the queued track is still there to advance to.
    reg.get_or_create(7);
    let next = reg.advance_session(7);
    assert_eq!(next.unwrap().title, "title-a");
    assert!(reg.advance_session(7).is_none());
    assert!(!reg.is_registered(8));
}

#[test]
fn registry_sessions_are_independent() {
    let mut reg: SessionRegistry<u32> = SessionRegistry::new();
    reg.enqueue_track(1, track("a"));
    reg.enqueue_track(2, track("b"));
    assert_eq!(reg.advance_session(2).unwrap().title, "title-b");
    assert_eq!(reg.advance_session(1).unwrap().title, "title-a");
}

#[test]
fn cache_hit_skips_the_resolver() {
    let step = on_store_reply(StoreReply::Found(track("a")));
    match step {
        CacheStep::Done(t) => assert_eq!(t.title, "title-a"),
        CacheStep::NeedResolver => panic!("a hit must not consult the resolver"),
    }
}

#[test]
fn cache_miss_falls_back_and_writes_back_once() {
    let step = on_store_reply(StoreReply::Miss);
    assert!(matches!(step, CacheStep::NeedResolver));
    let outcome = on_resolver_reply(Ok(track("a"))).unwrap();
    assert_eq!(outcome.track.title, "title-a");
    assert!(outcome.write_back);
}

#[test]
fn resolver_failure_is_fatal_to_resolution() {
    let err = ResolutionError { message: "no such video".to_string() };
    let r = on_resolver_reply(Err(err));
    match r {
        Ok(_) => panic!("a resolver failure must fail the resolution"),
        Err(e) => assert_eq!(e.message, "no such video"),
    }
}

#[test]
fn volume_above_bound_is_rejected() {
    let r = validate_volume(101);
    match r {
        Ok(_) => panic!("101 must be rejected"),
        Err(e) => assert_eq!(e.level, 101),
    }
    assert_eq!(validate_volume(100), Ok(100));
    assert_eq!(validate_volume(0), Ok(0));
    assert_eq!(validate_volume(55), Ok(55));
}

#[test]
fn playback_restarts_only_when_stopped_or_ended() {
    assert!(should_start(&HandleProbe::NoHandle));
    assert!(should_start(&HandleProbe::Unavailable));
    assert!(should_start(&HandleProbe::Reported(PlayStatus::Stopped)));
    assert!(should_start(&HandleProbe::Reported(PlayStatus::Ended)));
    assert!(!should_start(&HandleProbe::Reported(PlayStatus::Playing)));
    assert!(!should_start(&HandleProbe::Reported(PlayStatus::Paused)));
}

#[test]
fn maybe_start_advances_only_on_a_restart_probe() {
    let mut state: PlayerState<u32> = PlayerState::new();
    state.add_track(track("a"));
    state.add_track(track("b"));
    state.bind_handle(3);

    // A playing session is left exactly as it is.
    let r = maybe_start(&mut state, &HandleProbe::Reported(PlayStatus::Playing));
    assert!(r.is_none());
    assert_eq!(state.queue_len(), 2);
    assert!(state.has_handle());

    // An ended one advances and unbinds, ready for a fresh handle.
    let r = maybe_start(&mut state, &HandleProbe::Reported(PlayStatus::Ended));
    assert_eq!(r.unwrap().title, "title-a");
    assert!(!state.has_handle());
    assert_eq!(state.queue_len(), 1);

    // An empty queue leaves the session idle, with no error.
    maybe_start(&mut state, &HandleProbe::NoHandle);
    let r = maybe_start(&mut state, &HandleProbe::NoHandle);
    assert!(r.is_none());
    assert!(state.current_track.is_none());
}
