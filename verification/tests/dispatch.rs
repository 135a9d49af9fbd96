use chime_bot::bus::{BroadcastError, EventBus, Received};
use chime_bot::event::{is_qualifying, presence_event, VoiceState};
use chime_bot::handler::{Dispatched, Handler, HandlerBuilder};
use chime_bot::span::Span;
use std::time::Duration;

fn at(guild: Option<u64>, channel: Option<u64>) -> VoiceState {
    VoiceState { guild_id: guild, channel_id: channel }
}

fn handler(bus_size: usize) -> Handler<u32> {
    HandlerBuilder::default()
        .bus_size(bus_size)
        .command_root("chime")
        .disconnect_timeout(Duration::from_millis(500))
        .file_duration_max(Span::from_millis(5000))
        .file_size_limit(-1)
        .build()
}

#[test]
fn first_placement_gives_one_event() {
    let e = presence_event(false, None, at(Some(7), Some(70)), 1, true, 9u32).unwrap();
    assert_eq!(e.session_id, 7);
    assert_eq!(e.channel_id, 70);
    assert_eq!(e.user_id, 1);
    assert_eq!(e.context, 9);
}

#[test]
fn arrival_from_another_session_gives_an_event() {
    let old = Some(at(Some(6), Some(60)));
    let e = presence_event(false, old, at(Some(7), Some(70)), 1, true, 0u32);
    assert!(e.is_some());
}

#[test]
fn arrival_from_no_session_gives_an_event() {
    let old = Some(at(None, None));
    let e = presence_event(false, old, at(Some(7), Some(70)), 1, true, 0u32);
    assert!(e.is_some());
}

#[test]
fn move_within_a_session_gives_no_event() {
    let old = Some(at(Some(7), Some(70)));
    assert!(presence_event(false, old, at(Some(7), Some(71)), 1, true, 0u32).is_none());
}

#[test]
fn staying_in_the_channel_gives_no_event() {
    let old = Some(at(Some(6), Some(70)));
    assert!(presence_event(false, old, at(Some(7), Some(70)), 1, true, 0u32).is_none());
}

#[test]
fn leaving_gives_no_event() {
    let old = Some(at(Some(7), Some(70)));
    assert!(presence_event(false, old, at(Some(7), None), 1, true, 0u32).is_none());
}

#[test]
fn bots_give_no_event() {
    assert!(presence_event(true, None, at(Some(7), Some(70)), 1, true, 0u32).is_none());
}

#[test]
fn unknown_session_gives_no_event() {
    assert!(presence_event(false, None, at(None, Some(70)), 1, true, 0u32).is_none());
}

#[test]
fn user_without_chime_gives_no_event() {
    assert!(presence_event(false, None, at(Some(7), Some(70)), 1, false, 0u32).is_none());
    let mut h = handler(4);
    let mut w = h.on_session_seen(7, 0).unwrap();
    let r = h.on_presence_transition(false, None, at(Some(7), Some(70)), 1, false, 5);
    assert!(matches!(r, Dispatched::Ignored));
    assert!(matches!(w.listen(), chime_bot::worker::Action::Pause));
}

#[test]
fn builder_is_complete_only_with_every_setting() {
    let b = HandlerBuilder::default();
    assert!(!b.is_complete());
    let b = b.bus_size(4).command_root("chime").file_size_limit(1000);
    assert!(!b.is_complete());
    let b = b.file_duration_max(Span::from_millis(1)).disconnect_timeout(Duration::from_secs(1));
    assert!(b.is_complete());
    assert!(!b.bus_size(usize::MAX).is_complete());
}

#[test]
fn handler_keeps_its_settings() {
    let h = handler(4);
    assert_eq!(h.bus_size(), 4);
    assert_eq!(handler(0).bus_size(), 0);
    assert_eq!(h.command_root(), "chime");
    assert_eq!(h.file_size_limit(), -1);
    assert_eq!(h.file_duration_max(), Span { nanos: 5_000_000_000 });
    assert_eq!(h.disconnect_timeout(), Duration::from_millis(500));
}

#[test]
fn one_worker_per_session() {
    let mut h = handler(4);
    assert!(!h.is_watched(7));
    let first = h.on_session_seen(7, 1);
    assert!(first.is_some());
    assert_eq!(first.unwrap().session_id(), 7);
    assert!(h.is_watched(7));
    assert!(h.on_session_seen(8, 2).is_some());
    assert!(h.on_session_seen(7, 3).is_none());
    assert!(h.on_session_seen(7, 4).is_none());
}

#[test]
fn context_is_noted_on_first_sight_only() {
    let mut h = handler(4);
    assert_eq!(h.take_latest_context(), None);
    assert!(h.on_session_seen(7, 1).is_some());
    assert_eq!(h.take_latest_context(), Some(1));
    assert_eq!(h.take_latest_context(), None);
    assert!(h.on_session_seen(7, 2).is_none());
    assert_eq!(h.take_latest_context(), None);
    h.observe_context(3);
    assert_eq!(h.take_latest_context(), Some(3));
}

#[test]
fn ready_hands_out_one_supervisor() {
    let mut h = handler(4);
    assert!(h.on_ready(1).is_some());
    assert!(h.on_ready(2).is_none());
    assert_eq!(h.take_latest_context(), Some(2));
}

#[test]
fn qualifying_transition_is_broadcast_and_noted() {
    let mut h = handler(4);
    let mut rx = h.on_session_seen(7, 0).unwrap();
    let _ = h.take_latest_context();
    let r = h.on_presence_transition(false, None, at(Some(7), Some(70)), 1, true, 5);
    assert!(matches!(r, Dispatched::Sent));
    assert_eq!(h.take_latest_context(), Some(5));
    assert!(matches!(rx.listen(), chime_bot::worker::Action::QueryPolicy { session_id: 7 }));
    let e = rx.current_event().unwrap();
    assert_eq!((e.session_id, e.channel_id, e.user_id, e.context), (7, 70, 1, 5));
}

#[test]
fn ignored_transition_leaves_context_alone() {
    let mut h = handler(4);
    let r = h.on_presence_transition(true, None, at(Some(7), Some(70)), 1, true, 5);
    assert!(matches!(r, Dispatched::Ignored));
    assert_eq!(h.take_latest_context(), None);
}

#[test]
fn full_bus_hands_the_event_back() {
    let mut h = handler(1);
    let _stalled = h.on_session_seen(7, 0).unwrap();
    let first = h.on_presence_transition(false, None, at(Some(7), Some(70)), 1, true, 5);
    assert!(matches!(first, Dispatched::Sent));
    let second = h.on_presence_transition(false, None, at(Some(7), Some(71)), 2, true, 6);
    match second {
        Dispatched::Refused(BroadcastError::Full(e)) => {
            assert_eq!((e.session_id, e.channel_id, e.user_id, e.context), (7, 71, 2, 6));
        }
        _ => panic!("the bus took an event it had no room for"),
    }
}

#[test]
fn subscription_sees_nothing_from_before() {
    let mut bus: EventBus<u32> = EventBus::new(8);
    let e = presence_event(false, None, at(Some(7), Some(70)), 1, true, 0u32).unwrap();
    assert_eq!(bus.capacity(), 8);
    assert!(bus.broadcast(e.clone()).is_ok());
    assert!(bus.broadcast(e.clone()).is_ok());
    assert_eq!(bus.sent(), 2);
    let mut late = bus.subscribe();
    assert!(matches!(late.look(), Received::Empty));
    assert!(bus.broadcast(e).is_ok());
    match late.look() {
        Received::Message(m) => {
            assert_eq!(m.seq, 2);
            assert_eq!(m.event.user_id, 1);
        }
        _ => panic!("a later broadcast did not arrive"),
    }
    assert!(matches!(late.look(), Received::Empty));
}

#[test]
fn every_subscriber_gets_every_event_in_order() {
    let mut bus: EventBus<u32> = EventBus::new(8);
    let mut a = bus.subscribe();
    let mut b = bus.subscribe();
    for user in 1..=3u64 {
        let e = presence_event(false, None, at(Some(7), Some(70)), user, true, 0u32).unwrap();
        assert!(bus.broadcast(e).is_ok());
    }
    for user in 1..=3u64 {
        match (a.look(), b.look()) {
            (Received::Message(x), Received::Message(y)) => {
                assert_eq!(x.event.user_id, user);
                assert_eq!(y.event.user_id, user);
                assert_eq!(x.seq, user - 1);
                assert_eq!(y.seq, user - 1);
            }
            _ => panic!("an event went missing"),
        }
    }
}

#[test]
fn dropped_subscriber_does_not_hold_the_bus_up() {
    let mut bus: EventBus<u32> = EventBus::new(1);
    let gone = bus.subscribe();
    let e = presence_event(false, None, at(Some(7), Some(70)), 1, true, 0u32).unwrap();
    assert!(bus.broadcast(e.clone()).is_ok());
    assert!(matches!(bus.broadcast(e.clone()), Err(BroadcastError::Full(_))));
    drop(gone);
    assert!(bus.broadcast(e).is_ok());
}

#[test]
fn closed_bus_ends_the_subscription() {
    let mut bus: EventBus<u32> = EventBus::new(2);
    let mut rx = bus.subscribe();
    let e = presence_event(false, None, at(Some(7), Some(70)), 1, true, 0u32).unwrap();
    assert!(bus.broadcast(e).is_ok());
    drop(bus);
    assert!(matches!(rx.look(), Received::Message(_)));
    assert!(matches!(rx.look(), Received::Closed));
}

#[test]
fn screen_turns_old_messages_away() {
    let mut bus: EventBus<u32> = EventBus::new(8);
    let e = presence_event(false, None, at(Some(7), Some(70)), 1, true, 0u32).unwrap();
    assert!(bus.broadcast(e.clone()).is_ok());
    let rx = bus.subscribe();
    let old = chime_bot::bus::Stamped { seq: 0, event: e.clone() };
    assert!(matches!(rx.screen(Received::Message(old)), Received::Empty));
    let new = chime_bot::bus::Stamped { seq: 1, event: e };
    assert!(matches!(rx.screen(Received::Message(new)), Received::Message(_)));
    assert!(matches!(rx.screen(Received::Closed), Received::Closed));
    assert!(matches!(rx.screen(Received::Empty), Received::Empty));
}

#[test]
fn qualifying_is_decided_without_an_event() {
    assert!(is_qualifying(false, None, at(Some(7), Some(70)), true));
    assert!(is_qualifying(false, Some(at(Some(6), Some(60))), at(Some(7), Some(70)), true));
    assert!(!is_qualifying(false, Some(at(Some(7), Some(60))), at(Some(7), Some(70)), true));
    assert!(!is_qualifying(false, Some(at(Some(6), Some(70))), at(Some(7), Some(70)), true));
    assert!(!is_qualifying(true, None, at(Some(7), Some(70)), true));
    assert!(!is_qualifying(false, None, at(Some(7), Some(70)), false));
    assert!(!is_qualifying(false, None, at(Some(7), None), true));
    assert!(!is_qualifying(false, None, at(None, Some(70)), true));
}
