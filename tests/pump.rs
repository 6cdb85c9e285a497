use bevy_steamworks::{event_channel, forward_events};

#[derive(Debug, Clone, PartialEq)]
enum Notification {
    ConnectionFailed { still_retrying: bool },
    StatsStored { game: u64 },
    PeerRequest { remote: u64 },
}

#[test]
fn connection_failure_then_stats_stored_reach_the_bus_in_order() {
    let (sink, source) = event_channel();
    sink.send(Notification::ConnectionFailed { still_retrying: false });
    sink.send(Notification::StatsStored { game: 480 });
    let mut bus = Vec::new();
    source.publish_pending(&mut bus);
    assert_eq!(
        bus,
        vec![
            Notification::ConnectionFailed { still_retrying: false },
            Notification::StatsStored { game: 480 },
        ]
    );
}

#[test]
fn n_pending_notifications_become_n_events_in_delivery_order() {
    let mut pending: Vec<Notification> =
        (1..=5).map(|r| Notification::PeerRequest { remote: r }).collect();
    let mut bus = vec![Notification::StatsStored { game: 7 }];
    forward_events(&mut pending, &mut bus);
    assert!(pending.is_empty());
    assert_eq!(bus.len(), 6);
    assert_eq!(bus[0], Notification::StatsStored { game: 7 });
    for (i, e) in bus[1..].iter().enumerate() {
        assert_eq!(*e, Notification::PeerRequest { remote: i as u64 + 1 });
    }
}

#[test]
fn pumping_nothing_twice_publishes_nothing() {
    let (_sink, source) = event_channel::<Notification>();
    let mut bus = Vec::new();
    source.publish_pending(&mut bus);
    assert!(bus.is_empty());
    source.publish_pending(&mut bus);
    assert!(bus.is_empty());
}

#[test]
fn forwarding_nothing_leaves_the_bus_as_it_was() {
    let mut bus = vec![Notification::StatsStored { game: 1 }];
    let mut pending: Vec<Notification> = Vec::new();
    forward_events(&mut pending, &mut bus);
    forward_events(&mut pending, &mut bus);
    assert_eq!(bus, vec![Notification::StatsStored { game: 1 }]);
}

#[test]
fn forwarding_appends_after_what_the_bus_held() {
    let mut bus = vec![Notification::StatsStored { game: 1 }];
    let mut pending = vec![Notification::ConnectionFailed { still_retrying: true }];
    forward_events(&mut pending, &mut bus);
    assert_eq!(
        bus,
        vec![
            Notification::StatsStored { game: 1 },
            Notification::ConnectionFailed { still_retrying: true },
        ]
    );
    assert!(pending.is_empty());
}

#[test]
fn events_from_several_senders_arrive_in_send_order() {
    let (sink, source) = event_channel();
    let second = sink.clone();
    sink.send(Notification::PeerRequest { remote: 1 });
    second.send(Notification::PeerRequest { remote: 2 });
    sink.send(Notification::PeerRequest { remote: 3 });
    let mut pending = vec![Notification::StatsStored { game: 9 }];
    source.receive_pending(&mut pending);
    assert_eq!(
        pending,
        vec![
            Notification::StatsStored { game: 9 },
            Notification::PeerRequest { remote: 1 },
            Notification::PeerRequest { remote: 2 },
            Notification::PeerRequest { remote: 3 },
        ]
    );
    let mut again = Vec::new();
    source.receive_pending(&mut again);
    assert!(again.is_empty());
}

#[test]
fn each_tick_publishes_only_what_arrived_since_the_last() {
    let (sink, source) = event_channel();
    let mut bus = Vec::new();
    sink.send(Notification::StatsStored { game: 1 });
    source.publish_pending(&mut bus);
    assert_eq!(bus, vec![Notification::StatsStored { game: 1 }]);
    sink.send(Notification::StatsStored { game: 2 });
    let mut next_tick = Vec::new();
    source.publish_pending(&mut next_tick);
    assert_eq!(next_tick, vec![Notification::StatsStored { game: 2 }]);
}

#[test]
fn sending_after_the_source_is_gone_is_harmless() {
    let (sink, source) = event_channel();
    drop(source);
    sink.send(Notification::StatsStored { game: 3 });
}
