use window_cover::actuator::SETTLE_MS;
use window_cover::dispatch::decode_payload;
use window_cover::position::{estimate, percent_text, FULLY_OPEN};
use window_cover::state::step;
use window_cover::Payload::{Down, Stop, Up};
use window_cover::State::{Closed, Closing, Error, Initial, Open, Opening, Partial};
use window_cover::{Actuator, ConfigError, Cover, CoverDispatcher, Motor, Payload, RouteError, State};

const UP_LIMIT_MS: u64 = 67_000;
const DOWN_LIMIT_MS: u64 = 70_000;

fn cover(base: u8, topic: &str) -> Cover {
    Cover::new(base, base + 1, base + 2, base + 3, UP_LIMIT_MS, DOWN_LIMIT_MS, topic.to_string(), 0).unwrap()
}

/// A cover ticked once with neither limit pressed, so it sits in Partial.
fn partial_cover() -> Cover {
    let mut c = cover(2, "/home/sunroom/right_window");
    c.tick(false, false, 0);
    c
}

/// A cover brought to Opening at time 0.
fn opening_cover() -> Cover {
    let mut c = partial_cover();
    c.payload(Payload::Up);
    c.tick(false, false, 0);
    assert_eq!(c.state, State::Opening);
    c
}

#[test]
fn initial_with_no_limit_goes_partial_with_unknown_position() {
    let mut c = cover(2, "/a");
    let published = c.tick(false, false, 5);
    assert_eq!(c.state, State::Partial);
    assert_eq!(c.position, None);
    assert_eq!(published, None);
    assert!(!c.actuator.up && !c.actuator.down);
}

#[test]
fn initial_reads_limits() {
    let mut open = cover(2, "/a");
    open.tick(true, false, 0);
    assert_eq!(open.state, State::Open);
    assert_eq!(open.position, Some(FULLY_OPEN));

    let mut closed = cover(2, "/a");
    let published = closed.tick(false, true, 0);
    assert_eq!(closed.state, State::Closed);
    assert_eq!(closed.position, Some(0));
    assert_eq!(published, Some(b"0".to_vec()));

    let mut both = cover(2, "/a");
    both.tick(true, true, 0);
    assert_eq!(both.state, State::Error);
}

#[test]
fn partial_up_then_timeout_opens() {
    let mut c = partial_cover();
    c.payload(Payload::Up);
    c.tick(false, false, 1_000);
    assert_eq!(c.state, State::Opening);
    assert!(c.actuator.up && !c.actuator.down);
    assert_eq!(c.pending, None);

    // at the limit itself the cover is still opening
    c.tick(false, false, 1_000 + UP_LIMIT_MS);
    assert_eq!(c.state, State::Opening);

    let published = c.tick(false, false, 1_001 + UP_LIMIT_MS);
    assert_eq!(c.state, State::Open);
    assert_eq!(c.position, Some(FULLY_OPEN));
    assert!(!c.actuator.up && !c.actuator.down);
    assert_eq!(published, Some(b"100".to_vec()));
}

#[test]
fn timeout_opens_only_once() {
    let mut c = opening_cover();
    c.tick(false, false, UP_LIMIT_MS + 1);
    assert_eq!(c.state, State::Open);
    let start = c.state_start_ms;
    for k in 1..20u64 {
        let published = c.tick(false, false, UP_LIMIT_MS + 1 + k * 50_000);
        assert_eq!(c.state, State::Open);
        assert_eq!(c.state_start_ms, start);
        assert_eq!(published, None);
    }
}

#[test]
fn closed_with_up_limit_is_error_and_ignores_commands() {
    let mut c = cover(2, "/a");
    c.tick(false, true, 0);
    assert_eq!(c.state, State::Closed);
    c.tick(true, false, 10);
    assert_eq!(c.state, State::Error);
    assert!(!c.actuator.up && !c.actuator.down);

    c.payload(Payload::Up);
    c.tick(false, false, 20);
    assert_eq!(c.state, State::Error);
    assert_eq!(c.pending, None);
    assert!(!c.actuator.up && !c.actuator.down);
}

#[test]
fn stop_after_ten_seconds_of_opening() {
    let mut c = opening_cover();
    assert_eq!(c.position, None);
    c.payload(Payload::Stop);
    let published = c.tick(false, false, 10_000);
    assert_eq!(c.state, State::Partial);
    let p = c.position.unwrap();
    assert_eq!(p, 1492);
    let percent = p as f64 / 100.0;
    assert!((percent - 10.0 * 100.0 / 67.0).abs() < 0.01);
    assert!(p <= 9900);
    assert_eq!(published, Some(b"15".to_vec()));
    assert!(!c.actuator.up && !c.actuator.down);
}

#[test]
fn two_covers_open_independently() {
    let a = cover(2, "/home/sunroom/right_window");
    let b = cover(10, "/home/sunroom/middle_window");
    let mut d = CoverDispatcher::new(vec![a, b]).unwrap();
    d.tick_cover(0, false, false, 0);
    d.tick_cover(1, false, false, 0);

    let b_before_route = (d.covers[1].state, d.covers[1].pending, d.covers[1].position);
    assert_eq!(d.route(&"/home/sunroom/right_window".to_string(), b"up"), Ok(0));
    assert_eq!((d.covers[1].state, d.covers[1].pending, d.covers[1].position), b_before_route);
    assert_eq!(d.route(&"/home/sunroom/middle_window".to_string(), b"up"), Ok(1));

    d.tick_cover(0, false, false, 100);
    assert_eq!(d.covers[0].state, State::Opening);
    assert_eq!(d.covers[1].state, State::Partial);
    assert_eq!(d.covers[1].pending, Some(Payload::Up));
    d.tick_cover(1, false, false, 100);
    assert_eq!(d.covers[1].state, State::Opening);
    assert!(d.covers[0].actuator.up && d.covers[1].actuator.up);
    assert_eq!(d.covers[0].state_start_ms, 100);
    assert_eq!(d.covers[1].state_start_ms, 100);
}

#[test]
fn contradiction_from_every_state_is_error() {
    let states = [
        State::Closed,
        State::Closing,
        State::Open,
        State::Opening,
        State::Partial,
        State::Initial,
    ];
    let commands = [None, Some(Payload::Up), Some(Payload::Down), Some(Payload::Stop)];
    for s in states {
        for cmd in commands {
            let r = step(s, true, true, 5, UP_LIMIT_MS, DOWN_LIMIT_MS, cmd);
            assert_eq!(r.next, Some(State::Error));
            assert!(!r.consumed);
        }
    }
    let mut c = opening_cover();
    c.payload(Payload::Down);
    c.tick(true, true, 500);
    assert_eq!(c.state, State::Error);
    assert!(!c.actuator.up && !c.actuator.down);
}

/// The transition table, written out row by row for each case.
fn expected(s: State, up: bool, down: bool, cmd: Option<Payload>) -> (Option<State>, bool) {
    let took = cmd.is_some();
    match s {
        Error => (None, took),
        Initial => match (up, down) {
            (true, true) => (Some(Error), false),
            (true, false) => (Some(Open), false),
            (false, true) => (Some(Closed), false),
            (false, false) => (Some(Partial), false),
        },
        Closed => match (up, cmd) {
            (true, _) => (Some(Error), false),
            (false, Some(Up)) => (Some(Opening), true),
            _ => (None, took),
        },
        Open => match (down, cmd) {
            (true, _) => (Some(Error), false),
            (false, Some(Down)) => (Some(Closing), true),
            _ => (None, took),
        },
        Opening => match (up, down, cmd) {
            (true, true, _) => (Some(Error), false),
            (true, false, _) => (Some(Open), false),
            (false, _, Some(Down)) => (Some(Closing), true),
            (false, _, Some(Stop)) => (Some(Partial), true),
            _ => (None, took),
        },
        Closing => match (up, down, cmd) {
            (true, true, _) => (Some(Error), false),
            (false, true, _) => (Some(Closed), false),
            (_, false, Some(Up)) => (Some(Opening), true),
            (_, false, Some(Stop)) => (Some(Partial), true),
            _ => (None, took),
        },
        Partial => match (up, down, cmd) {
            (true, true, _) => (Some(Error), false),
            (true, false, _) => (Some(Open), false),
            (false, true, _) => (Some(Closed), false),
            (false, false, Some(Up)) => (Some(Opening), true),
            (false, false, Some(Down)) => (Some(Closing), true),
            _ => (None, took),
        },
    }
}

#[test]
fn transition_table_is_exhaustive() {
    let states = [
        State::Closed,
        State::Closing,
        State::Open,
        State::Opening,
        State::Partial,
        State::Initial,
        State::Error,
    ];
    let sensors = [(true, true), (true, false), (false, true), (false, false)];
    let commands = [None, Some(Payload::Up), Some(Payload::Down), Some(Payload::Stop)];
    for s in states {
        for (up, down) in sensors {
            for cmd in commands {
                let r = step(s, up, down, 1_000, UP_LIMIT_MS, DOWN_LIMIT_MS, cmd);
                assert_eq!((r.next, r.consumed), expected(s, up, down, cmd), "{s:?} {up} {down} {cmd:?}");
            }
        }
    }
}

#[test]
fn travel_timeouts_in_the_table() {
    let r = step(State::Opening, false, false, UP_LIMIT_MS + 1, UP_LIMIT_MS, DOWN_LIMIT_MS, Some(Payload::Down));
    assert_eq!(r.next, Some(State::Open));
    assert!(!r.consumed);
    let r = step(State::Closing, false, false, DOWN_LIMIT_MS + 1, UP_LIMIT_MS, DOWN_LIMIT_MS, None);
    assert_eq!(r.next, Some(State::Closed));
    let r = step(State::Closing, false, false, DOWN_LIMIT_MS, UP_LIMIT_MS, DOWN_LIMIT_MS, None);
    assert_eq!(r.next, None);
}

#[test]
fn reversal_waits_for_settle_delay() {
    let mut a = Actuator::new();
    a.drive_up(0);
    assert!(a.up && !a.down);
    a.drive_up(50);
    assert!(a.up && !a.down);
    assert_eq!(a.released, Motor::Stop);

    a.drive_down(1_000);
    assert!(!a.up && !a.down);
    a.drive_down(1_000 + SETTLE_MS - 1);
    assert!(!a.up && !a.down);
    a.drive_down(1_000 + SETTLE_MS);
    assert!(!a.up && a.down);
    assert_eq!(SETTLE_MS, 120);
}

#[test]
fn reversal_through_cover_ticks() {
    let mut c = opening_cover();
    assert!(c.actuator.up);
    c.payload(Payload::Down);
    c.tick(false, false, 5_000);
    assert_eq!(c.state, State::Closing);
    assert!(!c.actuator.up && !c.actuator.down);
    c.tick(false, false, 5_100);
    assert!(!c.actuator.up && !c.actuator.down);
    c.tick(false, false, 5_120);
    assert!(!c.actuator.up && c.actuator.down);
}

#[test]
fn stop_is_immediate() {
    let mut a = Actuator::new();
    a.drive_down(0);
    assert!(a.down);
    a.stop(10);
    assert!(!a.up && !a.down);
    assert_eq!(a.released, Motor::Down);
    assert_eq!(a.released_at, 10);
}

#[test]
fn estimate_values() {
    assert_eq!(estimate(None, State::Opening, State::Partial, 10_000, 67_000, 70_000), Some(1492));
    assert_eq!(estimate(Some(9800), State::Opening, State::Partial, 10_000, 67_000, 70_000), Some(9900));
    assert_eq!(estimate(Some(5000), State::Opening, State::Open, 1, 67_000, 70_000), Some(10000));
    assert_eq!(estimate(Some(5000), State::Closing, State::Partial, 7_000, 67_000, 70_000), Some(4000));
    assert_eq!(estimate(Some(500), State::Closing, State::Partial, 70_000, 67_000, 70_000), Some(100));
    assert_eq!(estimate(None, State::Closing, State::Opening, 35_000, 67_000, 70_000), Some(5000));
    assert_eq!(estimate(Some(300), State::Closing, State::Closed, 1, 67_000, 70_000), Some(0));
    assert_eq!(estimate(Some(4321), State::Partial, State::Opening, 99_000, 67_000, 70_000), Some(4321));
    assert_eq!(estimate(None, State::Initial, State::Partial, 99_000, 67_000, 70_000), None);
    assert_eq!(estimate(Some(100), State::Opening, State::Partial, u64::MAX, 1, 1), Some(9900));
}

#[test]
fn percent_text_rounds_to_whole_percent() {
    assert_eq!(percent_text(0), b"0".to_vec());
    assert_eq!(percent_text(49), b"0".to_vec());
    assert_eq!(percent_text(50), b"1".to_vec());
    assert_eq!(percent_text(7349), b"73".to_vec());
    assert_eq!(percent_text(9950), b"100".to_vec());
    assert_eq!(percent_text(10000), b"100".to_vec());
}

#[test]
fn position_is_published_only_on_change() {
    let mut c = cover(2, "/a");
    assert_eq!(c.position_payload(), None);
    assert_eq!(c.tick(false, true, 0), Some(b"0".to_vec()));
    assert_eq!(c.tick(false, true, 10), None);
    assert_eq!(c.position_payload(), Some(b"0".to_vec()));
}

#[test]
fn config_errors() {
    assert_eq!(
        Cover::new(5, 12, 2, 5, 1, 1, "/a".to_string(), 0).err(),
        Some(ConfigError::DuplicatePin)
    );
    assert_eq!(
        Cover::new(5, 12, 2, 3, 0, 1, "/a".to_string(), 0).err(),
        Some(ConfigError::ZeroTravelTime)
    );
    assert_eq!(
        Cover::new(5, 12, 2, 2, 0, 1, "/a".to_string(), 0).err(),
        Some(ConfigError::DuplicatePin)
    );
    assert!(CoverDispatcher::new(vec![cover(2, "/a"), cover(5, "/b")]).err() == Some(ConfigError::DuplicatePin));
    assert!(CoverDispatcher::new(vec![cover(2, "/a"), cover(6, "/a")]).err() == Some(ConfigError::DuplicateTopic));
    assert!(CoverDispatcher::new(vec![cover(2, "/a"), cover(6, "/b")]).is_ok());
}

#[test]
fn routing_errors() {
    let mut d = CoverDispatcher::new(vec![cover(2, "/a")]).unwrap();
    assert_eq!(d.route(&"/b".to_string(), b"up"), Err(RouteError::UnknownTopic));
    assert_eq!(d.route(&"/a".to_string(), b"UP"), Err(RouteError::UndecodablePayload));
    assert_eq!(d.covers[0].pending, None);
    assert_eq!(d.route(&"/a".to_string(), b"stop"), Ok(0));
    assert_eq!(d.covers[0].pending, Some(Payload::Stop));
    assert_eq!(d.route(&"/a".to_string(), b"down"), Ok(0));
    assert_eq!(d.covers[0].pending, Some(Payload::Down));
}

#[test]
fn decode_tokens() {
    assert_eq!(decode_payload(b"up"), Some(Payload::Up));
    assert_eq!(decode_payload(b"down"), Some(Payload::Down));
    assert_eq!(decode_payload(b"stop"), Some(Payload::Stop));
    assert_eq!(decode_payload(b""), None);
    assert_eq!(decode_payload(b"upp"), None);
    assert_eq!(decode_payload(b"open"), None);
}

#[test]
fn topics_and_subscription() {
    let c = cover(2, "/home/sunroom/left_window");
    assert_eq!(c.topic(), "/home/sunroom/left_window");
    assert_eq!(c.position_topic(), "/home/sunroom/left_window/position");
    let f = c.subscribe_filter();
    assert_eq!(f.path, "/home/sunroom/left_window");
    assert_eq!(f.qos, rumqttc::QoS::AtMostOnce);
}

#[test]
fn shutdown_stops_every_motor() {
    let mut d = CoverDispatcher::new(vec![cover(2, "/a"), cover(6, "/b")]).unwrap();
    for i in 0..2 {
        d.tick_cover(i, false, false, 0);
        d.covers[i].payload(if i == 0 { Payload::Up } else { Payload::Down });
        d.tick_cover(i, false, false, 0);
    }
    assert!(d.covers[0].actuator.up && d.covers[1].actuator.down);
    d.stop_all(10);
    for c in &d.covers {
        assert!(!c.actuator.up && !c.actuator.down);
        assert_eq!(c.actuator.wanted, Motor::Stop);
    }
    assert_eq!(d.covers[0].state, State::Opening);
}

#[test]
fn newer_command_replaces_pending() {
    let mut c = partial_cover();
    c.payload(Payload::Up);
    c.payload(Payload::Down);
    c.tick(false, false, 10);
    assert_eq!(c.state, State::Closing);
    assert_eq!(c.pending, None);
}

#[test]
fn default_state_is_initial() {
    assert_eq!(State::default(), State::Initial);
}
