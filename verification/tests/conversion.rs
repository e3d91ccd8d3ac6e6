use std::time::Duration;
use sulphate_runtime::conversion::{duration_in_game, duration_real_time, MAX_WALL_SUBUNITS};
use sulphate_runtime::units::{InGameDuration, InGameTime, SUBUNITS_PER_SECOND};

#[test]
fn zero_maps_to_zero_both_ways() {
    assert_eq!(duration_in_game(Duration::new(0, 0)), InGameDuration { subunits: 0 });
    assert_eq!(duration_real_time(InGameDuration::zero()), Duration::new(0, 0));
}

#[test]
fn whole_and_fraction_are_summed() {
    let d = duration_in_game(Duration::new(1, 500_000_000));
    assert_eq!(d.subunits, 1_500_000_000);
    let d = duration_in_game(Duration::new(0, 1));
    assert_eq!(d.subunits, 1);
    let d = duration_in_game(Duration::new(7, 0));
    assert_eq!(d.subunits, 7_000_000_000);
}

#[test]
fn in_game_duration_splits_into_seconds_and_nanos() {
    let w = duration_real_time(InGameDuration { subunits: 2_000_000_001 });
    assert_eq!(w.as_secs(), 2);
    assert_eq!(w.subsec_nanos(), 1);
    let w = duration_real_time(InGameDuration { subunits: 999_999_999 });
    assert_eq!(w, Duration::new(0, 999_999_999));
}

#[test]
fn wall_duration_survives_the_round_trip() {
    let samples = vec![
        Duration::new(0, 0),
        Duration::new(0, 1),
        Duration::new(0, 999_999_999),
        Duration::new(1, 0),
        Duration::new(3, 141_592_653),
        Duration::new(86_400, 250_000_000),
        Duration::new(u64::MAX, 999_999_999),
    ];
    for d in samples {
        assert_eq!(duration_real_time(duration_in_game(d)), d);
    }
}

#[test]
fn in_game_duration_survives_the_round_trip() {
    let samples: Vec<i128> = vec![
        0,
        1,
        999_999_999,
        1_000_000_000,
        1_000_000_001,
        123_456_789_012_345,
        MAX_WALL_SUBUNITS,
    ];
    for subunits in samples {
        let d = InGameDuration { subunits };
        assert_eq!(duration_in_game(duration_real_time(d)), d);
    }
}

#[test]
fn longest_wall_duration_is_the_limit() {
    assert_eq!(duration_in_game(Duration::MAX).subunits, MAX_WALL_SUBUNITS);
    assert_eq!(duration_real_time(InGameDuration { subunits: MAX_WALL_SUBUNITS }), Duration::MAX);
    assert_eq!(
        MAX_WALL_SUBUNITS,
        (u64::MAX as i128) * SUBUNITS_PER_SECOND + 999_999_999
    );
}

#[test]
fn seconds_become_a_billion_subunits_each() {
    assert_eq!(SUBUNITS_PER_SECOND, 1_000_000_000);
    assert_eq!(InGameDuration::from_seconds(3).subunits, 3_000_000_000);
    assert_eq!(InGameDuration::from_seconds(-2).subunits, -2_000_000_000);
    assert_eq!(
        InGameDuration::from_seconds(i32::MIN).subunits,
        -2_147_483_648_000_000_000
    );
}

#[test]
fn origin_is_the_default_time() {
    assert_eq!(InGameTime::default(), InGameTime { subunits: 0 });
}

#[test]
fn time_advances_by_a_duration() {
    let t = InGameTime { subunits: 10 };
    assert_eq!(t.advanced_by(InGameDuration { subunits: 5 }), InGameTime { subunits: 15 });
    assert_eq!(t.advanced_by(InGameDuration { subunits: -25 }), InGameTime { subunits: -15 });
}

#[test]
fn time_stops_at_the_ends_of_its_range() {
    let late = InGameTime { subunits: i128::MAX - 1 };
    assert_eq!(late.advanced_by(InGameDuration { subunits: 2 }).subunits, i128::MAX);
    let early = InGameTime { subunits: i128::MIN + 1 };
    assert_eq!(early.advanced_by(InGameDuration { subunits: -2 }).subunits, i128::MIN);
}

#[test]
fn span_between_two_times() {
    let a = InGameTime { subunits: 40 };
    let b = InGameTime { subunits: 100 };
    assert_eq!(b.since(a), InGameDuration { subunits: 60 });
    assert_eq!(a.since(b), InGameDuration { subunits: -60 });
    assert_eq!(a.since(a), InGameDuration { subunits: 0 });
}

#[test]
fn span_stops_at_the_ends_of_its_range() {
    let late = InGameTime { subunits: i128::MAX };
    let early = InGameTime { subunits: -1 };
    assert_eq!(late.since(early).subunits, i128::MAX);
    let late = InGameTime { subunits: 1 };
    let early = InGameTime { subunits: i128::MIN };
    assert_eq!(late.since(early).subunits, i128::MAX);
    let late = InGameTime { subunits: i128::MAX };
    let early = InGameTime { subunits: i128::MIN };
    assert_eq!(early.since(late).subunits, i128::MIN);
}
