use xbg::pump::{Action, FramePump, Stage};

#[test]
fn on_time_ticks_follow_the_period() {
    let mut pump = FramePump::new(16_000);
    assert_eq!(pump.schedule(3_000), Some(16_000));
    assert_eq!(pump.schedule(20_000), Some(32_000));
    assert_eq!(pump.schedule(32_000), Some(48_000));
    assert_eq!(pump.last_tick(), 48_000);
}

#[test]
fn late_tick_skips_to_next_boundary() {
    let mut pump = FramePump::new(16_000);
    assert_eq!(pump.schedule(1_000), Some(16_000));
    // work ran until 50 ms: boundaries 32 and 48 ms are missed, not replayed
    assert_eq!(pump.schedule(50_000), Some(64_000));
    assert_eq!(pump.schedule(64_500), Some(80_000));
}

#[test]
fn tick_on_a_boundary_is_not_early() {
    let mut pump = FramePump::new(16);
    assert_eq!(pump.schedule(16), Some(16));
    assert_eq!(pump.schedule(16), Some(32));
    assert_eq!(pump.schedule(48), Some(48));
}

#[test]
fn spacing_never_below_period() {
    let mut pump = FramePump::new(10);
    let mut prev = 0u64;
    for now in [0u64, 5, 9, 31, 32, 33, 100, 101] {
        let t = pump.schedule(now).unwrap();
        assert!(t >= now);
        assert!(t - prev >= 10);
        assert_eq!(t % 10, 0);
        prev = t;
    }
}

#[test]
fn schedule_past_the_clock_range() {
    let mut pump = FramePump::new(u64::MAX / 2 + 1);
    assert_eq!(pump.schedule(0), Some(u64::MAX / 2 + 1));
    let before = pump;
    assert_eq!(pump.schedule(0), None);
    assert_eq!(pump, before);
}

#[test]
fn advance_runs_stages_in_order() {
    let mut pump = FramePump::new(16_000);
    assert_eq!(pump.stage, Stage::Wait);
    assert_eq!(pump.advance(0), Some(Action::Render));
    assert_eq!(pump.advance(4_000), Some(Action::Present));
    assert_eq!(pump.advance(4_100), Some(Action::Publish));
    assert_eq!(pump.advance(4_200), Some(Action::Flush));
    assert_eq!(pump.advance(4_300), Some(Action::SleepUntil(16_000)));
    assert_eq!(pump.advance(16_000), Some(Action::Render));
    assert_eq!(pump.stage, Stage::Render);
}

#[test]
fn advance_after_overrun_skips_missed_ticks() {
    let mut pump = FramePump::new(16_000);
    for _ in 0..4 {
        pump.advance(0).unwrap();
    }
    // the frame's work ended at 40 ms: sleep to 48 ms, not to 16 ms
    assert_eq!(pump.advance(40_000), Some(Action::SleepUntil(48_000)));
    assert_eq!(pump.last_tick(), 48_000);
}

#[test]
fn advance_out_of_clock_range_changes_nothing() {
    let mut pump = FramePump::new(u64::MAX / 2 + 1);
    for _ in 0..4 {
        pump.advance(0).unwrap();
    }
    assert_eq!(pump.advance(0), Some(Action::SleepUntil(u64::MAX / 2 + 1)));
    for _ in 0..4 {
        pump.advance(0).unwrap();
    }
    let before = pump;
    assert_eq!(pump.advance(0), None);
    assert_eq!(pump, before);
}

#[test]
fn advance_keeps_the_period_over_ticks() {
    let mut pump = FramePump::new(16_000);
    let mut sleeps = Vec::new();
    for _ in 0..15 {
        if let Some(Action::SleepUntil(t)) = pump.advance(0) {
            sleeps.push(t);
        }
        assert_eq!(pump.period, 16_000);
    }
    assert_eq!(sleeps, vec![16_000, 32_000, 48_000]);
}
