use chip8::pace::{key_state, InputMode, Pacer, RunMode, Turn, STEP_NANOS};

#[test]
fn held_keys_count_while_holding_or_stepping() {
    for held in [false, true] {
        for pressed in [false, true] {
            assert_eq!(key_state(InputMode::Hold, RunMode::Play, held, pressed), held);
            assert_eq!(key_state(InputMode::Hold, RunMode::Step, held, pressed), held);
            assert_eq!(key_state(InputMode::Once, RunMode::Step, held, pressed), held);
            assert_eq!(key_state(InputMode::Once, RunMode::Play, held, pressed), pressed);
        }
    }
}

#[test]
fn a_playing_machine_cycles_when_the_time_is_up() {
    let mut pacer = Pacer::new(RunMode::Play, 1_000);
    assert_eq!(pacer, Pacer { run_mode: RunMode::Play, nanos_per_cycle: 1_000, waited: 0 });
    let idle = Turn { tick_nanos: 400, cycle: false, show_always: false, tone_allowed: true };
    assert_eq!(pacer.turn(400, false, false), idle);
    assert_eq!(pacer.waited, 400);
    assert_eq!(pacer.turn(400, false, true), idle);
    assert_eq!(pacer.waited, 800);
    assert_eq!(
        pacer.turn(200, false, false),
        Turn { tick_nanos: 200, cycle: true, show_always: false, tone_allowed: true }
    );
    assert_eq!(pacer.waited, 0);
    assert_eq!(
        pacer.turn(5_000, false, false),
        Turn { tick_nanos: 5_000, cycle: true, show_always: false, tone_allowed: true }
    );
    assert_eq!(pacer.waited, 0);
}

#[test]
fn the_wait_stops_at_the_greatest_number() {
    let mut pacer = Pacer { run_mode: RunMode::Play, nanos_per_cycle: u64::MAX, waited: u64::MAX - 5 };
    assert!(!pacer.turn(3, false, false).cycle);
    assert_eq!(pacer.waited, u64::MAX - 2);
    assert!(pacer.turn(10, false, false).cycle);
    assert_eq!(pacer.waited, 0);
}

#[test]
fn a_stepped_machine_cycles_on_the_step_key() {
    let mut pacer = Pacer::new(RunMode::Step, 1_000);
    assert_eq!(
        pacer.turn(1_000_000, false, false),
        Turn { tick_nanos: 0, cycle: false, show_always: true, tone_allowed: false }
    );
    assert_eq!(
        pacer.turn(1_000_000, false, true),
        Turn { tick_nanos: STEP_NANOS, cycle: true, show_always: true, tone_allowed: false }
    );
    assert_eq!(pacer, Pacer { run_mode: RunMode::Step, nanos_per_cycle: 1_000, waited: 0 });
    assert_eq!(STEP_NANOS, 1_666_667);
}

#[test]
fn the_toggle_key_changes_the_mode_for_the_next_frame() {
    let mut pacer = Pacer::new(RunMode::Play, 1_000);
    let turn = pacer.turn(1_000, true, true);
    assert_eq!(turn, Turn { tick_nanos: 1_000, cycle: true, show_always: false, tone_allowed: true });
    assert_eq!(pacer.run_mode, RunMode::Step);
    let turn = pacer.turn(1_000, true, false);
    assert_eq!(turn, Turn { tick_nanos: 0, cycle: false, show_always: true, tone_allowed: false });
    assert_eq!(pacer.run_mode, RunMode::Play);
}
