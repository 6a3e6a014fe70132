use board_firmware::power::{power_start, power_step, PowerAction, PowerPhase};

/// Runs the controller from power-on over button samples (`true`: pressed).
fn run(samples: &[bool]) -> (PowerPhase, Vec<PowerAction>) {
    let (mut phase, first) = power_start();
    let mut actions = vec![first];
    for &pressed in samples {
        let (next, action) = power_step(phase, pressed);
        phase = next;
        actions.push(action);
    }
    (phase, actions)
}

#[test]
fn start_latches_supply_on() {
    assert_eq!(power_start(), (PowerPhase::WaitRelease, PowerAction::LatchOn));
}

#[test]
fn button_held_from_power_on_does_not_shut_down() {
    let (phase, actions) = run(&[true, true, true, true]);
    assert_eq!(phase, PowerPhase::WaitRelease);
    assert!(actions[1..].iter().all(|a| *a == PowerAction::PollAfterMs(10)));
}

#[test]
fn press_after_release_shuts_down() {
    let (phase, actions) = run(&[true, false, false, true]);
    assert_eq!(phase, PowerPhase::Off);
    assert_eq!(
        actions,
        vec![
            PowerAction::LatchOn,
            PowerAction::PollAfterMs(10),
            PowerAction::PollNow,
            PowerAction::PollAfterMs(10),
            PowerAction::LatchOff,
        ]
    );
}

#[test]
fn released_at_power_on_then_pressed() {
    let (phase, actions) = run(&[false, true]);
    assert_eq!(phase, PowerPhase::Off);
    assert_eq!(actions.last(), Some(&PowerAction::LatchOff));
}

#[test]
fn off_is_final() {
    assert_eq!(power_step(PowerPhase::Off, true), (PowerPhase::Off, PowerAction::Done));
    assert_eq!(power_step(PowerPhase::Off, false), (PowerPhase::Off, PowerAction::Done));
    let (phase, actions) = run(&[false, true, false, true]);
    assert_eq!(phase, PowerPhase::Off);
    assert_eq!(actions.iter().filter(|a| **a == PowerAction::LatchOff).count(), 1);
}

#[test]
fn waiting_for_press_keeps_polling() {
    assert_eq!(
        power_step(PowerPhase::WaitPress, false),
        (PowerPhase::WaitPress, PowerAction::PollAfterMs(10))
    );
}

#[test]
fn shutdown_exactly_when_press_follows_release() {
    // Every sequence of up to 8 samples.
    for len in 0..=8u32 {
        for bits in 0..(1u32 << len) {
            let samples: Vec<bool> = (0..len).map(|k| bits & (1 << k) != 0).collect();
            let (phase, _) = run(&samples);
            let expected = (0..samples.len())
                .any(|i| !samples[i] && (i + 1..samples.len()).any(|j| samples[j]));
            assert_eq!(phase == PowerPhase::Off, expected, "{:?}", samples);
            let released = samples.iter().any(|s| !s);
            assert_eq!(phase != PowerPhase::WaitRelease, released, "{:?}", samples);
        }
    }
}
