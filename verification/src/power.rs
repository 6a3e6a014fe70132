//! The power latch: the supply stays on until the power button is pressed.
use vstd::prelude::*;

verus! {

/// Poll period of the power button while waiting, in milliseconds.
pub const POWER_POLL_MS: u32 = 10;

/// Where the power-latch controller stands.
#[derive(Clone, Copy, Debug, PartialEq, Eq, Structural)]
pub enum PowerPhase {
    /// The power button may still be held from switching the device on.
    WaitRelease,
    /// The button has been seen released; a press now shuts the device down.
    WaitPress,
    /// The latch has been released.
    Off,
}

/// What the controller asks of the hardware.
#[derive(Clone, Copy, Debug, PartialEq, Eq, Structural)]
pub enum PowerAction {
    /// Drive POWER_CTRL high so that the supply stays on.
    LatchOn,
    /// Sample the button again after the given number of milliseconds.
    PollAfterMs(u32),
    /// Sample the button again at once.
    PollNow,
    /// Drive POWER_CTRL low: the supply switches off.
    LatchOff,
    /// Nothing more to do.
    Done,
}

/// The phase after one button sample (`pressed` is the active-low button read as low).
pub open spec fn next_phase(phase: PowerPhase, pressed: bool) -> PowerPhase {
    match phase {
        PowerPhase::WaitRelease => if pressed {
            PowerPhase::WaitRelease
        } else {
            PowerPhase::WaitPress
        },
        PowerPhase::WaitPress => if pressed {
            PowerPhase::Off
        } else {
            PowerPhase::WaitPress
        },
        PowerPhase::Off => PowerPhase::Off,
    }
}

/// The action that goes with one button sample.
pub open spec fn step_action(phase: PowerPhase, pressed: bool) -> PowerAction {
    match phase {
        PowerPhase::WaitRelease => if pressed {
            PowerAction::PollAfterMs(POWER_POLL_MS)
        } else {
            PowerAction::PollNow
        },
        PowerPhase::WaitPress => if pressed {
            PowerAction::LatchOff
        } else {
            PowerAction::PollAfterMs(POWER_POLL_MS)
        },
        PowerPhase::Off => PowerAction::Done,
    }
}

/// The phase reached from `phase` after the samples `samples`, in order.
pub open spec fn run_phase(phase: PowerPhase, samples: Seq<bool>) -> PowerPhase
    decreases samples.len(),
{
    if samples.len() == 0 {
        phase
    } else {
        next_phase(run_phase(phase, samples.drop_last()), samples.last())
    }
}

/// Some sample of `samples` shows the button released.
pub open spec fn seen_release(samples: Seq<bool>) -> bool {
    exists|i: int| 0 <= i < samples.len() && !#[trigger] samples[i]
}

/// Some sample of `samples` shows the button pressed after an earlier sample showed it released.
pub open spec fn seen_press_after_release(samples: Seq<bool>) -> bool {
    exists|i: int, j: int| 0 <= i < j < samples.len() && !#[trigger] samples[i] && #[trigger] samples[j]
}

/// Start of the controller: the supply is latched on at once, then the
/// button is sampled.
pub fn power_start() -> (r: (PowerPhase, PowerAction))
    ensures
        r == (PowerPhase::WaitRelease, PowerAction::LatchOn),
{
    (PowerPhase::WaitRelease, PowerAction::LatchOn)
}

/// One step of the controller on a button sample (`pressed`: the button pin reads low).
pub fn power_step(phase: PowerPhase, pressed: bool) -> (r: (PowerPhase, PowerAction))
    ensures
        r.0 == next_phase(phase, pressed),
        r.1 == step_action(phase, pressed),
{
    match phase {
        PowerPhase::WaitRelease => {
            if pressed {
                (PowerPhase::WaitRelease, PowerAction::PollAfterMs(POWER_POLL_MS))
            } else {
                (PowerPhase::WaitPress, PowerAction::PollNow)
            }
        },
        PowerPhase::WaitPress => {
            if pressed {
                (PowerPhase::Off, PowerAction::LatchOff)
            } else {
                (PowerPhase::WaitPress, PowerAction::PollAfterMs(POWER_POLL_MS))
            }
        },
        PowerPhase::Off => (PowerPhase::Off, PowerAction::Done),
    }
}

/// From power-on, the controller has left `WaitRelease` exactly when some
/// sample showed the button released, and it has switched the supply off
/// exactly when a press was sampled after a release: holding the button
/// from power-on never shuts the device down.
pub proof fn lemma_power_run(samples: Seq<bool>)
    ensures
        (run_phase(PowerPhase::WaitRelease, samples) != PowerPhase::WaitRelease) == seen_release(
            samples,
        ),
        (run_phase(PowerPhase::WaitRelease, samples) == PowerPhase::Off)
            == seen_press_after_release(samples),
    decreases samples.len(),
{
    if samples.len() > 0 {
        let prefix = samples.drop_last();
        let e = samples.last();
        let n = samples.len() - 1;
        lemma_power_run(prefix);
        assert forall|i: int| 0 <= i < n implies prefix[i] == samples[i] by {}
        if seen_release(prefix) {
            let i = choose|i: int| 0 <= i < prefix.len() && !#[trigger] prefix[i];
            assert(!samples[i]);
            if e {
                assert(samples[n]);
                assert(seen_press_after_release(samples));
            }
        }
        if seen_press_after_release(prefix) {
            let (i, j) = choose|i: int, j: int|
                0 <= i < j < prefix.len() && !#[trigger] prefix[i] && #[trigger] prefix[j];
            assert(!samples[i] && samples[j]);
        }
        if !e {
            assert(!samples[n]);
        }
        if seen_press_after_release(samples) {
            let (i, j) = choose|i: int, j: int|
                0 <= i < j < samples.len() && !#[trigger] samples[i] && #[trigger] samples[j];
            if j < n {
                assert(!prefix[i] && prefix[j]);
            } else {
                assert(!prefix[i]);
            }
        }
        if seen_release(samples) {
            let i = choose|i: int| 0 <= i < samples.len() && !#[trigger] samples[i];
            if i < n {
                assert(!prefix[i]);
            }
        }
    }
}

/// Once off, the controller stays off and asks for nothing more.
pub proof fn lemma_power_off_is_final(samples: Seq<bool>)
    ensures
        run_phase(PowerPhase::Off, samples) == PowerPhase::Off,
    decreases samples.len(),
{
    if samples.len() > 0 {
        lemma_power_off_is_final(samples.drop_last());
    }
}

/// The supply is switched off only by a press sampled while waiting for one.
pub proof fn lemma_latch_off_only_on_press(phase: PowerPhase, pressed: bool)
    ensures
        step_action(phase, pressed) == PowerAction::LatchOff <==> (phase == PowerPhase::WaitPress
            && pressed),
        step_action(phase, pressed) == PowerAction::LatchOff <==> (phase != PowerPhase::Off
            && next_phase(phase, pressed) == PowerPhase::Off),
{
}

} // verus!
