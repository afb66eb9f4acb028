//! The debounce-and-toggle task: turns a noisy active-low button signal
//! into exactly one armed-flag toggle per physical press-and-release,
//! and drives the indicator output to match the flag.
//!
//! The task cycles through three suspension points: waiting for a
//! falling edge, sitting out a fixed quiet window, and waiting for the
//! input to read high again. Each wakeup is one [`ButtonEvent`]; an
//! event the current phase is not waiting on is ignored, which is how
//! bounce inside the quiet window leaves the flag alone.

use vstd::prelude::*;

verus! {

/// Output level of the indicator pin (active-high).
#[derive(Clone, Copy, PartialEq, Eq, Structural, Debug)]
pub enum Level {
    Low,
    High,
}

/// What the task is currently suspended on.
#[derive(Clone, Copy, PartialEq, Eq, Structural, Debug)]
pub enum Phase {
    /// Waiting for the input to fall (active-low press).
    WaitFallingEdge,
    /// Sitting out the fixed quiet window after a toggle.
    DebounceHold,
    /// Waiting for the input to read continuously high (release).
    WaitRelease,
}

/// One wakeup delivered to the task.
#[derive(Clone, Copy, PartialEq, Eq, Structural, Debug)]
pub enum ButtonEvent {
    /// The input transitioned high to low.
    FallingEdge,
    /// The quiet window elapsed.
    HoldElapsed,
    /// The input was observed high.
    ReleasedHigh,
}

/// The indicator level that reflects an armed value.
pub open spec fn level_for(armed: bool) -> Level {
    if armed {
        Level::High
    } else {
        Level::Low
    }
}

/// The debounce task's state: its phase, the shared armed flag as the
/// task (its sole writer) last published it, and the indicator level it
/// drives.
#[derive(Clone, Copy, PartialEq, Eq, Structural, Debug)]
pub struct DebounceState {
    pub phase: Phase,
    pub armed: bool,
    pub indicator: Level,
}

/// The event toggles the flag: only a falling edge seen while waiting
/// for one does.
pub open spec fn toggles(s: DebounceState, ev: ButtonEvent) -> bool {
    s.phase is WaitFallingEdge && ev is FallingEdge
}

/// The transition function. A falling edge while waiting for one flips
/// the flag, drives the indicator to match, and enters the quiet
/// window; the window's end re-arms on release; every other event is
/// ignored where it arrives.
pub open spec fn spec_step(s: DebounceState, ev: ButtonEvent) -> DebounceState {
    match (s.phase, ev) {
        (Phase::WaitFallingEdge, ButtonEvent::FallingEdge) => DebounceState {
            phase: Phase::DebounceHold,
            armed: !s.armed,
            indicator: level_for(!s.armed),
        },
        (Phase::DebounceHold, ButtonEvent::HoldElapsed) => DebounceState {
            phase: Phase::WaitRelease,
            ..s
        },
        (Phase::WaitRelease, ButtonEvent::ReleasedHigh) => DebounceState {
            phase: Phase::WaitFallingEdge,
            ..s
        },
        _ => s,
    }
}

impl DebounceState {
    /// The indicator is never out of step with the flag.
    pub open spec fn wf(self) -> bool {
        self.indicator == level_for(self.armed)
    }

    /// Boot state: disarmed, indicator low, waiting for a press.
    pub fn boot() -> (s: Self)
        ensures
            s == (DebounceState {
                phase: Phase::WaitFallingEdge,
                armed: false,
                indicator: Level::Low,
            }),
            s.wf(),
    {
        DebounceState { phase: Phase::WaitFallingEdge, armed: false, indicator: Level::Low }
    }

    /// Advance the task by one wakeup. On the toggling edge it returns
    /// the armed value to publish and the indicator level to drive;
    /// every other wakeup changes no output.
    pub fn step(&mut self, ev: ButtonEvent) -> (out: Option<(bool, Level)>)
        ensures
            *final(self) == spec_step(*old(self), ev),
            out is Some <==> toggles(*old(self), ev),
            toggles(*old(self), ev) ==> out == Some(
                (!old(self).armed, level_for(!old(self).armed)),
            ),
            old(self).wf() ==> final(self).wf(),
    {
        match (self.phase, ev) {
            (Phase::WaitFallingEdge, ButtonEvent::FallingEdge) => {
                self.armed = !self.armed;
                self.indicator = if self.armed {
                    Level::High
                } else {
                    Level::Low
                };
                self.phase = Phase::DebounceHold;
                Some((self.armed, self.indicator))
            },
            (Phase::DebounceHold, ButtonEvent::HoldElapsed) => {
                self.phase = Phase::WaitRelease;
                None
            },
            (Phase::WaitRelease, ButtonEvent::ReleasedHigh) => {
                self.phase = Phase::WaitFallingEdge;
                None
            },
            _ => None,
        }
    }
}

/// The state after delivering the events in order.
pub open spec fn run(s: DebounceState, evs: Seq<ButtonEvent>) -> DebounceState
    decreases evs.len(),
{
    if evs.len() == 0 {
        s
    } else {
        run(spec_step(s, evs.first()), evs.drop_first())
    }
}

/// How many of the events toggle the flag.
pub open spec fn toggle_count(s: DebounceState, evs: Seq<ButtonEvent>) -> nat
    decreases evs.len(),
{
    if evs.len() == 0 {
        0
    } else {
        (if toggles(s, evs.first()) {
            1nat
        } else {
            0nat
        }) + toggle_count(spec_step(s, evs.first()), evs.drop_first())
    }
}

/// Contact bounce: edge and level observations only, never the end of
/// the quiet window.
pub open spec fn is_bounce(evs: Seq<ButtonEvent>) -> bool {
    forall|i: int| 0 <= i < evs.len() ==> !(#[trigger] evs[i] is HoldElapsed)
}

/// The wakeups one physical press-and-release delivers: the falling
/// edge, whatever bounce arrives during the quiet window, the end of
/// the window, then the released-high observation.
pub open spec fn press_release_cycle(bounce: Seq<ButtonEvent>) -> Seq<ButtonEvent> {
    seq![ButtonEvent::FallingEdge] + bounce + seq![
        ButtonEvent::HoldElapsed,
        ButtonEvent::ReleasedHigh,
    ]
}

/// Running a concatenation runs the two halves in order, toggles and
/// all.
proof fn lemma_run_concat(s: DebounceState, a: Seq<ButtonEvent>, b: Seq<ButtonEvent>)
    ensures
        run(s, a + b) == run(run(s, a), b),
        toggle_count(s, a + b) == toggle_count(s, a) + toggle_count(run(s, a), b),
    decreases a.len(),
{
    if a.len() == 0 {
        assert(a + b =~= b);
    } else {
        assert((a + b).first() == a.first());
        assert((a + b).drop_first() =~= a.drop_first() + b);
        lemma_run_concat(spec_step(s, a.first()), a.drop_first(), b);
    }
}

/// During the quiet window the task observes no edge: bounce delivered
/// in the hold phase changes nothing and toggles nothing.
proof fn lemma_hold_swallows_bounce(s: DebounceState, evs: Seq<ButtonEvent>)
    requires
        s.phase is DebounceHold,
        is_bounce(evs),
    ensures
        run(s, evs) == s,
        toggle_count(s, evs) == 0,
    decreases evs.len(),
{
    if evs.len() > 0 {
        assert(!(evs.first() is HoldElapsed));
        assert(spec_step(s, evs.first()) == s);
        assert(is_bounce(evs.drop_first())) by {
            assert forall|i: int| 0 <= i < evs.drop_first().len() implies !(
            #[trigger] evs.drop_first()[i] is HoldElapsed) by {
                assert(evs.drop_first()[i] == evs[i + 1]);
            }
        }
        lemma_hold_swallows_bounce(s, evs.drop_first());
    }
}

/// Debounce correctness: one physical press-and-release, whatever
/// bounce falls inside the quiet window, toggles the armed flag exactly
/// once, drives the indicator to the new value, and leaves the task
/// waiting for the next press.
pub proof fn lemma_single_cycle_toggles_once(s: DebounceState, bounce: Seq<ButtonEvent>)
    requires
        s.phase is WaitFallingEdge,
        is_bounce(bounce),
    ensures
        run(s, press_release_cycle(bounce)) == (DebounceState {
            phase: Phase::WaitFallingEdge,
            armed: !s.armed,
            indicator: level_for(!s.armed),
        }),
        toggle_count(s, press_release_cycle(bounce)) == 1,
{
    reveal_with_fuel(run, 4);
    reveal_with_fuel(toggle_count, 4);
    let edge = seq![ButtonEvent::FallingEdge];
    let tail = seq![ButtonEvent::HoldElapsed, ButtonEvent::ReleasedHigh];
    let held = DebounceState {
        phase: Phase::DebounceHold,
        armed: !s.armed,
        indicator: level_for(!s.armed),
    };
    assert(run(s, edge) == held);
    assert(toggle_count(s, edge) == 1);
    lemma_run_concat(s, edge, bounce + tail);
    assert(press_release_cycle(bounce) =~= edge + (bounce + tail));
    lemma_run_concat(held, bounce, tail);
    lemma_hold_swallows_bounce(held, bounce);
    assert(tail.drop_first() =~= seq![ButtonEvent::ReleasedHigh]);
}

/// Idempotent double toggle: two complete press-and-release cycles
/// return the armed flag and the indicator output to their original
/// values, through exactly two toggles.
pub proof fn lemma_double_toggle_identity(
    s: DebounceState,
    bounce1: Seq<ButtonEvent>,
    bounce2: Seq<ButtonEvent>,
)
    requires
        s.phase is WaitFallingEdge,
        s.wf(),
        is_bounce(bounce1),
        is_bounce(bounce2),
    ensures
        run(s, press_release_cycle(bounce1) + press_release_cycle(bounce2)) == s,
        toggle_count(s, press_release_cycle(bounce1) + press_release_cycle(bounce2)) == 2,
{
    lemma_run_concat(s, press_release_cycle(bounce1), press_release_cycle(bounce2));
    lemma_single_cycle_toggles_once(s, bounce1);
    let mid = run(s, press_release_cycle(bounce1));
    lemma_single_cycle_toggles_once(mid, bounce2);
}

} // verus!
