//! The report generator: once per period it acts on the armed flag as
//! sampled before the wait, and while armed attempts one mouse report
//! whose y value continues the sign alternation from the last
//! successfully transmitted report.

use vstd::prelude::*;

use crate::device::JITTER_AMPLITUDE;
use crate::report::MouseReport;

verus! {

/// The generator's state: the sign of the last successfully transmitted
/// y (or of the boot value while nothing was transmitted yet). The
/// magnitude is always [`JITTER_AMPLITUDE`], so the sign is the whole
/// state. It advances only when the transport accepts a report, so a
/// failed send never breaks the alternation of the successful ones.
pub struct WiggleState {
    pub y_positive: bool,
}

/// The sign state after one cycle: it advances exactly when the cycle
/// was armed and the transport accepted the report; a disarmed cycle
/// sends nothing, and a failed send is discarded without moving it.
pub open spec fn next_y(y: int, armed: bool, sent_ok: bool) -> int {
    if armed && sent_ok {
        -y
    } else {
        y
    }
}

impl WiggleState {
    /// The y value this state stands for.
    pub open spec fn y_value(self) -> int {
        if self.y_positive {
            JITTER_AMPLITUDE as int
        } else {
            -(JITTER_AMPLITUDE as int)
        }
    }

    /// Boot state: +JITTER_AMPLITUDE, so the first transmitted report
    /// carries -JITTER_AMPLITUDE.
    pub fn new() -> (s: Self)
        ensures
            s.y_value() == JITTER_AMPLITUDE as int,
    {
        WiggleState { y_positive: true }
    }

    /// The y value of the last successful send (or the boot value).
    pub fn current_y(&self) -> (y: i8)
        ensures
            y as int == self.y_value(),
    {
        if self.y_positive {
            JITTER_AMPLITUDE
        } else {
            -JITTER_AMPLITUDE
        }
    }

    /// One generator cycle, acting on the flag value sampled before the
    /// period's wait. Armed: hand back the one report to attempt this
    /// cycle, whose y negates the last successful send's. Disarmed:
    /// build nothing. The state does not move here: the sign advances
    /// only once the transport accepts the report
    /// ([`WiggleState::confirm_sent`]), so a failed attempt is simply
    /// dropped and the next cycle attempts the same y again.
    pub fn tick(&self, armed: bool) -> (report: Option<MouseReport>)
        ensures
            report is Some <==> armed,
            armed ==> ({
                let r = report.unwrap();
                &&& r.buttons == 0
                &&& r.x == 0
                &&& r.wheel == 0
                &&& r.pan == 0
                &&& r.y as int == -self.y_value()
                &&& r.is_jitter(JITTER_AMPLITUDE as int)
            }),
    {
        if armed {
            let y: i8 = if self.y_positive {
                -JITTER_AMPLITUDE
            } else {
                JITTER_AMPLITUDE
            };
            Some(MouseReport { buttons: 0, x: 0, y, wheel: 0, pan: 0 })
        } else {
            None
        }
    }

    /// Commit one accepted transmission: the sign state advances to the
    /// y value that was just sent.
    pub fn confirm_sent(&mut self)
        ensures
            final(self).y_value() == -old(self).y_value(),
    {
        self.y_positive = !self.y_positive;
    }
}

/// One generator period as seen from the task: the armed flag sampled
/// before the wait, and whether the transport accepted the report.
/// `sent_ok` is meaningless on a disarmed cycle, where nothing is sent.
pub struct Cycle {
    pub armed: bool,
    pub sent_ok: bool,
}

/// The sign state after running the given cycles from `y`.
pub open spec fn y_after(y: int, trace: Seq<Cycle>) -> int
    decreases trace.len(),
{
    if trace.len() == 0 {
        y
    } else {
        y_after(next_y(y, trace.first().armed, trace.first().sent_ok), trace.drop_first())
    }
}

/// The y values of the reports built and attempted over the given
/// cycles, in order: one per armed cycle, none for a disarmed cycle.
pub open spec fn attempted_y(y: int, trace: Seq<Cycle>) -> Seq<int>
    decreases trace.len(),
{
    if trace.len() == 0 {
        seq![]
    } else {
        let rest = attempted_y(
            next_y(y, trace.first().armed, trace.first().sent_ok),
            trace.drop_first(),
        );
        if trace.first().armed {
            seq![-y] + rest
        } else {
            rest
        }
    }
}

/// The y values of the reports the transport accepted, in order: the
/// attempts of the armed cycles whose send succeeded.
pub open spec fn successful_y(y: int, trace: Seq<Cycle>) -> Seq<int>
    decreases trace.len(),
{
    if trace.len() == 0 {
        seq![]
    } else {
        let rest = successful_y(
            next_y(y, trace.first().armed, trace.first().sent_ok),
            trace.drop_first(),
        );
        if trace.first().armed && trace.first().sent_ok {
            seq![-y] + rest
        } else {
            rest
        }
    }
}

/// Silence while disarmed: a trace without an armed sample attempts and
/// transmits nothing, and leaves the sign state alone.
pub proof fn lemma_disarmed_silence(y: int, trace: Seq<Cycle>)
    requires
        forall|i: int| 0 <= i < trace.len() ==> !(#[trigger] trace[i].armed),
    ensures
        attempted_y(y, trace).len() == 0,
        successful_y(y, trace).len() == 0,
        y_after(y, trace) == y,
    decreases trace.len(),
{
    if trace.len() > 0 {
        assert(!trace.first().armed);
        lemma_disarmed_silence(y, trace.drop_first());
    }
}

/// Alternation while armed: over any run, whatever pattern of send
/// failures it contains, every successfully transmitted y has the fixed
/// jitter magnitude, successive successful y values alternate sign, and
/// the first continues from the sign state the run began with.
pub proof fn lemma_successful_alternation(y: int, trace: Seq<Cycle>)
    requires
        y == JITTER_AMPLITUDE as int || y == -(JITTER_AMPLITUDE as int),
    ensures
        forall|i: int|
            0 <= i < successful_y(y, trace).len() ==> (#[trigger] successful_y(y, trace)[i]
                == JITTER_AMPLITUDE as int || successful_y(y, trace)[i] == -(
            JITTER_AMPLITUDE as int)),
        forall|i: int|
            0 <= i && i + 1 < successful_y(y, trace).len() ==> #[trigger] successful_y(y, trace)[i
                + 1] == -successful_y(y, trace)[i],
        successful_y(y, trace).len() > 0 ==> successful_y(y, trace)[0] == -y,
    decreases trace.len(),
{
    if trace.len() > 0 {
        let c = trace.first();
        let y1 = next_y(y, c.armed, c.sent_ok);
        let rest = successful_y(y1, trace.drop_first());
        lemma_successful_alternation(y1, trace.drop_first());
        if c.armed && c.sent_ok {
            let s = successful_y(y, trace);
            assert(s == seq![-y] + rest);
            assert(s[0] == -y);
            assert forall|i: int| 0 <= i < s.len() implies (#[trigger] s[i] == JITTER_AMPLITUDE as int
                || s[i] == -(JITTER_AMPLITUDE as int)) by {
                if i > 0 {
                    assert(s[i] == rest[i - 1]);
                }
            }
            assert forall|i: int| 0 <= i && i + 1 < s.len() implies #[trigger] s[i + 1] == -s[i] by {
                if i == 0 {
                    assert(rest.len() > 0);
                    assert(s[1] == rest[0]);
                    assert(rest[0] == -y1);
                } else {
                    assert(s[i] == rest[i - 1]);
                    assert(s[i + 1] == rest[i]);
                    assert(rest[(i - 1) + 1] == -rest[i - 1]);
                }
            }
        }
    }
}

/// The sign state always stands at the last successfully transmitted y,
/// or at the boot value while nothing was transmitted.
pub proof fn lemma_state_is_last_success(y: int, trace: Seq<Cycle>)
    ensures
        successful_y(y, trace).len() == 0 ==> y_after(y, trace) == y,
        successful_y(y, trace).len() > 0 ==> y_after(y, trace) == successful_y(y, trace).last(),
    decreases trace.len(),
{
    if trace.len() > 0 {
        let c = trace.first();
        let y1 = next_y(y, c.armed, c.sent_ok);
        let rest = successful_y(y1, trace.drop_first());
        lemma_state_is_last_success(y1, trace.drop_first());
        if c.armed && c.sent_ok {
            let s = successful_y(y, trace);
            assert(s == seq![-y] + rest);
            if rest.len() == 0 {
                assert(s.last() == -y);
            } else {
                assert(s.last() == rest.last());
            }
        }
    }
}

/// Continuation after any outcome: appending one more cycle to a run
/// adds exactly one attempt when the cycle is armed — whose y negates
/// the sign state the run left, that is, the last successful send (by
/// [`lemma_state_is_last_success`]) — and adds none when it is
/// disarmed. In particular a failed send is never retried within its
/// cycle, and the next armed cycle's attempt continues the alternation
/// from the last successful send.
pub proof fn lemma_attempt_continues_alternation(y: int, trace: Seq<Cycle>, c: Cycle)
    ensures
        c.armed ==> attempted_y(y, trace + seq![c]) == attempted_y(y, trace).push(
            -y_after(y, trace),
        ),
        !c.armed ==> attempted_y(y, trace + seq![c]) == attempted_y(y, trace),
    decreases trace.len(),
{
    if trace.len() == 0 {
        reveal_with_fuel(attempted_y, 3);
        reveal_with_fuel(y_after, 2);
        assert(trace + seq![c] =~= seq![c]);
        assert((seq![c]).drop_first() =~= Seq::<Cycle>::empty());
        if c.armed {
            assert(attempted_y(y, seq![c]) =~= attempted_y(y, trace).push(-y_after(y, trace)));
        } else {
            assert(attempted_y(y, seq![c]) =~= attempted_y(y, trace));
        }
    } else {
        let t0 = trace.first();
        let y1 = next_y(y, t0.armed, t0.sent_ok);
        assert((trace + seq![c]).first() == t0);
        assert((trace + seq![c]).drop_first() =~= trace.drop_first() + seq![c]);
        lemma_attempt_continues_alternation(y1, trace.drop_first(), c);
        if c.armed {
            assert(attempted_y(y, trace + seq![c]) =~= attempted_y(y, trace).push(
                -y_after(y, trace),
            ));
        } else {
            assert(attempted_y(y, trace + seq![c]) =~= attempted_y(y, trace));
        }
    }
}

/// Sequential transmission: each cycle attempts at most one report, so
/// a run of n cycles transmits at most n reports, and never more than
/// it attempted. (Within a cycle the task awaits the transport's
/// completion before its next wait, so no two writes are in flight.)
pub proof fn lemma_one_attempt_per_cycle(y: int, trace: Seq<Cycle>)
    ensures
        successful_y(y, trace).len() <= attempted_y(y, trace).len(),
        attempted_y(y, trace).len() <= trace.len(),
    decreases trace.len(),
{
    if trace.len() > 0 {
        lemma_one_attempt_per_cycle(
            next_y(y, trace.first().armed, trace.first().sent_ok),
            trace.drop_first(),
        );
    }
}

} // verus!
