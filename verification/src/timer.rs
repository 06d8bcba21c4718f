use vstd::prelude::*;
use crate::error::{GameError, GameResult};

verus! {

pub const NANOS_PER_SECOND: u64 = 1_000_000_000;

/// Whether one poll is due: with no target interval every poll is due;
/// otherwise a poll is due when the accumulated time reaches one interval.
pub open spec fn poll_due(acc: nat, delta: nat, interval: nat) -> bool {
    interval == 0 || acc + delta >= interval
}

/// The accumulator after one poll: a due tick consumes exactly one interval,
/// keeping the remainder (this is what prevents systematic drift under
/// jitter); an uncapped timer keeps no accumulator at all.
pub open spec fn poll_acc_after(acc: nat, delta: nat, interval: nat) -> nat {
    if interval == 0 {
        0
    } else if acc + delta >= interval {
        (acc + delta - interval) as nat
    } else {
        acc + delta
    }
}

/// The number of due ticks over a sequence of poll deltas.
pub open spec fn run_polls_ticks(acc: nat, deltas: Seq<nat>, interval: nat) -> nat
    decreases deltas.len(),
{
    if deltas.len() == 0 {
        0
    } else {
        (if poll_due(acc, deltas[0], interval) {
            1nat
        } else {
            0nat
        }) + run_polls_ticks(poll_acc_after(acc, deltas[0], interval), deltas.drop_first(), interval)
    }
}

/// The accumulator left after a sequence of poll deltas.
pub open spec fn run_polls_acc(acc: nat, deltas: Seq<nat>, interval: nat) -> nat
    decreases deltas.len(),
{
    if deltas.len() == 0 {
        acc
    } else {
        run_polls_acc(poll_acc_after(acc, deltas[0], interval), deltas.drop_first(), interval)
    }
}

pub open spec fn seq_sum(deltas: Seq<nat>) -> nat
    decreases deltas.len(),
{
    if deltas.len() == 0 {
        0
    } else {
        deltas[0] + seq_sum(deltas.drop_first())
    }
}

/// Law: with a positive target interval I, over any window in which each
/// poll advances the clock by at most I, the accumulator stays below I and
/// the due ticks D satisfy exactly D*I + acc_end == acc_0 + T, where T is
/// the wall-clock time of the window.
pub proof fn lemma_tick_count_drift_bound(acc0: nat, deltas: Seq<nat>, interval: nat)
    requires
        interval > 0,
        acc0 < interval,
        forall|i: int| 0 <= i < deltas.len() ==> deltas[i] <= interval,
    ensures
        run_polls_acc(acc0, deltas, interval) < interval,
        run_polls_ticks(acc0, deltas, interval) * interval + run_polls_acc(acc0, deltas, interval)
            == acc0 + seq_sum(deltas),
    decreases deltas.len(),
{
    if deltas.len() == 0 {
        assert(run_polls_ticks(acc0, deltas, interval) * interval == 0) by {
            vstd::arithmetic::mul::lemma_mul_basics(interval as int);
        }
    } else {
        let d = deltas[0];
        let acc1 = poll_acc_after(acc0, d, interval);
        assert(acc1 < interval);
        assert(forall|i: int| 0 <= i < deltas.drop_first().len() ==> deltas.drop_first()[i]
            == deltas[i + 1]);
        lemma_tick_count_drift_bound(acc1, deltas.drop_first(), interval);
        let t1 = run_polls_ticks(acc1, deltas.drop_first(), interval);
        if poll_due(acc0, d, interval) {
            assert((t1 + 1) * interval == t1 * interval + interval) by {
                vstd::arithmetic::mul::lemma_mul_is_distributive_add_other_way(
                    interval as int,
                    t1 as int,
                    1,
                );
            }
        }
    }
}

/// Law: the due-tick count over a window of wall-clock length T tracks T/I
/// within one tick either way: D*I never exceeds acc_0 + T, and acc_0 + T
/// stays below (D+1)*I.
pub proof fn lemma_tick_count_bracket(acc0: nat, deltas: Seq<nat>, interval: nat)
    requires
        interval > 0,
        acc0 < interval,
        forall|i: int| 0 <= i < deltas.len() ==> deltas[i] <= interval,
    ensures
        run_polls_ticks(acc0, deltas, interval) * interval <= acc0 + seq_sum(deltas),
        acc0 + seq_sum(deltas) < (run_polls_ticks(acc0, deltas, interval) + 1) * interval,
{
    lemma_tick_count_drift_bound(acc0, deltas, interval);
    let t = run_polls_ticks(acc0, deltas, interval);
    assert((t + 1) * interval == t * interval + interval) by {
        vstd::arithmetic::mul::lemma_mul_is_distributive_add_other_way(
            interval as int,
            t as int,
            1,
        );
    }
}

/// The smoothed real-time rate estimate, in ticks per thousand seconds
/// worth of units (millihertz): a weighted average of the previous estimate
/// and the reciprocal of the poll-to-poll wall time.
pub open spec fn fps_smoothed(prev: nat, poll_delta: nat) -> nat {
    if poll_delta == 0 {
        prev
    } else {
        (prev * 7 + 1_000_000_000_000nat / poll_delta) / 8
    }
}

/// Frame timer configuration: the target simulation rate in ticks per
/// second, or None for an uncapped timer that fires on every poll.
#[derive(Debug, Clone)]
pub struct TimerConfig {
    pub target_rate: Option<u32>,
}

impl TimerConfig {
    pub fn new() -> (r: Self)
        ensures
            r.target_rate == Some(60u32),
    {
        Self { target_rate: Some(60) }
    }

    pub fn target_rate(self, rate: Option<u32>) -> (r: Self)
        ensures
            r.target_rate == rate,
    {
        Self { target_rate: rate }
    }
}

/// The frame timer: decides on each poll whether a simulation step is due.
/// Wall-clock time comes in as a monotonic nanosecond reading taken by the
/// caller at each poll.
pub struct Timer {
    interval_ns: u64,
    accumulator_ns: u64,
    last_ns: u64,
    delta_ns: u64,
    fps_milli: u64,
}

impl Timer {
    /// The target tick interval in nanoseconds; 0 means uncapped.
    pub closed spec fn spec_interval_ns(&self) -> u64 {
        self.interval_ns
    }

    pub closed spec fn spec_accumulator_ns(&self) -> u64 {
        self.accumulator_ns
    }

    pub closed spec fn spec_last_poll_ns(&self) -> u64 {
        self.last_ns
    }

    /// The delta time of the most recent due tick.
    pub closed spec fn spec_delta_ns(&self) -> u64 {
        self.delta_ns
    }

    /// The smoothed real-time rate estimate, in millihertz. Display-only:
    /// it never feeds the simulation delta.
    pub closed spec fn spec_fps_milli(&self) -> u64 {
        self.fps_milli
    }

    /// The accumulator never runs ahead of the clock, and the rate estimate
    /// stays within the reciprocal's range; both keep the arithmetic of a
    /// poll inside `u64`.
    pub closed spec fn wf(&self) -> bool {
        self.accumulator_ns <= self.last_ns && self.fps_milli <= 1_000_000_000_000
    }

    pub fn new(config: TimerConfig) -> (r: GameResult<Timer>)
        ensures
            (r is Ok) == (config.target_rate != Some(0u32)),
            r matches Ok(t) ==> t.wf() && t.spec_accumulator_ns() == 0 && t.spec_last_poll_ns()
                == 0 && t.spec_delta_ns() == 0 && t.spec_fps_milli() == 0,
            r matches Ok(t) ==> match config.target_rate {
                Some(rate) => t.spec_interval_ns() == 1_000_000_000 as u64 / (rate as u64),
                None => t.spec_interval_ns() == 0,
            },
            r matches Err(e) ==> e is InitError,
    {
        let interval_ns: u64 = match config.target_rate {
            Some(rate) => {
                if rate == 0 {
                    return Err(GameError::InitError("target rate must be positive".to_owned()));
                }
                1_000_000_000 / (rate as u64)
            },
            None => 0,
        };
        Ok(Timer { interval_ns, accumulator_ns: 0, last_ns: 0, delta_ns: 0, fps_milli: 0 })
    }

    /// Zero the accumulator and timestamp now; used once at startup so the
    /// first frame does not see an artificial delta spike.
    pub fn reset_tick(&mut self, now_ns: u64)
        requires
            old(self).wf(),
        ensures
            final(self).wf(),
            final(self).spec_accumulator_ns() == 0,
            final(self).spec_last_poll_ns() == now_ns,
            final(self).spec_interval_ns() == old(self).spec_interval_ns(),
            final(self).spec_delta_ns() == old(self).spec_delta_ns(),
            final(self).spec_fps_milli() == old(self).spec_fps_milli(),
    {
        self.accumulator_ns = 0;
        self.last_ns = now_ns;
    }

    /// One poll: accumulate the wall-clock delta since the previous poll
    /// and decide whether a tick is due. A due tick on a capped timer
    /// carries exactly one interval as its delta time and leaves the
    /// remainder in the accumulator; an uncapped timer is due on every poll
    /// and carries the raw poll delta.
    pub fn tick_and_check(&mut self, now_ns: u64) -> (due: bool)
        requires
            old(self).wf(),
            old(self).spec_last_poll_ns() <= now_ns,
        ensures
            final(self).wf(),
            final(self).spec_interval_ns() == old(self).spec_interval_ns(),
            final(self).spec_last_poll_ns() == now_ns,
            due == poll_due(
                old(self).spec_accumulator_ns() as nat,
                (now_ns - old(self).spec_last_poll_ns()) as nat,
                old(self).spec_interval_ns() as nat,
            ),
            final(self).spec_accumulator_ns() == poll_acc_after(
                old(self).spec_accumulator_ns() as nat,
                (now_ns - old(self).spec_last_poll_ns()) as nat,
                old(self).spec_interval_ns() as nat,
            ),
            old(self).spec_interval_ns() == 0 ==> final(self).spec_delta_ns() == now_ns - old(
                self).spec_last_poll_ns(),
            old(self).spec_interval_ns() != 0 && due ==> final(self).spec_delta_ns() == old(
                self).spec_interval_ns(),
            old(self).spec_interval_ns() != 0 && !due ==> final(self).spec_delta_ns() == old(
                self).spec_delta_ns(),
            final(self).spec_fps_milli() == fps_smoothed(
                old(self).spec_fps_milli() as nat,
                (now_ns - old(self).spec_last_poll_ns()) as nat,
            ),
    {
        let delta = now_ns - self.last_ns;
        if delta > 0 {
            let instantaneous = 1_000_000_000_000u64 / delta;
            self.fps_milli = (self.fps_milli * 7 + instantaneous) / 8;
        }
        self.last_ns = now_ns;
        if self.interval_ns == 0 {
            self.accumulator_ns = 0;
            self.delta_ns = delta;
            true
        } else {
            let accumulated = self.accumulator_ns + delta;
            if accumulated >= self.interval_ns {
                self.accumulator_ns = accumulated - self.interval_ns;
                self.delta_ns = self.interval_ns;
                true
            } else {
                self.accumulator_ns = accumulated;
                false
            }
        }
    }

    /// The delta time of the most recent due tick, in nanoseconds.
    pub fn delta_time_ns(&self) -> (r: u64)
        ensures
            r == self.spec_delta_ns(),
    {
        self.delta_ns
    }

    /// The smoothed real-time rate estimate, in millihertz.
    pub fn real_time_fps_milli(&self) -> (r: u64)
        ensures
            r == self.spec_fps_milli(),
    {
        self.fps_milli
    }

    /// The target tick interval in nanoseconds; 0 means uncapped.
    pub fn interval_ns(&self) -> (r: u64)
        ensures
            r == self.spec_interval_ns(),
    {
        self.interval_ns
    }
}

} // verus!
