//! The repeating countdown that paces spawning.
//!
//! The countdown itself is `bevy::time::Timer`. Verus does not read that
//! crate, so the timer's state is named by the spec functions below and each
//! method the library calls is given a contract that is believed, not proved.
use bevy::time::Timer;
use bevy::time::TimerMode;
use std::time::Duration;
use vstd::prelude::*;

verus! {

/// Nanoseconds in one spawn period (one second).
pub const SPAWN_PERIOD_NANOS: u64 = 1_000_000_000;

/// `bevy::time::Timer`, carried as an opaque value.
#[verifier::external_type_specification]
#[verifier::external_body]
pub struct ExTimer(Timer);

/// Nanoseconds accumulated on the timer's stopwatch (`Timer::elapsed`).
pub uninterp spec fn timer_elapsed(timer: Timer) -> nat;

/// The timer's period in nanoseconds (`Timer::duration`).
pub uninterp spec fn timer_period(timer: Timer) -> nat;

/// Whether the last tick reached the period (`Timer::finished`).
pub uninterp spec fn timer_finished(timer: Timer) -> bool;

/// Whether the timer repeats and is not paused (`Timer::mode` is
/// `TimerMode::Repeating` and `Timer::paused` is false).
pub uninterp spec fn timer_running(timer: Timer) -> bool;

/// `Timer::new` with `TimerMode::Repeating`: a fresh timer has nothing
/// elapsed, is not finished, is not paused, and has the period it was given.
#[verifier::external_body]
fn repeating_timer(period_nanos: u64) -> (timer: Timer)
    ensures
        timer_elapsed(timer) == 0,
        timer_period(timer) == period_nanos,
        !timer_finished(timer),
        timer_running(timer),
{
    Timer::new(Duration::from_nanos(period_nanos), TimerMode::Repeating)
}

/// `Timer::tick` on a running repeating timer: the delta is added to the
/// elapsed time; the timer is finished exactly if the sum reaches the period,
/// and then keeps the remainder of the sum by the period.
#[verifier::external_body]
fn advance_timer(timer: &mut Timer, delta_nanos: u64)
    requires
        timer_running(*old(timer)),
        0 < timer_period(*old(timer)) <= u64::MAX,
        timer_elapsed(*old(timer)) <= u64::MAX,
    ensures
        timer_running(*final(timer)),
        timer_period(*final(timer)) == timer_period(*old(timer)),
        timer_finished(*final(timer)) == (timer_elapsed(*old(timer)) + delta_nanos
            >= timer_period(*old(timer))),
        timer_elapsed(*final(timer)) == if timer_elapsed(*old(timer)) + delta_nanos
            >= timer_period(*old(timer)) {
            (timer_elapsed(*old(timer)) + delta_nanos) % (timer_period(*old(timer)) as int)
        } else {
            timer_elapsed(*old(timer)) + delta_nanos
        },
{
    timer.tick(Duration::from_nanos(delta_nanos));
}

/// `Timer::finished`: reads the flag that the last tick set. (The library
/// asks this rather than `Timer::just_finished`, which goes by a count of
/// completed periods that is cut to 32 bits and can read zero after a frame
/// of 2^32 periods.)
#[verifier::external_body]
fn timer_has_finished(timer: &Timer) -> (finished: bool)
    ensures
        finished == timer_finished(*timer),
{
    timer.finished()
}

/// `Timer::elapsed` as whole nanoseconds (`Duration::as_nanos`).
#[verifier::external_body]
fn timer_reading(timer: &Timer) -> (nanos: u128)
    ensures
        nanos == timer_elapsed(*timer),
{
    timer.elapsed().as_nanos()
}

/// Whether a timer reading `elapsed` fires when `delta` more nanoseconds pass.
pub open spec fn fires(elapsed: nat, delta: nat) -> bool {
    elapsed + delta >= SPAWN_PERIOD_NANOS
}

/// The timer's reading after `delta` more nanoseconds: what is left over
/// once every completed period has been taken out.
pub open spec fn carry(elapsed: nat, delta: nat) -> nat {
    (elapsed + delta) % (SPAWN_PERIOD_NANOS as nat)
}

/// The nanoseconds that a run of frames takes in all.
pub open spec fn total_nanos(frames: Seq<u64>) -> nat
    decreases frames.len(),
{
    if frames.len() == 0 {
        0
    } else {
        total_nanos(frames.drop_last()) + frames.last() as nat
    }
}

/// The timer's reading after a run of frames, from a reading of `elapsed`.
pub open spec fn reading_after(elapsed: nat, frames: Seq<u64>) -> nat
    decreases frames.len(),
{
    if frames.len() == 0 {
        elapsed
    } else {
        carry(reading_after(elapsed, frames.drop_last()), frames.last() as nat)
    }
}

/// In how many frames of a run the timer fires, from a reading of `elapsed`.
pub open spec fn fire_count(elapsed: nat, frames: Seq<u64>) -> nat
    decreases frames.len(),
{
    if frames.len() == 0 {
        0
    } else {
        let earlier = fire_count(elapsed, frames.drop_last());
        if fires(reading_after(elapsed, frames.drop_last()), frames.last() as nat) {
            earlier + 1
        } else {
            earlier
        }
    }
}

/// However time is cut into frames, the timer's reading depends on the
/// total alone: it is what the total leaves over after whole periods.
pub proof fn lemma_reading_ignores_granularity(elapsed: nat, frames: Seq<u64>)
    requires
        elapsed < SPAWN_PERIOD_NANOS,
    ensures
        reading_after(elapsed, frames) == (elapsed + total_nanos(frames)) % (
        SPAWN_PERIOD_NANOS as nat),
    decreases frames.len(),
{
    if frames.len() > 0 {
        lemma_reading_ignores_granularity(elapsed, frames.drop_last());
        let sum = (elapsed + total_nanos(frames.drop_last())) as int;
        let last = frames.last() as int;
        assert((sum % 1_000_000_000 + last) % 1_000_000_000 == (sum + last) % 1_000_000_000);
    }
}

/// The timer fires once for every whole period of accumulated time, however
/// the time is cut into frames, as long as no single frame completes more
/// than one period.
pub proof fn lemma_fires_once_per_period(elapsed: nat, frames: Seq<u64>)
    requires
        elapsed < SPAWN_PERIOD_NANOS,
        forall|i: int|
            0 <= i < frames.len() ==> reading_after(elapsed, #[trigger] frames.take(i)) + frames[i]
                < 2 * SPAWN_PERIOD_NANOS,
    ensures
        fire_count(elapsed, frames) == (elapsed + total_nanos(frames)) / (
        SPAWN_PERIOD_NANOS as nat),
    decreases frames.len(),
{
    if frames.len() > 0 {
        let earlier = frames.drop_last();
        assert forall|i: int| 0 <= i < earlier.len() implies reading_after(
            elapsed,
            #[trigger] earlier.take(i),
        ) + earlier[i] < 2 * SPAWN_PERIOD_NANOS by {
            assert(earlier.take(i) =~= frames.take(i));
        }
        lemma_fires_once_per_period(elapsed, earlier);
        lemma_reading_ignores_granularity(elapsed, earlier);
        assert(frames.take(frames.len() - 1) =~= earlier);
    }
}

/// The process-wide countdown that decides when balls are spawned.
pub struct SpawnTimer {
    timer: Timer,
}

impl SpawnTimer {
    /// Nanoseconds counted toward the next spawn.
    pub closed spec fn elapsed(&self) -> nat {
        timer_elapsed(self.timer)
    }

    /// The timer repeats with a period of one second and reads less than it.
    pub closed spec fn wf(&self) -> bool {
        &&& timer_running(self.timer)
        &&& timer_period(self.timer) == SPAWN_PERIOD_NANOS
        &&& timer_elapsed(self.timer) < SPAWN_PERIOD_NANOS
    }

    /// A timer that has counted nothing yet.
    pub fn new() -> (timer: SpawnTimer)
        ensures
            timer.wf(),
            timer.elapsed() == 0,
    {
        SpawnTimer { timer: repeating_timer(SPAWN_PERIOD_NANOS) }
    }

    /// Nanoseconds counted toward the next spawn.
    pub fn elapsed_nanos(&self) -> (nanos: u64)
        requires
            self.wf(),
        ensures
            nanos == self.elapsed(),
    {
        timer_reading(&self.timer) as u64
    }

    /// Advances the countdown by one frame's elapsed time and says whether
    /// it completed a period in this frame.
    pub fn tick(&mut self, delta_nanos: u64) -> (fired: bool)
        requires
            old(self).wf(),
        ensures
            final(self).wf(),
            fired == fires(old(self).elapsed(), delta_nanos as nat),
            final(self).elapsed() == carry(old(self).elapsed(), delta_nanos as nat),
    {
        advance_timer(&mut self.timer, delta_nanos);
        timer_has_finished(&self.timer)
    }
}

} // verus!
