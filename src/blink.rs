use vstd::prelude::*;

use crate::animation::AnimationConfig;
use crate::timer::{lemma_ticked_wf, Timer, TimerMode};

verus! {

/// How far a blink carries the player, in pixels.
pub const BLINK_DISTANCE: i32 = 150;

pub const BLINK_ANIMATION_FIRST_INDEX: usize = 0;

pub const BLINK_ANIMATION_LAST_INDEX: usize = 5;

pub const BLINK_ANIMATION_FPS: u8 = 15;

/// Length of each timed phase of a blink: 0.3 s.
pub const BLINK_PHASE_DURATION: u64 = 300_000_000;

/// The phases of a blink, in the order they are gone through.
#[derive(Clone, Copy, Debug, PartialEq, Eq, Structural)]
pub enum BlinkPhase {
    Disappearing,
    Moving,
    Reappearing,
    Complete,
}

/// A blink in progress on the player.
#[derive(Clone, Copy, Debug)]
pub struct BlinkingEffect {
    pub phase: BlinkPhase,
    pub timer: Timer,
}

/// What the player's entity must do after a step of its blink.
#[derive(Clone, Copy, Debug, PartialEq, Eq, Structural)]
pub enum BlinkAction {
    /// Nothing beyond the animation.
    Wait,
    /// Move to the blink's target position.
    Teleport,
    /// Put the player's own sprite back and drop the blink.
    Restore,
}

/// What a cast of the blink spell sets up.
#[derive(Clone, Copy, Debug)]
pub struct BlinkCast {
    pub effect: BlinkingEffect,
    pub animation: AnimationConfig,
    /// Horizontal offset of the target from the player, in pixels.
    pub offset_x: i32,
}

/// Position of a phase in the blink's order.
pub open spec fn phase_rank(phase: BlinkPhase) -> int {
    match phase {
        BlinkPhase::Disappearing => 0,
        BlinkPhase::Moving => 1,
        BlinkPhase::Reappearing => 2,
        BlinkPhase::Complete => 3,
    }
}

/// One frame of a blink, `delta` nanoseconds long. The phase timer always
/// runs. Disappearing lasts until the timer finishes, then Moving starts with
/// the timer reset; Moving teleports at once and hands over to Reappearing
/// with the timer reset; Reappearing lasts until the timer finishes; a
/// Complete blink restores the sprite.
#[verifier::opaque]
pub open spec fn blink_step(effect: BlinkingEffect, delta: int) -> (BlinkingEffect, BlinkAction) {
    let t = effect.timer.ticked(delta);
    match effect.phase {
        BlinkPhase::Disappearing => if t.finished {
            (BlinkingEffect { phase: BlinkPhase::Moving, timer: t.restarted() }, BlinkAction::Wait)
        } else {
            (BlinkingEffect { phase: BlinkPhase::Disappearing, timer: t }, BlinkAction::Wait)
        },
        BlinkPhase::Moving => (
            BlinkingEffect { phase: BlinkPhase::Reappearing, timer: t.restarted() },
            BlinkAction::Teleport,
        ),
        BlinkPhase::Reappearing => if t.finished {
            (BlinkingEffect { phase: BlinkPhase::Complete, timer: t }, BlinkAction::Wait)
        } else {
            (BlinkingEffect { phase: BlinkPhase::Reappearing, timer: t }, BlinkAction::Wait)
        },
        BlinkPhase::Complete => (
            BlinkingEffect { phase: BlinkPhase::Complete, timer: t },
            BlinkAction::Restore,
        ),
    }
}

/// The states a blink passes through over frames of the given lengths,
/// starting with `effect` itself: what successive calls of
/// `update_blink_animation` make of it.
pub open spec fn blink_run(effect: BlinkingEffect, deltas: Seq<u64>) -> Seq<BlinkingEffect>
    decreases deltas.len(),
{
    if deltas.len() == 0 {
        seq![effect]
    } else {
        let before = blink_run(effect, deltas.drop_last());
        before.push(blink_step(before.last(), deltas.last() as int).0)
    }
}

/// Some state of `run` up to index `upto` is in the phase of rank `rank`.
pub open spec fn phase_reached(run: Seq<BlinkingEffect>, upto: int, rank: int) -> bool {
    exists|j: int| 0 <= j <= upto && phase_rank(#[trigger] run[j].phase) == rank
}

/// Between states `m` and `m + 1` of `run` the phase stays or moves to the
/// next one.
pub open spec fn in_order_at(run: Seq<BlinkingEffect>, m: int) -> bool {
    let a = phase_rank(run[m].phase);
    let b = phase_rank(run[m + 1].phase);
    b == a || b == a + 1
}

impl BlinkingEffect {
    pub open spec fn wf(self) -> bool {
        self.timer.wf()
    }

    pub open spec fn new_spec() -> BlinkingEffect {
        BlinkingEffect {
            phase: BlinkPhase::Disappearing,
            timer: Timer::new_spec(BLINK_PHASE_DURATION, TimerMode::Once),
        }
    }

    /// A blink at its start: disappearing, with a fresh phase timer.
    pub fn new() -> (r: BlinkingEffect)
        ensures
            r == BlinkingEffect::new_spec(),
            r.wf(),
    {
        BlinkingEffect {
            phase: BlinkPhase::Disappearing,
            timer: Timer::new(BLINK_PHASE_DURATION, TimerMode::Once),
        }
    }
}

/// Sets up a blink for a player facing right or left: the effect, its
/// animation and the target's offset, `BLINK_DISTANCE` pixels ahead.
pub fn handle_blink_casting(facing_right: bool) -> (r: BlinkCast)
    ensures
        r.effect == BlinkingEffect::new_spec(),
        r.animation == AnimationConfig::new_spec(
            BLINK_ANIMATION_FIRST_INDEX,
            BLINK_ANIMATION_LAST_INDEX,
            BLINK_ANIMATION_FPS,
        ),
        r.offset_x == (if facing_right {
            BLINK_DISTANCE as int
        } else {
            -BLINK_DISTANCE
        }),
{
    let offset_x: i32 = if facing_right {
        BLINK_DISTANCE
    } else {
        -BLINK_DISTANCE
    };
    BlinkCast {
        effect: BlinkingEffect::new(),
        animation: AnimationConfig::new(
            BLINK_ANIMATION_FIRST_INDEX,
            BLINK_ANIMATION_LAST_INDEX,
            BLINK_ANIMATION_FPS,
        ),
        offset_x,
    }
}

/// Runs one frame of a blink; see `blink_step`.
pub fn update_blink_animation(effect: &mut BlinkingEffect, delta: u64) -> (r: BlinkAction)
    requires
        old(effect).wf(),
    ensures
        (*final(effect), r) == blink_step(*old(effect), delta as int),
        final(effect).wf(),
{
    proof {
        reveal(blink_step);
    }
    effect.timer.tick(delta);
    match effect.phase {
        BlinkPhase::Disappearing => {
            if effect.timer.finished() {
                effect.phase = BlinkPhase::Moving;
                effect.timer.reset();
            }
            BlinkAction::Wait
        },
        BlinkPhase::Moving => {
            effect.phase = BlinkPhase::Reappearing;
            effect.timer.reset();
            BlinkAction::Teleport
        },
        BlinkPhase::Reappearing => {
            if effect.timer.finished() {
                effect.phase = BlinkPhase::Complete;
            }
            BlinkAction::Wait
        },
        BlinkPhase::Complete => BlinkAction::Restore,
    }
}

/// A single frame keeps the phase or moves to the next one, never back and
/// never past one; it leaves Disappearing or Reappearing exactly when the
/// phase timer reaches its duration, Moving always lasts one frame, and the
/// blink is dropped only from Complete.
pub proof fn lemma_blink_step_in_order(effect: BlinkingEffect, delta: int)
    requires
        delta >= 0,
    ensures
        ({
            let next = blink_step(effect, delta).0;
            let t = effect.timer.ticked(delta);
            &&& phase_rank(next.phase) == phase_rank(effect.phase) || phase_rank(next.phase)
                == phase_rank(effect.phase) + 1
            &&& (effect.phase == BlinkPhase::Disappearing || effect.phase
                == BlinkPhase::Reappearing) ==> (phase_rank(next.phase) == phase_rank(
                effect.phase,
            ) + 1 <==> t.finished)
            &&& effect.phase == BlinkPhase::Moving ==> next.phase == BlinkPhase::Reappearing
            &&& blink_step(effect, delta).1 == BlinkAction::Restore <==> effect.phase
                == BlinkPhase::Complete
        }),
{
    reveal(blink_step);
}

/// The states of a run after its first one are the steps of the states
/// before them.
pub proof fn lemma_blink_run_steps(effect: BlinkingEffect, deltas: Seq<u64>)
    ensures
        blink_run(effect, deltas).len() == deltas.len() + 1,
        blink_run(effect, deltas)[0] == effect,
        forall|i: int|
            0 <= i < deltas.len() ==> #[trigger] blink_run(effect, deltas)[i + 1] == blink_step(
                blink_run(effect, deltas)[i],
                deltas[i] as int,
            ).0,
    decreases deltas.len(),
{
    if deltas.len() > 0 {
        let prefix = deltas.drop_last();
        lemma_blink_run_steps(effect, prefix);
        let before = blink_run(effect, prefix);
        let run = blink_run(effect, deltas);
        assert forall|i: int| 0 <= i < deltas.len() implies #[trigger] run[i + 1] == blink_step(
            run[i],
            deltas[i] as int,
        ).0 by {
            if i + 1 < deltas.len() {
                assert(run[i + 1] == before[i + 1]);
                assert(run[i] == before[i]);
                assert(deltas[i] == prefix[i]);
            } else {
                assert(run[i] == before[i]);
            }
        }
    }
}

/// Over any run of frames a blink goes through its phases in order: each
/// frame keeps the phase or moves to the next one.
pub proof fn lemma_blink_phases_in_order(effect: BlinkingEffect, deltas: Seq<u64>)
    ensures
        forall|i: int| 0 <= i < deltas.len() ==> #[trigger] in_order_at(blink_run(effect, deltas), i),
{
    lemma_blink_run_steps(effect, deltas);
    let run = blink_run(effect, deltas);
    assert forall|i: int| 0 <= i < deltas.len() implies #[trigger] in_order_at(run, i) by {
        lemma_blink_step_in_order(run[i], deltas[i] as int);
    }
}

/// A blink that started disappearing has, at any point of a run, been through
/// every phase before the one it is in.
pub proof fn lemma_blink_skips_no_phase(effect: BlinkingEffect, deltas: Seq<u64>)
    requires
        effect.phase == BlinkPhase::Disappearing,
    ensures
        forall|i: int, k: int|
            0 <= i <= deltas.len() && 0 <= k <= phase_rank(blink_run(effect, deltas)[i].phase)
                ==> #[trigger] phase_reached(blink_run(effect, deltas), i, k),
{
    lemma_blink_run_steps(effect, deltas);
    lemma_blink_phases_in_order(effect, deltas);
    let run = blink_run(effect, deltas);
    assert forall|i: int, k: int|
        0 <= i <= deltas.len() && 0 <= k <= phase_rank(run[i].phase) implies #[trigger] phase_reached(
        run,
        i,
        k,
    ) by {
        lemma_reached_below(run, deltas.len() as int, i, k);
    }
}

proof fn lemma_reached_below(run: Seq<BlinkingEffect>, n: int, i: int, k: int)
    requires
        run.len() == n + 1,
        phase_rank(run[0].phase) == 0,
        forall|m: int| 0 <= m < n ==> #[trigger] in_order_at(run, m),
        0 <= i <= n,
        0 <= k <= phase_rank(run[i].phase),
    ensures
        phase_reached(run, i, k),
    decreases i,
{
    if k == phase_rank(run[i].phase) {
        assert(phase_rank(run[i].phase) == k);
    } else {
        assert(in_order_at(run, i - 1));
        lemma_reached_below(run, n, i - 1, k);
        let j = choose|j: int| 0 <= j <= i - 1 && phase_rank(#[trigger] run[j].phase) == k;
        assert(0 <= j <= i && phase_rank(run[j].phase) == k);
    }
}

/// At frame `i` of a blink whose frames last at least `delta` nanoseconds,
/// with `k` frames enough to fill a phase of `duration`: still disappearing
/// means `i` frames' worth of time has passed in the phase, moving happens by
/// frame `k`, and reappearing has lasted since frame `k + 1` at the latest.
pub open spec fn blink_on_schedule(
    e: BlinkingEffect,
    i: int,
    duration: int,
    delta: int,
    k: int,
) -> bool {
    &&& e.wf()
    &&& e.timer.mode == TimerMode::Once
    &&& e.timer.duration == duration
    &&& e.phase == BlinkPhase::Disappearing ==> !e.timer.finished && e.timer.elapsed >= i * delta
    &&& e.phase == BlinkPhase::Moving ==> i <= k
    &&& e.phase == BlinkPhase::Reappearing ==> !e.timer.finished && e.timer.elapsed >= (i - k
        - 1) * delta
}

proof fn lemma_blink_schedule_step(
    e: BlinkingEffect,
    i: int,
    duration: int,
    delta: int,
    k: int,
    dt: int,
)
    requires
        blink_on_schedule(e, i, duration, delta, k),
        i >= 0,
        k >= 0,
        delta > 0,
        dt >= delta,
        k * delta >= duration,
    ensures
        blink_on_schedule(blink_step(e, dt).0, i + 1, duration, delta, k),
{
    reveal(blink_step);
    lemma_ticked_wf(e.timer, dt);
    let t = e.timer.ticked(dt);
    let next = blink_step(e, dt).0;
    assert((i + 1) * delta == i * delta + delta) by (nonlinear_arith);
    assert((i - k) * delta == (i - k - 1) * delta + delta) by (nonlinear_arith);
    match e.phase {
        BlinkPhase::Disappearing => {
            if t.finished {
                assert(i * delta < k * delta);
                assert(i < k) by (nonlinear_arith)
                    requires
                        i * delta < k * delta,
                        delta > 0,
                ;
            }
        },
        BlinkPhase::Moving => {
            assert((i - k) * delta <= 0) by (nonlinear_arith)
                requires
                    i <= k,
                    delta > 0,
            ;
        },
        _ => {},
    }
}

proof fn lemma_blink_schedule_upto(
    effect: BlinkingEffect,
    deltas: Seq<u64>,
    delta: int,
    k: int,
    i: int,
)
    requires
        effect.phase == BlinkPhase::Disappearing,
        effect.wf(),
        effect.timer.mode == TimerMode::Once,
        effect.timer.elapsed == 0,
        k >= 0,
        delta > 0,
        k * delta >= effect.timer.duration,
        forall|j: int| 0 <= j < deltas.len() ==> deltas[j] >= delta,
        0 <= i <= deltas.len(),
    ensures
        blink_on_schedule(
            blink_run(effect, deltas)[i],
            i,
            effect.timer.duration as int,
            delta,
            k,
        ),
    decreases i,
{
    lemma_blink_run_steps(effect, deltas);
    if i > 0 {
        lemma_blink_schedule_upto(effect, deltas, delta, k, i - 1);
        let run = blink_run(effect, deltas);
        let j = i - 1;
        assert(run[j + 1] == blink_step(run[j], deltas[j] as int).0);
        assert(j + 1 == i);
        lemma_blink_schedule_step(
            run[i - 1],
            i - 1,
            effect.timer.duration as int,
            delta,
            k,
            deltas[i - 1] as int,
        );
    }
}

/// A blink that starts disappearing with a fresh phase timer, over frames of
/// at least `delta` nanoseconds each, is complete after `2 * k + 1` frames,
/// where `k` frames are enough to fill a phase, and stays complete.
pub proof fn lemma_blink_completes(
    effect: BlinkingEffect,
    deltas: Seq<u64>,
    delta: int,
    k: int,
)
    requires
        effect.phase == BlinkPhase::Disappearing,
        effect.wf(),
        effect.timer.mode == TimerMode::Once,
        effect.timer.elapsed == 0,
        k >= 0,
        delta > 0,
        k * delta >= effect.timer.duration,
        forall|j: int| 0 <= j < deltas.len() ==> deltas[j] >= delta,
    ensures
        forall|i: int|
            2 * k + 1 <= i <= deltas.len() ==> (#[trigger] blink_run(effect, deltas)[i]).phase
                == BlinkPhase::Complete,
{
    let run = blink_run(effect, deltas);
    let duration = effect.timer.duration as int;
    assert forall|i: int| 2 * k + 1 <= i <= deltas.len() implies (#[trigger] run[i]).phase
        == BlinkPhase::Complete by {
        lemma_blink_schedule_upto(effect, deltas, delta, k, i);
        let e = run[i];
        assert(i * delta >= k * delta) by (nonlinear_arith)
            requires
                i >= k,
                delta > 0,
        ;
        assert((i - k - 1) * delta >= k * delta) by (nonlinear_arith)
            requires
                i - k - 1 >= k,
                delta > 0,
        ;
    }
}

} // verus!
