//! What holds of every stage, whatever the wave and however the ticks fall.

use vstd::prelude::*;
use crate::enemy::SpawnEnemyEvent;
use crate::stage::model::{
    advance, check_hold, counted_down, deaths, due, started_with, tick, with_wave,
    OrchestrationError, Progress, StageModel, TickModel, Verdict,
};
use crate::stage::waves::{
    all_supported, lemma_spawn_run, spawn_action, spawn_run, supported, Condition, Delay,
    WaveAction,
};

verus! {

/// What reaches a stage from outside: a tick, with the nanoseconds since the
/// last one, or the notification of a death.
pub enum Feed {
    Tick(u64),
    Death,
}

/// A stage after a run of ticks and deaths, and the spawn requests emitted on
/// the way, in order.
#[verifier::ext_equal]
pub struct Play {
    pub state: StageModel,
    pub spawns: Seq<SpawnEnemyEvent>,
}

/// Plays a feed, first to last, on a stage.
pub open spec fn play(m: StageModel, feed: Seq<Feed>) -> Play
    decreases feed.len(),
{
    if feed.len() == 0 {
        Play { state: m, spawns: Seq::empty() }
    } else {
        let before = play(m, feed.drop_last());
        match feed.last() {
            Feed::Tick(elapsed) => {
                let ticked = tick(before.state, elapsed as int);
                Play { state: ticked.state, spawns: before.spawns + ticked.spawns }
            },
            Feed::Death => Play { state: deaths(before.state, 1), spawns: before.spawns },
        }
    }
}

/// The nanoseconds that the ticks of a feed add up to.
pub open spec fn elapsed_in(feed: Seq<Feed>) -> int
    decreases feed.len(),
{
    if feed.len() == 0 {
        0
    } else {
        elapsed_in(feed.drop_last()) + match feed.last() {
            Feed::Tick(elapsed) => elapsed as int,
            Feed::Death => 0,
        }
    }
}

/// The number of ticks in a feed.
pub open spec fn ticks_in(feed: Seq<Feed>) -> nat
    decreases feed.len(),
{
    if feed.len() == 0 {
        0
    } else {
        ticks_in(feed.drop_last()) + match feed.last() {
            Feed::Tick(_) => 1nat,
            Feed::Death => 0nat,
        }
    }
}

/// The number of death notifications in a feed.
pub open spec fn deaths_in(feed: Seq<Feed>) -> nat
    decreases feed.len(),
{
    if feed.len() == 0 {
        0
    } else {
        deaths_in(feed.drop_last()) + match feed.last() {
            Feed::Tick(_) => 0nat,
            Feed::Death => 1nat,
        }
    }
}

/// The ticks of a feed never add up to less than nothing.
pub proof fn lemma_elapsed_in_bounds(feed: Seq<Feed>)
    ensures
        elapsed_in(feed) >= 0,
    decreases feed.len(),
{
    if feed.len() > 0 {
        lemma_elapsed_in_bounds(feed.drop_last());
    }
}

/// Whether a stage is running and held at the given action.
pub open spec fn held(m: StageModel, action: WaveAction) -> bool {
    m.started && m.wave is Some && m.current_action == Some(action)
}

/// A tick on which the wave stays held: nothing is emitted and nothing is taken
/// off the wave.
pub open spec fn blocked(state: StageModel) -> TickModel {
    TickModel { state, spawns: Seq::empty(), outcome: Ok(Progress::Blocked) }
}

/// A real-time delay holds the wave as long as the ticks add up to less than
/// its duration: through any such feed nothing is emitted, nothing is taken
/// off the wave, and the timer holds the sum.
pub proof fn lemma_seconds_delay_holds(m: StageModel, nanos: i64, feed: Seq<Feed>)
    requires
        held(m, WaveAction::Delay(Delay::Seconds(nanos))),
        m.timer + elapsed_in(feed) < nanos,
    ensures
        play(m, feed) == (Play {
            state: StageModel {
                timer: m.timer + elapsed_in(feed),
                alive_enemies: m.alive_enemies - deaths_in(feed),
                ..m
            },
            spawns: Seq::empty(),
        }),
    decreases feed.len(),
{
    if feed.len() > 0 {
        lemma_seconds_delay_holds(m, nanos, feed.drop_last());
    }
}

/// A real-time delay clears on the first tick that brings the timer to its
/// duration: on that tick the wave advances. Short of it the tick is blocked.
pub proof fn lemma_seconds_delay_tick(m: StageModel, nanos: i64, elapsed: u64)
    requires
        held(m, WaveAction::Delay(Delay::Seconds(nanos))),
    ensures
        m.timer + elapsed < due(nanos) ==> tick(m, elapsed as int) == blocked(
            StageModel { timer: m.timer + elapsed, ..m },
        ),
        m.timer + elapsed >= due(nanos) ==> tick(m, elapsed as int) == advance(
            StageModel { timer: due(nanos), current_action: None, ..m },
            m.wave->Some_0,
        ),
{
}

/// A tick delay holds the wave through fewer ticks than its counter shows:
/// through any such feed nothing is emitted, nothing is taken off the wave,
/// and the counter goes down by one per tick.
pub proof fn lemma_ticks_delay_holds(m: StageModel, count: i32, feed: Seq<Feed>)
    requires
        held(m, WaveAction::Delay(Delay::Ticks(count))),
        ticks_in(feed) < m.ticks,
    ensures
        play(m, feed) == (Play {
            state: StageModel {
                ticks: m.ticks - ticks_in(feed),
                alive_enemies: m.alive_enemies - deaths_in(feed),
                ..m
            },
            spawns: Seq::empty(),
        }),
    decreases feed.len(),
{
    if feed.len() > 0 {
        lemma_ticks_delay_holds(m, count, feed.drop_last());
    }
}

/// A tick delay clears on the tick that finds at most one tick left on the
/// counter: on that tick the wave advances. With more left the tick is
/// blocked.
pub proof fn lemma_ticks_delay_tick(m: StageModel, count: i32, elapsed: u64)
    requires
        held(m, WaveAction::Delay(Delay::Ticks(count))),
    ensures
        m.ticks > 1 ==> tick(m, elapsed as int) == blocked(StageModel { ticks: m.ticks - 1, ..m }),
        m.ticks <= 1 ==> tick(m, elapsed as int) == advance(
            StageModel { ticks: counted_down(m.ticks), current_action: None, ..m },
            m.wave->Some_0,
        ),
{
}

/// A delay of `count` ticks, `count` at least one, clears after exactly
/// `count` ticks: whatever the first `count - 1` ticks bring, and whatever
/// deaths come between them, the wave stays held; the tick after them opens it.
pub proof fn lemma_ticks_delay_exact(m: StageModel, count: i32, feed: Seq<Feed>, elapsed: u64)
    requires
        held(m, WaveAction::Delay(Delay::Ticks(count))),
        m.ticks == count,
        count >= 1,
        ticks_in(feed) == count - 1,
    ensures
        play(m, feed).spawns == Seq::<SpawnEnemyEvent>::empty(),
        play(m, feed).state.current_action == m.current_action,
        play(m, feed).state.wave == m.wave,
        check_hold(play(m, feed).state, elapsed as int).1 == Verdict::Open,
{
    lemma_ticks_delay_holds(m, count, feed);
}

/// Deaths alone change nothing but the enemies alive.
pub proof fn lemma_deaths_only(m: StageModel, feed: Seq<Feed>)
    requires
        ticks_in(feed) == 0,
    ensures
        play(m, feed) == (Play { state: deaths(m, deaths_in(feed)), spawns: Seq::empty() }),
        elapsed_in(feed) == 0,
    decreases feed.len(),
{
    if feed.len() > 0 {
        lemma_deaths_only(m, feed.drop_last());
    }
}

/// A real-time delay does not clear on any feed whose ticks add up to less
/// than its duration, and clears on the first tick that brings the sum to it.
/// For a delay of no or negative duration that is the first tick after it was
/// installed.
pub proof fn lemma_seconds_delay_exact(m: StageModel, nanos: i64, feed: Seq<Feed>, elapsed: u64)
    requires
        held(m, WaveAction::Delay(Delay::Seconds(nanos))),
        m.timer == 0,
        elapsed_in(feed) < nanos || ticks_in(feed) == 0,
        elapsed_in(feed) + elapsed >= nanos,
    ensures
        play(m, feed).spawns == Seq::<SpawnEnemyEvent>::empty(),
        play(m, feed).state.current_action == m.current_action,
        play(m, feed).state.wave == m.wave,
        check_hold(play(m, feed).state, elapsed as int).1 == Verdict::Open,
{
    lemma_elapsed_in_bounds(feed);
    if elapsed_in(feed) < nanos {
        lemma_seconds_delay_holds(m, nanos, feed);
    } else {
        lemma_deaths_only(m, feed);
    }
}

/// A wait for the previous wave to die holds while an enemy is alive, and the
/// tick changes nothing then. The first tick that finds none alive lifts the
/// hold, and the wave advances on that tick.
pub proof fn lemma_died_condition_tick(m: StageModel, elapsed: u64)
    requires
        held(m, WaveAction::Condition(Condition::PreviousWaveHasDied)),
    ensures
        m.alive_enemies > 0 ==> tick(m, elapsed as int) == blocked(m),
        m.alive_enemies <= 0 ==> tick(m, elapsed as int) == advance(
            StageModel { current_action: None, ..m },
            m.wave->Some_0,
        ),
{
}

/// Every spawn that a tick executes adds one to the enemies alive and emits
/// one request, with the kind and position of the action. The requests come
/// in the order of the actions, which are the first on the wave.
pub proof fn lemma_tick_spawns(m: StageModel, elapsed: u64)
    ensures
        tick(m, elapsed as int).state.alive_enemies == m.alive_enemies + tick(
            m,
            elapsed as int,
        ).spawns.len(),
        tick(m, elapsed as int).spawns.len() > 0 ==> m.wave is Some,
        m.wave is Some ==> tick(m, elapsed as int).spawns.len() <= m.wave->Some_0.len(),
        forall|i: int|
            0 <= i < tick(m, elapsed as int).spawns.len() ==> (#[trigger] m.wave->Some_0[i])
                == spawn_action(
                tick(m, elapsed as int).spawns[i].enemy_type,
                tick(m, elapsed as int).spawns[i].position,
            ),
{
    if m.wave is Some {
        lemma_spawn_run(m.wave->Some_0);
    }
}

/// Whether a stage holds nothing that an orchestrator cannot carry out:
/// neither on its wave nor as the action the wave is held at.
pub open spec fn sound(m: StageModel) -> bool {
    &&& m.wave matches Some(queue) ==> all_supported(queue)
    &&& m.current_action matches Some(action) ==> supported(action) && action !is Spawn
}

/// A wave that an orchestrator can carry out makes a sound stage when it is
/// assigned.
pub proof fn lemma_supported_wave_starts_sound(m: StageModel, script: Seq<WaveAction>)
    requires
        all_supported(script),
    ensures
        sound(started_with(m, script)),
        sound(with_wave(m, script)),
{
}

/// A sound stage never fails on an action: the only error that a tick on it
/// can report is the missing wave. And it stays sound, through ticks and
/// deaths alike.
pub proof fn lemma_sound_stage_never_faults(m: StageModel, elapsed: u64)
    requires
        sound(m),
    ensures
        tick(m, elapsed as int).outcome != Err::<Progress, OrchestrationError>(
            OrchestrationError::UnsupportedSpawn,
        ),
        tick(m, elapsed as int).outcome != Err::<Progress, OrchestrationError>(
            OrchestrationError::UnsupportedCondition,
        ),
        sound(tick(m, elapsed as int).state),
        sound(deaths(m, 1)),
{
    if m.started && m.wave is Some {
        let queue = m.wave->Some_0;
        lemma_spawn_run(queue);
        let run = spawn_run(queue) as int;
        if run < queue.len() {
            assert(supported(queue[run]));
            let rest = queue.skip(run + 1);
            assert forall|i: int| 0 <= i < rest.len() implies supported(#[trigger] rest[i]) by {
                assert(rest[i] == queue[i + run + 1]);
            }
        }
    }
}

/// The enemies alive are the spawns less the deaths: through any feed, the
/// count goes up by the requests emitted and down by the deaths notified.
pub proof fn lemma_alive_is_spawns_less_deaths(m: StageModel, feed: Seq<Feed>)
    ensures
        play(m, feed).state.alive_enemies == m.alive_enemies + play(m, feed).spawns.len()
            - deaths_in(feed),
    decreases feed.len(),
{
    if feed.len() > 0 {
        lemma_alive_is_spawns_less_deaths(m, feed.drop_last());
        match feed.last() {
            Feed::Tick(elapsed) => {
                lemma_tick_spawns(play(m, feed.drop_last()).state, elapsed);
            },
            Feed::Death => {},
        }
    }
}

} // verus!
