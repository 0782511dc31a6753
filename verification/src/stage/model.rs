//! The orchestrator as mathematics: what a stage holds, and what one tick
//! makes of it.

use vstd::prelude::*;
use crate::enemy::SpawnEnemyEvent;
use crate::stage::waves::{is_spawn_at, spawn_run, Condition, Delay, EnemySpawn, WaveAction};

verus! {

/// Why a tick could not do its work.
#[derive(Clone, Copy, Debug, PartialEq, Eq, Structural)]
pub enum OrchestrationError {
    /// The stage was started, but no wave was assigned to it.
    MissingWave,
    /// The wave asks for a spawn inside a region, which nothing can execute.
    UnsupportedSpawn,
    /// The wave waits on a composite condition, which nothing can evaluate.
    UnsupportedCondition,
}

/// How far a tick got.
#[derive(Clone, Copy, Debug, PartialEq, Eq, Structural)]
pub enum Progress {
    /// The stage has not been started.
    Idle,
    /// The wave stayed held: nothing was taken off it.
    Blocked,
    /// The wave advanced up to a delay or condition and now waits on it.
    Waiting,
    /// The wave has no action left.
    Exhausted,
}

/// The state of a stage.
#[verifier::ext_equal]
pub struct StageModel {
    /// The actions still to play, if a wave was assigned.
    pub wave: Option<Seq<WaveAction>>,
    pub started: bool,
    /// Nanoseconds counted on the current real-time delay.
    pub timer: int,
    /// Ticks left on the current tick delay.
    pub ticks: int,
    /// The action the wave is held at, if any.
    pub current_action: Option<WaveAction>,
    /// Enemies spawned and not yet reported dead. May be negative.
    pub alive_enemies: int,
}

/// What a tick comes to: the state after it, the spawn requests it emits, in
/// order, and how far it got.
#[verifier::ext_equal]
pub struct TickModel {
    pub state: StageModel,
    pub spawns: Seq<SpawnEnemyEvent>,
    pub outcome: Result<Progress, OrchestrationError>,
}

/// The spawn request that a spawn action stands for.
pub open spec fn event_of(action: WaveAction) -> SpawnEnemyEvent
    recommends
        is_spawn_at(action),
{
    match action {
        WaveAction::Spawn(EnemySpawn::At { enemy, position }) => SpawnEnemyEvent {
            position,
            enemy_type: enemy,
        },
        _ => arbitrary(),
    }
}

/// The spawn requests for the first `count` actions of a queue.
pub open spec fn spawn_events(queue: Seq<WaveAction>, count: nat) -> Seq<SpawnEnemyEvent> {
    Seq::new(count, |i: int| event_of(queue[i]))
}

/// The duration of a real-time delay: a negative one counts as zero.
pub open spec fn due(nanos: i64) -> int {
    if nanos < 0 {
        0
    } else {
        nanos as int
    }
}

/// The tick counter after one tick. It stops at the least `i32`.
pub open spec fn counted_down(ticks: int) -> int {
    if ticks > i32::MIN {
        ticks - 1
    } else {
        ticks
    }
}

/// What a tick finds of the hold on the wave.
pub enum Verdict {
    /// Nothing holds the wave, or what held it has cleared: the wave may advance.
    Open,
    /// The wave stays held.
    Held,
    /// The wave is held at an action that can never clear.
    Fault(OrchestrationError),
}

/// Tries the hold of a stage against the time that the tick brings and the
/// enemies alive. Gives the state afterwards, with the hold lifted if it
/// cleared, and the verdict.
pub open spec fn check_hold(m: StageModel, elapsed: int) -> (StageModel, Verdict) {
    match m.current_action {
        None => (m, Verdict::Open),
        Some(WaveAction::Delay(Delay::Seconds(nanos))) => {
            if m.timer + elapsed >= due(nanos) {
                (StageModel { timer: due(nanos), current_action: None, ..m }, Verdict::Open)
            } else {
                (StageModel { timer: m.timer + elapsed, ..m }, Verdict::Held)
            }
        },
        Some(WaveAction::Delay(Delay::Ticks(_))) => {
            if counted_down(m.ticks) <= 0 {
                (
                    StageModel { ticks: counted_down(m.ticks), current_action: None, ..m },
                    Verdict::Open,
                )
            } else {
                (StageModel { ticks: counted_down(m.ticks), ..m }, Verdict::Held)
            }
        },
        Some(WaveAction::Condition(Condition::PreviousWaveHasDied)) => {
            if m.alive_enemies <= 0 {
                (StageModel { current_action: None, ..m }, Verdict::Open)
            } else {
                (m, Verdict::Held)
            }
        },
        Some(WaveAction::Condition(_)) => (m, Verdict::Fault(
            OrchestrationError::UnsupportedCondition,
        )),
        Some(WaveAction::Spawn(_)) => (m, Verdict::Fault(OrchestrationError::UnsupportedSpawn)),
    }
}

/// Holds a stage at an action that was just taken off the wave, and sets the
/// timer or counter that the action needs.
pub open spec fn hold_at(m: StageModel, action: WaveAction) -> StageModel {
    match action {
        WaveAction::Delay(Delay::Seconds(_)) => StageModel {
            current_action: Some(action),
            timer: 0,
            ..m
        },
        WaveAction::Delay(Delay::Ticks(ticks)) => StageModel {
            current_action: Some(action),
            ticks: ticks as int,
            ..m
        },
        _ => StageModel { current_action: Some(action), ..m },
    }
}

/// Advances a stage that nothing holds: executes the spawns at the head of
/// `queue`, then stops at the action behind them, or at the end of the wave.
pub open spec fn advance(m: StageModel, queue: Seq<WaveAction>) -> TickModel {
    let run = spawn_run(queue);
    let spawns = spawn_events(queue, run);
    let counted = StageModel { alive_enemies: m.alive_enemies + run, ..m };
    if run == queue.len() {
        TickModel {
            state: StageModel { wave: Some(Seq::empty()), ..counted },
            spawns,
            outcome: Ok(Progress::Exhausted),
        }
    } else {
        let action = queue[run as int];
        TickModel {
            state: hold_at(
                StageModel { wave: Some(queue.skip(run as int + 1)), ..counted },
                action,
            ),
            spawns,
            outcome: if action is Spawn {
                Err(OrchestrationError::UnsupportedSpawn)
            } else {
                Ok(Progress::Waiting)
            },
        }
    }
}

/// One tick of the orchestrator, `elapsed` nanoseconds after the last.
pub open spec fn tick(m: StageModel, elapsed: int) -> TickModel {
    if !m.started {
        TickModel { state: m, spawns: Seq::empty(), outcome: Ok(Progress::Idle) }
    } else if m.wave is None {
        TickModel { state: m, spawns: Seq::empty(), outcome: Err(OrchestrationError::MissingWave) }
    } else {
        let (checked, verdict) = check_hold(m, elapsed);
        match verdict {
            Verdict::Open => advance(checked, m.wave->Some_0),
            Verdict::Held => TickModel {
                state: checked,
                spawns: Seq::empty(),
                outcome: Ok(Progress::Blocked),
            },
            Verdict::Fault(error) => TickModel {
                state: checked,
                spawns: Seq::empty(),
                outcome: Err(error),
            },
        }
    }
}

/// The stage after `count` death notifications.
pub open spec fn deaths(m: StageModel, count: nat) -> StageModel {
    StageModel { alive_enemies: m.alive_enemies - count, ..m }
}

/// A stage that has not been started: no wave, no hold, no enemy alive.
pub open spec fn idle() -> StageModel {
    StageModel {
        wave: None,
        started: false,
        timer: 0,
        ticks: 0,
        current_action: None,
        alive_enemies: 0,
    }
}

/// The stage once a wave is assigned to it: nothing holds the new wave, the
/// timer and the counter are at zero, and the enemies that were alive before
/// are still counted.
pub open spec fn with_wave(m: StageModel, script: Seq<WaveAction>) -> StageModel {
    StageModel { wave: Some(script), timer: 0, ticks: 0, current_action: None, ..m }
}

/// The stage once it is started.
pub open spec fn begun(m: StageModel) -> StageModel {
    StageModel { started: true, ..m }
}

/// The stage once a wave is assigned to it and it is started.
pub open spec fn started_with(m: StageModel, script: Seq<WaveAction>) -> StageModel {
    begun(with_wave(m, script))
}

/// Whether the wave of a stage has been played to its end: no action is left
/// and none holds the wave.
pub open spec fn exhausted(m: StageModel) -> bool {
    m.wave == Some(Seq::<WaveAction>::empty()) && m.current_action is None
}

} // verus!
