//! The orchestrator: once per tick it tries the action the wave is held at and,
//! if that has cleared, plays the wave up to the next hold.

use vstd::prelude::*;
use crate::clock::tick_timer;
use crate::enemy::SpawnEnemyEvent;
use crate::health::OnDeathEvent;
use crate::stage::model::{
    advance, begun, check_hold, deaths, exhausted, idle, spawn_events, started_with, tick,
    with_wave, OrchestrationError, Progress, StageModel, Verdict,
};
use crate::stage::waves::{
    is_spawn_at, lemma_spawn_run, spawn_run, Condition, Delay, EnemySpawn, Wave, WaveAction,
};

verus! {

/// The state of the stage that is being played. Only the orchestrator's tick
/// and the death notifications write the count of enemies alive.
pub struct OrchestrationState {
    wave: Option<Wave>,
    started: bool,
    timer: u64,
    ticks: i32,
    current_action: Option<WaveAction>,
    alive_enemies: i32,
}

/// What one tick did: the spawn requests it emits, in order, and how far it
/// got.
#[derive(Debug, PartialEq, Eq)]
pub struct TickReport {
    pub spawns: Vec<SpawnEnemyEvent>,
    pub outcome: Result<Progress, OrchestrationError>,
}

impl View for OrchestrationState {
    type V = StageModel;

    closed spec fn view(&self) -> StageModel {
        StageModel {
            wave: match self.wave {
                Some(wave) => Some(wave@),
                None => None,
            },
            started: self.started,
            timer: self.timer as int,
            ticks: self.ticks as int,
            current_action: self.current_action,
            alive_enemies: self.alive_enemies as int,
        }
    }
}

impl Default for OrchestrationState {
    /// A stage that has not been started.
    fn default() -> (state: OrchestrationState)
        ensures
            state@ == idle(),
    {
        OrchestrationState::new()
    }
}

impl OrchestrationState {
    /// A stage that has not been started: no wave, no hold, no enemy alive.
    pub fn new() -> (state: OrchestrationState)
        ensures
            state@ == idle(),
    {
        OrchestrationState {
            wave: None,
            started: false,
            timer: 0,
            ticks: 0,
            current_action: None,
            alive_enemies: 0,
        }
    }

    /// Assigns a wave. A hold left from an earlier wave is dropped; the
    /// enemies alive stay counted.
    pub fn assign(&mut self, wave: Wave)
        ensures
            final(self)@ == with_wave(old(self)@, wave@),
    {
        self.wave = Some(wave);
        self.timer = 0;
        self.ticks = 0;
        self.current_action = None;
    }

    /// Starts the stage: from now on a tick plays the wave.
    pub fn begin(&mut self)
        ensures
            final(self)@ == begun(old(self)@),
    {
        self.started = true;
    }

    /// Assigns a wave and starts the stage.
    pub fn start(&mut self, wave: Wave)
        ensures
            final(self)@ == started_with(old(self)@, wave@),
    {
        self.assign(wave);
        self.begin();
    }

    /// Takes note that one enemy died.
    pub fn notify_death(&mut self)
        requires
            old(self)@.alive_enemies > i32::MIN,
        ensures
            final(self)@ == deaths(old(self)@, 1),
    {
        self.alive_enemies = self.alive_enemies - 1;
    }

    /// Whether the stage has been started.
    pub fn is_started(&self) -> (started: bool)
        ensures
            started == self@.started,
    {
        self.started
    }

    /// The enemies spawned and not yet reported dead.
    pub fn alive_enemies(&self) -> (alive: i32)
        ensures
            alive == self@.alive_enemies,
    {
        self.alive_enemies
    }

    /// The action the wave is held at, if any.
    pub fn current_action(&self) -> (action: Option<&WaveAction>)
        ensures
            action == match self@.current_action {
                Some(held) => Some(&held),
                None => None,
            },
    {
        self.current_action.as_ref()
    }

    /// The number of actions still on the wave, if a wave is assigned.
    pub fn remaining_actions(&self) -> (left: Option<usize>)
        ensures
            left == match self@.wave {
                Some(queue) => Some(queue.len() as usize),
                None => None,
            },
            self@.wave is Some ==> self@.wave->Some_0.len() <= usize::MAX,
    {
        match &self.wave {
            Some(wave) => Some(wave.len()),
            None => None,
        }
    }

    /// The spawns that the next advance of the wave will execute: those at its
    /// head. None without a wave.
    pub fn pending_spawns(&self) -> (count: usize)
        ensures
            count == match self@.wave {
                Some(queue) => spawn_run(queue),
                None => 0,
            },
    {
        match &self.wave {
            Some(wave) => wave.leading_spawns(),
            None => 0,
        }
    }

    /// The nanoseconds counted on the real-time delay that was last installed.
    pub fn timer(&self) -> (nanos: u64)
        ensures
            nanos == self@.timer,
    {
        self.timer
    }

    /// The ticks left on the tick delay that was last installed.
    pub fn ticks(&self) -> (ticks: i32)
        ensures
            ticks == self@.ticks,
    {
        self.ticks
    }

    /// Whether the wave has been played to its end.
    pub fn is_exhausted(&self) -> (done: bool)
        ensures
            done == exhausted(self@),
    {
        match &self.wave {
            Some(wave) => {
                proof {
                    if wave@.len() == 0 {
                        assert(wave@ =~= Seq::<WaveAction>::empty());
                    }
                }
                wave.is_empty() && self.current_action.is_none()
            },
            None => false,
        }
    }

    /// Tries the hold against the time this tick brings and the enemies alive.
    fn check_hold(&mut self, elapsed: u64) -> (verdict: Verdict)
        ensures
            (final(self)@, verdict) == check_hold(old(self)@, elapsed as int),
    {
        match &self.current_action {
            None => Verdict::Open,
            Some(WaveAction::Delay(Delay::Seconds(nanos))) => {
                let duration: u64 = if *nanos < 0 {
                    0
                } else {
                    *nanos as u64
                };
                let (time, finished) = tick_timer(self.timer, duration, false, elapsed);
                self.timer = time;
                if finished {
                    self.current_action = None;
                    Verdict::Open
                } else {
                    Verdict::Held
                }
            },
            Some(WaveAction::Delay(Delay::Ticks(_))) => {
                if self.ticks > i32::MIN {
                    self.ticks = self.ticks - 1;
                }
                if self.ticks <= 0 {
                    self.current_action = None;
                    Verdict::Open
                } else {
                    Verdict::Held
                }
            },
            Some(WaveAction::Condition(Condition::PreviousWaveHasDied)) => {
                if self.alive_enemies <= 0 {
                    self.current_action = None;
                    Verdict::Open
                } else {
                    Verdict::Held
                }
            },
            Some(WaveAction::Condition(_)) => Verdict::Fault(
                OrchestrationError::UnsupportedCondition,
            ),
            Some(WaveAction::Spawn(_)) => Verdict::Fault(OrchestrationError::UnsupportedSpawn),
        }
    }

    /// Plays the wave from its head: executes spawns until an action holds the
    /// wave or the wave ends.
    fn advance(&mut self) -> (report: TickReport)
        requires
            old(self)@.wave is Some,
            old(self)@.alive_enemies + spawn_run(old(self)@.wave->Some_0) <= i32::MAX,
        ensures
            final(self)@ == advance(old(self)@, old(self)@.wave->Some_0).state,
            report.spawns@ == advance(old(self)@, old(self)@.wave->Some_0).spawns,
            report.outcome == advance(old(self)@, old(self)@.wave->Some_0).outcome,
    {
        let ghost before = self@;
        let ghost queue = self@.wave->Some_0;
        let mut wave = self.wave.take().unwrap();
        let mut spawns: Vec<SpawnEnemyEvent> = Vec::new();
        let mut outcome: Result<Progress, OrchestrationError> = Ok(Progress::Exhausted);
        proof {
            lemma_spawn_run(queue);
            assert(wave@ =~= queue.skip(0));
        }
        loop
            invariant_except_break
                spawns.len() <= spawn_run(queue),
                wave@ == queue.skip(spawns.len() as int),
                self.current_action == before.current_action,
                self.timer == before.timer,
                self.ticks == before.ticks,
                outcome == Ok::<Progress, OrchestrationError>(Progress::Exhausted),
            invariant
                self.started == before.started,
                self.wave is None,
                self.alive_enemies == before.alive_enemies + spawns.len(),
                spawns@ == spawn_events(queue, spawns.len() as nat),
                before.alive_enemies + spawn_run(queue) <= i32::MAX,
                spawn_run(queue) <= queue.len(),
                forall|i: int| 0 <= i < spawn_run(queue) ==> is_spawn_at(#[trigger] queue[i]),
                spawn_run(queue) < queue.len() ==> !is_spawn_at(queue[spawn_run(queue) as int]),
            ensures
                spawns.len() == spawn_run(queue),
                outcome == advance(before, queue).outcome,
                advance(before, queue).state.wave == Some(wave@),
                self.current_action == advance(before, queue).state.current_action,
                self.timer == advance(before, queue).state.timer,
                self.ticks == advance(before, queue).state.ticks,
            decreases wave@.len(),
        {
            let ghost pulled = spawns.len() as int;
            match wave.next_action() {
                None => {
                    assert(wave@ =~= Seq::<WaveAction>::empty());
                    break ;
                },
                Some(action) => {
                    assert(action == queue[pulled]);
                    assert(wave@ =~= queue.skip(pulled + 1));
                    match action {
                        WaveAction::Spawn(EnemySpawn::At { enemy, position }) => {
                            assert(is_spawn_at(action));
                            spawns.push(SpawnEnemyEvent { position, enemy_type: enemy });
                            self.alive_enemies = self.alive_enemies + 1;
                            assert(spawns@ =~= spawn_events(queue, spawns.len() as nat));
                        },
                        WaveAction::Spawn(EnemySpawn::Inside) => {
                            self.current_action = Some(action);
                            outcome = Err(OrchestrationError::UnsupportedSpawn);
                            break ;
                        },
                        WaveAction::Delay(Delay::Seconds(_)) => {
                            self.timer = 0;
                            self.current_action = Some(action);
                            outcome = Ok(Progress::Waiting);
                            break ;
                        },
                        WaveAction::Delay(Delay::Ticks(ticks)) => {
                            self.ticks = ticks;
                            self.current_action = Some(action);
                            outcome = Ok(Progress::Waiting);
                            break ;
                        },
                        WaveAction::Condition(_) => {
                            self.current_action = Some(action);
                            outcome = Ok(Progress::Waiting);
                            break ;
                        },
                    }
                },
            }
        }
        self.wave = Some(wave);
        TickReport { spawns, outcome }
    }
}

/// Takes note of the deaths that were announced since the last tick: each
/// takes one off the enemies alive, whoever died.
pub fn on_enemy_death(state: &mut OrchestrationState, announced: &Vec<OnDeathEvent>)
    requires
        old(state)@.alive_enemies - announced@.len() >= i32::MIN,
    ensures
        final(state)@ == deaths(old(state)@, announced@.len()),
{
    let mut noted: usize = 0;
    while noted < announced.len()
        invariant
            noted <= announced.len(),
            old(state)@.alive_enemies - announced@.len() >= i32::MIN,
            state@ == deaths(old(state)@, noted as nat),
        decreases announced.len() - noted,
    {
        state.notify_death();
        noted = noted + 1;
    }
}

/// Runs the stage for one tick, `elapsed` nanoseconds after the last one.
///
/// A stage that was not started is left alone. A started stage without a wave
/// reports `MissingWave` and is left alone. Otherwise the hold is tried; if it
/// stands, the tick ends there. If it has cleared, the spawns at the head of the
/// wave are executed, each adding one to the enemies alive, and the action
/// behind them becomes the new hold. The wave stays held for good at a spawn
/// inside a region and at a composite condition, and every tick from then on
/// reports the fault.
pub fn stage_orchestration(state: &mut OrchestrationState, elapsed: u64) -> (report: TickReport)
    requires
        tick(old(state)@, elapsed as int).state.alive_enemies <= i32::MAX,
    ensures
        final(state)@ == tick(old(state)@, elapsed as int).state,
        report.spawns@ == tick(old(state)@, elapsed as int).spawns,
        report.outcome == tick(old(state)@, elapsed as int).outcome,
{
    if !state.started {
        return TickReport { spawns: Vec::new(), outcome: Ok(Progress::Idle) };
    }
    if state.wave.is_none() {
        return TickReport { spawns: Vec::new(), outcome: Err(OrchestrationError::MissingWave) };
    }
    match state.check_hold(elapsed) {
        Verdict::Open => state.advance(),
        Verdict::Held => TickReport { spawns: Vec::new(), outcome: Ok(Progress::Blocked) },
        Verdict::Fault(error) => TickReport { spawns: Vec::new(), outcome: Err(error) },
    }
}

} // verus!
