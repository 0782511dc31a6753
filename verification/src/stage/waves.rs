//! Wave scripts: an ordered queue of spawn, delay and condition actions, and
//! the builder that writes one.

use std::collections::VecDeque;
use vstd::prelude::*;
use crate::components::Position;
use crate::enemy::types::EnemyType;

verus! {

/// What a spawn action brings into play.
#[derive(Clone, Copy, Debug, PartialEq, Eq, Structural)]
pub enum EnemySpawn {
    /// One enemy of a kind at a position.
    At { enemy: EnemyType, position: Position },
    /// Somewhere inside a region. Reserved: no orchestrator can execute it.
    Inside,
}

/// How long a delay action holds the wave back.
#[derive(Clone, Copy, Debug, PartialEq, Eq, Structural)]
pub enum Delay {
    /// Real time, in whole nanoseconds. A negative value waits as zero does.
    Seconds(i64),
    /// A number of orchestrator ticks.
    Ticks(i32),
}

/// What a condition action waits for.
#[derive(Debug, PartialEq, Eq)]
pub enum Condition {
    /// No enemy is alive any more.
    PreviousWaveHasDied,
    /// All of the listed conditions. Reserved: no orchestrator can evaluate it.
    And(Vec<Condition>),
    /// One of the listed conditions. Reserved: no orchestrator can evaluate it.
    Or(Vec<Condition>),
}

/// One instruction of a wave script.
#[derive(Debug, PartialEq, Eq)]
pub enum WaveAction {
    Spawn(EnemySpawn),
    Delay(Delay),
    Condition(Condition),
}

/// A wave of enemies: its actions, first in, first out.
pub struct Wave {
    actions: VecDeque<WaveAction>,
}

/// What one pull takes from a queue of actions: the head, if there is one, and
/// what stays behind.
pub open spec fn pull(queue: Seq<WaveAction>) -> (Option<WaveAction>, Seq<WaveAction>) {
    if queue.len() == 0 {
        (None, queue)
    } else {
        (Some(queue[0]), queue.skip(1))
    }
}

impl View for Wave {
    type V = Seq<WaveAction>;

    closed spec fn view(&self) -> Seq<WaveAction> {
        self.actions@
    }
}

/// Whether an orchestrator can carry an action out: every action but a spawn
/// inside a region and a wait on a composite condition.
pub open spec fn supported(action: WaveAction) -> bool {
    match action {
        WaveAction::Spawn(EnemySpawn::Inside) => false,
        WaveAction::Condition(Condition::And(_)) => false,
        WaveAction::Condition(Condition::Or(_)) => false,
        _ => true,
    }
}

/// Whether an orchestrator can carry out every action of a queue.
pub open spec fn all_supported(queue: Seq<WaveAction>) -> bool {
    forall|i: int| 0 <= i < queue.len() ==> supported(#[trigger] queue[i])
}

/// Tells whether an orchestrator can carry an action out.
pub fn is_supported(action: &WaveAction) -> (fine: bool)
    ensures
        fine == supported(*action),
{
    match action {
        WaveAction::Spawn(EnemySpawn::Inside) => false,
        WaveAction::Condition(Condition::And(_)) => false,
        WaveAction::Condition(Condition::Or(_)) => false,
        _ => true,
    }
}

/// Tells whether an action spawns one enemy at a position.
pub fn is_spawn(action: &WaveAction) -> (spawns: bool)
    ensures
        spawns == is_spawn_at(*action),
{
    match action {
        WaveAction::Spawn(EnemySpawn::At { .. }) => true,
        _ => false,
    }
}

impl Wave {
    /// Takes the next action off the wave, or `None` once the wave is empty.
    pub fn next_action(&mut self) -> (action: Option<WaveAction>)
        ensures
            (action, final(self)@) == pull(old(self)@),
    {
        let action = self.actions.pop_front();
        proof {
            assert(old(self)@.skip(1) =~= old(self)@.subrange(1, old(self)@.len() as int));
        }
        action
    }

    /// The number of actions still waiting.
    pub fn len(&self) -> (n: usize)
        ensures
            n == self@.len(),
    {
        self.actions.len()
    }

    /// Counts the spawns at the head of the wave: those that the next advance
    /// will execute.
    pub fn leading_spawns(&self) -> (count: usize)
        ensures
            count == spawn_run(self@),
    {
        let mut count: usize = 0;
        proof {
            lemma_spawn_run(self@);
        }
        while count < self.actions.len() && is_spawn(&self.actions[count])
            invariant
                count <= self@.len(),
                self@ == self.actions@,
                forall|i: int| 0 <= i < count ==> is_spawn_at(#[trigger] self@[i]),
                spawn_run(self@) <= self@.len(),
                forall|i: int| 0 <= i < spawn_run(self@) ==> is_spawn_at(#[trigger] self@[i]),
                spawn_run(self@) < self@.len() ==> !is_spawn_at(self@[spawn_run(self@) as int]),
            decreases self@.len() - count,
        {
            count = count + 1;
        }
        count
    }

    /// Tells whether an orchestrator can carry out every action of the wave.
    /// A wave that passes never makes a tick fail.
    pub fn is_supported(&self) -> (fine: bool)
        ensures
            fine == all_supported(self@),
    {
        let mut seen: usize = 0;
        while seen < self.actions.len()
            invariant
                seen <= self@.len(),
                self@ == self.actions@,
                forall|i: int| 0 <= i < seen ==> supported(#[trigger] self@[i]),
            decreases self@.len() - seen,
        {
            if !is_supported(&self.actions[seen]) {
                return false;
            }
            seen = seen + 1;
        }
        true
    }

    /// Takes every action off the wave, first to last.
    pub fn into_actions(self) -> (actions: Vec<WaveAction>)
        ensures
            actions@ == self@,
    {
        let ghost script = self@;
        let mut queue = self.actions;
        let mut actions: Vec<WaveAction> = Vec::new();
        while queue.len() > 0
            invariant
                actions@ + queue@ == script,
            decreases queue.len(),
        {
            let ghost taken = actions@;
            let ghost left = queue@;
            let action = queue.pop_front().unwrap();
            actions.push(action);
            assert(actions@ + queue@ =~= taken + left);
        }
        assert(actions@ =~= actions@ + queue@);
        actions
    }

    /// Whether every action has been taken.
    pub fn is_empty(&self) -> (empty: bool)
        ensures
            empty == (self@.len() == 0),
    {
        self.actions.len() == 0
    }
}

/// Whether an action spawns one enemy at a position, which never holds the
/// wave back.
pub open spec fn is_spawn_at(action: WaveAction) -> bool {
    action matches WaveAction::Spawn(EnemySpawn::At { .. })
}

/// The number of spawns at the head of a queue, up to its first delay,
/// condition or unsupported spawn.
pub open spec fn spawn_run(queue: Seq<WaveAction>) -> nat
    decreases queue.len(),
{
    if queue.len() == 0 || !is_spawn_at(queue[0]) {
        0
    } else {
        1 + spawn_run(queue.skip(1))
    }
}

/// The spawn run of a queue is the one prefix of spawns that cannot be made
/// longer: every action in it spawns an enemy at a position, and the action
/// behind it, if there is one, does not.
pub proof fn lemma_spawn_run(queue: Seq<WaveAction>)
    ensures
        spawn_run(queue) <= queue.len(),
        forall|i: int| 0 <= i < spawn_run(queue) ==> is_spawn_at(#[trigger] queue[i]),
        spawn_run(queue) < queue.len() ==> !is_spawn_at(queue[spawn_run(queue) as int]),
    decreases queue.len(),
{
    if queue.len() > 0 && is_spawn_at(queue[0]) {
        let rest = queue.skip(1);
        lemma_spawn_run(rest);
        assert forall|i: int| 0 <= i < spawn_run(queue) implies is_spawn_at(
            #[trigger] queue[i],
        ) by {
            if i > 0 {
                assert(queue[i] == rest[i - 1]);
            }
        }
        if spawn_run(queue) < queue.len() {
            assert(queue[spawn_run(queue) as int] == rest[spawn_run(rest) as int]);
        }
    }
}

/// The result of the pull number `n`, counted from zero, on a queue of
/// actions, each pull working on what the one before left behind.
pub open spec fn nth_pull(queue: Seq<WaveAction>, n: nat) -> Option<WaveAction>
    decreases n,
{
    if n == 0 {
        pull(queue).0
    } else {
        nth_pull(pull(queue).1, (n - 1) as nat)
    }
}

/// One call on a wave builder, with its arguments.
pub enum BuilderCall {
    SpawnAt(EnemyType, Position),
    WaitFor(Condition),
    WaitSec(i64),
    WaitTicks(i32),
}

/// The action that spawns one enemy of a kind at a position.
pub open spec fn spawn_action(enemy: EnemyType, position: Position) -> WaveAction {
    WaveAction::Spawn(EnemySpawn::At { enemy, position })
}

/// The action that a call on a wave builder appends.
pub open spec fn appended(call: BuilderCall) -> WaveAction {
    match call {
        BuilderCall::SpawnAt(enemy, position) => spawn_action(enemy, position),
        BuilderCall::WaitFor(condition) => WaveAction::Condition(condition),
        BuilderCall::WaitSec(nanos) => WaveAction::Delay(Delay::Seconds(nanos)),
        BuilderCall::WaitTicks(ticks) => WaveAction::Delay(Delay::Ticks(ticks)),
    }
}

/// The script that a new builder holds after the given calls, first to last.
pub open spec fn script(calls: Seq<BuilderCall>) -> Seq<WaveAction>
    decreases calls.len(),
{
    if calls.len() == 0 {
        Seq::empty()
    } else {
        script(calls.drop_last()).push(appended(calls.last()))
    }
}

/// A script holds one action per call, in the order of the calls.
pub proof fn lemma_script_follows_calls(calls: Seq<BuilderCall>)
    ensures
        script(calls).len() == calls.len(),
        forall|i: int| 0 <= i < calls.len() ==> script(calls)[i] == appended(#[trigger] calls[i]),
    decreases calls.len(),
{
    if calls.len() > 0 {
        let front = calls.drop_last();
        lemma_script_follows_calls(front);
        assert forall|i: int| 0 <= i < calls.len() implies script(calls)[i] == appended(
            #[trigger] calls[i],
        ) by {
            if i < front.len() {
                assert(calls[i] == front[i]);
            }
        }
    }
}

/// Pulls take the actions of a queue off in order, one each, and find the
/// queue empty from then on.
pub proof fn lemma_pulls_are_first_in_first_out(queue: Seq<WaveAction>, n: nat)
    ensures
        nth_pull(queue, n) == if n < queue.len() {
            Some(queue[n as int])
        } else {
            None
        },
    decreases n,
{
    if n > 0 {
        lemma_pulls_are_first_in_first_out(pull(queue).1, (n - 1) as nat);
    }
}

/// A wave built by any run of builder calls plays in call order: the pull
/// number `n` yields the action of call number `n`, and the pull after the
/// last action, like every later one, finds the wave empty.
pub proof fn lemma_wave_plays_in_call_order(calls: Seq<BuilderCall>, n: nat)
    ensures
        nth_pull(script(calls), n) == if n < calls.len() {
            Some(appended(calls[n as int]))
        } else {
            None
        },
{
    lemma_script_follows_calls(calls);
    lemma_pulls_are_first_in_first_out(script(calls), n);
}

/// You can build waves of enemies using a fluent syntax: each call appends
/// one action, and `build` hands the script over as a wave.
pub struct WaveBuilder {
    actions: Vec<WaveAction>,
}

impl View for WaveBuilder {
    type V = Seq<WaveAction>;

    closed spec fn view(&self) -> Seq<WaveAction> {
        self.actions@
    }
}

impl WaveBuilder {
    /// A builder that holds no action yet.
    pub fn new() -> (builder: WaveBuilder)
        ensures
            builder@ == Seq::<WaveAction>::empty(),
    {
        WaveBuilder { actions: Vec::new() }
    }

    /// Spawn a single enemy.
    pub fn spawn_at(&mut self, enemy: EnemyType, position: Position) -> (builder: &WaveBuilder)
        ensures
            final(self)@ == old(self)@.push(appended(BuilderCall::SpawnAt(enemy, position))),
            builder@ == final(self)@,
    {
        self.actions.push(WaveAction::Spawn(EnemySpawn::At { enemy, position }));
        self
    }

    /// Wait for condition to be true.
    pub fn wait_for(&mut self, condition: Condition) -> (builder: &WaveBuilder)
        ensures
            final(self)@ == old(self)@.push(appended(BuilderCall::WaitFor(condition))),
            builder@ == final(self)@,
    {
        self.actions.push(WaveAction::Condition(condition));
        self
    }

    /// Wait a real-time delay, given in nanoseconds, until the next spawn.
    pub fn wait_sec(&mut self, nanos: i64) -> (builder: &WaveBuilder)
        ensures
            final(self)@ == old(self)@.push(appended(BuilderCall::WaitSec(nanos))),
            builder@ == final(self)@,
    {
        self.actions.push(WaveAction::Delay(Delay::Seconds(nanos)));
        self
    }

    /// Wait ticks until next spawn.
    pub fn wait_ticks(&mut self, ticks: i32) -> (builder: &WaveBuilder)
        ensures
            final(self)@ == old(self)@.push(appended(BuilderCall::WaitTicks(ticks))),
            builder@ == final(self)@,
    {
        self.actions.push(WaveAction::Delay(Delay::Ticks(ticks)));
        self
    }

    /// Hands the script over as a wave. The builder is used up.
    pub fn build(self) -> (wave: Wave)
        ensures
            wave@ == self@,
    {
        Wave::from(self.actions)
    }
}

impl From<Vec<WaveAction>> for Wave {
    /// The wave that plays the given actions, first to last.
    fn from(actions: Vec<WaveAction>) -> (wave: Wave)
        ensures
            wave@ == actions@,
    {
        let ghost script = actions@;
        let mut rest = actions;
        let mut queue: VecDeque<WaveAction> = VecDeque::new();
        while rest.len() > 0
            invariant
                rest@ + queue@ == script,
            decreases rest.len(),
        {
            let ghost before = rest@;
            let ghost tail = queue@;
            let last = rest.pop().unwrap();
            queue.push_front(last);
            assert(rest@ + queue@ =~= before + tail);
        }
        assert(queue@ =~= rest@ + queue@);
        Wave { actions: queue }
    }
}

/// A wave is known by its view alone, so the conversion is not pinned to one
/// value here: `from` itself states the view of what it returns.
impl vstd::std_specs::convert::FromSpecImpl<Vec<WaveAction>> for Wave {
    open spec fn obeys_from_spec() -> bool {
        false
    }

    open spec fn from_spec(actions: Vec<WaveAction>) -> Wave {
        arbitrary()
    }
}

} // verus!
