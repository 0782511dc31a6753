//! The default wave: a random number of segments, each a grid of one kind of
//! enemy, a wait for the grid to die, and a pause before the next.

use vstd::prelude::*;
use crate::components::Position;
use crate::enemy::types::EnemyType;
use crate::random::draw;
use crate::stage::laws::sound;
use crate::stage::model::started_with;
use crate::stage::orchestration::OrchestrationState;
use crate::stage::waves::{
    all_supported, spawn_action, Condition, Delay, Wave, WaveAction, WaveBuilder,
};

verus! {

/// The fewest segments of a default wave.
pub const MIN_SEGMENTS: u64 = 6;

/// The most segments of a default wave.
pub const MAX_SEGMENTS: u64 = 15;

/// The most rows of a grid. A grid has at least one.
pub const MAX_ROWS: u32 = 3;

/// The most columns of a grid. A grid has at least one.
pub const MAX_COLUMNS: u32 = 6;

/// The distance between neighbours in a grid, in pixels, both ways.
pub const PITCH: i32 = 64;

/// The height of the lowest row of a grid, in pixels above the centre.
pub const BASE: i32 = 128;

/// The shortest pause after a segment, in nanoseconds: one second.
pub const MIN_PAUSE: i64 = 1_000_000_000;

/// The longest pause after a segment, in nanoseconds: three seconds.
pub const MAX_PAUSE: i64 = 3_000_000_000;

/// One segment of a wave: a grid of `rows` by `columns` enemies of one kind,
/// and the pause, in nanoseconds, that follows once they have died.
#[derive(Clone, Copy, Debug, PartialEq, Eq, Structural)]
pub struct Segment {
    pub enemy: EnemyType,
    pub rows: u32,
    pub columns: u32,
    pub pause: i64,
}

impl Segment {
    /// Whether the segment is one that the default wave may hold.
    pub open spec fn in_policy(self) -> bool {
        &&& 1 <= self.rows <= MAX_ROWS
        &&& 1 <= self.columns <= MAX_COLUMNS
        &&& MIN_PAUSE <= self.pause <= MAX_PAUSE
    }

    /// The number of enemies in the grid.
    pub open spec fn size(self) -> nat {
        (self.rows * self.columns) as nat
    }

    /// The place of the enemy number `index` of the grid, counted row by row
    /// from the lowest row and, in a row, from the left. The rows are centred
    /// on the vertical axis of the field.
    pub open spec fn cell(self, index: int) -> Position {
        let row = index / (self.columns as int);
        let column = index % (self.columns as int);
        Position {
            x: (column * PITCH - (self.columns - 1) * PITCH / 2) as i32,
            y: (BASE + row * PITCH) as i32,
        }
    }

    /// The actions that play the segment: one spawn per cell, in order, then
    /// the wait for them to die, then the pause.
    pub open spec fn script(self) -> Seq<WaveAction> {
        Seq::new(self.size(), |i: int| spawn_action(self.enemy, self.cell(i))).push(
            WaveAction::Condition(Condition::PreviousWaveHasDied),
        ).push(WaveAction::Delay(Delay::Seconds(self.pause)))
    }
}

/// Whether every segment of a plan is one that the default wave may hold.
pub open spec fn all_in_policy(plan: Seq<Segment>) -> bool {
    forall|i: int| 0 <= i < plan.len() ==> (#[trigger] plan[i]).in_policy()
}

/// Whether a plan is one of a default wave.
pub open spec fn default_plan(plan: Seq<Segment>) -> bool {
    MIN_SEGMENTS <= plan.len() <= MAX_SEGMENTS && all_in_policy(plan)
}

/// The actions that play the segments of a plan, one after the other.
pub open spec fn plan_script(plan: Seq<Segment>) -> Seq<WaveAction>
    decreases plan.len(),
{
    if plan.len() == 0 {
        Seq::empty()
    } else {
        plan_script(plan.drop_last()) + plan.last().script()
    }
}

/// An orchestrator can carry out every action of a plan's script.
pub proof fn lemma_plan_script_is_supported(plan: Seq<Segment>)
    ensures
        all_supported(plan_script(plan)),
    decreases plan.len(),
{
    if plan.len() > 0 {
        lemma_plan_script_is_supported(plan.drop_last());
    }
}

/// The kind of enemy that stands at a place in the catalogue. Places past the
/// end count as the last.
pub open spec fn kind_at(place: u64) -> EnemyType {
    if place == 0 {
        EnemyType::TinySpider
    } else if place == 1 {
        EnemyType::SmallSpider
    } else {
        EnemyType::MediumSpider
    }
}

/// Looks a kind of enemy up by its place in the catalogue.
pub fn enemy_kind(place: u64) -> (kind: EnemyType)
    ensures
        kind == kind_at(place),
{
    if place == 0 {
        EnemyType::TinySpider
    } else if place == 1 {
        EnemyType::SmallSpider
    } else {
        EnemyType::MediumSpider
    }
}

/// Appends the actions of one segment to a builder.
pub fn push_segment(builder: &mut WaveBuilder, segment: &Segment)
    requires
        segment.in_policy(),
    ensures
        final(builder)@ == old(builder)@ + segment.script(),
{
    let ghost start = builder@;
    let ghost spawns = Seq::new(
        segment.size(),
        |i: int| spawn_action(segment.enemy, segment.cell(i)),
    );
    let left: i32 = (segment.columns as i32 - 1) * PITCH / 2;
    let mut row: u32 = 0;
    assert(builder@ =~= start + spawns.take(0));
    while row < segment.rows
        invariant
            segment.in_policy(),
            row <= segment.rows,
            left == (segment.columns - 1) * PITCH / 2,
            spawns == Seq::new(
                segment.size(),
                |i: int| spawn_action(segment.enemy, segment.cell(i)),
            ),
            builder@ == start + spawns.take(row * segment.columns),
        decreases segment.rows - row,
    {
        let mut column: u32 = 0;
        while column < segment.columns
            invariant
                segment.in_policy(),
                row < segment.rows,
                column <= segment.columns,
                left == (segment.columns - 1) * PITCH / 2,
                spawns == Seq::new(
                    segment.size(),
                    |i: int| spawn_action(segment.enemy, segment.cell(i)),
                ),
                builder@ == start + spawns.take(row * segment.columns + column),
            decreases segment.columns - column,
        {
            let ghost index = row * segment.columns + column;
            assert(index < segment.size()) by (nonlinear_arith)
                requires
                    index == row * segment.columns + column,
                    row < segment.rows,
                    column < segment.columns,
                    segment.size() == segment.rows * segment.columns,
            ;
            assert(index / (segment.columns as int) == row && index % (segment.columns as int)
                == column) by (nonlinear_arith)
                requires
                    index == row * segment.columns + column,
                    0 <= column < segment.columns,
                    0 <= row,
            ;
            let position = Position {
                x: column as i32 * PITCH - left,
                y: BASE + row as i32 * PITCH,
            };
            assert(position == segment.cell(index));
            builder.spawn_at(segment.enemy, position);
            assert(builder@ =~= start + spawns.take(index + 1)) by {
                assert(spawns.take(index + 1) =~= spawns.take(index).push(spawns[index]));
            }
            column = column + 1;
        }
        assert((row + 1) * segment.columns == row * segment.columns + segment.columns)
            by (nonlinear_arith);
        row = row + 1;
    }
    assert(row * segment.columns == segment.size());
    assert(spawns.take(segment.size() as int) =~= spawns);
    builder.wait_for(Condition::PreviousWaveHasDied);
    builder.wait_sec(segment.pause);
    assert(builder@ =~= start + segment.script());
}

/// Builds the wave that plays a plan.
pub fn wave_from_plan(plan: &Vec<Segment>) -> (wave: Wave)
    requires
        all_in_policy(plan@),
    ensures
        wave@ == plan_script(plan@),
{
    let mut builder = WaveBuilder::new();
    let mut done: usize = 0;
    assert(plan@.take(0) =~= Seq::<Segment>::empty());
    while done < plan.len()
        invariant
            done <= plan.len(),
            all_in_policy(plan@),
            builder@ == plan_script(plan@.take(done as int)),
        decreases plan.len() - done,
    {
        push_segment(&mut builder, &plan[done]);
        proof {
            let next = plan@.take(done + 1);
            assert(next.drop_last() =~= plan@.take(done as int));
            assert(next.last() == plan@[done as int]);
        }
        done = done + 1;
    }
    assert(plan@.take(plan.len() as int) =~= plan@);
    builder.build()
}

/// Makes the segment that four draws stand for: the place of the kind in the
/// catalogue, the rows and the columns of the grid, and the pause in
/// nanoseconds.
pub fn segment_of(kind: u64, rows: u64, columns: u64, pause: u64) -> (segment: Segment)
    requires
        1 <= rows <= MAX_ROWS,
        1 <= columns <= MAX_COLUMNS,
        MIN_PAUSE <= pause <= MAX_PAUSE,
    ensures
        segment == (Segment {
            enemy: kind_at(kind),
            rows: rows as u32,
            columns: columns as u32,
            pause: pause as i64,
        }),
        segment.in_policy(),
{
    Segment {
        enemy: enemy_kind(kind),
        rows: rows as u32,
        columns: columns as u32,
        pause: pause as i64,
    }
}

/// Draws one segment of a default wave: the kind, the rows and columns of the
/// grid, and the pause, each by chance.
pub fn random_segment() -> (segment: Segment)
    ensures
        segment.in_policy(),
{
    let kind = draw(0, 3);
    let rows = draw(1, MAX_ROWS as u64 + 1);
    let columns = draw(1, MAX_COLUMNS as u64 + 1);
    let pause = draw(MIN_PAUSE as u64, MAX_PAUSE as u64 + 1);
    segment_of(kind, rows, columns, pause)
}

/// Draws the plan of a default wave: the number of segments by chance, and
/// each segment by chance.
pub fn random_plan() -> (plan: Vec<Segment>)
    ensures
        default_plan(plan@),
{
    let count = draw(MIN_SEGMENTS, MAX_SEGMENTS + 1);
    let mut plan: Vec<Segment> = Vec::new();
    while (plan.len() as u64) < count
        invariant
            MIN_SEGMENTS <= count <= MAX_SEGMENTS,
            plan.len() <= count,
            all_in_policy(plan@),
        decreases count - plan.len(),
    {
        plan.push(random_segment());
    }
    plan
}

/// Draws a default wave. Which wave comes out is left to chance; it plays some
/// plan of a default wave, and so holds nothing that an orchestrator cannot
/// carry out.
pub fn random_wave() -> (wave: Wave)
    ensures
        exists|plan: Seq<Segment>| default_plan(plan) && wave@ == plan_script(plan),
        all_supported(wave@),
{
    let plan = random_plan();
    proof {
        lemma_plan_script_is_supported(plan@);
    }
    wave_from_plan(&plan)
}

/// Starts a stage on a default wave drawn by chance.
pub fn stage_startup(state: &mut OrchestrationState)
    ensures
        exists|plan: Seq<Segment>|
            default_plan(plan) && final(state)@ == started_with(old(state)@, plan_script(plan)),
        sound(final(state)@),
{
    state.start(random_wave());
}

} // verus!
