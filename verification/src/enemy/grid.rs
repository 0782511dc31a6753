//! The grid stage: enemies appear one per second on the free places of a grid
//! of four by four, until the grid is full.

use vstd::prelude::*;
use crate::clock::tick_timer;
use crate::components::Position;
use crate::random::draw;

verus! {

/// The number of places on the grid.
pub const SLOTS: usize = 16;

/// The number of places in a row of the grid.
pub const ROW: usize = 4;

/// The time between two spawns, in nanoseconds: one second.
pub const SPAWN_PERIOD: u64 = 1_000_000_000;

/// The state of the grid stage: which places are taken, and the time counted
/// towards the next spawn.
pub struct StageOrchestrationState {
    grid: [bool; 16],
    next_spawn: u64,
}

/// The grid stage as mathematics.
#[verifier::ext_equal]
pub struct GridModel {
    /// For each place, whether it is taken.
    pub grid: Seq<bool>,
    /// Nanoseconds counted towards the next spawn.
    pub elapsed: int,
}

/// The number of free places in a stretch of the grid.
pub open spec fn free_in(grid: Seq<bool>) -> nat
    decreases grid.len(),
{
    if grid.len() == 0 {
        0
    } else {
        free_in(grid.drop_last()) + if grid.last() {
            0nat
        } else {
            1nat
        }
    }
}

/// Whether `slot` is the free place number `n` of the grid, counted from
/// zero: it is free, and `n` free places lie before it.
pub open spec fn is_nth_free(grid: Seq<bool>, n: nat, slot: int) -> bool {
    0 <= slot < grid.len() && !grid[slot] && free_in(grid.take(slot)) == n
}

/// The free place number `n` of the grid, counted from zero.
pub open spec fn nth_free(grid: Seq<bool>, n: nat) -> int {
    choose|slot: int| is_nth_free(grid, n, slot)
}

/// Where an enemy on a place of the grid stands: the columns are 125 pixels
/// apart and start 250 pixels left of the centre, the rows are 96 pixels apart
/// and start at the centre.
pub open spec fn slot_position(slot: int) -> Position {
    Position { x: ((slot % 4) * 125 - 250) as i32, y: ((slot / 4) * 96) as i32 }
}

/// The grid stage once an enemy was put on a place: the place is taken and
/// the count towards the next spawn starts again.
pub open spec fn placed(m: GridModel, slot: int) -> GridModel {
    GridModel { grid: m.grid.update(slot, true), elapsed: 0 }
}

/// One more place adds itself to the free places before it, if it is free.
pub proof fn lemma_free_in_step(grid: Seq<bool>, slot: int)
    requires
        0 <= slot < grid.len(),
    ensures
        free_in(grid.take(slot + 1)) == free_in(grid.take(slot)) + if grid[slot] {
            0nat
        } else {
            1nat
        },
{
    assert(grid.take(slot + 1).drop_last() =~= grid.take(slot));
}

/// A longer stretch of the grid has no fewer free places.
pub proof fn lemma_free_in_grows(grid: Seq<bool>, short: int, long: int)
    requires
        0 <= short <= long <= grid.len(),
    ensures
        free_in(grid.take(short)) <= free_in(grid.take(long)),
    decreases long - short,
{
    if short < long {
        lemma_free_in_step(grid, long - 1);
        lemma_free_in_grows(grid, short, long - 1);
    }
}

/// No two places are the free place number `n`.
pub proof fn lemma_nth_free_is_one(grid: Seq<bool>, n: nat, slot: int, other: int)
    requires
        is_nth_free(grid, n, slot),
        is_nth_free(grid, n, other),
    ensures
        slot == other,
{
    if slot < other {
        lemma_free_in_step(grid, slot);
        lemma_free_in_grows(grid, slot + 1, other);
    } else if other < slot {
        lemma_free_in_step(grid, other);
        lemma_free_in_grows(grid, other + 1, slot);
    }
}

/// Taking a free place leaves one free place fewer.
pub proof fn lemma_taking_a_free_place(grid: Seq<bool>, slot: int)
    requires
        0 <= slot < grid.len(),
        !grid[slot],
    ensures
        free_in(grid.update(slot, true)) == free_in(grid) - 1,
    decreases grid.len(),
{
    let taken = grid.update(slot, true);
    if slot == grid.len() - 1 {
        assert(taken.drop_last() =~= grid.drop_last());
    } else {
        assert(taken.drop_last() =~= grid.drop_last().update(slot, true));
        lemma_taking_a_free_place(grid.drop_last(), slot);
    }
}

impl View for StageOrchestrationState {
    type V = GridModel;

    closed spec fn view(&self) -> GridModel {
        GridModel { grid: self.grid@, elapsed: self.next_spawn as int }
    }
}

impl Default for StageOrchestrationState {
    /// An empty grid, with nothing counted towards the first spawn.
    fn default() -> (state: StageOrchestrationState)
        ensures
            state@.grid == Seq::new(SLOTS as nat, |i: int| false),
            state@.elapsed == 0,
    {
        let state = StageOrchestrationState { grid: [false; 16], next_spawn: 0 };
        assert(state.grid@ =~= Seq::new(SLOTS as nat, |i: int| false));
        state
    }
}

impl StageOrchestrationState {
    /// Whether a place of the grid is taken.
    pub fn is_taken(&self, slot: usize) -> (taken: bool)
        requires
            slot < SLOTS,
        ensures
            self@.grid.len() == SLOTS,
            taken == self@.grid[slot as int],
    {
        self.grid[slot]
    }

    /// The nanoseconds counted towards the next spawn.
    pub fn elapsed(&self) -> (nanos: u64)
        ensures
            nanos == self@.elapsed,
    {
        self.next_spawn
    }

    /// Counts the free places of the grid.
    pub fn free_slots(&self) -> (free: usize)
        ensures
            self@.grid.len() == SLOTS,
            free == free_in(self@.grid),
            free <= SLOTS,
    {
        let mut free: usize = 0;
        let mut slot: usize = 0;
        assert(self.grid@.take(0) =~= Seq::<bool>::empty());
        while slot < SLOTS
            invariant
                slot <= SLOTS,
                self.grid@.len() == SLOTS,
                free == free_in(self.grid@.take(slot as int)),
                free <= slot,
            decreases SLOTS - slot,
        {
            proof {
                lemma_free_in_step(self.grid@, slot as int);
            }
            if !self.grid[slot] {
                free = free + 1;
            }
            slot = slot + 1;
        }
        assert(self.grid@.take(SLOTS as int) =~= self.grid@);
        free
    }

    /// Finds the free place number `pick`, counted from zero.
    fn find_free(&self, pick: usize) -> (slot: usize)
        requires
            pick < free_in(self@.grid),
        ensures
            is_nth_free(self@.grid, pick as nat, slot as int),
            slot as int == nth_free(self@.grid, pick as nat),
    {
        let mut seen: usize = 0;
        let mut slot: usize = 0;
        assert(self.grid@.take(0) =~= Seq::<bool>::empty());
        while slot < SLOTS
            invariant
                slot <= SLOTS,
                self.grid@.len() == SLOTS,
                self@.grid == self.grid@,
                seen == free_in(self.grid@.take(slot as int)),
                seen <= pick,
                pick < free_in(self.grid@),
            decreases SLOTS - slot,
        {
            proof {
                lemma_free_in_step(self.grid@, slot as int);
            }
            if !self.grid[slot] {
                if seen == pick {
                    proof {
                        let other = nth_free(self.grid@, pick as nat);
                        lemma_nth_free_is_one(self.grid@, pick as nat, slot as int, other);
                    }
                    return slot;
                }
                seen = seen + 1;
            }
            slot = slot + 1;
        }
        proof {
            assert(self.grid@.take(SLOTS as int) =~= self.grid@);
            assert(false);
        }
        0
    }

    /// Puts an enemy on the free place number `pick`, counted from zero, and
    /// starts the count towards the next spawn again. Gives the position of
    /// the enemy.
    pub fn place_enemy(&mut self, pick: usize) -> (position: Position)
        requires
            pick < free_in(old(self)@.grid),
        ensures
            is_nth_free(old(self)@.grid, pick as nat, nth_free(old(self)@.grid, pick as nat)),
            final(self)@ == placed(old(self)@, nth_free(old(self)@.grid, pick as nat)),
            position == slot_position(nth_free(old(self)@.grid, pick as nat)),
            free_in(final(self)@.grid) == free_in(old(self)@.grid) - 1,
    {
        let slot = self.find_free(pick);
        proof {
            lemma_taking_a_free_place(self@.grid, slot as int);
        }
        self.grid[slot] = true;
        self.next_spawn = 0;
        Position { x: (slot % ROW) as i32 * 125 - 250, y: (slot / ROW) as i32 * 96 }
    }
}

/// Runs the grid stage for one tick, `delta` nanoseconds after the last one.
///
/// A full grid is left alone. Otherwise the time is counted; once it reaches
/// the spawn period, an enemy is put on a free place chosen by chance, and its
/// position is given back.
pub fn enemy_orchestration(state: &mut StageOrchestrationState, delta: u64) -> (spawn: Option<
    Position,
>)
    ensures
        free_in(old(state)@.grid) == 0 ==> spawn is None && final(state)@ == old(state)@,
        free_in(old(state)@.grid) > 0 && old(state)@.elapsed + delta < SPAWN_PERIOD ==> spawn
            is None && final(state)@ == (GridModel {
            elapsed: old(state)@.elapsed + delta,
            ..old(state)@
        }),
        free_in(old(state)@.grid) > 0 && old(state)@.elapsed + delta >= SPAWN_PERIOD ==> exists|
            slot: int,
        |
            0 <= slot < SLOTS && !old(state)@.grid[slot] && final(state)@ == placed(
                old(state)@,
                slot,
            ) && spawn == Some(slot_position(slot)),
        spawn is Some ==> free_in(final(state)@.grid) == free_in(old(state)@.grid) - 1,
{
    let free = state.free_slots();
    if free == 0 {
        return None;
    }
    let (time, finished) = tick_timer(state.next_spawn, SPAWN_PERIOD, true, delta);
    if finished {
        let pick = draw(0, free as u64) as usize;
        let position = state.place_enemy(pick);
        Some(position)
    } else {
        state.next_spawn = time;
        None
    }
}

} // verus!
