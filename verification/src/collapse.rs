//! The collapse engine: coloring the grid by constraint propagation.
//!
//! The engine first fixes the entrance cell to the marker color and strikes
//! that color out of the domains of its neighbors. Then, as long as a cell is
//! open, it finds the lowest entropy among the open cells, collects the open
//! cells of that entropy in the order of the arena, draws one of them, draws
//! one of that cell's admissible colors, resolves the cell to the color, and
//! strikes the color out of the domains of the cell's open neighbors. A cell
//! that loses its last color is exhausted and never gets one. Nothing is ever
//! taken back.

use crate::domain::{Collapsed, ConstraintDomain};
use crate::grid::{
    center_of, index_of, lemma_index_of_position, position_of, CellState, GridView, HexGrid,
};
use crate::position::Position;
use crate::rng::{ranged_draw, SeededRng};
use vstd::prelude::*;

verus! {

/// Whether slot `slot` of the arena holds an open cell.
pub open spec fn open_at(grid: GridView, slot: int) -> bool {
    grid.cells[slot] matches Some(state) && state is Open
}

/// Whether slot `slot` of the arena holds an open cell of entropy `entropy`.
pub open spec fn open_with(grid: GridView, slot: int, entropy: int) -> bool {
    grid.cells[slot] matches Some(state) && state is Open && state.entropy() == entropy
}

/// The number of open cells in the first `slots` slots of the arena.
pub open spec fn open_count(grid: GridView, slots: int) -> nat
    decreases slots,
{
    if slots <= 0 {
        0
    } else if open_at(grid, slots - 1) {
        open_count(grid, slots - 1) + 1
    } else {
        open_count(grid, slots - 1)
    }
}

/// The number of open cells of the grid.
pub open spec fn open_cells(grid: GridView) -> nat {
    open_count(grid, grid.cells.len() as int)
}

/// The lowest entropy of an open cell in the first `slots` slots of the
/// arena; 0 where none of them holds an open cell.
pub open spec fn least_entropy(grid: GridView, slots: int) -> int
    decreases slots,
{
    if slots <= 0 {
        0
    } else {
        let before = least_entropy(grid, slots - 1);
        if open_at(grid, slots - 1) && (before == 0 || grid.cells[slots - 1]->0.entropy()
            < before) {
            grid.cells[slots - 1]->0.entropy()
        } else {
            before
        }
    }
}

/// The positions of the open cells of entropy `entropy` in the first `slots`
/// slots of the arena, in the order of the slots.
pub open spec fn tie_set(grid: GridView, entropy: int, slots: int) -> Seq<Position>
    decreases slots,
{
    if slots <= 0 {
        Seq::empty()
    } else if open_with(grid, slots - 1, entropy) {
        tie_set(grid, entropy, slots - 1).push(position_of(grid.radius, slots - 1))
    } else {
        tie_set(grid, entropy, slots - 1)
    }
}

/// The grid with `color` struck out of the domains of the first `count` of
/// `cells`.
pub open spec fn excluded_along(
    grid: GridView,
    cells: Seq<Position>,
    color: Collapsed,
    count: int,
) -> GridView
    decreases count,
{
    if count <= 0 {
        grid
    } else {
        excluded_along(grid, cells, color, count - 1).excluding(cells[count - 1], color)
    }
}

/// The grid with `color` struck out of the domains of the neighbors of `pos`.
pub open spec fn propagated(grid: GridView, pos: Position, color: Collapsed) -> GridView {
    excluded_along(grid, grid.neighbors(pos), color, grid.neighbors(pos).len() as int)
}

/// The grid with the cell at `pos` resolved to `color` and the color struck
/// out of the domains of its neighbors.
pub open spec fn resolved(grid: GridView, pos: Position, color: Collapsed) -> GridView {
    propagated(grid.with_state(pos, CellState::Collapsed(color)), pos, color)
}

/// The domain of the cell at `pos`, where the cell is open.
pub open spec fn domain_at(grid: GridView, pos: Position) -> ConstraintDomain {
    match grid.state(pos) {
        Some(CellState::Open(domain)) => domain,
        _ => ConstraintDomain::all(),
    }
}

/// One round of the engine on a grid with an open cell, with the stream in
/// `state`: the grid and the state of the stream after the round. The first
/// draw picks the cell among the tie set, the second its color among the
/// admissible ones.
pub open spec fn collapse_round(grid: GridView, state: u64) -> (GridView, u64) {
    let slots = grid.cells.len() as int;
    let least = least_entropy(grid, slots);
    let tied = tie_set(grid, least, slots);
    let (which, after_cell) = ranged_draw(state, 0, (tied.len() - 1) as u32);
    let pos = tied[which as int];
    let (rank, after_color) = ranged_draw(after_cell, 0, (least - 1) as u32);
    let color = domain_at(grid, pos).choice(rank as int);
    (resolved(grid, pos, color), after_color)
}

/// The engine's rounds, at most `rounds` of them, until no cell is open.
pub open spec fn collapse_rounds(grid: GridView, state: u64, rounds: nat) -> (GridView, u64)
    decreases rounds,
{
    if rounds == 0 || least_entropy(grid, grid.cells.len() as int) == 0 {
        (grid, state)
    } else {
        let (next, after) = collapse_round(grid, state);
        collapse_rounds(next, after, (rounds - 1) as nat)
    }
}

/// The engine run to its end: every round resolves a cell, so one round for
/// each slot of the arena is enough.
pub open spec fn collapsed_all(grid: GridView, state: u64) -> (GridView, u64) {
    collapse_rounds(grid, state, grid.cells.len())
}

/// The grid with the entrance fixed to the marker color, as the engine
/// starts from it.
pub open spec fn entrance_fixed(grid: GridView) -> GridView {
    resolved(grid, center_of(grid.radius), Collapsed::Red)
}

/// A full run of the engine on a grid, with the stream in `state`.
pub open spec fn collapse_run(grid: GridView, state: u64) -> (GridView, u64) {
    collapsed_all(entrance_fixed(grid), state)
}

/// Every cell of `before` that has no domain any more is the same in `after`:
/// a resolved cell keeps its color, an exhausted cell stays without one.
pub open spec fn settled_cells_kept(after: GridView, before: GridView) -> bool {
    &&& after.cells.len() == before.cells.len()
    &&& forall|i: int|
        0 <= i < before.cells.len() ==> (#[trigger] before.cells[i] matches Some(state)
            ==> (!(state is Open) ==> after.cells[i] == before.cells[i]))
}

/// The number of open cells is at most the number of slots.
pub proof fn lemma_open_count_bound(grid: GridView, slots: int)
    requires
        0 <= slots,
    ensures
        open_count(grid, slots) <= slots,
    decreases slots,
{
    if slots > 0 {
        lemma_open_count_bound(grid, slots - 1);
    }
}

/// The lowest entropy is 0 exactly where no cell is open. Otherwise it is
/// the entropy of an open cell, no open cell has a lower one, and the tie
/// set is not empty.
pub proof fn lemma_least_entropy(grid: GridView, slots: int)
    requires
        grid.wf(),
        0 <= slots <= grid.cells.len(),
    ensures
        least_entropy(grid, slots) == 0 <==> open_count(grid, slots) == 0,
        0 <= least_entropy(grid, slots) <= 6,
        forall|i: int|
            0 <= i < slots && open_at(grid, i) ==> 1 <= least_entropy(grid, slots) <= (
            #[trigger] grid.cells[i])->0.entropy(),
        least_entropy(grid, slots) > 0 ==> tie_set(
            grid,
            least_entropy(grid, slots),
            slots,
        ).len() > 0,
        tie_set(grid, least_entropy(grid, slots), slots).len() <= slots,
    decreases slots,
{
    if slots > 0 {
        lemma_least_entropy(grid, slots - 1);
        let before = least_entropy(grid, slots - 1);
        let now = least_entropy(grid, slots);
        assert(grid.cells[slots - 1] matches Some(state) ==> state.valid());
        if now != before {
            lemma_tie_set_bound(grid, now, slots - 1);
        }
        lemma_tie_set_bound(grid, now, slots);
    }
}

/// A tie set of the first `slots` slots has at most `slots` members.
pub proof fn lemma_tie_set_bound(grid: GridView, entropy: int, slots: int)
    requires
        0 <= slots,
    ensures
        tie_set(grid, entropy, slots).len() <= slots,
    decreases slots,
{
    if slots > 0 {
        lemma_tie_set_bound(grid, entropy, slots - 1);
    }
}

/// Replacing the state of one cell changes the number of open cells by that
/// cell alone.
pub proof fn lemma_open_count_with_state(
    grid: GridView,
    pos: Position,
    state: CellState,
    slots: int,
)
    requires
        grid.wf(),
        grid.contains(pos),
        0 <= slots <= grid.cells.len(),
    ensures
        open_count(grid.with_state(pos, state), slots) == open_count(grid, slots) - (if index_of(
            grid.radius,
            pos,
        ) < slots && open_at(grid, index_of(grid.radius, pos)) {
            1int
        } else {
            0int
        }) + (if index_of(grid.radius, pos) < slots && state is Open {
            1int
        } else {
            0int
        }),
    decreases slots,
{
    lemma_index_of_position(grid.radius, pos);
    if slots > 0 {
        lemma_open_count_with_state(grid, pos, state, slots - 1);
    }
}

/// Striking a color out of one cell's domain opens no cell, raises no
/// entropy and changes no cell that has no domain.
pub proof fn lemma_excluding_settles(grid: GridView, pos: Position, color: Collapsed)
    requires
        grid.wf(),
    ensures
        grid.excluding(pos, color).wf(),
        grid.excluding(pos, color).radius == grid.radius,
        grid.excluding(pos, color).rooms == grid.rooms,
        open_cells(grid.excluding(pos, color)) <= open_cells(grid),
        grid.excluding(pos, color).entropy_not_above(grid),
        settled_cells_kept(grid.excluding(pos, color), grid),
{
    grid.cells_fill_the_footprint(pos);
    match grid.state(pos) {
        Some(state) => {
            lemma_index_of_position(grid.radius, pos);
            let next = state.excluding(color);
            match state {
                CellState::Open(domain) => {
                    domain.excluding_removes_one(color, color);
                },
                _ => {},
            }
            lemma_open_count_with_state(grid, pos, next, grid.cells.len() as int);
        },
        None => {},
    }
}

/// Striking a color out along a list of cells opens no cell, raises no
/// entropy and changes no cell that has no domain.
pub proof fn lemma_excluded_along_settles(
    grid: GridView,
    cells: Seq<Position>,
    color: Collapsed,
    count: int,
)
    requires
        grid.wf(),
        0 <= count <= cells.len(),
    ensures
        excluded_along(grid, cells, color, count).wf(),
        excluded_along(grid, cells, color, count).radius == grid.radius,
        excluded_along(grid, cells, color, count).rooms == grid.rooms,
        open_cells(excluded_along(grid, cells, color, count)) <= open_cells(grid),
        excluded_along(grid, cells, color, count).entropy_not_above(grid),
        settled_cells_kept(excluded_along(grid, cells, color, count), grid),
    decreases count,
{
    if count > 0 {
        lemma_excluded_along_settles(grid, cells, color, count - 1);
        lemma_excluding_settles(
            excluded_along(grid, cells, color, count - 1),
            cells[count - 1],
            color,
        );
    }
}

/// Resolving a cell keeps the grid well formed, raises no entropy, leaves
/// the rooms alone and changes no other cell that has no domain; where the
/// cell was open, one open cell fewer is left, at least.
pub proof fn lemma_resolved_settles(grid: GridView, pos: Position, color: Collapsed)
    requires
        grid.wf(),
        grid.contains(pos),
    ensures
        resolved(grid, pos, color).wf(),
        resolved(grid, pos, color).radius == grid.radius,
        resolved(grid, pos, color).rooms == grid.rooms,
        resolved(grid, pos, color).entropy_not_above(grid),
        resolved(grid, pos, color).state(pos) == Some(CellState::Collapsed(color)),
        open_cells(resolved(grid, pos, color)) <= open_cells(grid),
        grid.state(pos) matches Some(state) && state is Open ==> open_cells(
            resolved(grid, pos, color),
        ) < open_cells(grid) && settled_cells_kept(resolved(grid, pos, color), grid),
{
    let fixed = grid.with_state(pos, CellState::Collapsed(color));
    let around = grid.neighbors(pos);
    lemma_index_of_position(grid.radius, pos);
    grid.cells_fill_the_footprint(pos);
    lemma_open_count_with_state(
        grid,
        pos,
        CellState::Collapsed(color),
        grid.cells.len() as int,
    );
    assert(fixed.wf());
    assert(fixed.entropy_not_above(grid));
    lemma_excluded_along_settles(fixed, around, color, around.len() as int);
    let last = resolved(grid, pos, color);
    last.entropy_not_above_chain(fixed, grid);
    assert(last.cells[index_of(grid.radius, pos)] == fixed.cells[index_of(grid.radius, pos)]);
    if grid.state(pos) matches Some(state) && state is Open {
        assert(settled_cells_kept(last, grid)) by {
            assert forall|i: int| 0 <= i < grid.cells.len() implies (
            #[trigger] grid.cells[i] matches Some(state) ==> (!(state is Open) ==> last.cells[i]
                == grid.cells[i])) by {
                if let Some(state) = grid.cells[i] {
                    if !(state is Open) {
                        assert(fixed.cells[i] == grid.cells[i]);
                    }
                }
            }
        }
    }
}

/// The lowest entropy among the open cells of the grid; 0 where no cell is
/// open.
pub fn least_open_entropy(grid: &HexGrid) -> (least: u32)
    requires
        grid@.wf(),
    ensures
        least == least_entropy(grid@, grid@.cells.len() as int),
        least == 0 <==> open_cells(grid@) == 0,
        least <= 6,
{
    let slots: usize = grid.slots();
    let mut least: u32 = 0;
    let mut i: usize = 0;
    while i < slots
        invariant
            grid@.wf(),
            slots == grid@.cells.len(),
            i <= slots,
            least == least_entropy(grid@, i as int),
        decreases slots - i,
    {
        match grid.cell(i) {
            Some(CellState::Open(domain)) => {
                let entropy: u32 = domain.entropy();
                if least == 0 || entropy < least {
                    least = entropy;
                }
            },
            _ => {},
        }
        i = i + 1;
    }
    proof {
        lemma_least_entropy(grid@, slots as int);
    }
    least
}

/// The open cells of entropy `entropy`, in the order of the arena.
pub fn tied_cells(grid: &HexGrid, entropy: u32) -> (tied: Vec<Position>)
    requires
        grid@.wf(),
    ensures
        tied@ == tie_set(grid@, entropy as int, grid@.cells.len() as int),
        forall|k: int|
            0 <= k < tied@.len() ==> (grid@.state(#[trigger] tied@[k]) matches Some(state)
                && state is Open && state.entropy() == entropy),
{
    let slots: usize = grid.slots();
    let mut tied: Vec<Position> = Vec::new();
    let mut i: usize = 0;
    while i < slots
        invariant
            grid@.wf(),
            slots == grid@.cells.len(),
            i <= slots,
            tied@ == tie_set(grid@, entropy as int, i as int),
            forall|k: int|
                0 <= k < tied@.len() ==> (grid@.state(#[trigger] tied@[k]) matches Some(state)
                    && state is Open && state.entropy() == entropy),
        decreases slots - i,
    {
        match grid.cell(i) {
            Some(CellState::Open(domain)) => {
                if domain.entropy() == entropy {
                    let pos: Position = grid.position_at(i);
                    tied.push(pos);
                }
            },
            _ => {},
        }
        i = i + 1;
    }
    tied
}

/// Strikes `color` out of the domains of the neighbors of `pos`. An open
/// neighbor loses at most that one color, and is exhausted where it was its
/// last; no other cell changes.
pub fn propagate(grid: &mut HexGrid, pos: Position, color: Collapsed)
    requires
        old(grid)@.wf(),
    ensures
        final(grid)@ == propagated(old(grid)@, pos, color),
        final(grid)@.wf(),
        final(grid)@.radius == old(grid)@.radius,
        final(grid)@.rooms == old(grid)@.rooms,
        final(grid)@.entropy_not_above(old(grid)@),
        settled_cells_kept(final(grid)@, old(grid)@),
        open_cells(final(grid)@) <= open_cells(old(grid)@),
{
    let around: Vec<Position> = grid.neighbors(pos);
    let ghost start = grid@;
    let mut i: usize = 0;
    while i < around.len()
        invariant
            start.wf(),
            i <= around@.len(),
            around@ == start.neighbors(pos),
            grid@ == excluded_along(start, around@, color, i as int),
            grid@.wf(),
        decreases around@.len() - i,
    {
        grid.exclude(around[i], color);
        i = i + 1;
    }
    proof {
        lemma_excluded_along_settles(start, around@, color, around@.len() as int);
    }
}

/// Resolves the cell at `pos` to `color` and strikes the color out of the
/// domains of its neighbors.
pub fn resolve(grid: &mut HexGrid, pos: Position, color: Collapsed)
    requires
        old(grid)@.wf(),
        old(grid)@.contains(pos),
    ensures
        final(grid)@ == resolved(old(grid)@, pos, color),
        final(grid)@.wf(),
        final(grid)@.radius == old(grid)@.radius,
        final(grid)@.rooms == old(grid)@.rooms,
        final(grid)@.entropy_not_above(old(grid)@),
        final(grid)@.state(pos) == Some(CellState::Collapsed(color)),
        open_cells(final(grid)@) <= open_cells(old(grid)@),
        old(grid)@.state(pos) matches Some(state) && state is Open ==> open_cells(final(grid)@)
            < open_cells(old(grid)@) && settled_cells_kept(final(grid)@, old(grid)@),
{
    proof {
        lemma_resolved_settles(grid@, pos, color);
    }
    grid.assign(pos, color);
    propagate(grid, pos, color);
}

/// Runs one round of the engine on a grid that has an open cell: picks a
/// cell of the lowest entropy, resolves it to one of its admissible colors,
/// and propagates. The round takes two draws and leaves one open cell fewer,
/// at least.
pub fn collapse_step(grid: &mut HexGrid, rng: &mut SeededRng)
    requires
        old(grid)@.wf(),
        open_cells(old(grid)@) > 0,
    ensures
        (final(grid)@, final(rng)@) == collapse_round(old(grid)@, old(rng)@),
        final(grid)@.wf(),
        final(grid)@.radius == old(grid)@.radius,
        final(grid)@.rooms == old(grid)@.rooms,
        final(grid)@.entropy_not_above(old(grid)@),
        settled_cells_kept(final(grid)@, old(grid)@),
        open_cells(final(grid)@) < open_cells(old(grid)@),
{
    let least: u32 = least_open_entropy(grid);
    let tied: Vec<Position> = tied_cells(grid, least);
    proof {
        lemma_least_entropy(grid@, grid@.cells.len() as int);
        lemma_index_of_position(grid@.radius, Position { x: 0, y: 0 });
    }
    let top: u32 = (tied.len() - 1) as u32;
    let which: u32 = rng.draw(0, top);
    let pos: Position = tied[which as usize];
    proof {
        grid@.cells_fill_the_footprint(pos);
    }
    match grid.get(pos) {
        Some(CellState::Open(domain)) => {
            let rank: u32 = rng.draw(0, least - 1);
            let color: Collapsed = domain.pick(rank);
            resolve(grid, pos, color);
        },
        _ => {
            assert(false);
        },
    }
}

/// Runs the engine's rounds until no cell is open. Every cell is then
/// resolved or exhausted; the cells that had no domain before are as they
/// were.
pub fn collapse(grid: &mut HexGrid, rng: &mut SeededRng)
    requires
        old(grid)@.wf(),
    ensures
        (final(grid)@, final(rng)@) == collapsed_all(old(grid)@, old(rng)@),
        final(grid)@.wf(),
        final(grid)@.radius == old(grid)@.radius,
        final(grid)@.rooms == old(grid)@.rooms,
        final(grid)@.entropy_not_above(old(grid)@),
        settled_cells_kept(final(grid)@, old(grid)@),
        open_cells(final(grid)@) == 0,
{
    let ghost start = grid@;
    let ghost start_rng = rng@;
    let ghost mut rounds: nat = grid@.cells.len();
    proof {
        lemma_open_count_bound(grid@, grid@.cells.len() as int);
    }
    let mut least: u32 = least_open_entropy(grid);
    while least != 0
        invariant
            start.wf(),
            grid@.wf(),
            grid@.radius == start.radius,
            grid@.cells.len() == start.cells.len(),
            grid@.rooms == start.rooms,
            least == least_entropy(grid@, grid@.cells.len() as int),
            least == 0 <==> open_cells(grid@) == 0,
            open_cells(grid@) <= rounds,
            collapse_rounds(grid@, rng@, rounds) == collapsed_all(start, start_rng),
            grid@.entropy_not_above(start),
            settled_cells_kept(grid@, start),
        decreases open_cells(grid@),
    {
        let ghost before = grid@;
        collapse_step(grid, rng);
        proof {
            rounds = (rounds - 1) as nat;
            grid@.entropy_not_above_chain(before, start);
            assert(settled_cells_kept(grid@, start)) by {
                assert forall|i: int| 0 <= i < start.cells.len() implies (
                #[trigger] start.cells[i] matches Some(state) ==> (!(state is Open)
                    ==> grid@.cells[i] == start.cells[i])) by {
                    if let Some(state) = start.cells[i] {
                        if !(state is Open) {
                            assert(before.cells[i] == start.cells[i]);
                        }
                    }
                }
            }
        }
        least = least_open_entropy(grid);
    }
}

/// Fixes the entrance to the marker color, which its neighbors lose, and
/// runs the engine to its end.
pub fn run_collapse(grid: &mut HexGrid, rng: &mut SeededRng)
    requires
        old(grid)@.wf(),
    ensures
        (final(grid)@, final(rng)@) == collapse_run(old(grid)@, old(rng)@),
        final(grid)@.wf(),
        final(grid)@.radius == old(grid)@.radius,
        final(grid)@.rooms == old(grid)@.rooms,
        final(grid)@.entropy_not_above(old(grid)@),
        open_cells(final(grid)@) == 0,
        final(grid)@.state(center_of(old(grid)@.radius)) == Some(
            CellState::Collapsed(Collapsed::Red),
        ),
{
    let center: Position = grid.center();
    let ghost start = grid@;
    resolve(grid, center, Collapsed::Red);
    let ghost fixed = grid@;
    collapse(grid, rng);
    proof {
        lemma_index_of_position(start.radius, center);
        grid@.entropy_not_above_chain(fixed, start);
        assert(fixed.cells[index_of(start.radius, center)] is Some);
    }
}

} // verus!
