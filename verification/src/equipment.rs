//! Occupancy reconciliation and the budget ledger: turning the current
//! cursor mode and the cell under the pointer into spawn/despawn intents,
//! flipping cell occupancy exactly once per transition, and keeping the
//! ledger consistent with the intents.

use vstd::prelude::*;

use crate::cursor::CursorMode;
use crate::grid::{Cell, Grid};
use crate::spatial::CursorGridIdx;

verus! {

/// A piece of equipment: the cell it occupies and its cost, unset until
/// it is priced.
#[derive(Clone, Copy, Debug, PartialEq, Eq, Structural)]
pub struct Equipment {
    pub cell_idx: usize,
    pub cost: Option<i32>,
}

impl Equipment {
    /// Fresh equipment for a cell, not yet priced.
    pub fn new(cell_idx: usize) -> (r: Self)
        ensures
            r.cell_idx == cell_idx,
            r.cost is None,
    {
        Self { cell_idx, cost: None }
    }

    /// Prices the equipment; the cell it occupies is unchanged.
    pub fn assign_cost(&mut self, cost: i32)
        ensures
            final(self).cell_idx == old(self).cell_idx,
            final(self).cost == Some(cost),
    {
        self.cost = Some(cost);
    }
}

/// A signal emitted by the reconciler for the external ledger and
/// presentation collaborators, carrying the affected cell.
#[derive(Clone, Copy, Debug, PartialEq, Eq, Structural)]
pub enum Intent {
    Spawn { cell: usize },
    Despawn { cell: usize, occupant: Option<usize> },
}

/// The cell records after one reconciliation pass: in Placing mode an
/// unoccupied resolved cell becomes occupied by `new_occupant_id`; in
/// Deleting mode an occupied resolved cell becomes free; anything else is
/// left untouched.
pub open spec fn reconciled_cells(
    cells: Seq<Cell>,
    mode: CursorMode,
    cursor_index: Option<usize>,
    new_occupant_id: usize,
) -> Seq<Cell> {
    match cursor_index {
        Some(i) => {
            if i < cells.len() {
                let c = cells[i as int];
                match mode {
                    CursorMode::Placing => {
                        if !c.occupied {
                            cells.update(
                                i as int,
                                Cell {
                                    id: c.id,
                                    centre: c.centre,
                                    bounds: c.bounds,
                                    occupied: true,
                                    occupied_by: Some(new_occupant_id),
                                    neighbours: c.neighbours,
                                },
                            )
                        } else {
                            cells
                        }
                    },
                    CursorMode::Deleting => {
                        if c.occupied {
                            cells.update(
                                i as int,
                                Cell {
                                    id: c.id,
                                    centre: c.centre,
                                    bounds: c.bounds,
                                    occupied: false,
                                    occupied_by: None,
                                    neighbours: c.neighbours,
                                },
                            )
                        } else {
                            cells
                        }
                    },
                    CursorMode::Idle => cells,
                }
            } else {
                cells
            }
        },
        None => cells,
    }
}

/// The intent one reconciliation pass emits: Spawn when Placing over an
/// unoccupied resolved cell, Despawn (with the outgoing occupant) when
/// Deleting over an occupied one, and nothing otherwise.
pub open spec fn reconcile_intent(
    cells: Seq<Cell>,
    mode: CursorMode,
    cursor_index: Option<usize>,
) -> Option<Intent> {
    match cursor_index {
        Some(i) => {
            if i < cells.len() {
                let c = cells[i as int];
                match mode {
                    CursorMode::Placing => {
                        if !c.occupied {
                            Some(Intent::Spawn { cell: i })
                        } else {
                            None
                        }
                    },
                    CursorMode::Deleting => {
                        if c.occupied {
                            Some(Intent::Despawn { cell: i, occupant: c.occupied_by })
                        } else {
                            None
                        }
                    },
                    CursorMode::Idle => None,
                }
            } else {
                None
            }
        },
        None => None,
    }
}

/// If you are in placement mode, the cell under the cursor is toggled to
/// occupied and a Spawn intent is emitted; if you are in deletion mode it
/// is toggled to unoccupied and a Despawn intent is emitted.  A cell
/// already in the target state, or no cell under the cursor, changes
/// nothing and emits nothing.
pub fn flag_equipment(
    grid: &mut Grid,
    cursor_idx: &CursorGridIdx,
    mode: CursorMode,
    new_occupant_id: usize,
) -> (intent: Option<Intent>)
    requires
        cursor_idx.index matches Some(i) ==> i < old(grid).cells@.len(),
    ensures
        final(grid).cells@ == reconciled_cells(
            old(grid).cells@,
            mode,
            cursor_idx.index,
            new_occupant_id,
        ),
        intent == reconcile_intent(old(grid).cells@, mode, cursor_idx.index),
        old(grid).occupancy_consistent() ==> final(grid).occupancy_consistent(),
{
    let ghost cells0 = grid.cells@;
    let intent: Option<Intent> = match cursor_idx.index {
        Some(cursor_index) => {
            let current_cell = grid.cells[cursor_index];
            match mode {
                CursorMode::Placing => {
                    if !current_cell.occupied {
                        grid.cells[cursor_index] = Cell {
                            occupied: true,
                            occupied_by: Some(new_occupant_id),
                            ..current_cell
                        };
                        Some(Intent::Spawn { cell: cursor_index })
                    } else {
                        None
                    }
                },
                CursorMode::Deleting => {
                    if current_cell.occupied {
                        grid.cells[cursor_index] = Cell {
                            occupied: false,
                            occupied_by: None,
                            ..current_cell
                        };
                        Some(Intent::Despawn {
                            cell: cursor_index,
                            occupant: current_cell.occupied_by,
                        })
                    } else {
                        None
                    }
                },
                CursorMode::Idle => None,
            }
        },
        None => None,
    };
    proof {
        assert(grid.cells@ =~= reconciled_cells(cells0, mode, cursor_idx.index, new_occupant_id));
    }
    intent
}

/// The spending ledger: a signed balance that placements draw on and
/// removals refund.
#[derive(Clone, Copy, Debug, Default, PartialEq, Eq, Structural)]
pub struct Budget(pub i32);

/// Sets the ledger to the configured starting balance.
pub fn define_budget(budget: &mut Budget, starting_budget: i32)
    ensures
        final(budget).0 == starting_budget,
{
    budget.0 = starting_budget;
}

/// What a piece of equipment charges the ledger: its cost, or nothing
/// while it is unpriced.
pub open spec fn cost_of(e: Equipment) -> int {
    match e.cost {
        Some(c) => c as int,
        None => 0,
    }
}

/// The total cost of a batch of equipment.
pub open spec fn cost_sum(s: Seq<Equipment>) -> int
    decreases s.len(),
{
    if s.len() == 0 {
        0
    } else {
        cost_sum(s.drop_last()) + cost_of(s.last())
    }
}

/// Every intermediate balance of one ledger update stays within the
/// ledger's range: first each new cost is subtracted, then each removed
/// cost is refunded.
pub open spec fn budget_update_in_range(
    start: int,
    new_equipment: Seq<Equipment>,
    removed_equipment: Seq<Equipment>,
) -> bool {
    &&& forall|k: int|
        0 <= k <= new_equipment.len() ==> i32::MIN <= start - cost_sum(
            #[trigger] new_equipment.take(k),
        ) <= i32::MAX
    &&& forall|k: int|
        0 <= k <= removed_equipment.len() ==> i32::MIN <= start - cost_sum(new_equipment)
            + cost_sum(#[trigger] removed_equipment.take(k)) <= i32::MAX
}

/// Applies one batch of consumed intents to the ledger: subtracts the
/// cost of each newly placed piece of equipment and refunds the cost of
/// each removed one, exactly once per piece.
pub fn update_budget(
    budget: &mut Budget,
    new_equipment: &Vec<Equipment>,
    equipment_to_be_deleted: &Vec<Equipment>,
)
    requires
        budget_update_in_range(
            old(budget).0 as int,
            new_equipment@,
            equipment_to_be_deleted@,
        ),
    ensures
        final(budget).0 as int == old(budget).0 as int - cost_sum(new_equipment@) + cost_sum(
            equipment_to_be_deleted@,
        ),
{
    let ghost start = old(budget).0 as int;
    let mut i: usize = 0;
    while i < new_equipment.len()
        invariant
            i <= new_equipment@.len(),
            budget_update_in_range(start, new_equipment@, equipment_to_be_deleted@),
            budget.0 as int == start - cost_sum(new_equipment@.take(i as int)),
        decreases new_equipment@.len() - i,
    {
        proof {
            assert(new_equipment@.take(i as int + 1).drop_last() =~= new_equipment@.take(
                i as int,
            ));
            assert(new_equipment@.take(i as int + 1).last() == new_equipment@[i as int]);
        }
        let equipment = new_equipment[i];
        if let Some(cost) = equipment.cost {
            budget.0 = budget.0 - cost;
        }
        i = i + 1;
    }
    proof {
        assert(new_equipment@.take(new_equipment@.len() as int) =~= new_equipment@);
    }
    let mut j: usize = 0;
    while j < equipment_to_be_deleted.len()
        invariant
            j <= equipment_to_be_deleted@.len(),
            budget_update_in_range(start, new_equipment@, equipment_to_be_deleted@),
            budget.0 as int == start - cost_sum(new_equipment@) + cost_sum(
                equipment_to_be_deleted@.take(j as int),
            ),
        decreases equipment_to_be_deleted@.len() - j,
    {
        proof {
            assert(equipment_to_be_deleted@.take(j as int + 1).drop_last()
                =~= equipment_to_be_deleted@.take(j as int));
            assert(equipment_to_be_deleted@.take(j as int + 1).last()
                == equipment_to_be_deleted@[j as int]);
        }
        let equipment = equipment_to_be_deleted[j];
        if let Some(cost) = equipment.cost {
            budget.0 = budget.0 + cost;
        }
        j = j + 1;
    }
    proof {
        assert(equipment_to_be_deleted@.take(equipment_to_be_deleted@.len() as int)
            =~= equipment_to_be_deleted@);
    }
}

/// Reconciliation is idempotent: a second pass with the same mode and the
/// same resolved cell leaves the cells unchanged and emits no intent, so
/// holding the pointer still emits at most one intent per transition.
pub proof fn lemma_reconcile_idempotent(
    cells: Seq<Cell>,
    mode: CursorMode,
    cursor_index: Option<usize>,
    first_occupant_id: usize,
    second_occupant_id: usize,
)
    ensures
        reconciled_cells(
            reconciled_cells(cells, mode, cursor_index, first_occupant_id),
            mode,
            cursor_index,
            second_occupant_id,
        ) == reconciled_cells(cells, mode, cursor_index, first_occupant_id),
        reconcile_intent(
            reconciled_cells(cells, mode, cursor_index, first_occupant_id),
            mode,
            cursor_index,
        ) is None,
{
    let once = reconciled_cells(cells, mode, cursor_index, first_occupant_id);
    assert(reconciled_cells(once, mode, cursor_index, second_occupant_id) =~= once);
}

} // verus!
