//! The layout planner: how many leading and trailing indices of an axis stay
//! visible once the axis is longer than its budget, and which index each
//! displayed slot shows.

use vstd::prelude::*;

verus! {

/// The number of data rows that may be displayed before rows are elided.
pub const ROW_BUDGET: usize = 10;

/// The assumed average width of a column, in character cells.
pub const EXPECTED_COLUMN_WIDTH: usize = 18;

/// The decision for one axis (rows or columns): the first `head_count` and
/// the last `tail_count` indices are shown; when `marker_inserted`, one marker
/// slot stands between the two blocks in place of everything in between.
#[derive(Clone, Copy, Debug, PartialEq, Eq, Structural)]
pub struct ElisionPlan {
    pub head_count: usize,
    pub tail_count: usize,
    pub marker_inserted: bool,
}

impl ElisionPlan {
    /// The number of indices that are shown.
    pub open spec fn shown(self) -> nat {
        (self.head_count + self.tail_count) as nat
    }

    /// The number of displayed slots: the shown indices, and the marker if
    /// there is one.
    pub open spec fn slot_count_spec(self) -> nat {
        if self.marker_inserted {
            self.shown() + 1
        } else {
            self.shown()
        }
    }

    /// The number of indices that the marker stands for.
    pub open spec fn hidden_spec(self, total_count: nat) -> int {
        total_count - self.head_count - self.tail_count
    }

    /// A plan fits an axis of `total_count` indices when it shows no more than
    /// there are, has a marker exactly when something is hidden, and keeps
    /// everything in the head block when nothing is.
    pub open spec fn valid_for(self, total_count: nat) -> bool {
        &&& self.shown() <= total_count
        &&& self.marker_inserted <==> self.shown() < total_count
        &&& !self.marker_inserted ==> self.tail_count == 0
    }

    /// The index shown in slot `k`, or `None` where slot `k` is the marker.
    pub open spec fn slot_index(self, total_count: nat, k: int) -> Option<usize> {
        if k < self.head_count {
            Some(k as usize)
        } else if self.marker_inserted && k == self.head_count {
            None
        } else {
            Some((total_count - self.slot_count_spec() + k) as usize)
        }
    }

    /// The pattern of an axis: one entry per displayed slot, in display order.
    pub open spec fn slots_spec(self, total_count: nat) -> Seq<Option<usize>> {
        Seq::new(self.slot_count_spec(), |k: int| self.slot_index(total_count, k))
    }

    /// The slot of the marker, if the plan has one.
    pub open spec fn marker_slot_spec(self) -> Option<usize> {
        if self.marker_inserted {
            Some(self.head_count)
        } else {
            None
        }
    }

    /// The number of displayed slots.
    pub fn slot_count(&self) -> (n: usize)
        requires
            self.slot_count_spec() <= usize::MAX,
        ensures
            n == self.slot_count_spec(),
    {
        if self.marker_inserted {
            self.head_count + self.tail_count + 1
        } else {
            self.head_count + self.tail_count
        }
    }

    /// The number of indices that are not shown.
    pub fn hidden_count(&self, total_count: usize) -> (n: usize)
        requires
            self.shown() <= total_count,
        ensures
            n == self.hidden_spec(total_count as nat),
    {
        total_count - self.head_count - self.tail_count
    }

    pub fn marker_slot(&self) -> (slot: Option<usize>)
        ensures
            slot == self.marker_slot_spec(),
    {
        if self.marker_inserted {
            Some(self.head_count)
        } else {
            None
        }
    }

    /// Lists, slot by slot, the index that is displayed there: the head block
    /// in ascending order, `None` for the marker, then the last `tail_count`
    /// indices in ascending order.
    pub fn slots(&self, total_count: usize) -> (out: Vec<Option<usize>>)
        requires
            self.valid_for(total_count as nat),
        ensures
            out@ == self.slots_spec(total_count as nat),
            picks_below(out@, total_count as nat),
    {
        let mut out: Vec<Option<usize>> = Vec::new();
        let mut i: usize = 0;
        while i < self.head_count
            invariant
                self.valid_for(total_count as nat),
                i <= self.head_count,
                out@.len() == i,
                forall|k: int| 0 <= k < i ==> out@[k] == self.slot_index(total_count as nat, k),
            decreases self.head_count - i,
        {
            out.push(Some(i));
            i += 1;
        }
        if self.marker_inserted {
            out.push(None);
            let first: usize = total_count - self.tail_count;
            let mut j: usize = 0;
            while j < self.tail_count
                invariant
                    self.valid_for(total_count as nat),
                    self.marker_inserted,
                    first == total_count - self.tail_count,
                    j <= self.tail_count,
                    out@.len() == self.head_count + 1 + j,
                    forall|k: int|
                        0 <= k < out@.len() ==> out@[k] == self.slot_index(total_count as nat, k),
                decreases self.tail_count - j,
            {
                out.push(Some(first + j));
                j += 1;
            }
        }
        out
    }
}

/// Whether every index that `pattern` picks is below `count`.
pub open spec fn picks_below(pattern: Seq<Option<usize>>, count: nat) -> bool {
    forall|k: int|
        0 <= k < pattern.len() && (#[trigger] pattern[k]) is Some ==> pattern[k]->0 < count
}

/// A budget of zero is read as a budget of one, so that something is shown.
pub open spec fn effective_capacity(capacity: nat) -> nat {
    if capacity == 0 {
        1
    } else {
        capacity
    }
}

/// The plan for an axis of `total_count` indices under a budget of `capacity`
/// shown indices: everything while it fits; otherwise the budget is split, the
/// head block getting the larger half of an odd budget, and the marker takes
/// one slot more.
pub open spec fn plan_spec(total_count: nat, capacity: nat) -> ElisionPlan {
    let cap = effective_capacity(capacity);
    if total_count <= cap {
        ElisionPlan { head_count: total_count as usize, tail_count: 0, marker_inserted: false }
    } else {
        ElisionPlan {
            head_count: ((cap + 1) / 2) as usize,
            tail_count: (cap / 2) as usize,
            marker_inserted: true,
        }
    }
}

/// Plans one axis.
///
/// While `total_count` is within the budget nothing is hidden. Beyond it,
/// exactly the budget is shown and one further slot holds the marker, so the
/// shown indices are one fewer than the displayed slots, and at least one
/// index is hidden. A budget of zero is planned as a budget of one.
pub fn plan(total_count: usize, capacity: usize) -> (p: ElisionPlan)
    ensures
        p == plan_spec(total_count as nat, capacity as nat),
        p.valid_for(total_count as nat),
        p.slot_count_spec() <= total_count,
        total_count <= capacity ==> {
            &&& !p.marker_inserted
            &&& p.head_count == total_count
            &&& p.tail_count == 0
            &&& p.hidden_spec(total_count as nat) == 0
        },
        total_count > capacity >= 1 ==> {
            &&& p.marker_inserted
            &&& p.head_count == (capacity + 1) / 2
            &&& p.tail_count == capacity / 2
            &&& p.head_count + p.tail_count == capacity
            &&& p.head_count + p.tail_count == p.slot_count_spec() - 1
            &&& p.hidden_spec(total_count as nat) == total_count - p.head_count - p.tail_count
            &&& p.hidden_spec(total_count as nat) > 0
        },
{
    let cap: usize = if capacity == 0 {
        1
    } else {
        capacity
    };
    if total_count <= cap {
        ElisionPlan { head_count: total_count, tail_count: 0, marker_inserted: false }
    } else {
        ElisionPlan { head_count: (cap + 1) / 2, tail_count: cap / 2, marker_inserted: true }
    }
}

/// Plans the row axis, whose budget is fixed.
pub fn plan_rows(row_count: usize) -> (p: ElisionPlan)
    ensures
        p == plan_spec(row_count as nat, ROW_BUDGET as nat),
        p.valid_for(row_count as nat),
        p.slot_count_spec() <= row_count,
        row_count <= ROW_BUDGET ==> p.head_count == row_count && p.tail_count == 0
            && !p.marker_inserted,
        row_count > ROW_BUDGET ==> p.head_count == 5 && p.tail_count == 5 && p.marker_inserted,
{
    plan(row_count, ROW_BUDGET)
}

/// The number of columns of the expected width that a terminal of
/// `terminal_width` character cells has room for, a started column counted
/// in full.
pub open spec fn terminal_slots(terminal_width: nat) -> nat {
    (terminal_width + EXPECTED_COLUMN_WIDTH - 1) as nat / (EXPECTED_COLUMN_WIDTH as nat)
}

/// The column budget of a terminal: its room less the slot kept for the
/// marker, and never less than one.
pub open spec fn column_capacity_spec(terminal_width: nat) -> nat {
    let room = terminal_slots(terminal_width);
    if room >= 2 {
        (room - 1) as nat
    } else {
        1
    }
}

/// Estimates how many data columns may be shown on a terminal of
/// `terminal_width` character cells.
pub fn column_capacity(terminal_width: usize) -> (capacity: usize)
    ensures
        capacity == column_capacity_spec(terminal_width as nat),
        capacity >= 1,
{
    let full: usize = terminal_width / EXPECTED_COLUMN_WIDTH;
    let room: usize = if terminal_width % EXPECTED_COLUMN_WIDTH == 0 {
        full
    } else {
        full + 1
    };
    if room >= 2 {
        room - 1
    } else {
        1
    }
}

/// On the column axis one of the slots that the terminal has room for is kept
/// for the marker: once columns are hidden, the columns shown are one fewer
/// than the room, at least one column is hidden, and the marker accounts for
/// every column that is not shown.
pub proof fn lemma_column_plan_reserves_marker_slot(total_count: nat, terminal_width: nat)
    requires
        total_count <= usize::MAX,
        terminal_slots(terminal_width) >= 2,
        total_count > column_capacity_spec(terminal_width),
    ensures
        ({
            let p = plan_spec(total_count, column_capacity_spec(terminal_width));
            &&& p.marker_inserted
            &&& p.head_count + p.tail_count == terminal_slots(terminal_width) - 1
            &&& p.slot_count_spec() == terminal_slots(terminal_width)
            &&& p.hidden_spec(total_count) == total_count - p.head_count - p.tail_count
            &&& p.hidden_spec(total_count) > 0
        }),
{
}

/// Every displayed slot other than the marker shows an index of the axis; the
/// slots before the marker count up from the first index, those after it count
/// up to the last, and no index is shown twice.
pub proof fn lemma_slots_in_order(p: ElisionPlan, total_count: nat)
    requires
        p.valid_for(total_count),
        total_count <= usize::MAX,
    ensures
        forall|k: int|
            0 <= k < p.slot_count_spec() ==> (#[trigger] p.slot_index(total_count, k) is None
                <==> p.marker_slot_spec() == Some(k as usize)),
        forall|k: int|
            0 <= k < p.slot_count_spec() && (#[trigger] p.slot_index(total_count, k)) is Some
                ==> p.slot_index(total_count, k)->0 < total_count,
        forall|k: int, l: int|
            0 <= k < l < p.slot_count_spec() && (#[trigger] p.slot_index(total_count, k)) is Some
                && (#[trigger] p.slot_index(total_count, l)) is Some ==> p.slot_index(
                total_count,
                k,
            )->0 < p.slot_index(total_count, l)->0,
{
}

} // verus!
