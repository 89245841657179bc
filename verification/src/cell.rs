//! The selection history: a single slot that remembers which cell is armed
//! for a move, and the time of the click that armed it.

use crate::pieces::Coord;
use vstd::prelude::*;

verus! {

/// Time of a pointer press, as a count of clock ticks since a fixed start.
/// Two presses on different cells never carry the same timestamp.
pub type Timestamp = u128;

/// An armed cell and the time of the click that armed it.
#[derive(Debug, Copy, Clone, PartialEq, Eq, Structural)]
pub struct CellSelect {
    pub coord: Coord,
    pub time: Timestamp,
}

impl CellSelect {
    pub fn new(coord: Coord, time: Timestamp) -> (select: Self)
        ensures
            select == (CellSelect { coord, time }),
    {
        CellSelect { coord, time }
    }
}

/// Holds at most one armed cell.
#[derive(Debug)]
pub struct CellSelectHistory(Option<CellSelect>);

/// Whether an incoming selection contradicts the held one: a different cell
/// under the very same timestamp. Timestamps are unique per click, so this
/// never arises from well-formed input, and `push` refuses it.
pub open spec fn push_conflicts(held: Option<CellSelect>, incoming: Option<CellSelect>) -> bool {
    &&& held matches Some(last)
    &&& incoming matches Some(new)
    &&& last.coord != new.coord
    &&& last.time == new.time
}

/// The slot after `incoming` is pushed onto `held`.
///
/// The same cell with the same timestamp is the same click seen again and
/// changes nothing; the same cell with a new timestamp is a second click on
/// the armed cell and disarms it; anything else replaces the slot.
pub open spec fn push_result(held: Option<CellSelect>, incoming: Option<CellSelect>) -> Option<
    CellSelect,
> {
    match (held, incoming) {
        (Some(last), Some(new)) => if last.coord == new.coord {
            if last.time == new.time {
                held
            } else {
                None
            }
        } else {
            incoming
        },
        _ => incoming,
    }
}

impl View for CellSelectHistory {
    type V = Option<CellSelect>;

    closed spec fn view(&self) -> Option<CellSelect> {
        self.0
    }
}

impl Default for CellSelectHistory {
    fn default() -> (history: Self)
        ensures
            history@ is None,
    {
        CellSelectHistory(None)
    }
}

impl CellSelectHistory {
    /// An empty history: no cell is armed.
    pub fn new() -> (history: Self)
        ensures
            history@ is None,
    {
        CellSelectHistory(None)
    }

    /// Offers a new selection, or `None` to disarm.
    pub fn push(&mut self, coord: Option<CellSelect>)
        requires
            !push_conflicts(old(self)@, coord),
        ensures
            final(self)@ == push_result(old(self)@, coord),
    {
        match (&self.0, &coord) {
            (Some(last), Some(new)) => {
                if last.coord == new.coord {
                    if last.time != new.time {
                        self.0 = None;
                    }
                } else {
                    self.0 = coord;
                }
            },
            _ => {
                self.0 = coord;
            },
        }
    }

    /// Whether `push` would refuse `coord` in the current state.
    pub fn conflicts_with(&self, coord: &Option<CellSelect>) -> (conflict: bool)
        ensures
            conflict == push_conflicts(self@, *coord),
    {
        match (&self.0, coord) {
            (Some(last), Some(new)) => last.coord != new.coord && last.time == new.time,
            _ => false,
        }
    }

    /// The armed cell, if any.
    pub fn last(&self) -> (last: Option<&CellSelect>)
        ensures
            last is Some <==> self@ is Some,
            last is Some ==> *last->0 == self@->0,
    {
        self.0.as_ref()
    }
}

/// Pushing the selection that is already held changes nothing.
pub proof fn lemma_push_same_click_keeps(select: CellSelect)
    ensures
        push_result(Some(select), Some(select)) == Some(select),
{
}

/// Pushing one selection twice in a row gives the same slot as pushing it
/// once, whenever the first push arms it.
///
/// The first push arms the cell unless the slot already held the same cell
/// under another timestamp, in which case it disarms; that start is left out.
pub proof fn lemma_push_twice_same(held: Option<CellSelect>, select: CellSelect)
    requires
        !push_conflicts(held, Some(select)),
        !(held matches Some(last) && last.coord == select.coord && last.time != select.time),
    ensures
        push_result(held, Some(select)) == Some(select),
        !push_conflicts(push_result(held, Some(select)), Some(select)),
        push_result(push_result(held, Some(select)), Some(select)) == Some(select),
{
}

/// A click on the armed cell at a later time disarms it.
pub proof fn lemma_push_toggles_off(coord: Coord, t0: Timestamp, t1: Timestamp)
    requires
        t0 != t1,
    ensures
        !push_conflicts(Some(CellSelect { coord, time: t0 }), Some(CellSelect { coord, time: t1 })),
        push_result(Some(CellSelect { coord, time: t0 }), Some(CellSelect { coord, time: t1 }))
            is None,
{
}

/// With nothing armed, any selection is taken as it comes.
pub proof fn lemma_push_fresh_select(select: CellSelect)
    ensures
        !push_conflicts(None, Some(select)),
        push_result(None, Some(select)) == Some(select),
{
}

/// A click on another cell at another time re-arms to that cell.
pub proof fn lemma_push_reselects(held: CellSelect, select: CellSelect)
    requires
        held.coord != select.coord,
        held.time != select.time,
    ensures
        !push_conflicts(Some(held), Some(select)),
        push_result(Some(held), Some(select)) == Some(select),
{
}

/// Pushing `None` always disarms.
pub proof fn lemma_push_none_clears(held: Option<CellSelect>)
    ensures
        !push_conflicts(held, None),
        push_result(held, None) is None,
{
}

} // verus!
