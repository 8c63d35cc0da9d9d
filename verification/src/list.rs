//! Wrap-around selection state: a generic list with at most one selected
//! index, and the tab bar's label set with its current index.
//!
//! Stepping treats "no selection" as selecting the first entry and wraps at
//! both ends. On an empty list a step is a no-op — the policy chosen here for
//! the empty case, rather than an error — so the operations are total.

use vstd::prelude::*;

verus! {

/// Where the selection stands after one forward step: no selection picks the
/// first entry, the last entry wraps to the first, an empty list is left
/// alone.
pub open spec fn step_next(sel: Option<usize>, len: nat) -> Option<usize> {
    if len == 0 {
        sel
    } else {
        match sel {
            None => Some(0usize),
            Some(i) => if i + 1 < len {
                Some((i + 1) as usize)
            } else {
                Some(0usize)
            },
        }
    }
}

/// Where the selection stands after one backward step: no selection picks the
/// first entry, the first entry wraps to the last, an empty list is left
/// alone.
pub open spec fn step_previous(sel: Option<usize>, len: nat) -> Option<usize> {
    if len == 0 {
        sel
    } else {
        match sel {
            None => Some(0usize),
            Some(i) => if i == 0 {
                Some((len - 1) as usize)
            } else {
                Some((i - 1) as usize)
            },
        }
    }
}

/// An ordered collection with at most one selected index. The selected index
/// is plain data that a renderer reads to place its cursor.
pub struct StatefulList<T> {
    pub items: Vec<T>,
    pub selected: Option<usize>,
}

impl<T> StatefulList<T> {
    /// A selected index, when set, lies inside the collection.
    pub open spec fn wf(&self) -> bool {
        self.selected matches Some(i) ==> i < self.items@.len()
    }

    /// A list over the given items with nothing selected yet.
    pub fn with_items(items: Vec<T>) -> (r: StatefulList<T>)
        ensures
            r.items == items,
            r.selected is None,
            r.wf(),
    {
        StatefulList { items, selected: None }
    }

    /// Steps the selection forward, per `step_next`. The items are untouched.
    pub fn next(&mut self)
        ensures
            final(self).items == old(self).items,
            final(self).selected == step_next(old(self).selected, old(self).items@.len()),
            old(self).wf() ==> final(self).wf(),
    {
        let len = self.items.len();
        if len > 0 {
            let i: usize = match self.selected {
                Some(i) => if i < len - 1 {
                    i + 1
                } else {
                    0
                },
                None => 0,
            };
            self.selected = Some(i);
        }
    }

    /// Steps the selection backward, per `step_previous`. The items are
    /// untouched.
    pub fn previous(&mut self)
        ensures
            final(self).items == old(self).items,
            final(self).selected == step_previous(old(self).selected, old(self).items@.len()),
            old(self).wf() ==> final(self).wf(),
    {
        let len = self.items.len();
        if len > 0 {
            let i: usize = match self.selected {
                Some(i) => if i == 0 {
                    len - 1
                } else {
                    i - 1
                },
                None => 0,
            };
            self.selected = Some(i);
        }
    }
}

/// Where the tab index stands after one forward step; an empty label set is
/// left alone (it cannot arise after `TabsState::new`).
pub open spec fn wrap_next(i: int, n: int) -> int {
    if n <= 0 {
        i
    } else if i + 1 < n {
        i + 1
    } else {
        0
    }
}

/// Where the tab index stands after one backward step; an empty label set is
/// left alone.
pub open spec fn wrap_previous(i: int, n: int) -> int {
    if n <= 0 {
        i
    } else if i > 0 {
        i - 1
    } else {
        n - 1
    }
}

/// The tab bar: a label per tab, fixed and non-empty at construction, and the
/// index of the current tab. Next/previous wrap around.
pub struct TabsState<'a> {
    pub titles: Vec<&'a str>,
    pub index: usize,
}

impl<'a> TabsState<'a> {
    /// There is at least one tab and the current index points at one.
    pub open spec fn wf(&self) -> bool {
        &&& self.titles@.len() > 0
        &&& self.index < self.titles@.len()
    }

    /// A tab bar over the given labels, starting on the first.
    pub fn new(titles: Vec<&'a str>) -> (r: TabsState<'a>)
        requires
            titles@.len() > 0,
        ensures
            r.titles == titles,
            r.index == 0,
            r.wf(),
    {
        TabsState { titles, index: 0 }
    }

    /// Moves to the following tab, wrapping from the last to the first.
    pub fn next(&mut self)
        ensures
            final(self).titles == old(self).titles,
            final(self).index == wrap_next(old(self).index as int, old(self).titles@.len() as int),
            old(self).wf() ==> final(self).wf(),
    {
        let len = self.titles.len();
        if len > 0 {
            self.index = if self.index < len - 1 {
                self.index + 1
            } else {
                0
            };
        }
    }

    /// Moves to the preceding tab, wrapping from the first to the last.
    pub fn previous(&mut self)
        ensures
            final(self).titles == old(self).titles,
            final(self).index == wrap_previous(
                old(self).index as int,
                old(self).titles@.len() as int,
            ),
            old(self).wf() ==> final(self).wf(),
    {
        let len = self.titles.len();
        if len > 0 {
            self.index = if self.index > 0 {
                self.index - 1
            } else {
                len - 1
            };
        }
    }
}

/// From any in-range tab index, one step forward followed by one step back
/// returns to that index, and so does one step back followed by one step
/// forward. With the contracts of `TabsState::next` and `TabsState::previous`
/// this is the round trip of the tab bar.
pub proof fn lemma_tab_round_trip(i: int, n: int)
    requires
        0 <= i < n,
    ensures
        wrap_previous(wrap_next(i, n), n) == i,
        wrap_next(wrap_previous(i, n), n) == i,
{
}

} // verus!
