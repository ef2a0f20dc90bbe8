//! A possibly-empty cursor over an ordered list.
//!
//! Navigation clamps at the ends of the list and never wraps around; on an
//! empty list every operation is a no-op. Moving off an absent selection
//! lands on the first (moving next) or last (moving previous) item.

use vstd::prelude::*;

verus! {

/// The selection index, if present, stays below the list length.
pub open spec fn sel_in_bounds(sel: Option<usize>, len: nat) -> bool {
    match sel {
        Some(i) => i < len,
        None => true,
    }
}

/// A clamped cursor over a list whose length is supplied at each move.
#[derive(Clone, Copy, Debug, PartialEq, Eq, Structural)]
pub struct Selection {
    pub selected: Option<usize>,
}

impl Selection {
    /// The selection index, if present, stays below `len`.
    pub open spec fn in_bounds(self, len: nat) -> bool {
        sel_in_bounds(self.selected, len)
    }

    /// One step towards the end of the list, clamped at the last item.
    pub open spec fn spec_next(self, len: nat) -> Selection {
        if len == 0 {
            self
        } else {
            match self.selected {
                None => Selection { selected: Some(0) },
                Some(i) => if i + 1 < len {
                    Selection { selected: Some((i + 1) as usize) }
                } else {
                    Selection { selected: Some((len - 1) as usize) }
                },
            }
        }
    }

    /// One step towards the start of the list, clamped at the first item.
    pub open spec fn spec_previous(self, len: nat) -> Selection {
        if len == 0 {
            self
        } else {
            match self.selected {
                None => Selection { selected: Some((len - 1) as usize) },
                Some(i) => if i >= len {
                    Selection { selected: Some((len - 1) as usize) }
                } else if i > 0 {
                    Selection { selected: Some((i - 1) as usize) }
                } else {
                    Selection { selected: Some(0) }
                },
            }
        }
    }

    /// The first item, when the list is non-empty.
    pub open spec fn spec_first(self, len: nat) -> Selection {
        if len == 0 {
            self
        } else {
            Selection { selected: Some(0) }
        }
    }

    /// A selection with nothing selected.
    pub fn new() -> (s: Selection)
        ensures
            s == (Selection { selected: None::<usize> }),
    {
        Selection { selected: None }
    }

    /// A selection resting on `i`.
    pub fn with_selected(i: Option<usize>) -> (s: Selection)
        ensures
            s == (Selection { selected: i }),
    {
        Selection { selected: i }
    }

    /// The current index.
    pub fn selected(&self) -> (r: Option<usize>)
        ensures
            r == self.selected,
    {
        self.selected
    }

    /// Advances the selection by one, clamped at the end of the list.
    pub fn select_next(&mut self, len: usize)
        ensures
            *final(self) == old(self).spec_next(len as nat),
            len > 0 ==> final(self).selected is Some && final(self).in_bounds(len as nat),
            len == 0 ==> *final(self) == *old(self),
    {
        if len == 0 {
            return;
        }
        match self.selected {
            None => {
                self.selected = Some(0);
            },
            Some(i) => {
                if i < len - 1 {
                    self.selected = Some(i + 1);
                } else {
                    self.selected = Some(len - 1);
                }
            },
        }
    }

    /// Retreats the selection by one, clamped at the start of the list.
    pub fn select_previous(&mut self, len: usize)
        ensures
            *final(self) == old(self).spec_previous(len as nat),
            len > 0 ==> final(self).selected is Some && final(self).in_bounds(len as nat),
            len == 0 ==> *final(self) == *old(self),
    {
        if len == 0 {
            return;
        }
        match self.selected {
            None => {
                self.selected = Some(len - 1);
            },
            Some(i) => {
                if i >= len {
                    self.selected = Some(len - 1);
                } else if i > 0 {
                    self.selected = Some(i - 1);
                } else {
                    self.selected = Some(0);
                }
            },
        }
    }

    /// Selects the first item, when the list is non-empty.
    pub fn select_first(&mut self, len: usize)
        ensures
            *final(self) == old(self).spec_first(len as nat),
            len > 0 ==> final(self).selected == Some(0usize),
            len == 0 ==> *final(self) == *old(self),
    {
        if len > 0 {
            self.selected = Some(0);
        }
    }
}

} // verus!
