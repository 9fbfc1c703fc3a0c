//! The state contract a generic selection control satisfies: a pure
//! reporter of the chosen value. It owns the ordered candidate list and
//! the current choice, and hands a newly chosen value to its one
//! consumer; it never fetches and never owns fetch state.

use vstd::prelude::*;

verus! {

/// A selection control over candidate values of one item type.
pub struct Select<T> {
    options: Vec<T>,
    selected: Option<usize>,
}

impl<T> Select<T> {
    /// The candidate values, ordered as displayed.
    pub closed spec fn spec_options(&self) -> Seq<T> {
        self.options@
    }

    /// The index of the currently chosen candidate, if any.
    pub closed spec fn spec_selected(&self) -> Option<int> {
        match self.selected {
            Some(i) => Some(i as int),
            None => None,
        }
    }

    /// A choice, when present, points into the candidate list.
    pub open spec fn wf(&self) -> bool {
        self.spec_selected() matches Some(i) ==> 0 <= i < self.spec_options().len()
    }

    /// A control over `options` starts with nothing chosen.
    pub fn new(options: Vec<T>) -> (r: Self)
        ensures
            r.spec_options() == options@,
            r.spec_selected() is None,
            r.wf(),
    {
        Select { options, selected: None }
    }

    /// The user chooses the candidate at `index`; the returned borrow is
    /// what the control reports to its consumer's callback.
    pub fn change(&mut self, index: usize) -> (chosen: &T)
        requires
            index < old(self).spec_options().len(),
    ensures
            final(self).spec_options() == old(self).spec_options(),
            final(self).spec_selected() == Some(index as int),
            *chosen == old(self).spec_options()[index as int],
            final(self).wf(),
    {
        self.selected = Some(index);
        &self.options[index]
    }

    /// The currently chosen value, if any.
    pub fn selected_value(&self) -> (r: Option<&T>)
        requires
            self.wf(),
        ensures
            match self.spec_selected() {
                Some(i) => r matches Some(v) && *v == self.spec_options()[i],
                None => r is None,
            },
    {
        match self.selected {
            Some(i) => Some(&self.options[i]),
            None => None,
        }
    }

    /// The candidate list, for display.
    pub fn options(&self) -> (r: &Vec<T>)
        ensures
            r@ == self.spec_options(),
    {
        &self.options
    }
}

} // verus!
