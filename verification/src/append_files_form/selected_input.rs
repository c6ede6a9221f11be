use vstd::prelude::*;

verus! {

/// The input of the form for adding links to a package that has the focus.
#[derive(Clone, Copy, Debug, PartialEq, Eq, Structural)]
pub enum SelectedInput {
    Links,
    AddLinks,
}

impl SelectedInput {
    /// Place of the input in the focus order.
    pub open spec fn rank(self) -> int {
        match self {
            SelectedInput::Links => 0,
            SelectedInput::AddLinks => 1,
        }
    }

    /// The input at a place of the focus order.
    pub open spec fn at_rank(r: int) -> SelectedInput {
        if r == 0 {
            SelectedInput::Links
        } else {
            SelectedInput::AddLinks
        }
    }

    /// The input `step` places after this one, wrapping around.
    pub open spec fn shifted(self, step: int) -> SelectedInput {
        SelectedInput::at_rank((self.rank() + step) % 2)
    }

    fn position(&self) -> (pos: usize)
        ensures
            pos == self.rank(),
    {
        match self {
            SelectedInput::Links => 0,
            SelectedInput::AddLinks => 1,
        }
    }

    fn from_position(pos: usize) -> (s: SelectedInput)
        requires
            pos < 2,
        ensures
            s == SelectedInput::at_rank(pos as int),
    {
        if pos == 0 {
            SelectedInput::Links
        } else {
            SelectedInput::AddLinks
        }
    }

    /// The input that gets the focus on Tab.
    pub fn next(&self) -> (s: SelectedInput)
        ensures
            s == self.shifted(1),
    {
        self.cycle(1)
    }

    /// The input that gets the focus on Shift+Tab.
    pub fn prev(&self) -> (s: SelectedInput)
        ensures
            s == self.shifted(1),
    {
        self.cycle(1)
    }

    fn cycle(&self, step: usize) -> (s: SelectedInput)
        requires
            self.rank() + step <= usize::MAX,
        ensures
            s == self.shifted(step as int),
    {
        let pos = self.position();
        SelectedInput::from_position((pos + step) % 2)
    }
}

impl Default for SelectedInput {
    fn default() -> (s: SelectedInput)
        ensures
            s == SelectedInput::Links,
    {
        SelectedInput::Links
    }
}

/// With two inputs, Tab and Shift+Tab both toggle the focus, and each undoes
/// the other.
pub proof fn lemma_focus_toggles(s: SelectedInput)
    ensures
        s.shifted(1) != s,
        s.shifted(1).shifted(1) == s,
{
}

} // verus!
