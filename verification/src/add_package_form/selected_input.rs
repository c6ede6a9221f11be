use vstd::prelude::*;

verus! {

/// The input of the package form that has the focus.
#[derive(Clone, Copy, Debug, PartialEq, Eq, Structural)]
pub enum SelectedInput {
    Name,
    Links,
    Password,
    Queue,
    Collector,
    AddPackage,
}

/// Number of inputs in the package form.
pub open spec fn input_count() -> int {
    6
}

impl SelectedInput {
    /// Place of the input in the focus order.
    pub open spec fn rank(self) -> int {
        match self {
            SelectedInput::Name => 0,
            SelectedInput::Links => 1,
            SelectedInput::Password => 2,
            SelectedInput::Queue => 3,
            SelectedInput::Collector => 4,
            SelectedInput::AddPackage => 5,
        }
    }

    /// The input at a place of the focus order.
    pub open spec fn at_rank(r: int) -> SelectedInput {
        if r == 0 {
            SelectedInput::Name
        } else if r == 1 {
            SelectedInput::Links
        } else if r == 2 {
            SelectedInput::Password
        } else if r == 3 {
            SelectedInput::Queue
        } else if r == 4 {
            SelectedInput::Collector
        } else {
            SelectedInput::AddPackage
        }
    }

    /// The input `step` places after this one, wrapping around.
    pub open spec fn shifted(self, step: int) -> SelectedInput {
        SelectedInput::at_rank((self.rank() + step) % input_count())
    }

    fn position(&self) -> (pos: usize)
        ensures
            pos == self.rank(),
    {
        match self {
            SelectedInput::Name => 0,
            SelectedInput::Links => 1,
            SelectedInput::Password => 2,
            SelectedInput::Queue => 3,
            SelectedInput::Collector => 4,
            SelectedInput::AddPackage => 5,
        }
    }

    fn from_position(pos: usize) -> (s: SelectedInput)
        requires
            pos < 6,
        ensures
            s == SelectedInput::at_rank(pos as int),
    {
        match pos {
            0 => SelectedInput::Name,
            1 => SelectedInput::Links,
            2 => SelectedInput::Password,
            3 => SelectedInput::Queue,
            4 => SelectedInput::Collector,
            _ => SelectedInput::AddPackage,
        }
    }

    /// The input that gets the focus on Tab.
    pub fn next(&self) -> (s: SelectedInput)
        ensures
            s == self.shifted(1),
    {
        self.cycle(1)
    }

    /// The input that gets the focus on Shift+Tab.
    pub fn prev(&self) -> (s: SelectedInput)
        ensures
            s == self.shifted(input_count() - 1),
    {
        self.cycle(5)
    }

    fn cycle(&self, step: usize) -> (s: SelectedInput)
        requires
            self.rank() + step <= usize::MAX,
        ensures
            s == self.shifted(step as int),
    {
        let pos = self.position();
        SelectedInput::from_position((pos + step) % 6)
    }
}

impl Default for SelectedInput {
    fn default() -> (s: SelectedInput)
        ensures
            s == SelectedInput::Name,
    {
        SelectedInput::Name
    }
}

/// Shift+Tab undoes Tab: the focus comes back to the input it left.
pub proof fn lemma_prev_undoes_next(s: SelectedInput)
    ensures
        s.shifted(1).shifted(input_count() - 1) == s,
{
}

/// Tab undoes Shift+Tab.
pub proof fn lemma_next_undoes_prev(s: SelectedInput)
    ensures
        s.shifted(input_count() - 1).shifted(1) == s,
{
}

/// Tab always moves the focus, and after as many presses as there are inputs
/// it is back where it started, having visited every input.
pub proof fn lemma_next_cycles_through_all(s: SelectedInput, t: SelectedInput)
    ensures
        s.shifted(1) != s,
        s.shifted(1).shifted(1).shifted(1).shifted(1).shifted(1).shifted(1) == s,
        exists|k: int| 0 <= k < input_count() && #[trigger] s.shifted(k) == t,
{
    let k = if t.rank() >= s.rank() {
        t.rank() - s.rank()
    } else {
        t.rank() - s.rank() + 6
    };
    assert((s.rank() + k) % input_count() == t.rank());
    assert(s.shifted(k) == t);
}

} // verus!
