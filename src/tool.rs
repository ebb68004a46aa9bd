use vstd::prelude::*;

verus! {

/// The editing mode that decides what a pointer gesture does.
#[derive(Clone, Copy, Debug, PartialEq, Eq, Structural)]
pub enum Tool {
    Hand,
    Rect,
    Circle,
    Freehand,
    Select,
    Text,
}

impl Tool {
    /// The tools that draw a new shape.
    pub open spec fn spec_draws_shape(self) -> bool {
        self is Rect || self is Circle || self is Freehand
    }

    pub fn draws_shape(self) -> (r: bool)
        ensures
            r == self.spec_draws_shape(),
    {
        match self {
            Tool::Rect | Tool::Circle | Tool::Freehand => true,
            _ => false,
        }
    }
}

} // verus!
