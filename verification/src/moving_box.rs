//! The direction that the keys give to the moving box.

use vstd::prelude::*;

verus! {

/// The direction in which the box is steered.
#[derive(Clone, Copy, Debug, PartialEq, Eq, Structural, Hash)]
pub enum Input {
    Left,
    Neutral,
    Right,
}

impl Default for Input {
    fn default() -> (r: Input)
        ensures
            r == Input::Neutral,
    {
        Input::Neutral
    }
}

impl Input {
    /// Left if the left key is held, else neutral.
    pub open spec fn spec_left(left: bool) -> Input {
        if left {
            Input::Left
        } else {
            Input::Neutral
        }
    }

    /// Right if the right key is held, else neutral.
    pub open spec fn spec_right(right: bool) -> Input {
        if right {
            Input::Right
        } else {
            Input::Neutral
        }
    }

    /// The side of the one key that is held; neutral if both or neither are.
    pub open spec fn spec_xor(left: bool, right: bool) -> Input {
        if left && !right {
            Input::Left
        } else if right && !left {
            Input::Right
        } else {
            Input::Neutral
        }
    }

    /// The direction after the keys have been read: a direction stays while
    /// its key is held, whatever the other key does; once its key is let go the
    /// other key decides; from neutral, one key alone decides.
    pub open spec fn spec_handle_input(self, left: bool, right: bool) -> Input {
        match self {
            Input::Left => if left {
                Input::Left
            } else {
                Input::spec_right(right)
            },
            Input::Right => if right {
                Input::Right
            } else {
                Input::spec_left(left)
            },
            Input::Neutral => Input::spec_xor(left, right),
        }
    }

    /// Left if the left key is held, else neutral.
    pub fn left(left: bool) -> (r: Input)
        ensures
            r == Input::spec_left(left),
    {
        if left {
            Input::Left
        } else {
            Input::Neutral
        }
    }

    /// Right if the right key is held, else neutral.
    pub fn right(right: bool) -> (r: Input)
        ensures
            r == Input::spec_right(right),
    {
        if right {
            Input::Right
        } else {
            Input::Neutral
        }
    }

    /// The side of the one key that is held; neutral if both or neither are.
    pub fn xor(left: bool, right: bool) -> (r: Input)
        ensures
            r == Input::spec_xor(left, right),
    {
        match (left, right) {
            (true, false) => Input::Left,
            (false, true) => Input::Right,
            _ => Input::Neutral,
        }
    }

    /// The direction after the keys have been read.
    pub fn handle_input(self, left: bool, right: bool) -> (r: Input)
        ensures
            r == self.spec_handle_input(left, right),
            (left || right) ==> r != Input::Neutral || (self == Input::Neutral && left && right),
            !left && !right ==> r == Input::Neutral,
    {
        match self {
            Input::Left => if left {
                self
            } else {
                Input::right(right)
            },
            Input::Right => if right {
                self
            } else {
                Input::left(left)
            },
            Input::Neutral => Input::xor(left, right),
        }
    }
}

} // verus!
