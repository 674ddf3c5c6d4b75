use vstd::prelude::*;

verus! {

/// The mouse movement type
#[derive(Debug, Clone, Copy, PartialEq, Eq, Structural, Hash)]
pub enum MoveType {
    /// Absolute movement
    Absolute,
    /// Relative movement
    Relative,
}

impl Default for MoveType {
    fn default() -> (r: Self)
        ensures
            r == MoveType::Relative,
    {
        MoveType::Relative
    }
}

/// Mouse Input Event
#[derive(Debug, Clone, Copy, PartialEq, Eq, Structural, Hash)]
pub struct MouseInput {
    /// X position or x delta, based on `move_type`
    pub x: i32,
    /// Y position or y delta, based on `move_type`
    pub y: i32,
    /// The mouse movement type
    pub move_type: MoveType,
    /// Whether mouse movement occured
    pub movement: bool,
    /// Whether to coalesce move messages
    pub coalesce: bool,
    /// The left button was pressed
    pub left_down: bool,
    /// The left button was released
    pub left_up: bool,
    /// The right button was pressed
    pub right_down: bool,
    /// The right button was released
    pub right_up: bool,
    /// The middle button was pressed
    pub middle_down: bool,
    /// The middle button was released
    pub middle_up: bool,
}

/// The mouse input that describes no event at all: a zero relative delta,
/// no movement, coalescing allowed, and no button transition.
pub open spec fn blank_mouse_input() -> MouseInput {
    MouseInput {
        x: 0,
        y: 0,
        move_type: MoveType::Relative,
        movement: false,
        coalesce: true,
        left_down: false,
        left_up: false,
        right_down: false,
        right_up: false,
        middle_down: false,
        middle_up: false,
    }
}

impl MouseInput {
    /// Make a new mouse input
    pub fn new() -> (r: Self)
        ensures
            r == blank_mouse_input(),
    {
        MouseInput {
            x: 0,
            y: 0,
            move_type: MoveType::default(),
            movement: false,
            coalesce: true,
            left_down: false,
            left_up: false,
            right_down: false,
            right_up: false,
            middle_down: false,
            middle_up: false,
        }
    }
}

impl Default for MouseInput {
    fn default() -> (r: Self)
        ensures
            r == blank_mouse_input(),
    {
        Self::new()
    }
}

/// An input
#[derive(Debug, Clone, Copy, PartialEq, Eq, Structural, Hash)]
pub enum Input {
    /// Mouse Input Event
    Mouse(MouseInput),
}

impl Input {
    /// Get a mut `MouseInput` if this is a `MouseInput`.
    pub fn get_mouse_input_mut(&mut self) -> (r: Option<&mut MouseInput>)
        ensures
            match *old(self) {
                Input::Mouse(m) => r matches Some(mr) && *mr == m && *final(self) == Input::Mouse(*final(mr)),
            },
    {
        match self {
            Input::Mouse(input) => Some(input),
        }
    }
}

impl From<MouseInput> for Input {
    fn from(mouse_input: MouseInput) -> (r: Self)
        ensures
            r == Input::Mouse(mouse_input),
    {
        Input::Mouse(mouse_input)
    }
}

impl vstd::std_specs::convert::FromSpecImpl<MouseInput> for Input {
    open spec fn obeys_from_spec() -> bool {
        true
    }

    open spec fn from_spec(mouse_input: MouseInput) -> Input {
        Input::Mouse(mouse_input)
    }
}

} // verus!
