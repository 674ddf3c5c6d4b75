use vstd::prelude::*;

use crate::input::{Input, MouseInput, MoveType};

verus! {

/// Flag bit: the event carries pointer movement.
pub const MOUSEEVENTF_MOVE: u32 = 0x0001;
/// Flag bit: the left button went down.
pub const MOUSEEVENTF_LEFTDOWN: u32 = 0x0002;
/// Flag bit: the left button went up.
pub const MOUSEEVENTF_LEFTUP: u32 = 0x0004;
/// Flag bit: the right button went down.
pub const MOUSEEVENTF_RIGHTDOWN: u32 = 0x0008;
/// Flag bit: the right button went up.
pub const MOUSEEVENTF_RIGHTUP: u32 = 0x0010;
/// Flag bit: the middle button went down.
pub const MOUSEEVENTF_MIDDLEDOWN: u32 = 0x0020;
/// Flag bit: the middle button went up.
pub const MOUSEEVENTF_MIDDLEUP: u32 = 0x0040;
/// Flag bit: the platform must not merge this move with its neighbours.
pub const MOUSEEVENTF_MOVE_NOCOALESCE: u32 = 0x2000;
/// Flag bit: `dx` and `dy` are an absolute position, not a delta.
pub const MOUSEEVENTF_ABSOLUTE: u32 = 0x8000;

/// A native mouse event record: the raw deltas and the flag set handed to the platform.
#[derive(Debug, Clone, Copy, PartialEq, Eq, Structural, Hash)]
pub struct MouseRecord {
    pub dx: i32,
    pub dy: i32,
    pub flags: u32,
}

/// A native input event record, one variant per kind of input.
#[derive(Debug, Clone, Copy, PartialEq, Eq, Structural, Hash)]
pub enum InputRecord {
    Mouse(MouseRecord),
}

/// `bit` when `set` holds, no bit otherwise.
pub open spec fn bit_if(set: bool, bit: u32) -> u32 {
    if set {
        bit
    } else {
        0
    }
}

/// The flag set of a mouse input: one bit for each field that asks for it.
pub open spec fn mouse_flags_of(m: MouseInput) -> u32 {
    bit_if(m.move_type == MoveType::Absolute, MOUSEEVENTF_ABSOLUTE) | bit_if(
        m.movement,
        MOUSEEVENTF_MOVE,
    ) | bit_if(!m.coalesce, MOUSEEVENTF_MOVE_NOCOALESCE) | bit_if(m.left_down, MOUSEEVENTF_LEFTDOWN)
        | bit_if(m.left_up, MOUSEEVENTF_LEFTUP) | bit_if(m.right_down, MOUSEEVENTF_RIGHTDOWN)
        | bit_if(m.right_up, MOUSEEVENTF_RIGHTUP) | bit_if(m.middle_down, MOUSEEVENTF_MIDDLEDOWN)
        | bit_if(m.middle_up, MOUSEEVENTF_MIDDLEUP)
}

/// The native record of an input.
pub open spec fn record_of(input: Input) -> InputRecord {
    match input {
        Input::Mouse(m) => InputRecord::Mouse(
            MouseRecord { dx: m.x, dy: m.y, flags: mouse_flags_of(m) },
        ),
    }
}

/// Every bit that some field of a mouse input can set.
pub open spec fn known_mouse_flags() -> u32 {
    MOUSEEVENTF_ABSOLUTE | MOUSEEVENTF_MOVE | MOUSEEVENTF_MOVE_NOCOALESCE | MOUSEEVENTF_LEFTDOWN
        | MOUSEEVENTF_LEFTUP | MOUSEEVENTF_RIGHTDOWN | MOUSEEVENTF_RIGHTUP | MOUSEEVENTF_MIDDLEDOWN
        | MOUSEEVENTF_MIDDLEUP
}

/// Compute the flag set of a mouse input.
pub fn mouse_flags(m: &MouseInput) -> (r: u32)
    ensures
        r == mouse_flags_of(*m),
{
    let absolute: u32 = if m.move_type == MoveType::Absolute {
        MOUSEEVENTF_ABSOLUTE
    } else {
        0
    };
    let movement: u32 = if m.movement {
        MOUSEEVENTF_MOVE
    } else {
        0
    };
    let no_coalesce: u32 = if !m.coalesce {
        MOUSEEVENTF_MOVE_NOCOALESCE
    } else {
        0
    };
    let left_down: u32 = if m.left_down {
        MOUSEEVENTF_LEFTDOWN
    } else {
        0
    };
    let left_up: u32 = if m.left_up {
        MOUSEEVENTF_LEFTUP
    } else {
        0
    };
    let right_down: u32 = if m.right_down {
        MOUSEEVENTF_RIGHTDOWN
    } else {
        0
    };
    let right_up: u32 = if m.right_up {
        MOUSEEVENTF_RIGHTUP
    } else {
        0
    };
    let middle_down: u32 = if m.middle_down {
        MOUSEEVENTF_MIDDLEDOWN
    } else {
        0
    };
    let middle_up: u32 = if m.middle_up {
        MOUSEEVENTF_MIDDLEUP
    } else {
        0
    };
    absolute | movement | no_coalesce | left_down | left_up | right_down | right_up | middle_down
        | middle_up
}

impl InputRecord {
    /// Build the native record of an input.
    pub fn from_input(input: &Input) -> (r: Self)
        ensures
            r == record_of(*input),
    {
        match input {
            Input::Mouse(m) => InputRecord::Mouse(
                MouseRecord { dx: m.x, dy: m.y, flags: mouse_flags(m) },
            ),
        }
    }
}

proof fn lemma_bits_of_table(
    a: bool,
    mv: bool,
    nc: bool,
    ld: bool,
    lu: bool,
    rd: bool,
    ru: bool,
    md: bool,
    mu: bool,
    f: u32,
)
    by (bit_vector)
    requires
        f == (if a { 0x8000u32 } else { 0u32 }) | (if mv { 0x0001u32 } else { 0u32 }) | (if nc {
            0x2000u32
        } else {
            0u32
        }) | (if ld { 0x0002u32 } else { 0u32 }) | (if lu { 0x0004u32 } else { 0u32 }) | (if rd {
            0x0008u32
        } else {
            0u32
        }) | (if ru { 0x0010u32 } else { 0u32 }) | (if md { 0x0020u32 } else { 0u32 }) | (if mu {
            0x0040u32
        } else {
            0u32
        }),
    ensures
        (f & 0x8000u32 != 0) == a,
        (f & 0x0001u32 != 0) == mv,
        (f & 0x2000u32 != 0) == nc,
        (f & 0x0002u32 != 0) == ld,
        (f & 0x0004u32 != 0) == lu,
        (f & 0x0008u32 != 0) == rd,
        (f & 0x0010u32 != 0) == ru,
        (f & 0x0020u32 != 0) == md,
        (f & 0x0040u32 != 0) == mu,
        f & !0xa07fu32 == 0,
{
}

/// Each field of a mouse input decides exactly one bit of its flag set, and
/// no bit outside those nine is ever set.
pub proof fn lemma_mouse_flag_bits(m: MouseInput)
    ensures
        (mouse_flags_of(m) & MOUSEEVENTF_ABSOLUTE != 0) == (m.move_type == MoveType::Absolute),
        (mouse_flags_of(m) & MOUSEEVENTF_MOVE != 0) == m.movement,
        (mouse_flags_of(m) & MOUSEEVENTF_MOVE_NOCOALESCE != 0) == !m.coalesce,
        (mouse_flags_of(m) & MOUSEEVENTF_LEFTDOWN != 0) == m.left_down,
        (mouse_flags_of(m) & MOUSEEVENTF_LEFTUP != 0) == m.left_up,
        (mouse_flags_of(m) & MOUSEEVENTF_RIGHTDOWN != 0) == m.right_down,
        (mouse_flags_of(m) & MOUSEEVENTF_RIGHTUP != 0) == m.right_up,
        (mouse_flags_of(m) & MOUSEEVENTF_MIDDLEDOWN != 0) == m.middle_down,
        (mouse_flags_of(m) & MOUSEEVENTF_MIDDLEUP != 0) == m.middle_up,
        mouse_flags_of(m) & !known_mouse_flags() == 0,
{
    assert(known_mouse_flags() == 0xa07fu32) by (bit_vector);
    lemma_bits_of_table(
        m.move_type == MoveType::Absolute,
        m.movement,
        !m.coalesce,
        m.left_down,
        m.left_up,
        m.right_down,
        m.right_up,
        m.middle_down,
        m.middle_up,
        mouse_flags_of(m),
    );
}

} // verus!
