//! Cursor control and synthetic mouse input: the description of mouse
//! events, their translation into native event records, the rectangle that
//! bounds the cursor, and the decisions around submitting events.

use vstd::prelude::*;

pub mod click;
pub mod input;
pub mod record;
pub mod rect;
pub mod send;

pub use crate::click::{left_click, right_click};
pub use crate::input::{Input, MouseInput, MoveType};
pub use crate::rect::Rect;
