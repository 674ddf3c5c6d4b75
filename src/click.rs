use vstd::prelude::*;

use crate::input::{blank_mouse_input, Input, MouseInput};
use crate::send::OsError;

verus! {

/// A mouse button that a click can use.
#[derive(Debug, Clone, Copy, PartialEq, Eq, Structural, Hash)]
pub enum Button {
    Left,
    Right,
}

/// How far a click has come.
#[derive(Debug, Clone, Copy, PartialEq, Eq, Structural, Hash)]
pub enum ClickStage {
    /// The button-down event is to be submitted.
    Press,
    /// The button-down submission was accepted with this count; the
    /// button-up event is to be submitted.
    Release { pressed: usize },
    /// The click is over.
    Done,
}

/// A click of one button: a button-down submission followed by a button-up
/// submission, stopping at the first failure.
///
/// The caller submits `inputs()`, hands the outcome to `advance`, and repeats
/// until `advance` returns the click's result.
#[derive(Debug, Clone, Copy, PartialEq, Eq, Structural, Hash)]
pub struct Click {
    pub button: Button,
    pub stage: ClickStage,
}

/// The input that presses a button, at the current pointer position.
pub open spec fn press_input(button: Button) -> Input {
    match button {
        Button::Left => Input::Mouse(MouseInput { left_down: true, ..blank_mouse_input() }),
        Button::Right => Input::Mouse(MouseInput { right_down: true, ..blank_mouse_input() }),
    }
}

/// The input that releases a button, at the current pointer position.
pub open spec fn release_input(button: Button) -> Input {
    match button {
        Button::Left => Input::Mouse(MouseInput { left_up: true, ..blank_mouse_input() }),
        Button::Right => Input::Mouse(MouseInput { right_up: true, ..blank_mouse_input() }),
    }
}

impl Click {
    /// A click of `button` that has not submitted anything yet.
    pub open spec fn start(button: Button) -> Click {
        Click { button, stage: ClickStage::Press }
    }

    /// The batch that the click submits next.
    pub open spec fn pending(self) -> Seq<Input> {
        match self.stage {
            ClickStage::Press => seq![press_input(self.button)],
            ClickStage::Release { .. } => seq![release_input(self.button)],
            ClickStage::Done => Seq::empty(),
        }
    }

    /// The click after a submission with the given outcome, and its result
    /// once it is over.
    pub open spec fn after(self, outcome: Result<usize, OsError>) -> (Click, Option<Result<usize, OsError>>) {
        match self.stage {
            ClickStage::Press => match outcome {
                Ok(n) => (Click { stage: ClickStage::Release { pressed: n }, ..self }, None),
                Err(e) => (Click { stage: ClickStage::Done, ..self }, Some(Err(e))),
            },
            ClickStage::Release { pressed } => match outcome {
                Ok(_) => (Click { stage: ClickStage::Done, ..self }, Some(Ok(pressed))),
                Err(e) => (Click { stage: ClickStage::Done, ..self }, Some(Err(e))),
            },
            ClickStage::Done => (self, None),
        }
    }

    /// Start a click of `button`.
    pub fn new(button: Button) -> (r: Click)
        ensures
            r == Click::start(button),
    {
        Click { button, stage: ClickStage::Press }
    }

    /// Whether the click is over.
    pub fn is_done(&self) -> (r: bool)
        ensures
            r == (self.stage == ClickStage::Done),
    {
        match self.stage {
            ClickStage::Done => true,
            _ => false,
        }
    }

    /// The batch of inputs to submit next.
    pub fn inputs(&self) -> (r: Vec<Input>)
        requires
            self.stage != ClickStage::Done,
        ensures
            r@ == self.pending(),
    {
        let mut mouse_input = MouseInput::new();
        match self.stage {
            ClickStage::Press => match self.button {
                Button::Left => mouse_input.left_down = true,
                Button::Right => mouse_input.right_down = true,
            },
            _ => match self.button {
                Button::Left => mouse_input.left_up = true,
                Button::Right => mouse_input.right_up = true,
            },
        }
        let r = vec![Input::Mouse(mouse_input)];
        proof {
            assert(r@ == self.pending());
        }
        r
    }

    /// Take the outcome of submitting `inputs()`. Returns the click's result
    /// once it is over: the failure of the first submission that failed, or
    /// the count that the platform accepted for the button-down event.
    pub fn advance(&mut self, outcome: Result<usize, OsError>) -> (r: Option<Result<usize, OsError>>)
        requires
            old(self).stage != ClickStage::Done,
        ensures
            (*final(self), r) == old(self).after(outcome),
    {
        match self.stage {
            ClickStage::Press => match outcome {
                Ok(n) => {
                    self.stage = ClickStage::Release { pressed: n };
                    None
                },
                Err(e) => {
                    self.stage = ClickStage::Done;
                    Some(Err(e))
                },
            },
            ClickStage::Release { pressed } => {
                self.stage = ClickStage::Done;
                match outcome {
                    Ok(_) => Some(Ok(pressed)),
                    Err(e) => Some(Err(e)),
                }
            },
            ClickStage::Done => None,
        }
    }
}

/// Left Click: a click of the primary button at the current pointer position.
pub fn left_click() -> (r: Click)
    ensures
        r == Click::start(Button::Left),
{
    Click::new(Button::Left)
}

/// Right Click: a click of the secondary button at the current pointer position.
pub fn right_click() -> (r: Click)
    ensures
        r == Click::start(Button::Right),
{
    Click::new(Button::Right)
}

/// A click makes exactly two submissions, the button-down input and then the
/// button-up input, and makes none after a failed one: when the first
/// submission fails the click is over with that failure; otherwise it is over
/// after the second, with that one's failure or the first one's count.
pub proof fn lemma_click_submissions(button: Button, first: Result<usize, OsError>, second: Result<usize, OsError>)
    ensures
        Click::start(button).pending() == seq![press_input(button)],
        ({
            let (c1, r1) = Click::start(button).after(first);
            match first {
                Err(e) => c1.stage == ClickStage::Done && r1 == Some(Err::<usize, OsError>(e)),
                Ok(n) => {
                    let (c2, r2) = c1.after(second);
                    &&& r1.is_none()
                    &&& c1.pending() == seq![release_input(button)]
                    &&& c2.stage == ClickStage::Done
                    &&& r2 == Some(
                        match second {
                            Ok(_) => Ok::<usize, OsError>(n),
                            Err(e) => Err(e),
                        },
                    )
                },
            }
        }),
{
}

} // verus!
