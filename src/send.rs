use vstd::prelude::*;

use crate::input::Input;
use crate::record::{record_of, InputRecord};

verus! {

/// A failure reported by the operating system, with its last-error code.
#[derive(Debug, Clone, Copy, PartialEq, Eq, Structural, Hash)]
pub struct OsError {
    pub code: i32,
}

/// What to do with a batch of inputs.
#[derive(Debug, Clone, PartialEq, Eq)]
pub enum SendStep {
    /// Nothing needs to be submitted; the batch is done with this many events accepted.
    Finished(usize),
    /// Submit these records to the platform in one call.
    Submit(Vec<InputRecord>),
}

/// The native records of a sequence of inputs, in order.
pub open spec fn records_of(inputs: Seq<Input>) -> Seq<InputRecord> {
    inputs.map_values(|i: Input| record_of(i))
}

/// Decide how to send a batch of inputs: an empty batch is finished at once
/// with no event accepted; any other batch is translated, input by input,
/// into the records of a single submission.
pub fn prepare_send(inputs: &[Input]) -> (r: SendStep)
    ensures
        inputs@.len() == 0 ==> r == SendStep::Finished(0),
        inputs@.len() > 0 ==> (r matches SendStep::Submit(records) && records@ == records_of(inputs@)),
{
    if inputs.len() == 0 {
        return SendStep::Finished(0);
    }
    let mut records: Vec<InputRecord> = Vec::with_capacity(inputs.len());
    let mut i: usize = 0;
    while i < inputs.len()
        invariant
            i <= inputs@.len(),
            records@ == records_of(inputs@.subrange(0, i as int)),
        decreases inputs@.len() - i,
    {
        records.push(InputRecord::from_input(&inputs[i]));
        proof {
            assert(inputs@.subrange(0, i + 1) == inputs@.subrange(0, i as int).push(inputs@[i as int]));
        }
        i = i + 1;
    }
    proof {
        assert(inputs@.subrange(0, inputs@.len() as int) == inputs@);
    }
    SendStep::Submit(records)
}

/// The outcome of a submission, given how many events the platform accepted
/// and the last-error code it reported: accepting none is a failure carrying
/// that code; otherwise the accepted count is returned, which may be less
/// than the number submitted.
pub fn finish_send(accepted: u32, last_error: i32) -> (r: Result<usize, OsError>)
    ensures
        accepted == 0 ==> r == Err::<usize, OsError>(OsError { code: last_error }),
        accepted != 0 ==> r == Ok::<usize, OsError>(accepted as usize),
{
    if accepted == 0 {
        Err(OsError { code: last_error })
    } else {
        Ok(accepted as usize)
    }
}

} // verus!
