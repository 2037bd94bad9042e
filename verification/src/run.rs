//! From the inputs that were given to the one call that is made.

use crate::args::Args;
use crate::dispatch::{request_for, ExecutionOptions, Request, RequestView};
use crate::failure::{Failure, FailureView};
use crate::input::{InputData, Payload};
use vstd::prelude::*;

verus! {

/// The call that is made for `inputs`, the payloads of the input options in the
/// order they were given: none where there is no input, none where there is
/// more than one, and otherwise the call that submits the one input to the
/// algorithm that `args` names, with the options that `args` asks for.
pub open spec fn planned(args: Args, inputs: Seq<Payload>) -> Result<RequestView, FailureView> {
    if inputs.len() == 0 {
        Err(FailureView::NoInput)
    } else if inputs.len() > 1 {
        Err(FailureView::MultipleInputs)
    } else {
        Ok(
            request_for(
                args.arg_algorithm@,
                inputs[0],
                ExecutionOptions {
                    enable_stdout_capture: args.flag_debug,
                    timeout_seconds: args.flag_timeout,
                },
            ),
        )
    }
}

/// What a plan holds, as mathematical values.
pub open spec fn plan_view(plan: Result<Request, Failure>) -> Result<RequestView, FailureView> {
    match plan {
        Ok(request) => Ok(request@),
        Err(failure) => Err(failure@),
    }
}

/// Decides on the one call to make. Without exactly one input there is no call.
pub fn plan_request(args: &Args, inputs: Vec<InputData>) -> (plan: Result<Request, Failure>)
    ensures
        plan_view(plan) == planned(*args, inputs.deep_view()),
        plan is Ok <==> inputs.len() == 1,
{
    let mut inputs = inputs;
    if inputs.len() < 1 {
        return Err(Failure::NoInput);
    } else if inputs.len() > 1 {
        return Err(Failure::MultipleInputs);
    }
    let ghost given = inputs.deep_view();
    let payload = inputs.remove(0);
    assert(payload@ == given[0]);
    let options = ExecutionOptions::from_flags(args.flag_debug, args.flag_timeout);
    Ok(Request::new(args.arg_algorithm.clone(), payload, options))
}

} // verus!
