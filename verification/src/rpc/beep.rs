//! The acoustic identification handler: beeping the PC speaker.

use vstd::prelude::*;

use crate::rpc::result::{
    single_message_error, spec_error_message, PayloadModel, ResultModel, RpcResult,
};

verus! {

/// Relies on `beep_evdev::Melody::play`: plays the default melody on the
/// PC speaker.  Whether that succeeds depends on the hardware, so
/// nothing is promised; a failure comes back as the error's text.
#[verifier::external_body]
fn play_default_melody() -> (r: Result<(), String>) {
    beep_evdev::Melody::default().play().map_err(|error| error.to_string())
}

/// The response to a beep, given the outcome of the speaker call:
/// success without a payload, or the error's text.
pub fn beep_response(outcome: Result<(), String>) -> (r: RpcResult)
    ensures
        r@ == match outcome {
            Ok(()) => ResultModel::Success(PayloadModel::Empty),
            Err(error) => spec_error_message(error@),
        },
{
    match outcome {
        Ok(()) => RpcResult::success(),
        Err(error) => RpcResult::error_message(error.as_str()),
    }
}

/// Beeps the PC speaker with the default melody, used to identify the
/// system on-site, and reports the outcome through the result algebra:
/// a success without a payload, or one error carrying the failure's
/// text.
pub fn beep() -> (r: RpcResult)
    ensures
        r@ == ResultModel::Success(PayloadModel::Empty) || single_message_error(r@),
{
    beep_response(play_default_melody())
}

} // verus!
