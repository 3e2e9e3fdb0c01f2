//! The visual identification handler: showing the hostname on screen.
//!
//! Identification beeps the speaker and shows a dialog with the
//! system's hostname; both outcomes are combined through the result
//! algebra, so that neither failure masks the other.  The hostname is
//! read by the caller at the edge and handed in as a plain value: `Ok`
//! carries the hostname, `Err` carries the text of the read error.

use vstd::prelude::*;

use crate::rpc::beep::beep;
use crate::rpc::result::{
    single_message_error, spec_error_message, PayloadModel, ResultModel, RpcResult,
};

verus! {

/// Timeout in seconds after which the identification dialog closes.
pub const X_MESSAGE_TIMEOUT_SEC: u8 = 15;

/// Relies on `subprocess::Popen::create`: shows the given text centered
/// on the display through `xmessage`, detached, closing after the given
/// timeout.  Whether the dialog appears depends on the machine, so
/// nothing is promised; a failure to spawn comes back as the error's
/// text.
#[verifier::external_body]
fn x_message(text: &str, timeout: u8) -> (r: Result<(), String>) {
    subprocess::Popen::create(
        &["xmessage", "-center", "-timeout", timeout.to_string().as_str(), text],
        subprocess::PopenConfig {
            stdout: subprocess::Redirection::None,
            detached: true,
            ..Default::default()
        },
    )
    .map(|_| ())
    .map_err(|error| error.to_string())
}

/// The response of the display step, given the outcome of the dialog
/// call: success without a payload, or the error's text.
pub fn display_response(outcome: Result<(), String>) -> (r: RpcResult)
    ensures
        r@ == match outcome {
            Ok(()) => ResultModel::Success(PayloadModel::Empty),
            Err(error) => spec_error_message(error@),
        },
{
    match outcome {
        Ok(()) => RpcResult::success(),
        Err(error) => RpcResult::error_message(error.as_str()),
    }
}

/// Shows the given hostname on the system's display: a success without
/// a payload, or one error carrying the failure's text.
pub fn display_hostname(hostname: &str) -> (r: RpcResult)
    ensures
        r@ == ResultModel::Success(PayloadModel::Empty) || single_message_error(r@),
{
    display_response(x_message(hostname, X_MESSAGE_TIMEOUT_SEC))
}

/// The display step of an identification: the hostname dialog, or the
/// error of the hostname read when there was no hostname to show.
fn display_step(hostname: &Result<String, String>) -> (r: RpcResult)
    ensures
        r@ == ResultModel::Success(PayloadModel::Empty) || single_message_error(r@),
        hostname matches Err(error) ==> r@ == spec_error_message(error@),
{
    match hostname {
        Ok(name) => display_hostname(name.as_str()),
        Err(error) => RpcResult::error_message(error.as_str()),
    }
}

/// Identifies the system: beeps the speaker and shows the hostname, and
/// combines both outcomes, so a success is only ever the empty success
/// of two successful steps.  A failed hostname read surfaces as an
/// error of the display step, combined with the beep's outcome all the
/// same.
pub fn identify(hostname: &Result<String, String>) -> (r: RpcResult)
    ensures
        r@ is Success ==> r@ == ResultModel::Success(PayloadModel::Empty),
        hostname is Err ==> r@ is Error,
{
    beep().combine(display_step(hostname))
}

} // verus!
