//! The RPC surface: the command type, its dispatcher, and the handlers.

use vstd::prelude::*;

pub mod beep;
pub mod identify;
pub mod operation_mode;
pub mod reboot;
pub mod result;
pub mod web_browser;

use crate::rpc::beep::beep;
use crate::rpc::identify::identify;
use crate::rpc::operation_mode::OperationMode;
use crate::rpc::reboot::reboot_response;
use crate::rpc::result::{
    single_message_error, spec_error_message, Payload, PayloadModel, ResultModel, RpcResult,
};
use crate::rpc::web_browser::{default_preferences_file, restart};

verus! {

/// Available RPC commands.
#[derive(Clone, Debug, PartialEq, Eq)]
pub enum Command {
    /// Beep the PC speaker, to identify the system on-site.
    Beep,
    /// Reboot the system, deferred by the given number of seconds, or at
    /// once when none is given.
    Reboot(Option<u64>),
    /// Identify the system: beep it and show its hostname on screen.
    Identify,
    /// Query the path of the browser's preferences file.
    ConfigFile,
    /// Restart the kiosk web browser, so that the presentation restarts
    /// without rebooting the whole system.
    RestartWebBrowser,
    /// Query the operation mode when no mode is given, or set the system
    /// to the given mode.
    OperationMode(Option<OperationMode>),
}

/// The response to the configuration-file query: success carrying the
/// resolved path, or carrying nothing when it cannot be resolved — an
/// unknown path is a valid informational answer, never a failure.
pub fn config_file_response(path: Option<String>) -> (r: RpcResult)
    ensures
        r@ == ResultModel::Success(
            PayloadModel::OptionalText(
                match path {
                    Some(p) => Some(p@),
                    None => None,
                },
            ),
        ),
{
    RpcResult::Success(Payload::OptionalText(path))
}

/// The response to a browser restart, given whether the supervisor
/// reported success.
pub fn restart_response(restarted: bool) -> (r: RpcResult)
    ensures
        restarted ==> r@ == ResultModel::Success(PayloadModel::Text("Web browser restarted."@)),
        !restarted ==> r@ == spec_error_message("Could not restart web browser."@),
{
    if restarted {
        RpcResult::Success(Payload::Text("Web browser restarted.".to_owned()))
    } else {
        RpcResult::error_message("Could not restart web browser.")
    }
}

/// The response to setting the operation mode, given whether the state
/// machine reported success.
pub fn set_mode_response(set: bool) -> (r: RpcResult)
    ensures
        set ==> r@ == ResultModel::Success(PayloadModel::Text("Operation mode set"@)),
        !set ==> r@ == spec_error_message("Could not set operation mode."@),
{
    if set {
        RpcResult::Success(Payload::Text("Operation mode set".to_owned()))
    } else {
        RpcResult::error_message("Could not set operation mode.")
    }
}

impl Command {
    /// Runs the RPC command and reports one result: success, or the list
    /// of errors that occurred.
    ///
    /// The identification dialog needs the system's hostname, which the
    /// caller reads at the edge and hands in as a plain value; a reboot
    /// reports success at once and its deferred OS call is the caller's
    /// part, as [`crate::rpc::reboot`] describes.
    pub fn run(&self, hostname: &Result<String, String>) -> (r: RpcResult)
        ensures
            *self is Beep ==> (r@ == ResultModel::Success(PayloadModel::Empty)
                || single_message_error(r@)),
            *self is Reboot ==> r@ == ResultModel::Success(PayloadModel::Empty),
            *self is Identify ==> (r@ is Success ==> r@ == ResultModel::Success(
                PayloadModel::Empty,
            )),
            *self is Identify && hostname is Err ==> r@ is Error,
            *self is ConfigFile ==> r@ matches ResultModel::Success(PayloadModel::OptionalText(_)),
            *self is RestartWebBrowser ==> (r@ == ResultModel::Success(
                PayloadModel::Text("Web browser restarted."@),
            ) || r@ == spec_error_message("Could not restart web browser."@)),
            *self == Command::OperationMode(None::<OperationMode>) ==> r@ matches
                ResultModel::Success(PayloadModel::Mode(_)),
            *self matches Command::OperationMode(Some(_)) ==> (r@ == ResultModel::Success(
                PayloadModel::Text("Operation mode set"@),
            ) || r@ == spec_error_message("Could not set operation mode."@)),
            *self == Command::OperationMode(Some(OperationMode::BlackScreen)) ==> r@
                == ResultModel::Success(PayloadModel::Text("Operation mode set"@)),
    {
        match self {
            Command::Beep => beep(),
            Command::Reboot(_) => reboot_response(),
            Command::Identify => identify(hostname),
            Command::ConfigFile => config_file_response(default_preferences_file()),
            Command::RestartWebBrowser => restart_response(restart()),
            Command::OperationMode(mode) => match mode {
                None => RpcResult::Success(Payload::Mode(OperationMode::get())),
                Some(mode) => set_mode_response(mode.set()),
            },
        }
    }
}

} // verus!
