//! The reboot handler.
//!
//! A reboot is fire-and-forget: the handler reports success at once and
//! the OS call is issued later, once the optional delay has elapsed.
//! The caller runs the deferred part — it needs a thread, a clock and a
//! sleep — and uses the schedule below to decide when the reboot is
//! due; the decision is verified here for every clock value.

use vstd::prelude::*;

use crate::rpc::result::{PayloadModel, ResultModel, RpcResult};

verus! {

/// A reboot that has been ordered: the moment, in seconds on the
/// caller's clock, at which it shall be issued.
#[derive(Clone, Copy, Debug, PartialEq, Eq, Structural)]
pub struct RebootSchedule {
    /// The moment the reboot is due, in seconds.
    pub due_at: u64,
}

/// Orders a reboot: due after the given delay from now, or at once when
/// no delay is given.
pub fn schedule_reboot(now: u64, delay_seconds: Option<u64>) -> (s: RebootSchedule)
    requires
        delay_seconds matches Some(delay) ==> now + delay <= u64::MAX,
    ensures
        s.due_at == now + match delay_seconds {
            Some(delay) => delay,
            None => 0,
        },
{
    match delay_seconds {
        Some(delay) => RebootSchedule { due_at: now + delay },
        None => RebootSchedule { due_at: now },
    }
}

/// Whether the ordered reboot is due at the given moment: exactly once
/// the full delay has elapsed, and at every moment thereafter.
pub fn reboot_due(schedule: &RebootSchedule, now: u64) -> (due: bool)
    ensures
        due == (now >= schedule.due_at),
{
    now >= schedule.due_at
}

/// The response to a reboot command: ordering a reboot always reports
/// success at once, without a payload; whether the eventual OS call
/// succeeds is not observable to the caller.
pub fn reboot_response() -> (r: RpcResult)
    ensures
        r@ == ResultModel::Success(PayloadModel::Empty),
{
    RpcResult::success()
}

} // verus!
