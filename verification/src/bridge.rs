//! The bridge between a completion event and the task that waits for it.
//!
//! A task that finds its event incomplete has to be woken later. There are
//! two ways, and an operation uses one of them throughout: the device calls
//! back when the event completes and hands over a wake token, or the task
//! yields to its scheduler and asks again when it is run next.

use crate::status::CommandExecutionStatus;
use vstd::prelude::*;

verus! {

/// How a waiting task learns that its event has completed.
#[derive(Clone, Copy, Debug, PartialEq, Eq, Structural)]
pub enum WakeStrategy {
    /// The device calls back once, when the event completes.
    Callback,
    /// The task asks again each time its scheduler runs it.
    Polling,
}

/// What the caller of a poll that found the event incomplete has to do
/// before it returns to its scheduler.
#[derive(Clone, Copy, Debug, PartialEq, Eq, Structural)]
pub enum WakeAction {
    /// Register the wake callback with the event, with a fresh wake token.
    SetCallback,
    /// Yield to the scheduler, to be polled again.
    Yield,
    /// Nothing: the callback is registered already.
    Wait,
}

/// What a pending poll asks for, given the strategy and whether a callback
/// is registered already.
pub open spec fn spec_wake_action(strategy: WakeStrategy, callback_is_set: bool) -> WakeAction {
    match strategy {
        WakeStrategy::Polling => WakeAction::Yield,
        WakeStrategy::Callback => if callback_is_set {
            WakeAction::Wait
        } else {
            WakeAction::SetCallback
        },
    }
}

/// What a pending poll asks for. A callback is asked for at most once: with
/// one registered, the answer is to wait.
pub fn wake_action(strategy: WakeStrategy, callback_is_set: bool) -> (action: WakeAction)
    ensures
        action == spec_wake_action(strategy, callback_is_set),
        callback_is_set ==> action != WakeAction::SetCallback,
{
    match strategy {
        WakeStrategy::Polling => WakeAction::Yield,
        WakeStrategy::Callback => if callback_is_set {
            WakeAction::Wait
        } else {
            WakeAction::SetCallback
        },
    }
}

/// Whether a wake callback was invoked as agreed: with the status of a
/// completed command, and with its wake token.
pub open spec fn spec_callback_in_order(event_status: int, has_token: bool) -> bool {
    event_status == CommandExecutionStatus::Complete.spec_code() && has_token
}

/// Whether a wake callback was invoked as agreed. The callback asks this
/// first, of the status it was invoked with and of whether its wake token is
/// there, a null pointer being no token. Where the answer is no, the bridge
/// is broken: the callback must stop the program with `CallbackMisuse`, and
/// must neither wake a task nor resolve anything.
pub fn callback_in_order(event_status: i32, has_token: bool) -> (r: bool)
    ensures
        r == spec_callback_in_order(event_status as int, has_token),
{
    has_token && event_status == CommandExecutionStatus::Complete.code()
}

/// What a wake callback does when the device has invoked it as agreed, with
/// the status of a completed command and the wake token it was registered
/// with: it takes the token, which the caller uses, once, to wake the
/// waiting task.
///
/// A callback that was invoked in any other way does not get here: see
/// [`callback_in_order`].
pub fn unpark_task<T>(event_status: i32, user_data: Option<T>) -> (token: T)
    requires
        spec_callback_in_order(event_status as int, user_data is Some),
    ensures
        user_data == Some(token),
{
    user_data.unwrap()
}

} // verus!
