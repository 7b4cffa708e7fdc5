//! Clock readings and channel ends from tokio that a spawner holds.
use vstd::prelude::*;
use crate::tasks::event::TaskTerminateReason;
use std::time::Duration;
use tokio::sync::oneshot;
use tokio::time::Instant;

verus! {

/// A point in time on tokio's clock.
#[verifier::external_type_specification]
#[verifier::external_body]
pub struct ExInstant(tokio::time::Instant);

/// The sending half of a one-shot channel.
#[verifier::external_type_specification]
#[verifier::external_body]
#[verifier::reject_recursive_types(T)]
pub struct ExOneshotSender<T>(tokio::sync::oneshot::Sender<T>);

/// The receiving half of a bounded multi-producer channel.
#[verifier::external_type_specification]
#[verifier::external_body]
#[verifier::reject_recursive_types(T)]
pub struct ExMpscReceiver<T>(tokio::sync::mpsc::Receiver<T>);

/// The current instant, from `tokio::time::Instant::now`. It depends on the
/// clock, so nothing is promised about it.
#[verifier::external_body]
pub(crate) fn instant_now() -> Instant {
    Instant::now()
}

/// `d` is a reading the clock gave, through `tokio::time::Instant::elapsed`,
/// of the time elapsed since `since`. It is a relation, not a function: two
/// readings for one instant differ as time passes.
pub uninterp spec fn elapsed_answered(since: Instant, d: Duration) -> bool;

/// `o` is an outcome of sending `reason` on a one-shot channel: `Ok` when it
/// was delivered, `Err` when the receiving side was gone. It is a relation:
/// which outcome comes depends on the other side.
pub uninterp spec fn reason_sent(reason: TaskTerminateReason, o: Result<(), TaskTerminateReason>) -> bool;

/// The time elapsed since `since`, from `tokio::time::Instant::elapsed`. The
/// contract says only that the result is the clock's reading for `since`;
/// its value depends on the clock and is not stated.
#[verifier::external_body]
pub(crate) fn elapsed_since(since: &Instant) -> (d: Duration)
    ensures
        elapsed_answered(*since, d),
{
    since.elapsed()
}

/// Sends a termination reason with `tokio::sync::oneshot::Sender::send`.
/// The result is the outcome of sending that reason. Whether the receiver is
/// still there depends on the other side, so which outcome comes is not
/// stated; when the receiver is gone, the reason is handed back in `Err`.
#[verifier::external_body]
pub(crate) fn send_reason(tx: oneshot::Sender<TaskTerminateReason>, reason: TaskTerminateReason) -> (r:
    Result<(), TaskTerminateReason>)
    ensures
        reason_sent(reason, r),
        r matches Err(v) ==> v == reason,
{
    tx.send(reason)
}

} // verus!
