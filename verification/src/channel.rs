//! Trusted boundary to the process-wide notification channel.
//!
//! Worker-side primitives push a payload-free tag onto one crossbeam channel
//! whenever a result becomes available; the consumer selects on the receiving
//! half.  Nothing here promises delivery: the scheduler and caches stay
//! correct even when the receiver is gone, so the contracts below claim
//! nothing beyond the call's shape.

use vstd::prelude::*;

verus! {

/// `crossbeam_channel::Sender`, the sending half of the notification channel.
/// Opaque to verification; values of it are only carried and handed to `send`.
#[verifier::external_type_specification]
#[verifier::external_body]
#[verifier::reject_recursive_types(T)]
pub struct ExSender<T>(crossbeam_channel::Sender<T>);

/// `crossbeam_channel::SendError`, returned by `send` when every receiver of
/// the channel was dropped.
#[verifier::external_type_specification]
#[verifier::external_body]
#[verifier::reject_recursive_types(T)]
pub struct ExSendError<T>(crossbeam_channel::SendError<T>);

/// Relies on `crossbeam_channel::Sender::clone`: it returns another sending
/// handle of the same channel.  Which channel a handle feeds is invisible
/// here, so nothing is stated.
pub assume_specification<T>[ <crossbeam_channel::Sender<T> as Clone>::clone ](
    s: &crossbeam_channel::Sender<T>,
) -> crossbeam_channel::Sender<T>;

/// Relies on `crossbeam_channel::Sender::send`: it blocks at most until the
/// message is in the channel and fails only when the channel is disconnected.
/// Whether the message ever reaches a receiver depends on other threads, so
/// no ensures is stated; callers treat a failed send as a dropped
/// notification.
pub assume_specification<T>[ crossbeam_channel::Sender::<T>::send ](
    s: &crossbeam_channel::Sender<T>,
    msg: T,
) -> Result<(), crossbeam_channel::SendError<T>>;

} // verus!
