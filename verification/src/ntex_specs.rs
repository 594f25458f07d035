//! What this crate takes on trust from `ntex`.
//!
//! Each item below declares a type of `ntex` or gives a contract to one of its
//! functions. None of these contracts is proved here.
use ntex::channel::pool::{Pool, Receiver, Sender};
use ntex::channel::Canceled;
use ntex::framed::State;
use ntex::util::timeout::TimeoutError;
use ntex::util::Bytes;
use vstd::prelude::*;

verus! {

/// `ntex::framed::State`: the shared handle on the state of a framed
/// byte stream. Its contents are hidden.
#[verifier::external_type_specification]
#[verifier::external_body]
pub struct ExState(State);

/// `ntex::channel::pool::Pool`: an allocator of one-shot channels.
#[verifier::external_type_specification]
#[verifier::external_body]
#[verifier::reject_recursive_types(T)]
pub struct ExPool<T>(Pool<T>);

/// `ntex::channel::pool::Sender`: the completing half of a one-shot channel.
#[verifier::external_type_specification]
#[verifier::external_body]
#[verifier::reject_recursive_types(T)]
pub struct ExSender<T>(Sender<T>);

/// `ntex::channel::pool::Receiver`: the awaiting half of a one-shot channel.
#[verifier::external_type_specification]
#[verifier::external_body]
#[verifier::reject_recursive_types(T)]
pub struct ExReceiver<T>(Receiver<T>);

/// `ntex::channel::Canceled`: what a receiver yields when its sender was
/// dropped before it sent.
#[verifier::external_type_specification]
#[verifier::external_body]
pub struct ExCanceled(Canceled);

/// `ntex::util::Bytes`: an immutable slice of bytes, carried as it is.
#[verifier::external_type_specification]
#[verifier::external_body]
pub struct ExBytes(Bytes);

/// `ntex::util::timeout::TimeoutError`: how a call under a deadline failed,
/// with the error of the call itself or with the deadline having passed.
/// Its two variants are public and read as they are.
#[verifier::external_type_specification]
#[verifier::reject_recursive_types(E)]
pub struct ExTimeoutError<E>(TimeoutError<E>);

/// `State::is_open` reports whether the stream has neither failed nor been
/// shut down nor had its dispatcher stopped. The answer depends on what the
/// I/O tasks have seen, so nothing is claimed of it.
pub assume_specification[ State::is_open ](state: &State) -> (open: bool)
;

/// `State::close` marks the dispatcher as stopped and wakes it. The effect is
/// inside the handle; nothing is claimed.
pub assume_specification[ State::close ](state: &State)
;

/// `State::force_close` marks the dispatcher as stopped and the I/O as shut
/// down, and wakes the tasks. The effect is inside the handle; nothing is
/// claimed.
pub assume_specification[ State::force_close ](state: &State)
;

/// `pool::new` makes an empty pool of one-shot channels.
pub assume_specification<T>[ ntex::channel::pool::new::<T> ]() -> (pool: Pool<T>)
;

/// `Pool::clone` makes another handle on the same pool.
pub assume_specification<T>[ <Pool<T> as Clone>::clone ](pool: &Pool<T>) -> (other: Pool<T>)
;

/// `Pool::channel` makes a fresh one-shot channel and returns its two halves.
/// That the halves belong together cannot be said here.
pub assume_specification<T>[ Pool::<T>::channel ](pool: &Pool<T>) -> (halves: (
    Sender<T>,
    Receiver<T>,
))
;

/// `Sender::send` hands `val` to the receiving half. It returns `Ok(())` when
/// the receiver still exists, and otherwise gives the value back in `Err`.
/// Which of the two happens depends on the other side.
pub assume_specification<T>[ Sender::<T>::send ](tx: Sender<T>, val: T) -> (sent: Result<(), T>)
    ensures
        sent matches Err(back) ==> back == val,
;

} // verus!
