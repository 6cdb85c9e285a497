//! The parts of `std::sync::mpsc` that the pump uses, with what it assumes
//! of each.

use vstd::prelude::*;

verus! {

#[verifier::external_type_specification]
#[verifier::external_body]
#[verifier::reject_recursive_types(T)]
pub struct ExSender<T>(std::sync::mpsc::Sender<T>);

#[verifier::external_type_specification]
#[verifier::external_body]
#[verifier::reject_recursive_types(T)]
pub struct ExReceiver<T>(std::sync::mpsc::Receiver<T>);

/// Relies on the Clone impl of std::sync::mpsc::Sender: another sender into
/// the same channel.
pub assume_specification<T>[ <std::sync::mpsc::Sender<T> as Clone>::clone ](
    tx: &std::sync::mpsc::Sender<T>,
) -> std::sync::mpsc::Sender<T>;

/// Relies on std::sync::mpsc::channel: a connected sender and receiver.
#[verifier::external_body]
pub(crate) fn open_channel<T>() -> (r: (std::sync::mpsc::Sender<T>, std::sync::mpsc::Receiver<T>)) {
    std::sync::mpsc::channel()
}

/// Relies on std::sync::mpsc::Sender::send, which never blocks. A value sent
/// after the receiver is gone is dropped.
#[verifier::external_body]
pub(crate) fn send_to<T>(tx: &std::sync::mpsc::Sender<T>, value: T) {
    let _ = tx.send(value);
}

/// Relies on std::sync::mpsc::Receiver::try_recv, which never blocks: the
/// oldest value in the channel, or none when it is empty or closed.
#[verifier::external_body]
pub(crate) fn try_receive<T>(rx: &std::sync::mpsc::Receiver<T>) -> (r: Option<T>) {
    rx.try_recv().ok()
}

} // verus!
