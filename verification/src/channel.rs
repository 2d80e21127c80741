//! The receiving end of the channel on which the simulation sends its messages.

use vstd::prelude::*;
use std::sync::mpsc::Receiver;
use crate::visdata::VisData;

verus! {

/// `std::sync::mpsc::Receiver`, the receiving end of a channel of the standard
/// library. Contracts see nothing inside it.
#[verifier::external_type_specification]
#[verifier::external_body]
#[verifier::reject_recursive_types(T)]
pub struct ExReceiver<T>(Receiver<T>);

/// Calls `Receiver::try_recv`, which never waits: it gives the oldest message
/// that waits in the channel, or `None` where none waits now, be the sender still
/// there or gone. What waits depends on the sender, so nothing is claimed of
/// the result.
#[verifier::external_body]
pub(crate) fn try_receive(receiver: &Receiver<VisData>) -> (message: Option<VisData>) {
    match receiver.try_recv() {
        Ok(data) => Some(data),
        Err(_) => None,
    }
}

} // verus!
