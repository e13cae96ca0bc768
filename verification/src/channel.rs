//! Trusted declarations for the receiving end of `std::sync::mpsc` channels,
//! through which the stages of the player hand data to each other.

use vstd::prelude::*;

verus! {

/// Declares `std::sync::mpsc::Receiver` to Verus as an opaque type.
#[verifier::external_type_specification]
#[verifier::external_body]
#[verifier::reject_recursive_types(T)]
pub struct ExReceiver<T>(std::sync::mpsc::Receiver<T>);

/// Declares `std::sync::mpsc::RecvError` to Verus as an opaque type.
#[verifier::external_type_specification]
#[verifier::external_body]
pub struct ExRecvError(std::sync::mpsc::RecvError);

/// Calls `std::sync::mpsc::Receiver::recv`, which blocks until another
/// thread sends a value or every sender is gone. What comes back depends on
/// the other threads, so nothing is stated of it.
#[verifier::external_body]
pub fn recv<T>(rx: &std::sync::mpsc::Receiver<T>) -> (r: Result<T, std::sync::mpsc::RecvError>) {
    rx.recv()
}

} // verus!
