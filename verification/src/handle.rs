//! The sending end of the channel that carries configuration updates to the
//! supervisor.

use crate::config::ProxyConfig;
use std::sync::mpsc::{SendError, Sender};
use vstd::prelude::*;

verus! {

/// `std::sync::mpsc::Sender`, the sending half of a channel of the standard
/// library. Nothing is known of what is inside one.
#[verifier::external_type_specification]
#[verifier::external_body]
#[verifier::reject_recursive_types(T)]
pub struct ExSender<T>(Sender<T>);

/// Calls `std::sync::mpsc::Sender::send`, which never blocks. It queues the
/// update, or, when the receiving half is gone, hands the update back
/// untouched. Which of the two happens is for the receiver to decide; the
/// contract claims only that an update that comes back is the one that went
/// in.
#[verifier::external_body]
fn send_update(sender: &Sender<ProxyConfig>, config: ProxyConfig) -> (sent: Result<(), ProxyConfig>)
    ensures
        sent is Err ==> sent->Err_0@ == config@,
{
    match sender.send(config) {
        Ok(()) => Ok(()),
        Err(SendError(config)) => Err(config),
    }
}

/// The handle through which updates are submitted to a running supervisor.
/// Any number of threads may hold one; none of them is ever made to wait.
pub struct DynamicProxy(pub Sender<ProxyConfig>);

impl DynamicProxy {
    /// Queues `config` for the supervisor, which applies updates in the
    /// order in which they were queued. When the supervisor is gone the
    /// update comes back as the error.
    pub fn update(&self, config: ProxyConfig) -> (sent: Result<(), ProxyConfig>)
        ensures
            sent is Err ==> sent->Err_0@ == config@,
    {
        send_update(&self.0, config)
    }
}

} // verus!
