//! The frontend controller: the endpoint the backend uses to push outcome
//! notifications toward the orchestrator. A thin conduit with no business
//! logic of its own.

use vstd::prelude::*;

use crate::protocol::{ExtractError, Outcome};

verus! {

/// Both halves of the outcome channel: the backend delivers through
/// `send_command`, the orchestrator blocks on `rx_ui`.
pub struct ResymFrontendController {
    /// The orchestrator's receiving end for backend outcomes.
    pub rx_ui: crossbeam_channel::Receiver<Outcome>,
    /// The backend's sending end for outcome delivery.
    pub tx_ui: crossbeam_channel::Sender<Outcome>,
}

impl ResymFrontendController {
    /// Bundles the two halves of an outcome channel into a controller.
    pub fn new(
        tx_ui: crossbeam_channel::Sender<Outcome>,
        rx_ui: crossbeam_channel::Receiver<Outcome>,
    ) -> (r: Self)
        ensures
            r.rx_ui == rx_ui,
            r.tx_ui == tx_ui,
    {
        Self { rx_ui, tx_ui }
    }

    /// Used by the backend to deliver one outcome notification. The only
    /// side effect is the enqueue; the only failure is a broken channel
    /// link, which is surfaced to the backend with the transport's own
    /// description rather than swallowed, since it means the orchestrator
    /// is already gone.
    pub fn send_command(&self, command: Outcome) -> (r: Result<(), ExtractError>)
        ensures
            r matches Err(e) ==> e is ChannelError,
    {
        match self.tx_ui.send(command) {
            Ok(()) => Ok(()),
            Err(e) => Err(ExtractError::ChannelError(e.to_string())),
        }
    }
}

} // verus!
