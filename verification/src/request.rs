//! Request completion: each unary request has one completion slot, which is
//! filled at most once, with the server's response, and never on failure.

use crate::payload::{Payload, PayloadView};
use vstd::prelude::*;

verus! {

/// How a unary call ended.
#[derive(Clone, Debug, PartialEq, Eq)]
pub enum UnaryOutcome {
    /// The server answered with this envelope.
    Response(Payload),
    /// The transport call failed.
    Failed,
}

/// The one-shot completion slot of a unary request.
pub struct PendingRequest {
    response: Option<Payload>,
}

impl PendingRequest {
    /// The response that the slot holds, if it has been fulfilled.
    pub closed spec fn response(&self) -> Option<PayloadView> {
        match self.response {
            Some(p) => Some(p@),
            None => None,
        }
    }

    /// An empty slot.
    pub fn new() -> (pending: PendingRequest)
        ensures
            pending.response().is_none(),
    {
        PendingRequest { response: None }
    }

    /// Whether the slot has been fulfilled.
    pub fn is_fulfilled(&self) -> (fulfilled: bool)
        ensures
            fulfilled == self.response().is_some(),
    {
        self.response.is_some()
    }

    /// Fulfils an empty slot with the response. A slot that is already
    /// fulfilled keeps what it holds, and the response is handed back.
    pub fn fulfil(&mut self, response: Payload) -> (r: Result<(), Payload>)
        ensures
            old(self).response().is_none() ==> {
                &&& r.is_ok()
                &&& final(self).response() == Some(response@)
            },
            old(self).response().is_some() ==> {
                &&& r == Err::<(), Payload>(response)
                &&& final(self).response() == old(self).response()
            },
    {
        if self.response.is_some() {
            Err(response)
        } else {
            self.response = Some(response);
            Ok(())
        }
    }

    /// Takes the response out of the slot.
    pub fn into_response(self) -> (response: Option<Payload>)
        ensures
            match response {
                Some(p) => self.response() == Some(p@),
                None => self.response().is_none(),
            },
    {
        self.response
    }

    /// Settles the request: a response fulfils the slot, a failure leaves it
    /// as it is.
    pub fn complete(&mut self, outcome: UnaryOutcome)
        ensures
            final(self).response() == completed(old(self).response(), outcome),
    {
        match outcome {
            UnaryOutcome::Response(p) => {
                let _ = self.fulfil(p);
            },
            UnaryOutcome::Failed => {},
        }
    }
}

/// What a slot holds after a unary call ended with `outcome`: an empty slot
/// takes the response, a fulfilled slot and a failed call change nothing.
pub open spec fn completed(slot: Option<PayloadView>, outcome: UnaryOutcome) -> Option<
    PayloadView,
> {
    match outcome {
        UnaryOutcome::Response(p) if slot.is_none() => Some(p@),
        _ => slot,
    }
}

} // verus!
