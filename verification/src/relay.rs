//! Relay logic: building the outbound delivery for an event and mapping
//! what came back from the destination into the caller's result.
//!
//! The network send itself is performed by the surrounding program; this
//! module fixes what is sent (address, headers, body) and what each
//! transport-level outcome means.

use vstd::prelude::*;

use crate::signer::spec_sign;
use crate::signer::sign_payload;

verus! {

/// The unit of work submitted to the relay: the destination address, the
/// event type label, the shared secret, and the raw payload to forward.
pub struct Event {
    pub address: String,
    pub event: String,
    pub hmac: String,
    pub payload: String,
}

/// One outbound delivery, fully determined: where to send, which headers to
/// attach (name/value pairs, in order), and the body to send verbatim.
pub struct DeliveryRequest {
    pub address: String,
    pub headers: Vec<(String, String)>,
    pub body: String,
}

/// What one delivery attempt produced at the transport level: either the
/// destination replied (with some status and body), or the request could
/// not be completed at all.
pub enum DeliveryResponse {
    Replied { status: u16, body: String },
    TransportFailure { detail: String },
}

/// The one failure the relay reports: the outbound request could not be
/// completed (connection failure, timeout, malformed response).
#[derive(Debug)]
pub struct TransportError {
    pub detail: String,
}

impl TransportError {
    /// The underlying transport error text, for diagnosis.
    pub fn message(&self) -> (r: String)
        ensures
            r@ == self.detail@,
    {
        self.detail.clone()
    }
}

/// A success status at the transport level: any status in the 2xx range.
pub open spec fn spec_is_success(status: u16) -> bool {
    200 <= status < 300
}

/// The outcome reported when the destination replied with a non-success
/// status: still a success of the relay, with the destination's complaint
/// carried in the text.
pub open spec fn spec_rejection_message(body: Seq<char>) -> Seq<char> {
    "Send event success but something wrong: "@ + body
}

/// The result of one delivery attempt, as a function of the transport-level
/// response: a 2xx reply yields its body as-is, any other reply yields the
/// rejection message, and only a transport failure is an error.
pub open spec fn spec_outcome(response: DeliveryResponse) -> Result<Seq<char>, Seq<char>> {
    match response {
        DeliveryResponse::Replied { status, body } => if spec_is_success(status) {
            Ok(body@)
        } else {
            Ok(spec_rejection_message(body@))
        },
        DeliveryResponse::TransportFailure { detail } => Err(detail@),
    }
}

/// Map what came back from the destination into the relay's result.
/// A reply, whatever its status, is a success of the relay; only a
/// transport failure is reported as an error, with its detail preserved.
pub fn deliver_outcome(response: DeliveryResponse) -> (r: Result<String, TransportError>)
    ensures
        match r {
            Ok(outcome) => spec_outcome(response) == Ok::<Seq<char>, Seq<char>>(outcome@),
            Err(e) => spec_outcome(response) == Err::<Seq<char>, Seq<char>>(e.detail@),
        },
        r is Ok <==> response is Replied,
{
    match response {
        DeliveryResponse::Replied { status, body } => {
            if 200 <= status && status < 300 {
                Ok(body)
            } else {
                let mut message = String::from_str("Send event success but something wrong: ");
                message.append(body.as_str());
                Ok(message)
            }
        },
        DeliveryResponse::TransportFailure { detail } => Err(TransportError { detail }),
    }
}

/// Build the one outbound delivery for an event: a POST to the event's
/// address whose body is the payload verbatim, carrying the event type, a
/// constant placeholder delivery identifier, the payload's signature under
/// the event's secret, and a JSON content type, in that header order.
pub fn prepare_delivery(event: &Event) -> (r: DeliveryRequest)
    ensures
        r.address@ == event.address@,
        r.body@ == event.payload@,
        r.headers@.len() == 4,
        r.headers@[0].0@ == "X-GitHub-Event"@,
        r.headers@[0].1@ == event.event@,
        r.headers@[1].0@ == "X-GitHub-Delivery"@,
        r.headers@[1].1@ == "GUID"@,
        r.headers@[2].0@ == "X-Hub-Signature"@,
        r.headers@[2].1@ == spec_sign(
            vstd::utf8::encode_utf8(event.payload@),
            vstd::utf8::encode_utf8(event.hmac@),
        ),
        r.headers@[3].0@ == "Content-Type"@,
        r.headers@[3].1@ == "application/json"@,
{
    let signature = sign_payload(event.payload.as_str().as_bytes(), event.hmac.as_str().as_bytes());
    let mut headers: Vec<(String, String)> = Vec::new();
    headers.push((String::from_str("X-GitHub-Event"), event.event.clone()));
    headers.push((String::from_str("X-GitHub-Delivery"), String::from_str("GUID")));
    headers.push((String::from_str("X-Hub-Signature"), signature));
    headers.push((String::from_str("Content-Type"), String::from_str("application/json")));
    DeliveryRequest { address: event.address.clone(), headers, body: event.payload.clone() }
}

} // verus!
