//! What the library hands to the MQTT client: a message to publish.
use vstd::prelude::*;

verus! {

/// How hard the broker tries to deliver a message.
#[derive(Clone, Copy, Debug, PartialEq, Eq, Structural)]
pub enum QualityOfService {
    AtMostOnce,
    AtLeastOnce,
    ExactlyOnce,
}

/// A message for the outbound channel. The library fills it in; whoever
/// owns the connection sends it.
#[derive(Clone, Debug)]
pub struct PublishRequest {
    pub topic: String,
    pub qos: QualityOfService,
    /// Whether the broker keeps the message for later subscribers.
    pub retain: bool,
    pub payload: String,
}

/// The mathematical content of a `PublishRequest`.
pub ghost struct PublishRequestView {
    pub topic: Seq<char>,
    pub qos: QualityOfService,
    pub retain: bool,
    pub payload: Seq<char>,
}

impl View for PublishRequest {
    type V = PublishRequestView;

    open spec fn view(&self) -> PublishRequestView {
        PublishRequestView {
            topic: self.topic@,
            qos: self.qos,
            retain: self.retain,
            payload: self.payload@,
        }
    }
}

} // verus!
