//! What the library takes from the MQTT client crate.

use vstd::prelude::*;

verus! {

#[verifier::external_type_specification]
#[verifier::external_body]
pub struct ExSubscribeFilter(rumqttc::SubscribeFilter);

/// The subscription filter for a topic path at quality of service 0.
pub uninterp spec fn at_most_once_filter(path: Seq<char>) -> rumqttc::SubscribeFilter;

/// Relies on rumqttc::SubscribeFilter::new: a filter is its path and its
/// quality of service, nothing else.
#[verifier::external_body]
pub(crate) fn subscribe_at_most_once(path: String) -> (r: rumqttc::SubscribeFilter)
    ensures
        r == at_most_once_filter(path@),
{
    rumqttc::SubscribeFilter::new(path, rumqttc::QoS::AtMostOnce)
}

} // verus!
