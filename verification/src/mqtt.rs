//! The topics that a feed of messages is subscribed to.

use vstd::prelude::*;
use vstd::string::StringExecFns;

verus! {

/// Trait to be implemented on the mqtt topics
pub trait Topic: Send + 'static {
    /// The name of the topic.
    spec fn spec_name() -> Seq<char>;

    /// The quality of service that the topic is subscribed with.
    spec fn spec_qos() -> i32;

    /// MQTT Topic name
    fn name() -> (name: &'static str)
        ensures
            name@ == Self::spec_name(),
    ;

    /// MQTT Quality of service
    fn qos() -> (qos: i32)
        ensures
            qos == Self::spec_qos(),
    ;
}

/// Mqtt Messages topic
pub struct Messages;

impl Topic for Messages {
    open spec fn spec_name() -> Seq<char> {
        "messages"@
    }

    open spec fn spec_qos() -> i32 {
        0
    }

    fn name() -> (name: &'static str) {
        "messages"
    }

    fn qos() -> (qos: i32) {
        0
    }
}

/// Mqtt Metadata topic
pub struct Metadata;

impl Topic for Metadata {
    open spec fn spec_name() -> Seq<char> {
        "messages/{messageId}/metadata"@
    }

    open spec fn spec_qos() -> i32 {
        0
    }

    fn name() -> (name: &'static str) {
        "messages/{messageId}/metadata"
    }

    fn qos() -> (qos: i32) {
        0
    }
}

/// The name under which the service that feeds from topic `T` is known: the
/// name of the topic, a dot, and the word `peer_addr`.
pub fn service_name<T: Topic>() -> (name: String)
    ensures
        name@ == T::spec_name() + "."@ + "peer_addr"@,
{
    let mut name = String::from_str(T::name());
    name.append(".");
    name.append("peer_addr");
    name
}

} // verus!
