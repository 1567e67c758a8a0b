//! The messages by which a running broker is reconfigured.

use vstd::prelude::*;

verus! {

/// It's the interface of the broker app to dynamically configure the
/// application during runtime
#[derive(Debug, Clone, PartialEq, Eq)]
pub enum PermanodeBrokerThrough {
    /// Shutdown json to gracefully shutdown broker app
    Shutdown,
    Topology(Topology),
    ExitProgram,
}

/// Topology event: a feed to add or to remove, named by its address.
#[derive(Debug, Clone, PartialEq, Eq)]
pub enum Topology {
    AddMqttMessages(String),
    AddMqttMessagesReferenced(String),
    RemoveMqttMessages(String),
    RemoveMqttMessagesReferenced(String),
}

/// A message on the socket, tagged with the application that it is from or
/// for.
#[derive(Debug, Clone, PartialEq, Eq)]
pub enum SocketMsg<T> {
    PermanodeBroker(T),
}

impl Topology {
    /// The address of the feed that the event is about.
    pub open spec fn spec_address(&self) -> Seq<char> {
        match self {
            Topology::AddMqttMessages(address) => address@,
            Topology::AddMqttMessagesReferenced(address) => address@,
            Topology::RemoveMqttMessages(address) => address@,
            Topology::RemoveMqttMessagesReferenced(address) => address@,
        }
    }

    /// The address of the feed that the event is about.
    pub fn address(&self) -> (address: &str)
        ensures
            address@ == self.spec_address(),
    {
        match self {
            Topology::AddMqttMessages(address) => address.as_str(),
            Topology::AddMqttMessagesReferenced(address) => address.as_str(),
            Topology::RemoveMqttMessages(address) => address.as_str(),
            Topology::RemoveMqttMessagesReferenced(address) => address.as_str(),
        }
    }

    /// Whether the event adds a feed.
    pub fn is_add(&self) -> (yes: bool)
        ensures
            yes == (self is AddMqttMessages || self is AddMqttMessagesReferenced),
    {
        match self {
            Topology::AddMqttMessages(_) => true,
            Topology::AddMqttMessagesReferenced(_) => true,
            _ => false,
        }
    }
}

/// The serialization of the URL that `address` spells, or `None` where it
/// spells none.
pub uninterp spec fn url_of(address: Seq<char>) -> Option<Seq<char>>;

/// `url::Url::parse`, and the serialization of the URL that it gives: the
/// outcome depends on the text of `address` alone.
#[verifier::external_body]
fn parse_url(address: &str) -> (url: Option<String>)
    ensures
        match url_of(address@) {
            Some(text) => url is Some && url->0@ == text,
            None => url is None,
        },
{
    match url::Url::parse(address) {
        Ok(url) => Some(String::from(url)),
        Err(_) => None,
    }
}

/// The two events that subscribe a broker to the feed at `url`: one for its
/// messages and one for its referenced messages, in this order.
pub fn feed_events(url: String) -> (events: Vec<PermanodeBrokerThrough>)
    ensures
        events@.len() == 2,
        events@[0] is Topology && events@[0]->Topology_0 is AddMqttMessages,
        events@[1] is Topology && events@[1]->Topology_0 is AddMqttMessagesReferenced,
        events@[0]->Topology_0.spec_address() == url@,
        events@[1]->Topology_0.spec_address() == url@,
{
    let mut events: Vec<PermanodeBrokerThrough> = Vec::new();
    events.push(PermanodeBrokerThrough::Topology(Topology::AddMqttMessages(url.clone())));
    events.push(PermanodeBrokerThrough::Topology(Topology::AddMqttMessagesReferenced(url)));
    events
}

/// The events that subscribe a broker to the feed at `address`, which is
/// taken in the form that the URL parser gives it; `None` where `address` is
/// no URL.
pub fn add_feed(address: &str) -> (events: Option<Vec<PermanodeBrokerThrough>>)
    ensures
        events is Some <==> url_of(address@) is Some,
        events is Some ==> {
            &&& events->0@.len() == 2
            &&& events->0@[0] is Topology && events->0@[0]->Topology_0 is AddMqttMessages
            &&& events->0@[1] is Topology && events->0@[1]->Topology_0 is AddMqttMessagesReferenced
            &&& events->0@[0]->Topology_0.spec_address() == url_of(address@)->0
            &&& events->0@[1]->Topology_0.spec_address() == url_of(address@)->0
        },
{
    match parse_url(address) {
        Some(url) => Some(feed_events(url)),
        None => None,
    }
}

} // verus!
