//! The messages exchanged between clients and the server.
use vstd::prelude::*;

verus! {

/// A topic is named by a string.
pub type Topic = String;

/// What a client asks of the server.
#[derive(Debug, Clone)]
pub enum ClientRequest {
    /// Introduce a client to the server.
    ConnectionRequest { id: String, client_url: String, server_url: String },
    /// Ask for the messages of a topic, and for its updates.
    TopicListenRequest { topic_id: Topic, client_url: String },
    /// Post a message to a topic.
    PublishRequest { topic_id: Topic, message: String },
}

/// What the server answers.
#[derive(Debug, Clone)]
pub enum ServerResponse {
    /// The topics that the server offers.
    ConnectionResponse { topics: Vec<Topic> },
    /// The messages of one topic.
    TopicListenUpdate { topic_id: Topic, messages: Vec<String> },
    /// A generic success.
    Ack,
    /// A failure, with its reason.
    Error { reason: String },
}

} // verus!
