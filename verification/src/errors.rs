//! The library's error type.
use vstd::prelude::*;
use vstd::std_specs::convert::FromSpecImpl;

verus! {

/// The standard library's I/O error, carried through opaquely.
#[verifier::external_type_specification]
#[verifier::external_body]
pub struct ExIoError(std::io::Error);

/// The JSON library's error, carried through opaquely.
#[verifier::external_type_specification]
#[verifier::external_body]
pub struct ExJsonError(serde_json::Error);

/// Everything that can go wrong in the library.
#[derive(Debug)]
pub enum TackboardError {
    /// The network failed.
    Io(std::io::Error),
    /// A value could not be serialised or parsed.
    Serde(serde_json::Error),
    /// A request named a topic that does not exist.
    TopicNotFound(String),
    /// A request could not be served.
    InvalidRequest,
}

impl From<std::io::Error> for TackboardError {
    fn from(err: std::io::Error) -> (res: Self) {
        TackboardError::Io(err)
    }
}

impl FromSpecImpl<std::io::Error> for TackboardError {
    open spec fn obeys_from_spec() -> bool {
        true
    }

    open spec fn from_spec(err: std::io::Error) -> Self {
        TackboardError::Io(err)
    }
}

impl From<serde_json::Error> for TackboardError {
    fn from(err: serde_json::Error) -> (res: Self) {
        TackboardError::Serde(err)
    }
}

impl FromSpecImpl<serde_json::Error> for TackboardError {
    open spec fn obeys_from_spec() -> bool {
        true
    }

    open spec fn from_spec(err: serde_json::Error) -> Self {
        TackboardError::Serde(err)
    }
}

/// The text of an I/O error, as its `Display` writes it.
/// What it holds depends on the operating system's messages, so nothing is stated of it.
#[verifier::external_body]
fn io_error_text(err: &std::io::Error) -> String {
    format!("{}", err)
}

/// The text of a JSON error, as its `Display` writes it; nothing is stated of it.
#[verifier::external_body]
fn json_error_text(err: &serde_json::Error) -> String {
    format!("{}", err)
}

/// The fixed part of each error's message, in front of its details.
pub open spec fn message_prefix(err: TackboardError) -> Seq<char> {
    match err {
        TackboardError::Io(_) => "Network error: "@,
        TackboardError::Serde(_) => "Serialization error: "@,
        TackboardError::TopicNotFound(_) => "Topic not found: "@,
        TackboardError::InvalidRequest => "Invalid request"@,
    }
}

/// The message of a network error whose own text is `detail`.
pub fn network_error_message(detail: &str) -> (text: String)
    ensures
        text@ == "Network error: "@ + detail@,
{
    let text = String::from_str("Network error: ");
    text.concat(detail)
}

/// The message of a serialisation error whose own text is `detail`.
pub fn serialization_error_message(detail: &str) -> (text: String)
    ensures
        text@ == "Serialization error: "@ + detail@,
{
    let text = String::from_str("Serialization error: ");
    text.concat(detail)
}

impl TackboardError {
    /// The human-readable message of the error.
    pub fn message(&self) -> (text: String)
        ensures
            text@.len() >= message_prefix(*self).len(),
            text@.subrange(0, message_prefix(*self).len() as int) == message_prefix(*self),
            match *self {
                TackboardError::TopicNotFound(topic) => text@ == message_prefix(*self) + topic@,
                TackboardError::InvalidRequest => text@ == message_prefix(*self),
                _ => exists|detail: Seq<char>| text@ == message_prefix(*self) + detail,
            },
    {
        proof {
            reveal_strlit("Network error: ");
            reveal_strlit("Serialization error: ");
            reveal_strlit("Topic not found: ");
            reveal_strlit("Invalid request");
        }
        match self {
            TackboardError::Io(err) => {
                let detail = io_error_text(err);
                let text = network_error_message(detail.as_str());
                assert(text@.subrange(0, message_prefix(*self).len() as int) =~= message_prefix(*self));
                text
            },
            TackboardError::Serde(err) => {
                let detail = json_error_text(err);
                let text = serialization_error_message(detail.as_str());
                assert(text@.subrange(0, message_prefix(*self).len() as int) =~= message_prefix(*self));
                text
            },
            TackboardError::TopicNotFound(topic) => {
                let text = String::from_str("Topic not found: ");
                let text = text.concat(topic.as_str());
                assert(text@.subrange(0, message_prefix(*self).len() as int) =~= message_prefix(*self));
                text
            },
            TackboardError::InvalidRequest => {
                let text = String::from_str("Invalid request");
                assert(text@.subrange(0, message_prefix(*self).len() as int) =~= message_prefix(*self));
                text
            },
        }
    }
}

} // verus!
