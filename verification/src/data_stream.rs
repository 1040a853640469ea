use vstd::prelude::*;
use vstd::string::*;

use crate::error::AegisError;
use crate::text::joined;

verus! {

/// serde_json's JSON value, carried through unread.
#[verifier::external_type_specification]
#[verifier::external_body]
pub struct ExSerdeJsonValue(serde_json::Value);

/// `Clone` of serde_json's `Value`, which the crate derives. Claimed: the
/// copy is the same value.
pub assume_specification[ <serde_json::Value as Clone>::clone ](v: &serde_json::Value) -> (r:
    serde_json::Value)
    ensures
        r == *v,
;

/// A single message received from the data stream.
#[derive(Debug, Clone)]
pub struct StreamMessage {
    /// Dot-separated topic, e.g. `"aggTrades.BTCUSDT"` or `"klines.BTCUSDT.1h"`.
    pub topic: String,
    /// Raw JSON payload; its shape depends on the topic.
    pub data: serde_json::Value,
}

/// The data-stream server's answer to the handshake.
#[derive(Debug)]
pub struct HandshakeResponse {
    pub status: String,
    pub message: Option<String>,
    pub topics: Option<Vec<String>>,
}

/// The text that explains a rejected handshake.
pub open spec fn rejection_reason(message: Option<String>) -> Seq<char> {
    match message {
        Some(m) => m@,
        None => "no message"@,
    }
}

/// Reads the answer to the handshake. An answer that did not parse, or
/// whose status is not `ok`, is a connection error; an accepted handshake
/// yields the subscribed topics (none if the answer lists none).
pub fn accept_handshake(parsed: std::result::Result<HandshakeResponse, serde_json::Error>) -> (r:
    std::result::Result<Vec<String>, AegisError>)
    ensures
        match parsed {
            Err(e) => r matches Err(AegisError::Connection(m)) && exists|d: String|
                vstd::string::to_string_from_display_ensures::<serde_json::Error>(&e, d) && m@
                    == "data stream handshake response: "@ + d@,
            Ok(resp) => if resp.status@ == "ok"@ {
                r matches Ok(topics) && match resp.topics {
                    Some(t) => topics == t,
                    None => topics@.len() == 0,
                }
            } else {
                r matches Err(AegisError::Connection(m)) && m@ == "data stream handshake rejected: "@
                    + rejection_reason(resp.message)
            },
        },
{
    match parsed {
        Err(e) => {
            let detail = e.to_string();
            let m = joined("data stream handshake response: ", detail.as_str());
            Err(AegisError::Connection(m))
        },
        Ok(resp) => {
            let ok = String::from_str("ok");
            if resp.status == ok {
                match resp.topics {
                    Some(t) => Ok(t),
                    None => Ok(Vec::new()),
                }
            } else {
                let m = match &resp.message {
                    Some(reason) => joined("data stream handshake rejected: ", reason.as_str()),
                    None => joined("data stream handshake rejected: ", "no message"),
                };
                Err(AegisError::Connection(m))
            }
        },
    }
}

} // verus!
