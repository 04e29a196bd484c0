use vstd::prelude::*;

verus! {

/// Declares `serde_json::Value` so that message options can carry free-form metadata.
#[verifier::external_type_specification]
#[verifier::external_body]
pub struct ExJsonValue(serde_json::Value);

/// Settings of one session. A `private_key` selects owned-identity mode, its
/// absence hosted-agent mode; an `api_key` is sent with every request.
#[derive(Clone, Debug)]
pub struct OpenPondConfig {
    pub api_url: String,
    pub private_key: Option<String>,
    pub agent_name: Option<String>,
    pub api_key: Option<String>,
}

/// A message as the service delivers it; `timestamp` is in milliseconds.
#[derive(Clone, Debug)]
pub struct Message {
    pub id: String,
    pub from_agent_id: String,
    pub to_agent_id: String,
    pub content: String,
    pub timestamp: i64,
}

/// An entry of the agent directory.
#[derive(Clone, Debug)]
pub struct Agent {
    pub id: String,
    pub name: Option<String>,
    pub last_seen: Option<i64>,
}

/// Optional extras of an outgoing message.
pub struct SendMessageOptions {
    pub reply_to: Option<String>,
    pub metadata: Option<serde_json::Value>,
}

impl OpenPondConfig {
    /// Owned-identity mode: the session holds its own agent identity.
    pub open spec fn owns_identity(&self) -> bool {
        self.private_key is Some
    }
}

} // verus!
