//! Off-chain payload types: agent registration files and registry
//! query results.
//!
//! These model the JSON payloads the registries point at and the
//! values their read methods return.  Serialising them is I/O-side
//! work and happens outside the library.

use vstd::prelude::*;

use vstd::string::StringExecFns;

verus! {

/// The `type` field every registration file must carry.
pub open spec fn registration_type_chars() -> Seq<char> {
    "https://eips.ethereum.org/EIPS/eip-8004#registration-v1"@
}

/// The top-level agent registration file resolved by an agent URI.
#[derive(Debug, Clone)]
pub struct RegistrationFile {
    /// The fixed registration type marker.
    pub type_field: String,
    /// Human-readable agent name.
    pub name: String,
    /// Natural-language description of the agent.
    pub description: String,
    /// URL to the agent's image, when given.
    pub image: Option<String>,
    /// Service endpoints the agent advertises.
    pub services: Vec<ServiceEndpoint>,
    /// Whether the agent supports x402 payments.
    pub x402_support: bool,
    /// Whether the agent is currently active.
    pub active: bool,
    /// On-chain registrations of this agent across chains.
    pub registrations: Vec<Registration>,
    /// Trust models the agent supports.
    pub supported_trust: Vec<String>,
}

/// The default of a registration file's `active` field.
pub fn default_true() -> (r: bool)
    ensures
        r,
{
    true
}

/// A service endpoint advertised by an agent.
#[derive(Debug, Clone)]
pub struct ServiceEndpoint {
    /// Protocol name.
    pub name: String,
    /// The endpoint URL or identifier.
    pub endpoint: String,
    /// Protocol version, when given.
    pub version: Option<String>,
    /// Skills, for endpoints that list them.
    pub skills: Option<Vec<String>>,
    /// Domains, for endpoints that list them.
    pub domains: Option<Vec<String>>,
}

/// An on-chain registration entry referencing one chain deployment.
#[derive(Debug, Clone)]
pub struct Registration {
    /// The token ID on the target chain.
    pub agent_id: u64,
    /// A colon-separated `{namespace}:{chainId}:{identityRegistry}`.
    pub agent_registry: String,
}

/// A single feedback entry.
#[derive(Debug, Clone)]
pub struct Feedback {
    /// Signed feedback value.
    pub value: i128,
    /// Number of decimal places for `value`.
    pub value_decimals: u8,
    /// Primary categorisation tag.
    pub tag1: String,
    /// Secondary categorisation tag.
    pub tag2: String,
    /// Whether this feedback has been revoked.
    pub is_revoked: bool,
}

/// Aggregated reputation summary.
#[derive(Debug, Clone, Copy)]
pub struct ReputationSummary {
    /// Total number of non-revoked feedback entries.
    pub count: u64,
    /// Aggregated value across all matching feedback.
    pub summary_value: i128,
    /// Decimal places for `summary_value`.
    pub summary_value_decimals: u8,
}

/// The status of one validation request.  The wide on-chain integers
/// are carried in their hexadecimal string form.
#[derive(Debug, Clone)]
pub struct ValidationStatus {
    /// Address of the validator, as a hexadecimal string.
    pub validator_address: String,
    /// The agent being validated, as a hexadecimal string.
    pub agent_id: String,
    /// Response value (0-100).
    pub response: u8,
    /// Hash of the response payload, as a hexadecimal string.
    pub response_hash: String,
    /// Optional categorisation tag.
    pub tag: String,
    /// Block timestamp of the last update, in seconds.
    pub last_update: u64,
}

/// Aggregated validation summary.
#[derive(Debug, Clone, Copy)]
pub struct ValidationSummary {
    /// Number of validation responses.
    pub count: u64,
    /// Average response value (0-100).
    pub avg_response: u8,
}

impl RegistrationFile {
    /// A fresh registration file with the standard type marker, the
    /// given name and description, and every optional part empty;
    /// the agent starts active.
    pub fn new(name: String, description: String) -> (r: Self)
        ensures
            r.type_field@ == registration_type_chars(),
            r.name == name,
            r.description == description,
            r.image is None,
            r.services@.len() == 0,
            !r.x402_support,
            r.active,
            r.registrations@.len() == 0,
            r.supported_trust@.len() == 0,
    {
        RegistrationFile {
            type_field: String::from_str("https://eips.ethereum.org/EIPS/eip-8004#registration-v1"),
            name,
            description,
            image: None,
            services: Vec::new(),
            x402_support: false,
            active: default_true(),
            registrations: Vec::new(),
            supported_trust: Vec::new(),
        }
    }
}

} // verus!
