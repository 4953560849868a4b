//! From the unified configuration to the settings of a model client: which
//! model a profile runs, and the errors on the way.

use vstd::prelude::*;
use crate::text::{concat, push_str, to_owned};

verus! {

/// Why a profile's client settings cannot be made.
#[derive(Debug, Clone)]
pub enum BridgeError {
    /// No profile of this name.
    ProfileNotFound(String),
    /// The profile names a provider (first) that does not exist (profile second).
    ProviderNotFound(String, String),
    /// Neither the profile nor its provider names a model.
    NoModelConfigured(String),
    /// The provider type is not known.
    InvalidProvider(String),
}

impl BridgeError {
    /// The error's message.
    pub fn to_string(&self) -> (r: String)
        ensures
            r@ == match self {
                BridgeError::ProfileNotFound(p) => "Profile '"@ + p@ + "' not found"@,
                BridgeError::ProviderNotFound(v, p) => "Provider '"@ + v@ + "' not found for profile '"@
                    + p@ + "'"@,
                BridgeError::NoModelConfigured(p) => "No model configured for profile '"@ + p@ + "'"@,
                BridgeError::InvalidProvider(t) => "Failed to parse provider type: "@ + t@,
            },
    {
        match self {
            BridgeError::ProfileNotFound(p) => {
                let mut s = concat("Profile '", p.as_str());
                push_str(&mut s, "' not found");
                s
            },
            BridgeError::ProviderNotFound(v, p) => {
                let mut s = concat("Provider '", v.as_str());
                push_str(&mut s, "' not found for profile '");
                push_str(&mut s, p.as_str());
                push_str(&mut s, "'");
                s
            },
            BridgeError::NoModelConfigured(p) => {
                let mut s = concat("No model configured for profile '", p.as_str());
                push_str(&mut s, "'");
                s
            },
            BridgeError::InvalidProvider(t) => concat("Failed to parse provider type: ", t.as_str()),
        }
    }
}

/// The model a profile runs: its own, else its provider's default (the
/// provider being found); an error names the profile when neither is set.
pub fn select_model(
    profile_name: &str,
    profile_model: Option<String>,
    provider_default: Option<String>,
) -> (r: Result<String, BridgeError>)
    ensures
        match profile_model {
            Some(m) => r matches Ok(x) && x@ == m@,
            None => match provider_default {
                Some(d) => r matches Ok(x) && x@ == d@,
                None => r matches Err(BridgeError::NoModelConfigured(p)) && p@ == profile_name@,
            },
        },
{
    match profile_model {
        Some(m) => Ok(m),
        None => match provider_default {
            Some(d) => Ok(d),
            None => Err(BridgeError::NoModelConfigured(to_owned(profile_name))),
        },
    }
}

} // verus!
