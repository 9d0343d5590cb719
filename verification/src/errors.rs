//! The error taxonomy that crosses the core boundary. Every failure is one
//! of three kinds, each produced at the point where it is detected, so no
//! caller ever has to recognize a failure by matching on message text.

use vstd::prelude::*;

verus! {

/// A classified failure, the only error representation the core hands out.
///
/// - `MissingCredential`: no usable credential was found by any precedence
///   step; `source` names the environment variable the caller can set.
/// - `ProviderCall`: the completion provider rejected the call or the
///   transport to it failed; `message` carries the provider's own words.
/// - `MalformedModelOutput`: the model ran, but its text did not parse as
///   the required JSON shape; distinct from provider failures so an
///   operator knows the model produced unusable output.
#[derive(Debug)]
pub enum RigError {
    MissingCredential { source: Option<String> },
    ProviderCall { message: String },
    MalformedModelOutput { message: String },
}

/// The user-facing remediation text for a missing credential. When a
/// credential source is configured, the text names it.
pub open spec fn spec_missing_credential_message(source: Option<Seq<char>>) -> Seq<char> {
    match source {
        Some(name) => "OpenAI API key not found. Please either:\n1. Set the "@ + name
            + " environment variable, or\n2. Enter your API key in the plugin settings"@,
        None => "API key environment variable not specified for OpenAI"@,
    }
}

/// The user-facing message of each error kind.
pub open spec fn spec_error_message(e: RigError) -> Seq<char> {
    match e {
        RigError::MissingCredential { source } => spec_missing_credential_message(
            source.deep_view(),
        ),
        RigError::ProviderCall { message } => "Error calling the model provider: "@ + message@,
        RigError::MalformedModelOutput { message } => message@
            + " (the model replied, but its output was not in the expected shape)"@,
    }
}

impl RigError {
    /// Renders the user-facing message for this failure.
    pub fn message(&self) -> (r: String)
        ensures
            r@ == spec_error_message(*self),
    {
        match self {
            RigError::MissingCredential { source } => {
                match source {
                    Some(name) => {
                        let mut m = "OpenAI API key not found. Please either:\n1. Set the "
                            .to_owned();
                        m.append(name.as_str());
                        m.append(
                            " environment variable, or\n2. Enter your API key in the plugin settings",
                        );
                        m
                    },
                    None => "API key environment variable not specified for OpenAI".to_owned(),
                }
            },
            RigError::ProviderCall { message } => {
                let mut m = "Error calling the model provider: ".to_owned();
                m.append(message.as_str());
                m
            },
            RigError::MalformedModelOutput { message } => {
                let mut m = message.clone();
                m.append(" (the model replied, but its output was not in the expected shape)");
                m
            },
        }
    }
}

/// Classifies a failure reported by the completion provider or its
/// transport. With credential absence detected before any call is made,
/// every failure arriving from the provider is a provider-call failure;
/// its text is preserved verbatim.
pub fn classify_provider_failure(message: String) -> (r: RigError)
    ensures
        r == (RigError::ProviderCall { message }),
{
    RigError::ProviderCall { message }
}

} // verus!
