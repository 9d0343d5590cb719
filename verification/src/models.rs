//! Model configuration, the credential precedence rules, and agent
//! construction. An agent here is the immutable binding of a resolved
//! credential, a model name and an optional system prompt; performing the
//! actual completion call is the transport layer's job.

use vstd::prelude::*;

use crate::errors::RigError;
use crate::strings::str_eq;

verus! {

/// Supported model providers. Only one is implemented; the enum keeps the
/// construction path explicit so an unknown provider is rejected where an
/// agent is built, not where it is used.
#[derive(Clone, Copy, Debug, PartialEq, Eq, Structural)]
pub enum ModelProvider {
    OpenAI,
}

/// Configuration for the model behind every call: the provider, the model
/// name, the name of the environment variable expected to hold the
/// credential, and an optional custom endpoint.
#[derive(Debug)]
pub struct ModelConfig {
    pub provider: ModelProvider,
    pub model_name: String,
    pub api_key_env: Option<String>,
    pub base_url: Option<String>,
}

impl ModelConfig {
    /// The starting configuration: the fixed default model, read the
    /// credential from `OPENAI_API_KEY`, no custom endpoint.
    pub fn new() -> (c: ModelConfig)
        ensures
            c.provider == ModelProvider::OpenAI,
            c.model_name@ == "o3-mini"@,
            c.api_key_env.deep_view() == Some("OPENAI_API_KEY"@),
            c.base_url is None,
    {
        ModelConfig {
            provider: ModelProvider::OpenAI,
            model_name: "o3-mini".to_owned(),
            api_key_env: Some("OPENAI_API_KEY".to_owned()),
            base_url: None,
        }
    }

    /// Returns a copy with the same fields.
    pub fn duplicate(&self) -> (c: ModelConfig)
        ensures
            c == *self,
    {
        ModelConfig {
            provider: self.provider,
            model_name: self.model_name.clone(),
            api_key_env: clone_opt_string(&self.api_key_env),
            base_url: clone_opt_string(&self.base_url),
        }
    }
}

impl Default for ModelConfig {
    /// Same value as [`ModelConfig::new`].
    fn default() -> (c: ModelConfig)
        ensures
            c.provider == ModelProvider::OpenAI,
            c.model_name@ == "o3-mini"@,
            c.api_key_env.deep_view() == Some("OPENAI_API_KEY"@),
            c.base_url is None,
    {
        ModelConfig::new()
    }
}

/// Returns a copy of an optional string.
pub fn clone_opt_string(o: &Option<String>) -> (r: Option<String>)
    ensures
        r == *o,
{
    match o {
        Some(s) => Some(s.clone()),
        None => None,
    }
}

/// One environment-style variable: a name bound to a value.
#[derive(Debug)]
pub struct EnvVar {
    pub name: String,
    pub value: String,
}

/// A snapshot of the environment-style credential sources available to the
/// process, handed in by the surrounding runtime. The core never reads the
/// process environment itself.
#[derive(Debug)]
pub struct Environment {
    pub vars: Vec<EnvVar>,
}

/// The value of the first variable with the given name, if any.
pub open spec fn spec_env_lookup_from(vars: Seq<EnvVar>, name: Seq<char>, i: int) -> Option<
    Seq<char>,
>
    decreases vars.len() - i,
{
    if i < 0 || i >= vars.len() {
        None
    } else if vars[i].name@ == name {
        Some(vars[i].value@)
    } else {
        spec_env_lookup_from(vars, name, i + 1)
    }
}

pub open spec fn spec_env_lookup(env: Environment, name: Seq<char>) -> Option<Seq<char>> {
    spec_env_lookup_from(env.vars@, name, 0)
}

impl Environment {
    /// Looks a variable up by name.
    pub fn lookup(&self, name: &str) -> (r: Option<String>)
        ensures
            r.deep_view() == spec_env_lookup(*self, name@),
    {
        let mut i: usize = 0;
        while i < self.vars.len()
            invariant
                i <= self.vars@.len(),
                spec_env_lookup_from(self.vars@, name@, 0) == spec_env_lookup_from(
                    self.vars@,
                    name@,
                    i as int,
                ),
            decreases self.vars@.len() - i,
        {
            if str_eq(self.vars[i].name.as_str(), name) {
                return Some(self.vars[i].value.clone());
            }
            i = i + 1;
        }
        None
    }
}

/// The credential the environment supplies: the value of the configured
/// source, when that source is named, set, and non-empty.
pub open spec fn spec_env_credential(config: ModelConfig, env: Environment) -> Option<Seq<char>> {
    match config.api_key_env.deep_view() {
        Some(name) => match spec_env_lookup(env, name) {
            Some(v) => if v.len() > 0 {
                Some(v)
            } else {
                None
            },
            None => None,
        },
        None => None,
    }
}

/// The credential that governs a call, by precedence: a non-empty per-call
/// credential wins; otherwise the environment source; otherwise no
/// credential. An empty per-call credential counts as not provided.
pub open spec fn spec_resolved_credential(
    per_call: Option<Seq<char>>,
    config: ModelConfig,
    env: Environment,
) -> Option<Seq<char>> {
    match per_call {
        Some(k) => if k.len() > 0 {
            Some(k)
        } else {
            spec_env_credential(config, env)
        },
        None => spec_env_credential(config, env),
    }
}

/// Resolves the credential for one call, or reports exactly which source
/// was expected.
pub fn resolve_credential(
    per_call: Option<&str>,
    config: &ModelConfig,
    env: &Environment,
) -> (r: Result<String, RigError>)
    ensures
        match r {
            Ok(c) => spec_resolved_credential(per_call.deep_view(), *config, *env) == Some(c@),
            Err(e) => spec_resolved_credential(per_call.deep_view(), *config, *env) is None && e
                == (RigError::MissingCredential { source: config.api_key_env }),
        },
{
    if let Some(k) = per_call {
        if !k.is_empty() {
            return Ok(k.to_owned());
        }
    }
    if let Some(name) = &config.api_key_env {
        if let Some(v) = env.lookup(name.as_str()) {
            if !v.as_str().is_empty() {
                return Ok(v);
            }
        }
    }
    Err(RigError::MissingCredential { source: clone_opt_string(&config.api_key_env) })
}

/// Whether any credential is available to a call, by the same precedence.
pub fn has_api_key(config: &ModelConfig, direct_api_key: Option<&str>, env: &Environment) -> (r:
    bool)
    ensures
        r == (spec_resolved_credential(direct_api_key.deep_view(), *config, *env) is Some),
{
    match resolve_credential(direct_api_key, config, env) {
        Ok(_) => true,
        Err(_) => false,
    }
}

/// An immutable binding of a resolved credential, a model name, an optional
/// endpoint and an optional system prompt to one "complete this text"
/// capability. It carries no conversation state; the transport layer turns
/// it into a provider client.
#[derive(Debug)]
pub struct AgentWrapper {
    pub credential: String,
    pub model_name: String,
    pub base_url: Option<String>,
    pub system_prompt: Option<String>,
}

/// What a freshly built agent must hold: the resolved credential, the
/// configured model and endpoint, and exactly the requested system prompt.
pub open spec fn agent_matches(
    a: AgentWrapper,
    config: ModelConfig,
    credential: Seq<char>,
    system_prompt: Option<Seq<char>>,
) -> bool {
    &&& a.credential@ == credential
    &&& a.model_name@ == config.model_name@
    &&& a.base_url.deep_view() == config.base_url.deep_view()
    &&& a.system_prompt.deep_view() == system_prompt
}

impl AgentWrapper {
    /// Returns a copy with the same binding.
    pub fn duplicate(&self) -> (a: AgentWrapper)
        ensures
            a == *self,
    {
        AgentWrapper {
            credential: self.credential.clone(),
            model_name: self.model_name.clone(),
            base_url: clone_opt_string(&self.base_url),
            system_prompt: clone_opt_string(&self.system_prompt),
        }
    }
}

/// Builds an agent bound to the given configuration, with no system prompt.
/// Fails exactly when no credential resolves.
pub fn create_agent(config: &ModelConfig, direct_api_key: Option<&str>, env: &Environment) -> (r:
    Result<AgentWrapper, RigError>)
    ensures
        match r {
            Ok(a) => spec_resolved_credential(direct_api_key.deep_view(), *config, *env) matches
                Some(c) && agent_matches(a, *config, c, None),
            Err(e) => spec_resolved_credential(direct_api_key.deep_view(), *config, *env) is None
                && e == (RigError::MissingCredential { source: config.api_key_env }),
        },
{
    match config.provider {
        ModelProvider::OpenAI => {
            let credential = match resolve_credential(direct_api_key, config, env) {
                Ok(c) => c,
                Err(e) => {
                    return Err(e);
                },
            };
            Ok(
                AgentWrapper {
                    credential,
                    model_name: config.model_name.clone(),
                    base_url: clone_opt_string(&config.base_url),
                    system_prompt: None,
                },
            )
        },
    }
}

/// Builds an agent bound to the given configuration and standing system
/// prompt. Fails exactly when no credential resolves.
pub fn create_agent_with_system_prompt(
    config: &ModelConfig,
    system_prompt: &str,
    direct_api_key: Option<&str>,
    env: &Environment,
) -> (r: Result<AgentWrapper, RigError>)
    ensures
        match r {
            Ok(a) => spec_resolved_credential(direct_api_key.deep_view(), *config, *env) matches
                Some(c) && agent_matches(a, *config, c, Some(system_prompt@)),
            Err(e) => spec_resolved_credential(direct_api_key.deep_view(), *config, *env) is None
                && e == (RigError::MissingCredential { source: config.api_key_env }),
        },
{
    match config.provider {
        ModelProvider::OpenAI => {
            let credential = match resolve_credential(direct_api_key, config, env) {
                Ok(c) => c,
                Err(e) => {
                    return Err(e);
                },
            };
            Ok(
                AgentWrapper {
                    credential,
                    model_name: config.model_name.clone(),
                    base_url: clone_opt_string(&config.base_url),
                    system_prompt: Some(system_prompt.to_owned()),
                },
            )
        },
    }
}

} // verus!
