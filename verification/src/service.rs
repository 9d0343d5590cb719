//! The service that ties the pipeline together: it holds the current
//! configuration, the optional long-lived default agent, and decides for
//! each call whether a fresh agent is built or the default one is reused.
//! Performing the completion itself is left to the surrounding transport,
//! which hands the model's raw reply back to the parsing functions.

use vstd::prelude::*;

use crate::errors::RigError;
use crate::models::{
    agent_matches, clone_opt_string, create_agent, create_agent_with_system_prompt, has_api_key,
    spec_resolved_credential, AgentWrapper, Environment, ModelConfig,
};

verus! {

/// How one call obtains its agent: a fresh binding of the resolved
/// credential and the requested system prompt; the shared default agent;
/// or a refusal naming the credential source that was expected.
pub ghost enum AgentChoice {
    Fresh { credential: Seq<char>, system_prompt: Option<Seq<char>> },
    Default,
    Refused { source: Option<Seq<char>> },
}

/// Whether a call must build a fresh agent: a system prompt forces one,
/// because the binding is immutable once built, and so does a non-empty
/// per-call credential. An empty per-call credential counts as absent.
pub open spec fn spec_needs_fresh_agent(
    system_prompt: Option<Seq<char>>,
    api_key: Option<Seq<char>>,
) -> bool {
    system_prompt is Some || (api_key matches Some(k) && k.len() > 0)
}

/// The agent choice for one call, as a function of the service state, the
/// request's system prompt and per-call credential, and the environment.
pub open spec fn spec_agent_choice(
    s: RigService,
    system_prompt: Option<Seq<char>>,
    api_key: Option<Seq<char>>,
    env: Environment,
) -> AgentChoice {
    if spec_needs_fresh_agent(system_prompt, api_key) {
        match spec_resolved_credential(api_key, s.config, env) {
            Some(c) => AgentChoice::Fresh { credential: c, system_prompt },
            None => AgentChoice::Refused { source: s.config.api_key_env.deep_view() },
        }
    } else {
        if s.agent is Some {
            AgentChoice::Default
        } else {
            AgentChoice::Refused { source: s.config.api_key_env.deep_view() }
        }
    }
}

/// The shape a service takes right after construction or an explicit
/// default-agent rebuild against the environment `env`: the default agent
/// is present exactly when a credential resolves from the environment, and
/// is then bound to it with no system prompt.
pub open spec fn spec_default_agent_state(s: RigService, env: Environment) -> bool {
    &&& s.has_api_key == (spec_resolved_credential(None, s.config, env) is Some)
    &&& match s.agent {
        Some(a) => spec_resolved_credential(None, s.config, env) matches Some(c) && agent_matches(
            a,
            s.config,
            c,
            None,
        ),
        None => spec_resolved_credential(None, s.config, env) is None,
    }
}

/// The core service: the current configuration, the long-lived default
/// agent built from it at construction (absent when no credential was
/// available then), and whether a credential was available then.
pub struct RigService {
    pub agent: Option<AgentWrapper>,
    pub config: ModelConfig,
    pub has_api_key: bool,
}

impl RigService {
    /// Builds the service with the default configuration against the given
    /// environment snapshot. When no credential resolves, the service still
    /// starts, with no default agent: calls that need one fail
    /// individually, at call time.
    pub fn new(env: &Environment) -> (s: RigService)
        ensures
            s.config.provider == crate::models::ModelProvider::OpenAI,
            s.config.model_name@ == "o3-mini"@,
            s.config.api_key_env.deep_view() == Some("OPENAI_API_KEY"@),
            s.config.base_url is None,
            spec_default_agent_state(s, *env),
    {
        let config = ModelConfig::new();
        let has_key = has_api_key(&config, None, env);
        let agent = if has_key {
            match create_agent(&config, None, env) {
                Ok(a) => Some(a),
                Err(_) => None,
            }
        } else {
            None
        };
        RigService { agent, config, has_api_key: has_key }
    }

    /// Whether a credential was available when the default agent was last
    /// (re)built.
    pub fn has_api_key(&self) -> (r: bool)
        ensures
            r == self.has_api_key,
    {
        self.has_api_key
    }

    /// Returns a copy of the current configuration.
    pub fn get_config(&self) -> (c: ModelConfig)
        ensures
            c == self.config,
    {
        self.config.duplicate()
    }

    /// Replaces the configuration wholesale. The default agent is not
    /// rebuilt: callers that want it to reflect the new configuration opt
    /// in through [`RigService::recreate_agent`].
    pub fn update_config(&mut self, new_config: ModelConfig)
        ensures
            final(self).config == new_config,
            final(self).agent == old(self).agent,
            final(self).has_api_key == old(self).has_api_key,
    {
        self.config = new_config;
    }

    /// Rebuilds the default agent from the current configuration and the
    /// given environment snapshot; the explicit opt-in after a
    /// configuration change.
    pub fn recreate_agent(&mut self, env: &Environment)
        ensures
            final(self).config == old(self).config,
            spec_default_agent_state(*final(self), *env),
    {
        let has_key = has_api_key(&self.config, None, env);
        self.has_api_key = has_key;
        if has_key {
            match create_agent(&self.config, None, env) {
                Ok(a) => {
                    self.agent = Some(a);
                },
                Err(_) => {
                    self.agent = None;
                },
            }
        } else {
            self.agent = None;
        }
    }

    /// Picks the agent for one call: a fresh one when a system prompt or a
    /// non-empty per-call credential is given, the default agent otherwise,
    /// and a missing-credential failure naming the expected source when
    /// neither path yields an agent.
    pub fn select_agent(
        &self,
        system_prompt: Option<&str>,
        api_key: Option<&str>,
        env: &Environment,
    ) -> (r: Result<AgentWrapper, RigError>)
        ensures
            match spec_agent_choice(*self, system_prompt.deep_view(), api_key.deep_view(), *env) {
                AgentChoice::Fresh { credential, system_prompt: sp } => r matches Ok(a)
                    && agent_matches(a, self.config, credential, sp),
                AgentChoice::Default => r matches Ok(a) && Some(a) == self.agent,
                AgentChoice::Refused { source } => r matches Err(e) && (e matches
                RigError::MissingCredential { source: s2 } && s2.deep_view() == source),
            },
    {
        match system_prompt {
            Some(sp) => create_agent_with_system_prompt(&self.config, sp, api_key, env),
            None => {
                let fresh = match api_key {
                    Some(k) => !k.is_empty(),
                    None => false,
                };
                if fresh {
                    create_agent(&self.config, api_key, env)
                } else {
                    match &self.agent {
                        Some(a) => Ok(a.duplicate()),
                        None => Err(
                            RigError::MissingCredential {
                                source: clone_opt_string(&self.config.api_key_env),
                            },
                        ),
                    }
                }
            },
        }
    }
}

} // verus!
