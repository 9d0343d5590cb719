//! The precedence and isolation guarantees of credential resolution and
//! agent selection, stated once over the specification functions that the
//! executable functions' contracts are written against.

use vstd::prelude::*;

use crate::models::{spec_resolved_credential, Environment, ModelConfig};
use crate::service::{spec_agent_choice, spec_default_agent_state, AgentChoice, RigService};

verus! {

/// A non-empty per-call credential always governs the call, whatever the
/// environment holds: the first precedence step wins.
pub proof fn lemma_per_call_credential_wins(
    per_call: Seq<char>,
    config: ModelConfig,
    env1: Environment,
    env2: Environment,
)
    requires
        per_call.len() > 0,
    ensures
        spec_resolved_credential(Some(per_call), config, env1) == Some(per_call),
        spec_resolved_credential(Some(per_call), config, env1) == spec_resolved_credential(
            Some(per_call),
            config,
            env2,
        ),
{
}

/// An empty per-call credential counts as not provided: resolution falls
/// through to the environment source exactly as if none had been given.
pub proof fn lemma_empty_per_call_credential_is_absent(
    per_call: Seq<char>,
    config: ModelConfig,
    env: Environment,
)
    requires
        per_call.len() == 0,
    ensures
        spec_resolved_credential(Some(per_call), config, env) == spec_resolved_credential(
            None,
            config,
            env,
        ),
{
}

/// With no credential source configured and no usable per-call credential,
/// every call is refused for want of a credential, whatever system prompt
/// it carries — provided the default agent reflects that configuration, as
/// it does after construction or an explicit rebuild.
pub proof fn lemma_no_source_no_credential_always_refused(
    s: RigService,
    system_prompt: Option<Seq<char>>,
    api_key: Option<Seq<char>>,
    env: Environment,
)
    requires
        s.config.api_key_env is None,
        spec_default_agent_state(s, env),
        match api_key {
            Some(k) => k.len() == 0,
            None => true,
        },
    ensures
        spec_agent_choice(s, system_prompt, api_key, env) == (AgentChoice::Refused {
            source: None::<Seq<char>>,
        }),
{
}

/// A call that carries both a system prompt and a non-empty per-call
/// credential always gets a fresh agent bound to exactly those, and the
/// choice does not depend on the default agent at all: two services with
/// the same configuration choose identically, whatever their holders hold.
pub proof fn lemma_fresh_agent_ignores_default(
    s1: RigService,
    s2: RigService,
    system_prompt: Seq<char>,
    api_key: Seq<char>,
    env: Environment,
)
    requires
        s1.config == s2.config,
        api_key.len() > 0,
    ensures
        spec_agent_choice(s1, Some(system_prompt), Some(api_key), env) == (AgentChoice::Fresh {
            credential: api_key,
            system_prompt: Some(system_prompt),
        }),
        spec_agent_choice(s1, Some(system_prompt), Some(api_key), env) == spec_agent_choice(
            s2,
            Some(system_prompt),
            Some(api_key),
            env,
        ),
{
}

} // verus!
