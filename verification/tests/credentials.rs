use rig_augmented_canvas::errors::{classify_provider_failure, RigError};
use rig_augmented_canvas::models::{
    create_agent, create_agent_with_system_prompt, has_api_key, resolve_credential, EnvVar,
    Environment, ModelConfig, ModelProvider,
};
use rig_augmented_canvas::normalize::{normalize, PromptRequest};
use rig_augmented_canvas::service::RigService;

fn env_with(pairs: &[(&str, &str)]) -> Environment {
    Environment {
        vars: pairs
            .iter()
            .map(|(n, v)| EnvVar {
                name: n.to_string(),
                value: v.to_string(),
            })
            .collect(),
    }
}

fn default_config() -> ModelConfig {
    ModelConfig::new()
}

fn config_without_source() -> ModelConfig {
    ModelConfig {
        provider: ModelProvider::OpenAI,
        model_name: "o3-mini".to_string(),
        api_key_env: None,
        base_url: None,
    }
}

#[test]
fn default_config_shape() {
    let c = default_config();
    assert!(matches!(c.provider, ModelProvider::OpenAI));
    assert_eq!(c.model_name, "o3-mini");
    assert_eq!(c.api_key_env.as_deref(), Some("OPENAI_API_KEY"));
    assert!(c.base_url.is_none());
}

#[test]
fn default_trait_matches_new() {
    let c: ModelConfig = Default::default();
    assert_eq!(c.model_name, "o3-mini");
    assert_eq!(c.api_key_env.as_deref(), Some("OPENAI_API_KEY"));
    assert!(c.base_url.is_none());
}

#[test]
fn missing_credential_message_is_exact() {
    let err = resolve_credential(None, &default_config(), &env_with(&[])).unwrap_err();
    assert_eq!(
        err.message(),
        "OpenAI API key not found. Please either:\n1. Set the OPENAI_API_KEY environment \
         variable, or\n2. Enter your API key in the plugin settings"
    );
}

#[test]
fn per_call_credential_wins_over_environment() {
    let env = env_with(&[("OPENAI_API_KEY", "sk-from-env")]);
    let got = resolve_credential(Some("sk-per-call"), &default_config(), &env).unwrap();
    assert_eq!(got, "sk-per-call");
}

#[test]
fn empty_per_call_credential_falls_through_to_environment() {
    let env = env_with(&[("OPENAI_API_KEY", "sk-from-env")]);
    let got = resolve_credential(Some(""), &default_config(), &env).unwrap();
    assert_eq!(got, "sk-from-env");
}

#[test]
fn empty_environment_value_counts_as_unset() {
    let env = env_with(&[("OPENAI_API_KEY", "")]);
    let err = resolve_credential(None, &default_config(), &env).unwrap_err();
    assert!(matches!(err, RigError::MissingCredential { .. }));
}

#[test]
fn missing_credential_names_the_expected_source() {
    let env = env_with(&[]);
    let err = resolve_credential(None, &default_config(), &env).unwrap_err();
    match &err {
        RigError::MissingCredential { source } => {
            assert_eq!(source.as_deref(), Some("OPENAI_API_KEY"));
        }
        other => panic!("expected MissingCredential, got {:?}", other),
    }
    assert!(err.message().contains("OPENAI_API_KEY"));
}

#[test]
fn missing_credential_without_source_has_its_own_message() {
    let err = resolve_credential(None, &config_without_source(), &env_with(&[])).unwrap_err();
    assert_eq!(
        err.message(),
        "API key environment variable not specified for OpenAI"
    );
}

#[test]
fn has_api_key_follows_the_same_precedence() {
    let env = env_with(&[("OPENAI_API_KEY", "sk-x")]);
    assert!(has_api_key(&default_config(), None, &env));
    assert!(has_api_key(&default_config(), Some("sk-direct"), &env_with(&[])));
    assert!(!has_api_key(&default_config(), Some(""), &env_with(&[])));
    assert!(!has_api_key(&config_without_source(), None, &env));
}

#[test]
fn create_agent_binds_config_and_credential() {
    let config = ModelConfig {
        provider: ModelProvider::OpenAI,
        model_name: "gpt-test".to_string(),
        api_key_env: Some("OPENAI_API_KEY".to_string()),
        base_url: Some("http://localhost:9999/v1".to_string()),
    };
    let a = create_agent(&config, Some("sk-direct"), &env_with(&[])).unwrap();
    assert_eq!(a.credential, "sk-direct");
    assert_eq!(a.model_name, "gpt-test");
    assert_eq!(a.base_url.as_deref(), Some("http://localhost:9999/v1"));
    assert!(a.system_prompt.is_none());
}

#[test]
fn create_agent_with_system_prompt_binds_it() {
    let env = env_with(&[("OPENAI_API_KEY", "sk-env")]);
    let a = create_agent_with_system_prompt(&default_config(), "be kind", None, &env).unwrap();
    assert_eq!(a.credential, "sk-env");
    assert_eq!(a.system_prompt.as_deref(), Some("be kind"));
}

#[test]
fn service_builds_default_agent_when_credential_available() {
    let env = env_with(&[("OPENAI_API_KEY", "sk-env")]);
    let s = RigService::new(&env);
    assert!(s.has_api_key());
    let a = s.select_agent(None, None, &env).unwrap();
    assert_eq!(a.credential, "sk-env");
    assert!(a.system_prompt.is_none());
}

#[test]
fn service_starts_without_credential_and_fails_at_call_time() {
    let env = env_with(&[]);
    let s = RigService::new(&env);
    assert!(!s.has_api_key());
    let err = s.select_agent(None, None, &env).unwrap_err();
    assert!(matches!(err, RigError::MissingCredential { .. }));
}

#[test]
fn system_prompt_and_per_call_credential_build_a_fresh_agent() {
    let env = env_with(&[("OPENAI_API_KEY", "sk-default")]);
    let s = RigService::new(&env);
    let a = s
        .select_agent(Some("act as a tutor"), Some("sk-per-call"), &env)
        .unwrap();
    assert_eq!(a.credential, "sk-per-call");
    assert_eq!(a.system_prompt.as_deref(), Some("act as a tutor"));
}

#[test]
fn system_prompt_alone_builds_a_fresh_agent_from_environment() {
    let env = env_with(&[("OPENAI_API_KEY", "sk-default")]);
    let s = RigService::new(&env);
    let a = s.select_agent(Some("sys"), None, &env).unwrap();
    assert_eq!(a.credential, "sk-default");
    assert_eq!(a.system_prompt.as_deref(), Some("sys"));
}

#[test]
fn empty_per_call_credential_uses_the_default_agent() {
    let env = env_with(&[("OPENAI_API_KEY", "sk-default")]);
    let s = RigService::new(&env);
    let a = s.select_agent(None, Some(""), &env).unwrap();
    assert_eq!(a.credential, "sk-default");
}

#[test]
fn update_config_does_not_rebuild_the_default_agent() {
    let env = env_with(&[("OPENAI_API_KEY", "sk-default")]);
    let mut s = RigService::new(&env);
    let mut c = s.get_config();
    c.model_name = "another-model".to_string();
    s.update_config(c);
    assert_eq!(s.get_config().model_name, "another-model");
    let a = s.select_agent(None, None, &env).unwrap();
    assert_eq!(a.model_name, "o3-mini");
}

#[test]
fn recreate_agent_reflects_the_latest_configuration() {
    let env = env_with(&[("OPENAI_API_KEY", "sk-default")]);
    let mut s = RigService::new(&env);
    let mut c = s.get_config();
    c.model_name = "another-model".to_string();
    s.update_config(c);
    s.recreate_agent(&env);
    let a = s.select_agent(None, None, &env).unwrap();
    assert_eq!(a.model_name, "another-model");
}

#[test]
fn recreate_agent_drops_the_agent_when_source_is_removed() {
    let env = env_with(&[("OPENAI_API_KEY", "sk-default")]);
    let mut s = RigService::new(&env);
    s.update_config(config_without_source());
    s.recreate_agent(&env);
    assert!(!s.has_api_key());
    let err = s.select_agent(None, None, &env).unwrap_err();
    match err {
        RigError::MissingCredential { source } => assert!(source.is_none()),
        other => panic!("expected MissingCredential, got {:?}", other),
    }
}

#[test]
fn provider_failures_keep_their_original_words() {
    let err = classify_provider_failure("status 500 from upstream".to_string());
    match &err {
        RigError::ProviderCall { message } => assert_eq!(message, "status 500 from upstream"),
        other => panic!("expected ProviderCall, got {:?}", other),
    }
    assert_eq!(
        err.message(),
        "Error calling the model provider: status 500 from upstream"
    );
}

#[test]
fn end_to_end_missing_credential_names_the_source() {
    let env = env_with(&[("UNRELATED", "x")]);
    let s = RigService::new(&env);
    let (prompt, system_prompt) = normalize(PromptRequest::SingleNode {
        content: "Summarize X".to_string(),
        system_prompt: None,
    });
    assert_eq!(prompt, "Summarize X");
    let err = s
        .select_agent(system_prompt.as_deref(), None, &env)
        .unwrap_err();
    assert!(matches!(err, RigError::MissingCredential { .. }));
    assert!(err.message().contains("OPENAI_API_KEY"));
}
