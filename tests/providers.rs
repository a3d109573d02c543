use side_hustler::provider::{bearer_header, local_server_url};
use side_hustler::{create_provider, provider_type_from_name, ProviderType};

#[test]
fn provider_names_are_recognised() {
    assert_eq!(provider_type_from_name(&Some("LMStudio".to_string())), ProviderType::LMStudio);
    assert_eq!(provider_type_from_name(&Some("Ollama".to_string())), ProviderType::Ollama);
    assert_eq!(provider_type_from_name(&Some("OpenAI".to_string())), ProviderType::OpenAI);
}

#[test]
fn unknown_or_missing_name_means_hosted_api() {
    assert_eq!(provider_type_from_name(&None), ProviderType::OpenAI);
    assert_eq!(provider_type_from_name(&Some("ollama".to_string())), ProviderType::OpenAI);
    assert_eq!(provider_type_from_name(&Some(String::new())), ProviderType::OpenAI);
}

#[test]
fn local_servers_have_fixed_addresses() {
    assert_eq!(local_server_url(ProviderType::LMStudio), Some("http://localhost:1234/v1/".to_string()));
    assert_eq!(local_server_url(ProviderType::Ollama), Some("http://localhost:11434".to_string()));
    assert_eq!(local_server_url(ProviderType::OpenAI), None);
}

#[test]
fn chat_urls_and_auth() {
    let p = create_provider(ProviderType::OpenAI, "sk-test");
    assert_eq!(p.chat_completions_url(), "https://api.openai.com/v1/chat/completions");
    assert_eq!(p.authorization(), Some("Bearer sk-test".to_string()));
    let p = create_provider(ProviderType::LMStudio, "http://localhost:1234/v1/");
    assert_eq!(p.chat_completions_url(), "http://localhost:1234/v1/chat/completions");
    assert_eq!(p.authorization(), None);
    let p = create_provider(ProviderType::Ollama, "http://localhost:11434");
    assert_eq!(p.chat_completions_url(), "http://localhost:11434/v1/chat/completions");
    assert_eq!(p.authorization(), None);
}

#[test]
fn preferred_model_is_set() {
    let mut p = create_provider(ProviderType::Ollama, "http://localhost:11434");
    assert!(p.preferred_model.is_none());
    p.set_preferred_inference_model("llama3".to_string());
    assert_eq!(p.preferred_model, Some("llama3".to_string()));
    assert_eq!(p.kind, ProviderType::Ollama);
    assert_eq!(p.config, "http://localhost:11434");
}

#[test]
fn bearer_header_prefixes_key() {
    assert_eq!(bearer_header("abc"), "Bearer abc");
}
