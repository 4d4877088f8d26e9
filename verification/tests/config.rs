use interview_assistant::config::{providers, AppConfig, SYSTEM_PROMPT};

#[test]
fn default_settings() {
    let c = AppConfig::default();
    assert_eq!(c.provider, "OpenAI");
    assert_eq!(c.api_key, "");
    assert_eq!(c.model, "gpt-4o-mini");
    assert_eq!(c.base_url, "https://api.openai.com/v1");
    assert_eq!(c.vosk_model_path, "");
    assert_eq!(c.chunk_ms, 500);
    assert_eq!(c.auto_ask_sec, 0);
    assert_eq!(c.tail_ms, 6000);
    assert_eq!(c.loopback_device, "");
    assert_eq!(c.mic_device, "");
    assert_eq!(c.position, "");
    assert_eq!(c.system_prompt, SYSTEM_PROMPT);
    assert_eq!(c.gigachat_scope, "GIGACHAT_API_PERS");
    assert_eq!(c.gigachat_auth_key, "");
    assert_eq!(c.local_llm_address, "127.0.0.1");
    assert_eq!(c.local_llm_port, 8000);
    assert_eq!(c.lang, "ru");
}

#[test]
fn the_preset_table() {
    let p = providers();
    assert_eq!(
        p,
        vec![
            ("OpenAI", "https://api.openai.com/v1", "gpt-4o-mini"),
            ("DeepSeek", "https://api.deepseek.com/v1", "deepseek-chat"),
            ("OpenRouter", "https://openrouter.ai/api/v1", "deepseek/deepseek-chat"),
            ("Local LLMs", "http://127.0.0.1:8000", "llama3"),
            ("GigaChat", "", "GigaChat"),
            ("Свой", "", ""),
        ]
    );
}

#[test]
fn prompt_takes_the_trimmed_position() {
    let mut c = AppConfig::default();
    c.position = "  Rust developer ".to_string();
    let p = c.resolved_system_prompt();
    assert!(p.starts_with("Ты — Rust developer, проходишь техническое собеседование."));
    assert!(!p.contains("{position}"));
}

#[test]
fn prompt_uses_specialist_for_a_blank_position() {
    let mut c = AppConfig::default();
    c.position = "   ".to_string();
    let p = c.resolved_system_prompt();
    assert!(p.starts_with("Ты — специалист, проходишь"));
}

#[test]
fn every_placeholder_is_replaced() {
    let mut c = AppConfig::default();
    c.system_prompt = "{position}/{position}-{pos}".to_string();
    c.position = "QA".to_string();
    assert_eq!(c.resolved_system_prompt(), "QA/QA-{pos}");
}

#[test]
fn prompt_without_placeholder_is_kept() {
    let mut c = AppConfig::default();
    c.system_prompt = "Answer briefly.".to_string();
    c.position = "Tester".to_string();
    assert_eq!(c.resolved_system_prompt(), "Answer briefly.");
    c.system_prompt = String::new();
    assert_eq!(c.resolved_system_prompt(), "");
}

#[test]
fn choosing_deepseek_takes_its_url_and_model() {
    let mut c = AppConfig::default();
    c.apply_provider_preset("DeepSeek");
    assert_eq!(c.provider, "DeepSeek");
    assert_eq!(c.base_url, "https://api.deepseek.com/v1");
    assert_eq!(c.model, "deepseek-chat");
}

#[test]
fn a_chosen_model_is_kept_when_switching() {
    let mut c = AppConfig::default();
    c.apply_provider_preset("DeepSeek");
    c.apply_provider_preset("OpenAI");
    assert_eq!(c.provider, "OpenAI");
    assert_eq!(c.base_url, "https://api.openai.com/v1");
    assert_eq!(c.model, "deepseek-chat");
}

#[test]
fn a_preset_without_url_keeps_the_url() {
    let mut c = AppConfig::default();
    c.apply_provider_preset("GigaChat");
    assert_eq!(c.provider, "GigaChat");
    assert_eq!(c.base_url, "https://api.openai.com/v1");
    assert_eq!(c.model, "GigaChat");
}

#[test]
fn an_empty_model_takes_the_preset_model() {
    let mut c = AppConfig::default();
    c.model = String::new();
    c.apply_provider_preset("Local LLMs");
    assert_eq!(c.base_url, "http://127.0.0.1:8000");
    assert_eq!(c.model, "llama3");
}

#[test]
fn an_unknown_or_custom_provider_changes_only_the_name() {
    let mut c = AppConfig::default();
    c.apply_provider_preset("Свой");
    assert_eq!(c.provider, "Свой");
    assert_eq!(c.base_url, "https://api.openai.com/v1");
    assert_eq!(c.model, "gpt-4o-mini");
    c.apply_provider_preset("Anthropic");
    assert_eq!(c.provider, "Anthropic");
    assert_eq!(c.base_url, "https://api.openai.com/v1");
    assert_eq!(c.model, "gpt-4o-mini");
}

#[test]
fn provider_names_are_matched_exactly() {
    let mut c = AppConfig::default();
    c.apply_provider_preset("deepseek");
    assert_eq!(c.provider, "deepseek");
    assert_eq!(c.base_url, "https://api.openai.com/v1");
    assert_eq!(c.model, "gpt-4o-mini");
}

#[test]
fn choosing_a_provider_twice_is_choosing_it_once() {
    for name in ["OpenAI", "DeepSeek", "OpenRouter", "Local LLMs", "GigaChat", "Свой", "x"] {
        let mut c = AppConfig::default();
        c.apply_provider_preset(name);
        let once = (c.provider.clone(), c.base_url.clone(), c.model.clone());
        c.apply_provider_preset(name);
        assert_eq!((c.provider.clone(), c.base_url.clone(), c.model.clone()), once);
    }
}

#[test]
fn other_settings_survive_a_provider_switch() {
    let mut c = AppConfig::default();
    c.api_key = "k".to_string();
    c.position = "Dev".to_string();
    c.local_llm_port = 1234;
    c.apply_provider_preset("OpenRouter");
    assert_eq!(c.api_key, "k");
    assert_eq!(c.position, "Dev");
    assert_eq!(c.local_llm_port, 1234);
}
