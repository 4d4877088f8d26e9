use interview_assistant::ai::{
    chat_completions_url, check_token, gigachat_basic_auth, gigachat_scope_body, local_llm_url,
    pick_answer, provider_kind, sanitize_api_key, test_result, AiMessage, AskError, Conversation,
    ProviderKind, MAX_HISTORY,
};

fn roles_and_contents(ms: &[AiMessage]) -> Vec<(String, String)> {
    ms.iter().map(|m| (m.role.clone(), m.content.clone())).collect()
}

#[test]
fn a_question_is_recorded_trimmed() {
    let mut c = Conversation::new("sys".to_string());
    assert!(c.begin_ask("  What is Rust?  ").is_ok());
    assert_eq!(roles_and_contents(&c.messages), vec![("user".to_string(), "What is Rust?".to_string())]);
}

#[test]
fn a_blank_question_is_refused() {
    let mut c = Conversation::new("sys".to_string());
    assert_eq!(c.begin_ask(" \n\t "), Err(AskError::EmptyQuestion));
    assert!(c.messages.is_empty());
    assert_eq!(AskError::EmptyQuestion.message(), "Пустой запрос");
}

#[test]
fn an_answer_follows_its_question() {
    let mut c = Conversation::new(String::new());
    c.begin_ask("q").unwrap();
    c.finish_ask("a");
    assert_eq!(
        roles_and_contents(&c.messages),
        vec![("user".to_string(), "q".to_string()), ("assistant".to_string(), "a".to_string())]
    );
}

#[test]
fn the_history_keeps_the_latest_messages() {
    let mut c = Conversation::new("sys".to_string());
    for k in 0..15 {
        c.begin_ask(&format!("q{k}")).unwrap();
        c.finish_ask(&format!("a{k}"));
    }
    assert_eq!(c.messages.len(), MAX_HISTORY);
    assert_eq!(c.messages[0].content, "q5");
    assert_eq!(c.messages[18].content, "q14");
    assert_eq!(c.messages[19].content, "a14");
}

#[test]
fn trimming_keeps_short_histories() {
    let mut c = Conversation::new(String::new());
    c.messages = vec![AiMessage { role: "user".to_string(), content: "x".to_string() }];
    c.trim_history();
    assert_eq!(c.messages.len(), 1);
}

#[test]
fn the_payload_starts_with_the_system_prompt() {
    let mut c = Conversation::new("Be brief".to_string());
    c.begin_ask("hi").unwrap();
    assert_eq!(
        roles_and_contents(&c.build_payload()),
        vec![("system".to_string(), "Be brief".to_string()), ("user".to_string(), "hi".to_string())]
    );
}

#[test]
fn an_empty_system_prompt_is_left_out() {
    let mut c = Conversation::new(String::new());
    c.begin_ask("hi").unwrap();
    assert_eq!(roles_and_contents(&c.build_payload()), vec![("user".to_string(), "hi".to_string())]);
}

#[test]
fn configuring_keeps_the_conversation() {
    let mut c = Conversation::new("a".to_string());
    c.begin_ask("hi").unwrap();
    c.configure("b".to_string());
    assert_eq!(c.system_prompt, "b");
    assert_eq!(c.messages.len(), 1);
}

#[test]
fn provider_kinds() {
    assert_eq!(provider_kind("GigaChat"), ProviderKind::GigaChat);
    assert_eq!(provider_kind("GIGACHAT"), ProviderKind::GigaChat);
    assert_eq!(provider_kind("Local LLMs"), ProviderKind::LocalLlm);
    assert_eq!(provider_kind("local llms"), ProviderKind::LocalLlm);
    assert_eq!(provider_kind("OpenAI"), ProviderKind::OpenAiCompatible);
    assert_eq!(provider_kind("Свой"), ProviderKind::OpenAiCompatible);
}

#[test]
fn api_keys_are_cleaned() {
    assert_eq!(sanitize_api_key("  sk-abc\u{200b}123 ").unwrap(), "sk-abc123");
    assert_eq!(sanitize_api_key("sk-ключ-1").unwrap(), "sk--1");
    assert_eq!(sanitize_api_key("a b").unwrap(), "a b");
}

#[test]
fn missing_or_unusable_keys_are_refused() {
    assert_eq!(sanitize_api_key("   "), Err(AskError::NoApiKey));
    assert_eq!(AskError::NoApiKey.message(), "Не указан API Key");
    assert_eq!(sanitize_api_key("ключ"), Err(AskError::InvalidApiKey));
    assert_eq!(AskError::InvalidApiKey.message(), "API Key содержит только недопустимые символы");
}

#[test]
fn chat_endpoint_of_a_base_url() {
    assert_eq!(chat_completions_url("https://api.openai.com/v1"), "https://api.openai.com/v1/chat/completions");
    assert_eq!(chat_completions_url("https://api.deepseek.com/v1//"), "https://api.deepseek.com/v1/chat/completions");
    assert_eq!(chat_completions_url(""), "/chat/completions");
}

#[test]
fn local_endpoint() {
    assert_eq!(local_llm_url("127.0.0.1", 8000), "http://127.0.0.1:8000/v1/chat/completions");
    assert_eq!(local_llm_url("localhost", 0), "http://localhost:0/v1/chat/completions");
}

#[test]
fn the_first_choice_is_the_answer() {
    let cs = vec!["first".to_string(), "second".to_string()];
    assert_eq!(pick_answer(&cs, true), Some("first".to_string()));
    assert_eq!(pick_answer(&[], false), None);
    let empty = vec![String::new()];
    assert_eq!(pick_answer(&empty, true), None);
    assert_eq!(pick_answer(&empty, false), Some(String::new()));
}

#[test]
fn gigachat_authorization() {
    assert_eq!(gigachat_basic_auth("  abc== ").unwrap(), "Basic abc==");
    assert_eq!(gigachat_basic_auth(" "), Err(AskError::NoGigaChatKey));
    assert_eq!(AskError::NoGigaChatKey.message(), "GigaChat: не указан Authorization Key");
    assert_eq!(gigachat_scope_body("GIGACHAT_API_PERS"), "scope=GIGACHAT_API_PERS");
}

#[test]
fn gigachat_tokens() {
    assert_eq!(check_token("tok".to_string()), Ok("tok".to_string()));
    assert_eq!(check_token(String::new()), Err(AskError::EmptyToken));
    assert_eq!(AskError::EmptyToken.message(), "GigaChat OAuth: получен пустой токен");
}

#[test]
fn connection_test_results() {
    let r = test_result(Ok(()), "Соединение успешно");
    assert!(r.ok);
    assert_eq!(r.message, "Соединение успешно");
    let r = test_result(Err("boom".to_string()), "unused");
    assert!(!r.ok);
    assert_eq!(r.message, "boom");
}
