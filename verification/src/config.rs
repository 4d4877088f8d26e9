//! The application's settings, their defaults, and the presets of the AI providers.

use vstd::prelude::*;
use crate::text::{chars_of, contains, str_eq, replace_all, replace_chars, string_of, trim, trim_chars};

verus! {

/// The system prompt the assistant starts with; `{position}` stands for the job title.
pub const SYSTEM_PROMPT: &'static str = "Ты — {position}, проходишь техническое собеседование. Отвечаешь устно, как живой кандидат на экзамене: уверенно, по делу, без воды.\n\nВАЖНО про распознавание речи. Вопросы приходят из системы распознавания речи, которая часто искажает технические термины. Восстанавливай правильный смысл по контексту профессии. Примеры искажений: «мокер» или «докир» = Docker; «кубер»/«кубернетис» = Kubernetes; «джанго» = Django; «редис» = Redis; «постгрес»/«постгря» = PostgreSQL; «гит»/«гет» = Git; «реакт»/«риакт» = React; «эс кью эль» = SQL; «апи» = API; «джейсон» = JSON. Если термин явно искажён — мысленно исправь его и отвечай по сути, не переспрашивай и не комментируй искажение.\n\nКОНТЕКСТ ДИАЛОГА. Помни предыдущие вопросы и ответы. Если новый вопрос продолжает тему, отвечай именно про предмет прошлого вопроса, а не абстрактно.\n\nФОРМАТ ОТВЕТА. Краткость — сестра таланта. Отвечай сжато: суть в 2–5 предложениях, при необходимости короткий список. Без вступлений вроде «отличный вопрос». Не упоминай, что ты ИИ или языковая модель. Говори от первого лица, как специалист. Если вопрос требует кода — дай минимальный пример.";

/// All settings of the program.
#[derive(Clone, Debug)]
pub struct AppConfig {
    pub provider: String,
    pub api_key: String,
    pub model: String,
    pub base_url: String,
    pub vosk_model_path: String,
    pub chunk_ms: u32,
    pub auto_ask_sec: u32,
    pub tail_ms: u32,
    pub loopback_device: String,
    pub mic_device: String,
    pub position: String,
    pub system_prompt: String,
    pub gigachat_scope: String,
    pub gigachat_auth_key: String,
    pub local_llm_address: String,
    pub local_llm_port: u16,
    pub lang: String,
}

/// The known AI providers: name, base URL and default model (empty where there is none).
pub open spec fn spec_providers() -> Seq<(Seq<char>, Seq<char>, Seq<char>)> {
    seq![
        ("OpenAI"@, "https://api.openai.com/v1"@, "gpt-4o-mini"@),
        ("DeepSeek"@, "https://api.deepseek.com/v1"@, "deepseek-chat"@),
        ("OpenRouter"@, "https://openrouter.ai/api/v1"@, "deepseek/deepseek-chat"@),
        ("Local LLMs"@, "http://127.0.0.1:8000"@, "llama3"@),
        ("GigaChat"@, ""@, "GigaChat"@),
        ("Свой"@, ""@, ""@),
    ]
}

/// The table of known AI providers (see `spec_providers`).
pub fn providers() -> (r: Vec<(&'static str, &'static str, &'static str)>)
    ensures
        r@.len() == spec_providers().len(),
        forall|i: int| 0 <= i < r@.len() ==> (#[trigger] r@[i]).0@ == spec_providers()[i].0
            && r@[i].1@ == spec_providers()[i].1 && r@[i].2@ == spec_providers()[i].2,
{
    let mut r: Vec<(&'static str, &'static str, &'static str)> = Vec::new();
    r.push(("OpenAI", "https://api.openai.com/v1", "gpt-4o-mini"));
    r.push(("DeepSeek", "https://api.deepseek.com/v1", "deepseek-chat"));
    r.push(("OpenRouter", "https://openrouter.ai/api/v1", "deepseek/deepseek-chat"));
    r.push(("Local LLMs", "http://127.0.0.1:8000", "llama3"));
    r.push(("GigaChat", "", "GigaChat"));
    r.push(("Свой", "", ""));
    r
}

/// The settings a fresh installation starts with.
pub open spec fn is_default_config(c: AppConfig) -> bool {
    &&& c.provider@ == "OpenAI"@
    &&& c.api_key@ == Seq::<char>::empty()
    &&& c.model@ == "gpt-4o-mini"@
    &&& c.base_url@ == "https://api.openai.com/v1"@
    &&& c.vosk_model_path@ == Seq::<char>::empty()
    &&& c.chunk_ms == 500
    &&& c.auto_ask_sec == 0
    &&& c.tail_ms == 6000
    &&& c.loopback_device@ == Seq::<char>::empty()
    &&& c.mic_device@ == Seq::<char>::empty()
    &&& c.position@ == Seq::<char>::empty()
    &&& c.system_prompt@ == SYSTEM_PROMPT@
    &&& c.gigachat_scope@ == "GIGACHAT_API_PERS"@
    &&& c.gigachat_auth_key@ == Seq::<char>::empty()
    &&& c.local_llm_address@ == "127.0.0.1"@
    &&& c.local_llm_port == 8000
    &&& c.lang@ == "ru"@
}

impl Default for AppConfig {
    fn default() -> (r: Self)
        ensures
            is_default_config(r),
    {
        AppConfig {
            provider: String::from_str("OpenAI"),
            api_key: String::new(),
            model: String::from_str("gpt-4o-mini"),
            base_url: String::from_str("https://api.openai.com/v1"),
            vosk_model_path: String::new(),
            chunk_ms: 500,
            auto_ask_sec: 0,
            tail_ms: 6000,
            loopback_device: String::new(),
            mic_device: String::new(),
            position: String::new(),
            system_prompt: String::from_str(SYSTEM_PROMPT),
            gigachat_scope: String::from_str("GIGACHAT_API_PERS"),
            gigachat_auth_key: String::new(),
            local_llm_address: String::from_str("127.0.0.1"),
            local_llm_port: 8000,
            lang: String::from_str("ru"),
        }
    }
}

/// The system prompt with every `{position}` replaced by the trimmed job title, or by
/// "специалист" when the title is blank.
pub open spec fn spec_resolved_prompt(system_prompt: Seq<char>, position: Seq<char>) -> Seq<char> {
    replace_all(
        system_prompt,
        "{position}"@,
        if trim(position).len() == 0 { "специалист"@ } else { trim(position) },
    )
}

/// The preset of the provider named exactly `name`: its base URL and default model.
pub open spec fn provider_preset(name: Seq<char>) -> Option<(Seq<char>, Seq<char>)> {
    if exists|i: int| 0 <= i < spec_providers().len() && #[trigger] spec_providers()[i].0 == name {
        let i = choose|i: int| 0 <= i < spec_providers().len() && #[trigger] spec_providers()[i].0 == name;
        Some((spec_providers()[i].1, spec_providers()[i].2))
    } else {
        None
    }
}

/// Every setting other than the provider, base URL and model is the same in `a` and `b`.
pub open spec fn same_except_provider(a: AppConfig, b: AppConfig) -> bool {
    &&& a.api_key == b.api_key
    &&& a.vosk_model_path == b.vosk_model_path
    &&& a.chunk_ms == b.chunk_ms
    &&& a.auto_ask_sec == b.auto_ask_sec
    &&& a.tail_ms == b.tail_ms
    &&& a.loopback_device == b.loopback_device
    &&& a.mic_device == b.mic_device
    &&& a.position == b.position
    &&& a.system_prompt == b.system_prompt
    &&& a.gigachat_scope == b.gigachat_scope
    &&& a.gigachat_auth_key == b.gigachat_auth_key
    &&& a.local_llm_address == b.local_llm_address
    &&& a.local_llm_port == b.local_llm_port
    &&& a.lang == b.lang
}

/// What choosing the provider `provider` does to the settings `old`, giving `new`.
pub open spec fn spec_apply_preset(old: AppConfig, new: AppConfig, provider: Seq<char>) -> bool {
    &&& new.provider@ == provider
    &&& same_except_provider(old, new)
    &&& match provider_preset(provider) {
        Some((url, model)) => {
            &&& new.base_url@ == if url.len() > 0 { url } else { old.base_url@ }
            &&& new.model@ == if model.len() > 0 && (old.model@.len() == 0 || old.model@ == "gpt-4o-mini"@) {
                model
            } else {
                old.model@
            }
        },
        None => new.base_url == old.base_url && new.model == old.model,
    }
}

impl AppConfig {
    /// The system prompt with the job title filled in (see `spec_resolved_prompt`).
    pub fn resolved_system_prompt(&self) -> (r: String)
        ensures
            r@ == spec_resolved_prompt(self.system_prompt@, self.position@),
    {
        let pv = chars_of(self.position.as_str());
        let pt = trim_chars(pv.as_slice());
        let who = if pt.len() == 0 { chars_of("специалист") } else { pt };
        let pattern = chars_of("{position}");
        proof {
            reveal_strlit("{position}");
        }
        let sv = chars_of(self.system_prompt.as_str());
        let out = replace_chars(sv.as_slice(), pattern.as_slice(), who.as_slice());
        string_of(out.as_slice())
    }

    /// Switches to the provider named `provider`, taking its base URL and, when the
    /// current model is empty or the stock default, its default model.
    pub fn apply_provider_preset(&mut self, provider: &str)
        ensures
            spec_apply_preset(*old(self), *final(self), provider@),
    {
        let table = providers();
        let mut i: usize = 0;
        while i < table.len()
            invariant
                i <= table.len(),
                table@.len() == spec_providers().len(),
                forall|j: int| 0 <= j < table@.len() ==> (#[trigger] table@[j]).0@ == spec_providers()[j].0
                    && table@[j].1@ == spec_providers()[j].1 && table@[j].2@ == spec_providers()[j].2,
                forall|j: int| 0 <= j < i ==> #[trigger] spec_providers()[j].0 != provider@,
                *self == *old(self),
            decreases table.len() - i,
        {
            let (name, url, model) = table[i];
            if str_eq(name, provider) {
                proof {
                    lemma_providers_distinct();
                    assert(spec_providers()[i as int].0 == provider@);
                }
                if !url.is_empty() {
                    self.base_url = String::from_str(url);
                }
                if !model.is_empty() && (self.model.as_str().is_empty() || str_eq(self.model.as_str(), "gpt-4o-mini")) {
                    self.model = String::from_str(model);
                }
                self.provider = String::from_str(provider);
                return;
            }
            i = i + 1;
        }
        self.provider = String::from_str(provider);
    }
}

/// The providers' names are pairwise different, so a name selects at most one preset.
proof fn lemma_providers_distinct()
    ensures
        forall|i: int, j: int| 0 <= i < j < spec_providers().len() ==> #[trigger] spec_providers()[i].0 != #[trigger] spec_providers()[j].0,
{
    reveal_strlit("OpenAI");
    reveal_strlit("DeepSeek");
    reveal_strlit("OpenRouter");
    reveal_strlit("Local LLMs");
    reveal_strlit("GigaChat");
    reveal_strlit("Свой");
    assert forall|i: int, j: int| 0 <= i < j < spec_providers().len() implies #[trigger] spec_providers()[i].0 != #[trigger] spec_providers()[j].0 by {
        assert(spec_providers()[i].0[0] != spec_providers()[j].0[0] || spec_providers()[i].0.len() != spec_providers()[j].0.len() || spec_providers()[i].0[4] != spec_providers()[j].0[4]);
    }
}

/// Choosing the same provider a second time changes nothing more: the provider, the
/// base URL, the model and every other setting stay as the first choice left them.
pub proof fn lemma_apply_preset_idempotent(a: AppConfig, b: AppConfig, c: AppConfig, provider: Seq<char>)
    requires
        spec_apply_preset(a, b, provider),
        spec_apply_preset(b, c, provider),
    ensures
        c.provider@ == b.provider@,
        c.base_url@ == b.base_url@,
        c.model@ == b.model@,
        same_except_provider(b, c),
{
}

/// A system prompt without the `{position}` placeholder is sent as it is, whatever
/// the job title.
pub proof fn lemma_prompt_without_placeholder(system_prompt: Seq<char>, position: Seq<char>)
    requires
        !contains(system_prompt, "{position}"@),
    ensures
        spec_resolved_prompt(system_prompt, position) == system_prompt,
{
    reveal_strlit("{position}");
}

} // verus!
