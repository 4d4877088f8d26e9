//! The user-interface texts in Russian and English.

use vstd::prelude::*;
use crate::text::{all_ascii, chars_of, lowercase, str_eq, to_lowercase};

verus! {

/// The interface language.
#[derive(Clone, Copy, Debug, PartialEq, Eq, Structural)]
pub enum Lang {
    Ru,
    En,
}

impl Lang {
    /// English for "en" or "english" in any letter case, Russian otherwise.
    pub fn from_str(s: &str) -> (r: Lang)
        ensures
            r == if lowercase(s@) == "en"@ || lowercase(s@) == "english"@ { Lang::En } else { Lang::Ru },
            s@ == lang_code(Lang::Ru) ==> r == Lang::Ru,
            s@ == lang_code(Lang::En) ==> r == Lang::En,
    {
        let lower = to_lowercase(s);
        proof {
            reveal_strlit("ru");
            reveal_strlit("en");
            reveal_strlit("english");
            if s@ == lang_code(Lang::Ru) || s@ == lang_code(Lang::En) {
                assert(all_ascii(s@));
                assert(lower@ =~= s@);
                if s@ == lang_code(Lang::Ru) {
                    assert(lower@[0] != "en"@[0]);
                    assert(lower@.len() != "english"@.len());
                }
            }
        }
        if str_eq(lower.as_str(), "en") || str_eq(lower.as_str(), "english") {
            Lang::En
        } else {
            Lang::Ru
        }
    }

    /// The code stored in the settings: "ru" or "en".
    pub fn as_str(&self) -> (r: &'static str)
        ensures
            r@ == lang_code(*self),
    {
        match self {
            Lang::Ru => "ru",
            Lang::En => "en",
        }
    }
}

/// The code of a language in the settings.
pub open spec fn lang_code(l: Lang) -> Seq<char> {
    match l {
        Lang::Ru => "ru"@,
        Lang::En => "en"@,
    }
}

/// Every translatable text: key, Russian, English.
pub open spec fn locale_table() -> Seq<(Seq<char>, Seq<char>, Seq<char>)> {
    seq![
        ("tab.main"@, "Основное"@, "Main"@),
        ("tab.history"@, "История"@, "History"@),
        ("tab.settings"@, "Настройки"@, "Settings"@),
        ("tab.logs"@, "Логи"@, "Logs"@),
        ("header.title"@, "Interview Assistant"@, "Interview Assistant"@),
        ("header.hint"@, "[<-] loopback  [->] mic"@, "[<-] loopback  [->] mic"@),
        ("main.transcript"@, "Транскрипт"@, "Transcript"@),
        ("main.answer"@, "Ответ AI"@, "AI Answer"@),
        ("main.ask"@, "Спросить AI"@, "Ask AI"@),
        ("main.clear"@, "Очистить"@, "Clear"@),
        ("main.copy_answer"@, "Копировать ответ"@, "Copy Answer"@),
        ("main.copy_question"@, "Копировать вопрос"@, "Copy Question"@),
        ("main.prev_question"@, "Предыдущий вопрос"@, "Previous Question"@),
        ("main.prev_answer"@, "Предыдущий ответ"@, "Previous Answer"@),
        ("main.thinking"@, "Думаю..."@, "Thinking..."@),
        ("main.no_answer"@, "Нет ответа от ИИ, проверьте доступность модели"@, "No AI response, check model availability"@),
        ("main.vosk_not_loaded"@, "VOSK не подключен! Распознавание невозможно."@, "VOSK not loaded! Recognition unavailable."@),
        ("main.recording"@, "Запись..."@, "Recording..."@),
        ("main.stopping"@, "Остановка записи... (сбор хвоста)"@, "Stopping... (collecting tail)"@),
        ("main.stopped"@, "Запись остановлена, распознавание..."@, "Recording stopped, recognizing..."@),
        ("main.source_loopback"@, "Источник: LOOPBACK"@, "Source: LOOPBACK"@),
        ("main.source_mic"@, "Источник: MIC"@, "Source: MIC"@),
        ("main.live_speech"@, "Live speech stream"@, "Live speech stream"@),
        ("main.ai_error"@, "Ошибка AI"@, "AI Error"@),
        ("main.ai_timeout"@, "Таймаут AI"@, "AI Timeout"@),
        ("main.ai_response"@, "Ответ получен"@, "Response received"@),
        ("main.ai_request"@, "Запрос к AI..."@, "AI request..."@),
        ("main.no_text"@, "Нет текста для AI"@, "No text for AI"@),
        ("history.title"@, "История вопросов и ответов"@, "Question & Answer History"@),
        ("history.questions"@, "Вопросы"@, "Questions"@),
        ("history.answers"@, "Ответы"@, "Answers"@),
        ("history.clear"@, "Очистить историю"@, "Clear History"@),
        ("history.empty"@, "История пуста"@, "History is empty"@),
        ("settings.ai_provider"@, "AI / Provider"@, "AI / Provider"@),
        ("settings.provider"@, "Provider"@, "Provider"@),
        ("settings.auth_key"@, "Authorization Key"@, "Authorization Key"@),
        ("settings.scope"@, "Scope"@, "Scope"@),
        ("settings.address"@, "Address"@, "Address"@),
        ("settings.port"@, "Port"@, "Port"@),
        ("settings.api_key"@, "API Key"@, "API Key"@),
        ("settings.base_url"@, "Base URL"@, "Base URL"@),
        ("settings.model"@, "Model"@, "Model"@),
        ("settings.test"@, "Проверить"@, "Test"@),
        ("settings.position"@, "Должность"@, "Position"@),
        ("settings.system_prompt"@, "System Prompt"@, "System Prompt"@),
        ("settings.vosk_audio"@, "VOSK / Аудио"@, "VOSK / Audio"@),
        ("settings.model_path"@, "Model path"@, "Model path"@),
        ("settings.chunk_ms"@, "Chunk ms"@, "Chunk ms"@),
        ("settings.auto_ask_sec"@, "Auto ask sec"@, "Auto ask sec"@),
        ("settings.tail_ms"@, "Tail ms"@, "Tail ms"@),
        ("settings.tail_hint"@, "Задержка после остановки для сбора хвоста loopback"@, "Delay after stop to collect loopback tail"@),
        ("settings.load_vosk"@, "Загрузить VOSK"@, "Load VOSK"@),
        ("settings.reload_vosk"@, "Перезагрузить"@, "Reload"@),
        ("settings.download_hint"@, "Скачать VOSK модель можно здесь:"@, "Download VOSK model here:"@),
        ("settings.unpack_hint"@, "Распакуйте архив и укажите путь к папке с моделью."@, "Extract the archive and set the model folder path."@),
        ("settings.dll_hint"@, "DLL скачается автоматически при загрузке модели."@, "DLL downloads automatically when loading the model."@),
        ("settings.vosk_status"@, "VOSK:"@, "VOSK:"@),
        ("settings.show_config"@, "Показать конфиг для редактирования"@, "Show config for editing"@),
        ("settings.hide_config"@, "Скрыть конфиг"@, "Hide config"@),
        ("settings.config_title"@, "Конфиг"@, "Config"@),
        ("settings.save"@, "Сохранить"@, "Save"@),
        ("settings.export"@, "Экспорт"@, "Export"@),
        ("settings.import"@, "Импорт"@, "Import"@),
        ("settings.language"@, "Язык"@, "Language"@),
        ("settings.saved"@, "Настройки сохранены"@, "Settings saved"@),
        ("logs.title"@, "Логи приложения"@, "Application Logs"@),
        ("logs.clear"@, "Очистить логи"@, "Clear Logs"@),
        ("status.devices"@, "Устройств:"@, "Devices:"@),
        ("status.devices_count"@, "Устройств: {}"@, "Devices: {}"@),
        ("status.recording_blocked"@, "Ошибка: VOSK не загружен"@, "Error: VOSK not loaded"@),
        ("status.ai"@, "AI:"@, "AI:"@),
        ("status.vosk"@, "VOSK:"@, "VOSK:"@),
        ("status.hz"@, "Hz"@, "Hz"@),
        ("vosk.not_loaded"@, "not loaded"@, "not loaded"@),
        ("vosk.loading"@, "loading..."@, "loading..."@),
        ("vosk.ready"@, "ready"@, "ready"@),
        ("vosk.error"@, "error"@, "error"@),
        ("vosk.no_path"@, "no model path"@, "no model path"@),
        ("misc.browse"@, "..."@, "..."@),
        ("misc.loopback_found"@, "Loopback найден"@, "Loopback found"@),
        ("misc.loopback_not_found"@, "Loopback не найден"@, "Loopback not found"@),
        ("misc.mic_found"@, "Микрофон найден"@, "Microphone found"@),
        ("misc.mic_not_found"@, "Микрофон не найден"@, "Microphone not found"@),
        ("misc.app_initialized"@, "App initialized"@, "App initialized"@),
        ("misc.config_saved"@, "Config saved"@, "Config saved"@),
        ("misc.recording_blocked"@, "Recording blocked: VOSK not loaded"@, "Recording blocked: VOSK not loaded"@)
    ]
}

/// The table of translatable texts (see `locale_table`).
pub fn locale_entries() -> (r: Vec<(&'static str, &'static str, &'static str)>)
    ensures
        r@.len() == locale_table().len(),
        forall|i: int| 0 <= i < r@.len() ==> (#[trigger] r@[i]).0@ == locale_table()[i].0
            && r@[i].1@ == locale_table()[i].1 && r@[i].2@ == locale_table()[i].2,
{
    let mut r: Vec<(&'static str, &'static str, &'static str)> = Vec::new();
    r.push(("tab.main", "Основное", "Main"));
    r.push(("tab.history", "История", "History"));
    r.push(("tab.settings", "Настройки", "Settings"));
    r.push(("tab.logs", "Логи", "Logs"));
    r.push(("header.title", "Interview Assistant", "Interview Assistant"));
    r.push(("header.hint", "[<-] loopback  [->] mic", "[<-] loopback  [->] mic"));
    r.push(("main.transcript", "Транскрипт", "Transcript"));
    r.push(("main.answer", "Ответ AI", "AI Answer"));
    r.push(("main.ask", "Спросить AI", "Ask AI"));
    r.push(("main.clear", "Очистить", "Clear"));
    r.push(("main.copy_answer", "Копировать ответ", "Copy Answer"));
    r.push(("main.copy_question", "Копировать вопрос", "Copy Question"));
    r.push(("main.prev_question", "Предыдущий вопрос", "Previous Question"));
    r.push(("main.prev_answer", "Предыдущий ответ", "Previous Answer"));
    r.push(("main.thinking", "Думаю...", "Thinking..."));
    r.push(("main.no_answer", "Нет ответа от ИИ, проверьте доступность модели", "No AI response, check model availability"));
    r.push(("main.vosk_not_loaded", "VOSK не подключен! Распознавание невозможно.", "VOSK not loaded! Recognition unavailable."));
    r.push(("main.recording", "Запись...", "Recording..."));
    r.push(("main.stopping", "Остановка записи... (сбор хвоста)", "Stopping... (collecting tail)"));
    r.push(("main.stopped", "Запись остановлена, распознавание...", "Recording stopped, recognizing..."));
    r.push(("main.source_loopback", "Источник: LOOPBACK", "Source: LOOPBACK"));
    r.push(("main.source_mic", "Источник: MIC", "Source: MIC"));
    r.push(("main.live_speech", "Live speech stream", "Live speech stream"));
    r.push(("main.ai_error", "Ошибка AI", "AI Error"));
    r.push(("main.ai_timeout", "Таймаут AI", "AI Timeout"));
    r.push(("main.ai_response", "Ответ получен", "Response received"));
    r.push(("main.ai_request", "Запрос к AI...", "AI request..."));
    r.push(("main.no_text", "Нет текста для AI", "No text for AI"));
    r.push(("history.title", "История вопросов и ответов", "Question & Answer History"));
    r.push(("history.questions", "Вопросы", "Questions"));
    r.push(("history.answers", "Ответы", "Answers"));
    r.push(("history.clear", "Очистить историю", "Clear History"));
    r.push(("history.empty", "История пуста", "History is empty"));
    r.push(("settings.ai_provider", "AI / Provider", "AI / Provider"));
    r.push(("settings.provider", "Provider", "Provider"));
    r.push(("settings.auth_key", "Authorization Key", "Authorization Key"));
    r.push(("settings.scope", "Scope", "Scope"));
    r.push(("settings.address", "Address", "Address"));
    r.push(("settings.port", "Port", "Port"));
    r.push(("settings.api_key", "API Key", "API Key"));
    r.push(("settings.base_url", "Base URL", "Base URL"));
    r.push(("settings.model", "Model", "Model"));
    r.push(("settings.test", "Проверить", "Test"));
    r.push(("settings.position", "Должность", "Position"));
    r.push(("settings.system_prompt", "System Prompt", "System Prompt"));
    r.push(("settings.vosk_audio", "VOSK / Аудио", "VOSK / Audio"));
    r.push(("settings.model_path", "Model path", "Model path"));
    r.push(("settings.chunk_ms", "Chunk ms", "Chunk ms"));
    r.push(("settings.auto_ask_sec", "Auto ask sec", "Auto ask sec"));
    r.push(("settings.tail_ms", "Tail ms", "Tail ms"));
    r.push(("settings.tail_hint", "Задержка после остановки для сбора хвоста loopback", "Delay after stop to collect loopback tail"));
    r.push(("settings.load_vosk", "Загрузить VOSK", "Load VOSK"));
    r.push(("settings.reload_vosk", "Перезагрузить", "Reload"));
    r.push(("settings.download_hint", "Скачать VOSK модель можно здесь:", "Download VOSK model here:"));
    r.push(("settings.unpack_hint", "Распакуйте архив и укажите путь к папке с моделью.", "Extract the archive and set the model folder path."));
    r.push(("settings.dll_hint", "DLL скачается автоматически при загрузке модели.", "DLL downloads automatically when loading the model."));
    r.push(("settings.vosk_status", "VOSK:", "VOSK:"));
    r.push(("settings.show_config", "Показать конфиг для редактирования", "Show config for editing"));
    r.push(("settings.hide_config", "Скрыть конфиг", "Hide config"));
    r.push(("settings.config_title", "Конфиг", "Config"));
    r.push(("settings.save", "Сохранить", "Save"));
    r.push(("settings.export", "Экспорт", "Export"));
    r.push(("settings.import", "Импорт", "Import"));
    r.push(("settings.language", "Язык", "Language"));
    r.push(("settings.saved", "Настройки сохранены", "Settings saved"));
    r.push(("logs.title", "Логи приложения", "Application Logs"));
    r.push(("logs.clear", "Очистить логи", "Clear Logs"));
    r.push(("status.devices", "Устройств:", "Devices:"));
    r.push(("status.devices_count", "Устройств: {}", "Devices: {}"));
    r.push(("status.recording_blocked", "Ошибка: VOSK не загружен", "Error: VOSK not loaded"));
    r.push(("status.ai", "AI:", "AI:"));
    r.push(("status.vosk", "VOSK:", "VOSK:"));
    r.push(("status.hz", "Hz", "Hz"));
    r.push(("vosk.not_loaded", "not loaded", "not loaded"));
    r.push(("vosk.loading", "loading...", "loading..."));
    r.push(("vosk.ready", "ready", "ready"));
    r.push(("vosk.error", "error", "error"));
    r.push(("vosk.no_path", "no model path", "no model path"));
    r.push(("misc.browse", "...", "..."));
    r.push(("misc.loopback_found", "Loopback найден", "Loopback found"));
    r.push(("misc.loopback_not_found", "Loopback не найден", "Loopback not found"));
    r.push(("misc.mic_found", "Микрофон найден", "Microphone found"));
    r.push(("misc.mic_not_found", "Микрофон не найден", "Microphone not found"));
    r.push(("misc.app_initialized", "App initialized", "App initialized"));
    r.push(("misc.config_saved", "Config saved", "Config saved"));
    r.push(("misc.recording_blocked", "Recording blocked: VOSK not loaded", "Recording blocked: VOSK not loaded"));
    r
}

/// The text for `key` in `lang`: from the first table entry with that key, or "???"
/// for an unknown key.
pub open spec fn spec_t(lang: Lang, key: Seq<char>) -> Seq<char> {
    if exists|i: int| 0 <= i < locale_table().len() && #[trigger] locale_table()[i].0 == key {
        let i = choose|i: int| 0 <= i < locale_table().len() && #[trigger] locale_table()[i].0 == key
            && forall|j: int| 0 <= j < i ==> #[trigger] locale_table()[j].0 != key;
        match lang {
            Lang::Ru => locale_table()[i].1,
            Lang::En => locale_table()[i].2,
        }
    } else {
        "???"@
    }
}

/// The localized text for `key` (see `spec_t`).
pub fn t(lang: Lang, key: &str) -> (r: &'static str)
    ensures
        r@ == spec_t(lang, key@),
{
    let table = locale_entries();
    let mut i: usize = 0;
    while i < table.len()
        invariant
            i <= table.len(),
            table@.len() == locale_table().len(),
            forall|j: int| 0 <= j < table@.len() ==> (#[trigger] table@[j]).0@ == locale_table()[j].0
                && table@[j].1@ == locale_table()[j].1 && table@[j].2@ == locale_table()[j].2,
            forall|j: int| 0 <= j < i ==> #[trigger] locale_table()[j].0 != key@,
        decreases table.len() - i,
    {
        let (k, ru, en) = table[i];
        if str_eq(k, key) {
            proof {
                assert(locale_table()[i as int].0 == key@);
                let w = choose|w: int| 0 <= w < locale_table().len() && #[trigger] locale_table()[w].0 == key@
                    && forall|j: int| 0 <= j < w ==> #[trigger] locale_table()[j].0 != key@;
                if w < i {
                } else if w > i {
                    assert(locale_table()[i as int].0 != key@);
                }
            }
            return match lang {
                Lang::Ru => ru,
                Lang::En => en,
            };
        }
        i = i + 1;
    }
    "???"
}

} // verus!
