use interview_assistant::ai::{AiEvent, AiTestResult};
use interview_assistant::audio::AudioMode;
use interview_assistant::config::AppConfig;
use interview_assistant::devices::AudioDeviceInfo;
use interview_assistant::hotkeys::HotkeyAction;
use interview_assistant::session::{AskPlan, HotkeyOutcome, HotkeySide, Session};
use interview_assistant::transcriber::TranscriptEvent;

fn session() -> Session {
    Session::new(AppConfig::default())
}

fn dev(index: usize, name: &str) -> AudioDeviceInfo {
    AudioDeviceInfo { index, name: name.to_string(), channels: 2, is_output: false }
}

#[test]
fn a_new_session() {
    let s = session();
    assert_eq!(s.status, "[<-] loopback  [->] mic");
    assert_eq!(s.transcript_hint, "Live speech stream");
    assert_eq!(s.vosk_status, "not loaded");
    assert_eq!(s.chunk_ms_text, "500");
    assert_eq!(s.auto_ask_text, "0");
    assert!(s.logs.is_empty() && s.transcript.is_empty() && s.answer.is_empty());
    assert!(!s.recording && s.record_mode.is_none() && s.active_hold.is_none());
    assert!(!s.ai_busy && !s.stopping && !s.awaiting_transcript);
}

#[test]
fn log_lines_carry_the_time() {
    let mut s = session();
    s.log("12:00:01", "App initialized");
    s.log("12:00:02", "x");
    assert_eq!(s.logs, "[12:00:01] App initialized\n[12:00:02] x\n");
}

#[test]
fn holding_left_records_system_sound_until_release() {
    let mut s = session();
    assert_eq!(s.on_hotkey(HotkeyAction::LoopbackPress), HotkeyOutcome::StartRecording(AudioMode::Loopback));
    assert_eq!(s.active_hold, Some(HotkeySide::Left));
    s.record_mode = Some(AudioMode::Loopback);
    assert_eq!(s.on_hotkey(HotkeyAction::LoopbackRelease), HotkeyOutcome::StopRecording);
    assert_eq!(s.active_hold, None);
}

#[test]
fn the_other_key_is_ignored_while_one_is_held() {
    let mut s = session();
    s.on_hotkey(HotkeyAction::MicPress);
    assert_eq!(s.active_hold, Some(HotkeySide::Right));
    assert_eq!(s.on_hotkey(HotkeyAction::LoopbackPress), HotkeyOutcome::Nothing);
    assert_eq!(s.on_hotkey(HotkeyAction::LoopbackRelease), HotkeyOutcome::Nothing);
    assert_eq!(s.active_hold, Some(HotkeySide::Right));
}

#[test]
fn a_release_without_a_recording_only_ends_the_hold() {
    let mut s = session();
    s.on_hotkey(HotkeyAction::MicPress);
    assert_eq!(s.on_hotkey(HotkeyAction::MicRelease), HotkeyOutcome::Nothing);
    assert_eq!(s.active_hold, None);
    assert_eq!(s.on_hotkey(HotkeyAction::MicRelease), HotkeyOutcome::Nothing);
}

#[test]
fn recording_is_refused_without_the_recogniser() {
    let mut s = session();
    assert!(!s.recording_request("t", false, false));
    assert_eq!(s.big_status, "VOSK не подключен! Распознавание невозможно.");
    assert_eq!(s.status, "Ошибка: VOSK не загружен");
    assert_eq!(s.logs, "[t] Recording blocked: VOSK not loaded\n");
}

#[test]
fn recording_may_start_while_the_recogniser_loads() {
    let mut s = session();
    assert!(s.recording_request("t", false, true));
    assert!(s.recording_request("t", true, false));
    assert!(s.logs.is_empty());
    s.recording = true;
    assert!(!s.recording_request("t", true, false));
}

#[test]
fn a_whole_recording_goes_to_recognition_and_then_to_the_ai() {
    let mut s = session();
    s.cfg.loopback_device = "Stereo Mix".to_string();
    s.transcript = "old".to_string();
    s.push_audio(&[9, 9]);
    let device = s.recording_begin(AudioMode::Loopback);
    assert_eq!(device, "Stereo Mix");
    assert!(s.transcript.is_empty() && s.audio_buffer.is_empty());
    s.recording_started("t1", AudioMode::Loopback, &device);
    assert!(s.recording);
    assert_eq!(s.record_mode, Some(AudioMode::Loopback));
    assert_eq!(s.transcript_hint, "Источник: LOOPBACK");
    assert_eq!(s.status, "Запись...");
    s.push_audio(&[1, 2, 3]);
    s.push_audio(&[4]);
    assert!(s.stop_recording("t2"));
    assert!(!s.recording && s.stopping);
    assert_eq!(s.status, "Остановка записи... (сбор хвоста)");
    s.push_audio(&[5, 6]);
    let (samples, source) = s.finish_capture("t3").unwrap();
    assert_eq!(samples, vec![1, 2, 3, 4, 5, 6]);
    assert_eq!(source, "LOOPBACK");
    assert!(s.audio_buffer.is_empty() && !s.stopping && s.awaiting_transcript);
    assert_eq!(s.record_mode, None);
    assert_eq!(s.big_status, "Запись остановлена, распознавание...");
    let ask = s.apply_transcript_event(
        "t4",
        TranscriptEvent::Final { text: "что такое Docker".to_string(), source: "LOOPBACK".to_string() },
    );
    assert!(ask);
    assert_eq!(s.transcript, "[LOOPBACK] что такое Docker");
    assert_eq!(s.question, s.transcript);
    assert!(!s.awaiting_transcript);
    assert!(s.big_status.is_empty());
    assert_eq!(
        s.logs,
        "[t1] Recording started: Loopback (Stereo Mix)\n[t2] Recording stop signalled\n[t3] Recording stopped (tail collected)\n"
    );
}

#[test]
fn an_empty_recording_is_not_recognised() {
    let mut s = session();
    s.recording_started("t", AudioMode::Mic, "Mic");
    s.stop_recording("t");
    assert!(s.finish_capture("t").is_none());
    assert!(s.awaiting_transcript);
}

#[test]
fn stopping_twice_or_finishing_early_does_nothing() {
    let mut s = session();
    assert!(!s.stop_recording("t"));
    assert!(s.finish_capture("t").is_none());
    assert!(!s.awaiting_transcript);
    assert!(s.logs.is_empty());
}

#[test]
fn a_failed_start_is_shown() {
    let mut s = session();
    s.recording_failed("t", "Loopback device not found");
    assert_eq!(s.status, "Loopback device not found");
    assert_eq!(s.logs, "[t] Audio error: Loopback device not found\n");
    assert!(!s.recording);
}

#[test]
fn recognised_texts_are_added_as_lines() {
    let mut s = session();
    s.transcript = "[MIC] a".to_string();
    assert!(!s.apply_transcript_event("t", TranscriptEvent::Final { text: "b".to_string(), source: "MIC".to_string() }));
    assert_eq!(s.transcript, "[MIC] a\n[MIC] b");
    s.transcript.push('\n');
    s.apply_transcript_event("t", TranscriptEvent::Final { text: "c".to_string(), source: "LOOPBACK".to_string() });
    assert_eq!(s.transcript, "[MIC] a\n[MIC] b\n[LOOPBACK] c");
    assert!(s.question.is_empty());
}

#[test]
fn recogniser_status_and_errors() {
    let mut s = session();
    assert!(!s.apply_transcript_event("t", TranscriptEvent::Status("VOSK ready".to_string())));
    assert_eq!(s.vosk_status, "VOSK ready");
    s.big_status = "x".to_string();
    assert!(!s.apply_transcript_event("t", TranscriptEvent::Error("bad".to_string())));
    assert_eq!(s.vosk_status, "error");
    assert!(s.big_status.is_empty());
    assert_eq!(s.logs, "[t] VOSK ready\n[t] bad\n");
}

#[test]
fn the_recogniser_is_shown_ready_once_loaded() {
    let mut s = session();
    s.mark_vosk_ready(true, true);
    assert_eq!(s.vosk_status, "not loaded");
    s.mark_vosk_ready(true, false);
    assert_eq!(s.vosk_status, "ready");
}

#[test]
fn asking_while_a_request_runs_is_ignored() {
    let mut s = session();
    s.ai_busy = true;
    s.question = "q".to_string();
    assert!(matches!(s.ask_request(), AskPlan::Ignored));
}

#[test]
fn asking_without_text_is_refused() {
    let mut s = session();
    s.question = "  \n ".to_string();
    assert!(matches!(s.ask_request(), AskPlan::NoText));
    assert_eq!(s.status, "Нет текста для AI");
}

#[test]
fn asking_remembers_the_previous_exchange() {
    let mut s = session();
    s.question = " new question ".to_string();
    s.prev_question = "old".to_string();
    s.answer = "old answer".to_string();
    match s.ask_request() {
        AskPlan::Proceed(q) => assert_eq!(q, "new question"),
        other => panic!("unexpected {other:?}"),
    }
    assert_eq!(s.prev_question, " new question ");
    assert_eq!(s.prev_answer, "old answer");
    s.ask_started("t");
    assert_eq!(s.answer, "Думаю...");
    assert!(s.ai_busy);
    assert_eq!(s.status, "Запрос к AI...");
    s.ai_busy = false;
    s.ask_request();
    assert_eq!(s.prev_answer, "old answer");
}

#[test]
fn an_answer_is_shown_and_kept_in_the_history() {
    let mut s = session();
    s.question = "q1".to_string();
    s.ai_busy = true;
    s.apply_ai_event("t", AiEvent::Answer("a1".to_string()));
    s.question = "q2".to_string();
    s.apply_ai_event("t", AiEvent::Answer("a2".to_string()));
    assert_eq!(s.answer, "a2");
    assert_eq!(s.history_questions, "q1\n\nq2");
    assert_eq!(s.history_answers, "a1\n\na2");
    assert_eq!(s.status, "Ответ получен");
    assert!(!s.ai_busy);
}

#[test]
fn an_error_keeps_the_last_answer() {
    let mut s = session();
    s.answer = "good".to_string();
    s.question = "q".to_string();
    s.ai_busy = true;
    s.apply_ai_event("t", AiEvent::Error("timeout".to_string()));
    assert_eq!(s.answer, "good");
    assert_eq!(s.last_error, "Ошибка AI: timeout");
    assert_eq!(s.history_questions, "q");
    assert_eq!(s.history_answers, "[ОШИБКА] timeout");
    assert_eq!(s.status, "Ошибка AI");
    assert_eq!(s.logs, "[t] AI error: timeout\n");
    assert!(!s.ai_busy);
}

#[test]
fn a_silent_ai_is_reported_after_five_seconds() {
    let mut s = session();
    s.check_ai_timeout(true);
    assert!(s.big_status.is_empty());
    s.ai_busy = true;
    s.check_ai_timeout(false);
    assert!(s.big_status.is_empty());
    s.check_ai_timeout(true);
    assert_eq!(s.big_status, "Нет ответа от ИИ, проверьте доступность модели");
    assert_eq!(s.status, "Таймаут AI");
}

#[test]
fn numeric_fields_are_read_with_defaults_and_floors() {
    let mut s = session();
    s.chunk_ms_text = " 300 ".to_string();
    s.auto_ask_text = "7".to_string();
    s.sync_numeric_fields();
    assert_eq!((s.cfg.chunk_ms, s.cfg.auto_ask_sec), (300, 7));
    s.chunk_ms_text = "abc".to_string();
    s.auto_ask_text = "-5".to_string();
    s.sync_numeric_fields();
    assert_eq!((s.cfg.chunk_ms, s.cfg.auto_ask_sec), (250, 0));
    s.chunk_ms_text = "5".to_string();
    s.auto_ask_text = String::new();
    s.sync_numeric_fields();
    assert_eq!((s.cfg.chunk_ms, s.cfg.auto_ask_sec), (20, 0));
}

#[test]
fn saving_is_reported() {
    let mut s = session();
    s.config_saved("t", Ok(()));
    assert_eq!(s.status, "Настройки сохранены");
    s.config_saved("u", Err("disk full".to_string()));
    assert_eq!(s.status, "Настройки сохранены");
    assert_eq!(s.logs, "[t] Config saved\n[u] Save error: disk full\n");
}

#[test]
fn a_device_refresh_fills_in_missing_devices() {
    let mut s = session();
    let list = vec![dev(0, "Headset"), dev(1, "Microphone (USB)"), dev(2, "Stereo Mix")];
    s.refresh_devices("t", &list);
    assert_eq!(s.device_names, vec!["Headset", "Microphone (USB)", "Stereo Mix"]);
    assert_eq!(s.cfg.loopback_device, "Stereo Mix");
    assert_eq!(s.cfg.mic_device, "Microphone (USB)");
    assert_eq!(s.status, "Устройств: 3");
    assert_eq!(s.logs, "[t] Devices refreshed: 3\n");
}

#[test]
fn a_device_refresh_keeps_chosen_devices() {
    let mut s = session();
    s.cfg.loopback_device = "Mine".to_string();
    s.refresh_devices("t", &[dev(0, "Stereo Mix")]);
    assert_eq!(s.cfg.loopback_device, "Mine");
    assert_eq!(s.cfg.mic_device, "");
}

#[test]
fn detecting_devices() {
    let mut s = session();
    s.detect_loopback("t", &[dev(0, "Mic"), dev(1, "What U Hear")]);
    assert_eq!(s.cfg.loopback_device, "What U Hear");
    assert_eq!(s.status, "Loopback найден");
    s.detect_mic("t", &[dev(0, "Stereo Mix")]);
    assert_eq!(s.status, "Микрофон не найден");
    assert_eq!(s.cfg.mic_device, "");
    s.detect_mic("t", &[dev(0, "Микрофон")]);
    assert_eq!(s.cfg.mic_device, "Микрофон");
    s.detect_loopback("t", &[]);
    assert_eq!(s.status, "Loopback не найден");
    assert_eq!(s.cfg.loopback_device, "What U Hear");
    assert_eq!(
        s.logs,
        "[t] Loopback: What U Hear\n[t] Mic not found\n[t] Mic: Микрофон\n[t] Loopback not found\n"
    );
}

#[test]
fn loading_the_recogniser_model() {
    let mut s = session();
    assert_eq!(s.vosk_load_request("t", false, false), None);
    assert_eq!(s.vosk_status, "no model path");
    s.cfg.vosk_model_path = "/m".to_string();
    assert_eq!(s.vosk_load_request("t", true, false), None);
    assert_eq!(s.vosk_load_request("t", false, true), None);
    assert_eq!(s.vosk_load_request("t", false, false), Some("/m".to_string()));
    assert_eq!(s.vosk_status, "loading...");
    assert_eq!(
        s.logs,
        "[t] VOSK: no model path configured\n[t] VOSK: already loading, skipping\n[t] VOSK: already loaded, skipping\n[t] VOSK load started: /m\n"
    );
}

#[test]
fn restoring_the_previous_exchange() {
    let mut s = session();
    s.restore_previous();
    assert_eq!(s.status, "Нет предыдущего ответа");
    s.prev_answer = "Ошибка AI: x".to_string();
    s.restore_previous();
    assert_eq!(s.status, "Предыдущий ответ был ошибочным, не восстанавливаем");
    s.prev_answer = "answer".to_string();
    s.prev_question = "question".to_string();
    s.restore_previous();
    assert_eq!(s.answer, "answer");
    assert_eq!(s.transcript, "question");
    assert_eq!(s.question, "question");
    assert_eq!(s.status, "Восстановлен предыдущий вопрос и ответ");
}

#[test]
fn imported_settings_are_shown() {
    let mut s = session();
    let mut cfg = AppConfig::default();
    cfg.chunk_ms = 1234;
    cfg.auto_ask_sec = 9;
    s.apply_imported_config("t", cfg, "/tmp/c.json");
    assert_eq!(s.cfg.chunk_ms, 1234);
    assert_eq!(s.chunk_ms_text, "1234");
    assert_eq!(s.auto_ask_text, "9");
    assert_eq!(s.logs, "[t] Imported: /tmp/c.json\n");
}

#[test]
fn connection_tests_are_reported() {
    let mut s = session();
    s.ai_test_done("t", &AiTestResult { ok: true, message: "Соединение успешно".to_string() });
    assert_eq!(s.status, "Соединение успешно");
    s.ai_test_done("t", &AiTestResult { ok: false, message: "HTTP 401".to_string() });
    assert_eq!(s.status, "HTTP 401");
    assert_eq!(s.logs, "[t] AI test: OK — Соединение успешно\n[t] AI test: FAIL — HTTP 401\n");
}
