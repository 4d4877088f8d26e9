use interview_assistant::transcriber::{
    parse_vosk_json, Phase, TranscriptEvent, VoskWorker, WorkerAction, WorkerInput, WorkerMsg,
};

#[test]
fn the_text_field_is_read() {
    assert_eq!(parse_vosk_json("{\n  \"text\" : \"привет мир\"\n}"), "привет мир");
    assert_eq!(parse_vosk_json("{\"text\":\"\"}"), "");
}

#[test]
fn the_partial_field_is_the_fallback() {
    assert_eq!(parse_vosk_json("{\"partial\" : \"hello\"}"), "hello");
}

#[test]
fn the_text_field_wins_over_partial() {
    assert_eq!(parse_vosk_json("{\"partial\": \"a\", \"text\": \"b\"}"), "b");
}

#[test]
fn nothing_is_read_from_other_results() {
    assert_eq!(parse_vosk_json(""), "");
    assert_eq!(parse_vosk_json("{}"), "");
    assert_eq!(parse_vosk_json("{\"text\": 5}"), "");
    assert_eq!(parse_vosk_json("{\"text\": \"unterminated"), "");
}

fn status_of(a: &WorkerAction) -> Option<String> {
    match a {
        WorkerAction::Send(TranscriptEvent::Status(m)) => Some(m.clone()),
        _ => None,
    }
}

fn error_of(a: &WorkerAction) -> Option<String> {
    match a {
        WorkerAction::Send(TranscriptEvent::Error(m)) => Some(m.clone()),
        _ => None,
    }
}

fn load(w: &mut VoskWorker, path: &str) {
    let acts = w.step(WorkerInput::Msg(WorkerMsg::Load(path.to_string())));
    assert_eq!(acts.len(), 2);
    assert_eq!(status_of(&acts[0]).unwrap(), format!("Loading VOSK model ({path})"));
    assert!(matches!(&acts[1], WorkerAction::CheckModelDir(p) if p == path));
}

#[test]
fn a_first_load_fetches_the_library_then_the_model() {
    let mut w = VoskWorker::new();
    load(&mut w, "/models/ru");
    let acts = w.step(WorkerInput::DirChecked(true));
    assert_eq!(acts.len(), 2);
    assert_eq!(status_of(&acts[0]).unwrap(), "Loading VOSK DLL (may download)...");
    assert!(matches!(&acts[1], WorkerAction::LoadDll(p) if p == "/models/ru"));
    let acts = w.step(WorkerInput::DllLoaded(Ok(())));
    assert_eq!(acts.len(), 1);
    assert!(matches!(&acts[0], WorkerAction::LoadModel(p) if p == "/models/ru"));
    let acts = w.step(WorkerInput::ModelLoaded(Ok(())));
    assert_eq!(acts.len(), 4);
    assert!(matches!(&acts[0], WorkerAction::SetModelPath(p) if p == "/models/ru"));
    assert!(matches!(&acts[1], WorkerAction::SetLoaded(true)));
    assert!(matches!(&acts[2], WorkerAction::ClearLoading));
    assert_eq!(status_of(&acts[3]).unwrap(), "VOSK ready");
    assert!(w.model_held && w.dll_loaded && w.loaded);
    assert!(matches!(w.phase, Phase::Idle));
}

#[test]
fn a_missing_model_directory_is_reported() {
    let mut w = VoskWorker::new();
    load(&mut w, "/nowhere");
    let acts = w.step(WorkerInput::DirChecked(false));
    assert_eq!(acts.len(), 3);
    assert_eq!(error_of(&acts[0]).unwrap(), "VOSK model directory not found: /nowhere");
    assert!(matches!(&acts[1], WorkerAction::SetLoaded(false)));
    assert!(matches!(&acts[2], WorkerAction::ClearLoading));
    assert!(!w.loaded && !w.model_held);
}

#[test]
fn a_library_that_fails_to_load_is_reported() {
    let mut w = VoskWorker::new();
    load(&mut w, "/m");
    w.step(WorkerInput::DirChecked(true));
    let acts = w.step(WorkerInput::DllLoaded(Err("no dll".to_string())));
    assert_eq!(acts.len(), 3);
    assert_eq!(error_of(&acts[0]).unwrap(), "no dll");
    assert!(!w.dll_loaded && !w.loaded);
}

fn loaded_worker() -> VoskWorker {
    let mut w = VoskWorker::new();
    load(&mut w, "/m");
    w.step(WorkerInput::DirChecked(true));
    w.step(WorkerInput::DllLoaded(Ok(())));
    w.step(WorkerInput::ModelLoaded(Ok(())));
    w
}

#[test]
fn a_reload_frees_the_old_model_first() {
    let mut w = loaded_worker();
    load(&mut w, "/m2");
    let acts = w.step(WorkerInput::DirChecked(true));
    assert_eq!(acts.len(), 2);
    assert!(matches!(&acts[0], WorkerAction::FreeModel));
    assert!(matches!(&acts[1], WorkerAction::LoadModel(p) if p == "/m2"));
}

#[test]
fn a_recording_is_recognised_in_one_pass() {
    let mut w = loaded_worker();
    let acts = w.step(WorkerInput::Msg(WorkerMsg::Recognize { samples: vec![1, 2, 3], source: "MIC".to_string() }));
    assert_eq!(acts.len(), 1);
    assert!(matches!(&acts[0], WorkerAction::CreateRecognizer));
    let acts = w.step(WorkerInput::RecognizerCreated(Ok(())));
    assert_eq!(acts.len(), 2);
    assert_eq!(status_of(&acts[0]).unwrap(), "Transcribing...");
    assert!(matches!(&acts[1], WorkerAction::FeedAndRead(v) if v == &vec![1, 2, 3]));
    let acts = w.step(WorkerInput::Recognized("{\"text\": \"два слова\"}".to_string()));
    assert_eq!(acts.len(), 2);
    assert!(matches!(&acts[0], WorkerAction::FreeRecognizer));
    assert!(matches!(&acts[1], WorkerAction::Send(TranscriptEvent::Final { text, source }) if text == "два слова" && source == "MIC"));
}

#[test]
fn silence_gives_no_transcript() {
    let mut w = loaded_worker();
    w.step(WorkerInput::Msg(WorkerMsg::Recognize { samples: vec![0], source: "LOOPBACK".to_string() }));
    w.step(WorkerInput::RecognizerCreated(Ok(())));
    let acts = w.step(WorkerInput::Recognized("{\"text\": \"\"}".to_string()));
    assert_eq!(acts.len(), 1);
    assert!(matches!(&acts[0], WorkerAction::FreeRecognizer));
}

#[test]
fn recognising_without_a_model_is_an_error() {
    let mut w = VoskWorker::new();
    let acts = w.step(WorkerInput::Msg(WorkerMsg::Recognize { samples: vec![1], source: "MIC".to_string() }));
    assert_eq!(acts.len(), 1);
    assert_eq!(error_of(&acts[0]).unwrap(), "VOSK model not loaded");
    assert!(matches!(w.phase, Phase::Idle));
}

#[test]
fn unloading_frees_the_model_and_clears_the_state() {
    let mut w = loaded_worker();
    let acts = w.step(WorkerInput::Msg(WorkerMsg::Unload));
    assert_eq!(acts.len(), 4);
    assert!(matches!(&acts[0], WorkerAction::FreeModel));
    assert!(matches!(&acts[1], WorkerAction::SetLoaded(false)));
    assert!(matches!(&acts[2], WorkerAction::ClearLoading));
    assert!(matches!(&acts[3], WorkerAction::ClearModelPath));
    assert!(!w.model_held && !w.loaded);
}

#[test]
fn shutdown_frees_the_model_and_stops() {
    let mut w = loaded_worker();
    let acts = w.step(WorkerInput::Msg(WorkerMsg::Shutdown));
    assert_eq!(acts.len(), 2);
    assert!(matches!(&acts[0], WorkerAction::FreeModel));
    assert!(matches!(&acts[1], WorkerAction::Stop));
    assert!(matches!(w.phase, Phase::Stopped));
    let acts = w.step(WorkerInput::Msg(WorkerMsg::Unload));
    assert!(acts.is_empty());
}

#[test]
fn an_unexpected_outcome_changes_nothing() {
    let mut w = VoskWorker::new();
    let acts = w.step(WorkerInput::ModelLoaded(Ok(())));
    assert!(acts.is_empty());
    assert!(!w.model_held && !w.loaded && !w.dll_loaded);
}
