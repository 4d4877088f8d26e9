use interview_assistant::whisper::{is_ready, stale_model_files, whisper_asset_name, whisper_exe_name, ModelKind};

#[test]
fn model_urls() {
    assert_eq!(
        ModelKind::Base.url(),
        "https://huggingface.co/ggerganov/whisper.cpp/resolve/main/ggml-base.bin"
    );
    assert_eq!(
        ModelKind::Small.url(),
        "https://huggingface.co/ggerganov/whisper.cpp/resolve/main/ggml-small.bin"
    );
    assert_eq!(
        ModelKind::Medium.url(),
        "https://huggingface.co/ggerganov/whisper.cpp/resolve/main/ggml-medium.bin"
    );
}

#[test]
fn model_file_names() {
    assert_eq!(ModelKind::Base.file_name(), "ggml-base.bin");
    assert_eq!(ModelKind::Small.file_name(), "ggml-small.bin");
    assert_eq!(ModelKind::Medium.file_name(), "ggml-medium.bin");
}

#[test]
fn every_url_ends_with_its_file_name() {
    for m in [ModelKind::Base, ModelKind::Small, ModelKind::Medium] {
        assert!(m.url().ends_with(m.file_name()));
    }
}

#[test]
fn executable_names() {
    assert_eq!(whisper_exe_name(true), "whisper-cli.exe");
    assert_eq!(whisper_exe_name(false), "whisper-cli");
}

#[test]
fn release_archives() {
    assert_eq!(whisper_asset_name(true, false), "whisper-bin-x64.zip");
    assert_eq!(whisper_asset_name(false, true), "whisper-bin-universal.zip");
    assert_eq!(whisper_asset_name(false, false), "whisper-bin-ubuntu-x64.tar.gz");
}

#[test]
fn stale_models_are_all_but_the_wanted_one() {
    assert_eq!(
        stale_model_files(ModelKind::Small),
        vec!["ggml-base.bin", "ggml-medium.bin", "ggml-base.en.bin", "ggml-small.en.bin", "ggml-medium.en.bin"]
    );
    assert_eq!(stale_model_files(ModelKind::Base).len(), 5);
    assert!(!stale_model_files(ModelKind::Medium).contains(&"ggml-medium.bin"));
}

fn files(names: &[&str]) -> Vec<String> {
    names.iter().map(|n| n.to_string()).collect()
}

#[test]
fn ready_needs_the_library_and_a_model() {
    assert!(is_ready(&files(&["whisper.dll", "ggml-small.bin"])));
    assert!(is_ready(&files(&["ggml-medium.bin", "readme", "whisper.dll"])));
    assert!(!is_ready(&files(&["ggml-base.bin"])));
    assert!(!is_ready(&files(&["whisper.dll", "ggml-base.en.bin"])));
    assert!(!is_ready(&files(&[])));
}
