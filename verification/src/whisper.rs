//! Which whisper.cpp files the program needs, and when they are all in place.

use vstd::prelude::*;
use crate::text::str_eq;

verus! {

#[verifier::external_type_specification]
#[verifier::external_body]
pub struct ExPathBuf(std::path::PathBuf);

/// Progress reported while whisper.cpp and its model are fetched.
#[derive(Debug)]
pub enum SetupEvent {
    /// What is happening now.
    Status(String),
    /// Percent (0..=100) of the current file.
    Progress(u8),
    /// Finished: where the model is.
    Done { model: std::path::PathBuf },
    /// Failure.
    Error(String),
}

/// The speech model to fetch.
#[derive(Clone, Copy, Debug, PartialEq, Eq, Structural)]
pub enum ModelKind {
    Base,
    Small,
    Medium,
}

impl ModelKind {
    /// Where the model is downloaded from.
    pub fn url(&self) -> (r: &'static str)
        ensures
            r@ == match self {
                ModelKind::Base => "https://huggingface.co/ggerganov/whisper.cpp/resolve/main/ggml-base.bin"@,
                ModelKind::Small => "https://huggingface.co/ggerganov/whisper.cpp/resolve/main/ggml-small.bin"@,
                ModelKind::Medium => "https://huggingface.co/ggerganov/whisper.cpp/resolve/main/ggml-medium.bin"@,
            },
    {
        match self {
            ModelKind::Base => "https://huggingface.co/ggerganov/whisper.cpp/resolve/main/ggml-base.bin",
            ModelKind::Small => "https://huggingface.co/ggerganov/whisper.cpp/resolve/main/ggml-small.bin",
            ModelKind::Medium => "https://huggingface.co/ggerganov/whisper.cpp/resolve/main/ggml-medium.bin",
        }
    }

    /// The model's file name.
    pub fn file_name(&self) -> (r: &'static str)
        ensures
            r@ == spec_model_file(*self),
    {
        match self {
            ModelKind::Base => "ggml-base.bin",
            ModelKind::Small => "ggml-small.bin",
            ModelKind::Medium => "ggml-medium.bin",
        }
    }
}

/// The file name of each model.
pub open spec fn spec_model_file(m: ModelKind) -> Seq<char> {
    match m {
        ModelKind::Base => "ggml-base.bin"@,
        ModelKind::Small => "ggml-small.bin"@,
        ModelKind::Medium => "ggml-medium.bin"@,
    }
}

/// The whisper.cpp executable's name; newer Windows releases call it `whisper-cli.exe`.
pub fn whisper_exe_name(windows: bool) -> (r: &'static str)
    ensures
        r@ == if windows { "whisper-cli.exe"@ } else { "whisper-cli"@ },
{
    if windows { "whisper-cli.exe" } else { "whisper-cli" }
}

/// The release archive for the platform.
pub fn whisper_asset_name(windows: bool, macos: bool) -> (r: &'static str)
    ensures
        r@ == if windows {
            "whisper-bin-x64.zip"@
        } else if macos {
            "whisper-bin-universal.zip"@
        } else {
            "whisper-bin-ubuntu-x64.tar.gz"@
        },
{
    if windows {
        "whisper-bin-x64.zip"
    } else if macos {
        "whisper-bin-universal.zip"
    } else {
        "whisper-bin-ubuntu-x64.tar.gz"
    }
}

/// Every model file the program may have fetched before.
pub open spec fn all_model_files() -> Seq<Seq<char>> {
    seq![
        "ggml-base.bin"@,
        "ggml-small.bin"@,
        "ggml-medium.bin"@,
        "ggml-base.en.bin"@,
        "ggml-small.en.bin"@,
        "ggml-medium.en.bin"@,
    ]
}

/// The model files to delete before `model` is fetched: all the others, in table order.
pub fn stale_model_files(model: ModelKind) -> (r: Vec<&'static str>)
    ensures
        r@.map_values(|s: &'static str| s@) == all_model_files().filter(|f: Seq<char>| f != spec_model_file(model)),
{
    let mut all: Vec<&'static str> = Vec::new();
    all.push("ggml-base.bin");
    all.push("ggml-small.bin");
    all.push("ggml-medium.bin");
    all.push("ggml-base.en.bin");
    all.push("ggml-small.en.bin");
    all.push("ggml-medium.en.bin");
    assert(all@.map_values(|s: &'static str| s@) =~= all_model_files());
    let keep = model.file_name();
    let mut r: Vec<&'static str> = Vec::new();
    let mut i: usize = 0;
    while i < all.len()
        invariant
            i <= all.len(),
            keep@ == spec_model_file(model),
            all@.map_values(|s: &'static str| s@) == all_model_files(),
            r@.map_values(|s: &'static str| s@) == all_model_files().take(i as int).filter(|f: Seq<char>| f != spec_model_file(model)),
        decreases all.len() - i,
    {
        let ghost before = r@;
        proof {
            reveal_with_fuel(Seq::filter, 1);
            assert(all_model_files().take(i + 1).drop_last() =~= all_model_files().take(i as int));
            assert(all_model_files()[i as int] == all@[i as int]@);
        }
        if !str_eq(all[i], keep) {
            r.push(all[i]);
            assert(r@.map_values(|s: &'static str| s@) =~= before.map_values(|s: &'static str| s@).push(all@[i as int]@));
        }
        i = i + 1;
    }
    assert(all_model_files().take(6) =~= all_model_files());
    r
}

/// Whether whisper is ready: the directory holds `whisper.dll` and at least one of the
/// base, small or medium models. `present` names the regular files in that directory.
pub open spec fn spec_is_ready(present: Seq<Seq<char>>) -> bool {
    &&& present.contains("whisper.dll"@)
    &&& (present.contains("ggml-base.bin"@) || present.contains("ggml-small.bin"@)
        || present.contains("ggml-medium.bin"@))
}

/// The contents of each string.
pub open spec fn string_views(v: Seq<String>) -> Seq<Seq<char>> {
    v.map_values(|s: String| s@)
}

fn has_file(present: &[String], name: &str) -> (r: bool)
    ensures
        r == string_views(present@).contains(name@),
{
    let mut i: usize = 0;
    while i < present.len()
        invariant
            i <= present.len(),
            forall|k: int| 0 <= k < i ==> present@[k]@ != name@,
        decreases present.len() - i,
    {
        if str_eq(present[i].as_str(), name) {
            assert(string_views(present@)[i as int] == name@);
            return true;
        }
        i = i + 1;
    }
    assert forall|k: int| 0 <= k < present@.len() implies #[trigger] string_views(present@)[k] != name@ by {}
    false
}

/// Whether whisper is ready (see `spec_is_ready`).
pub fn is_ready(present: &[String]) -> (r: bool)
    ensures
        r == spec_is_ready(string_views(present@)),
{
    if !has_file(present, "whisper.dll") {
        return false;
    }
    has_file(present, "ggml-base.bin") || has_file(present, "ggml-small.bin") || has_file(present, "ggml-medium.bin")
}

} // verus!
