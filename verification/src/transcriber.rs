//! The speech-recognition worker: what it reports, how it reads the recogniser's JSON,
//! and the decisions it takes between calls into the recogniser library.

use vstd::prelude::*;
use crate::text::{cat3, chars_of, find, find_chars, string_of, sub_chars};

verus! {

/// What the recognition worker reports to the interface.
#[derive(Clone, Debug)]
pub enum TranscriptEvent {
    /// A recognised text and the source it was recorded from.
    Final { text: String, source: String },
    Status(String),
    Error(String),
}

/// The value of the string field `key` (given with its quotes) in `json`: the text
/// between the first two double quotes after the first colon that follows the key.
pub open spec fn json_field(json: Seq<char>, key: Seq<char>) -> Option<Seq<char>> {
    match find(json, key) {
        None => None,
        Some(start) => match find(json.skip(start), ":"@) {
            None => None,
            Some(colon) => {
                let after = json.skip(start + colon + 1);
                match find(after, "\""@) {
                    None => None,
                    Some(open) => {
                        let content = after.skip(open + 1);
                        match find(content, "\""@) {
                            None => None,
                            Some(close) => Some(content.take(close)),
                        }
                    },
                }
            },
        },
    }
}

/// The recognised text in a recogniser result such as `{"text": "words"}`: the `text`
/// field, else the `partial` field, else nothing.
pub open spec fn spec_parse_vosk_json(json: Seq<char>) -> Seq<char> {
    if json.len() == 0 {
        Seq::empty()
    } else {
        match json_field(json, "\"text\""@) {
            Some(t) => t,
            None => match json_field(json, "\"partial\""@) {
                Some(t) => t,
                None => Seq::empty(),
            },
        }
    }
}

proof fn lemma_find_in_bounds(hay: Seq<char>, needle: Seq<char>)
    ensures
        find(hay, needle) matches Some(i) ==> 0 <= i && i + needle.len() <= hay.len(),
{
    crate::text::lemma_find_props(hay, needle);
}

fn json_field_chars(json: &[char], key: &str) -> (r: Option<Vec<char>>)
    ensures
        match r {
            Some(v) => json_field(json@, key@) == Some(v@),
            None => json_field(json@, key@) is None,
        },
{
    let k = chars_of(key);
    let colon = chars_of(":");
    let quote = chars_of("\"");
    proof {
        reveal_strlit(":");
        reveal_strlit("\"");
        lemma_find_in_bounds(json@, key@);
    }
    let start = match find_chars(json, k.as_slice()) {
        None => return None,
        Some(s) => s,
    };
    let rest = sub_chars(json, start, json.len());
    assert(rest@ =~= json@.skip(start as int));
    proof {
        lemma_find_in_bounds(rest@, ":"@);
    }
    let c = match find_chars(rest.as_slice(), colon.as_slice()) {
        None => return None,
        Some(c) => c,
    };
    let after = sub_chars(json, start + c + 1, json.len());
    assert(after@ =~= json@.skip(start + c + 1));
    proof {
        lemma_find_in_bounds(after@, "\""@);
    }
    let open = match find_chars(after.as_slice(), quote.as_slice()) {
        None => return None,
        Some(o) => o,
    };
    let content = sub_chars(after.as_slice(), open + 1, after.len());
    assert(content@ =~= after@.skip(open + 1));
    proof {
        lemma_find_in_bounds(content@, "\""@);
    }
    let close = match find_chars(content.as_slice(), quote.as_slice()) {
        None => return None,
        Some(e) => e,
    };
    let value = sub_chars(content.as_slice(), 0, close);
    assert(value@ =~= content@.take(close as int));
    Some(value)
}

/// Extracts the recognised text from a recogniser result (see `spec_parse_vosk_json`).
pub fn parse_vosk_json(json: &str) -> (r: String)
    ensures
        r@ == spec_parse_vosk_json(json@),
{
    let jv = chars_of(json);
    if jv.len() == 0 {
        return String::new();
    }
    match json_field_chars(jv.as_slice(), "\"text\"") {
        Some(t) => string_of(t.as_slice()),
        None => match json_field_chars(jv.as_slice(), "\"partial\"") {
            Some(t) => string_of(t.as_slice()),
            None => String::new(),
        },
    }
}

/// A request to the recognition worker.
#[derive(Debug)]
pub enum WorkerMsg {
    /// Load the model in this directory.
    Load(String),
    Unload,
    /// Recognise a whole recording.
    Recognize { samples: Vec<i16>, source: String },
    Shutdown,
}

/// What the worker learns: a request, or the outcome of a call it asked for.
#[derive(Debug)]
pub enum WorkerInput {
    Msg(WorkerMsg),
    /// Whether the model path is an existing directory.
    DirChecked(bool),
    /// The recogniser library was loaded, or why not.
    DllLoaded(Result<(), String>),
    /// The model was loaded, or why not.
    ModelLoaded(Result<(), String>),
    /// A recogniser was created for the model, or why not.
    RecognizerCreated(Result<(), String>),
    /// The recogniser's JSON result for the fed samples.
    Recognized(String),
}

/// What the worker asks its host to do, in order.
#[derive(Debug)]
pub enum WorkerAction {
    Send(TranscriptEvent),
    CheckModelDir(String),
    FreeModel,
    LoadDll(String),
    LoadModel(String),
    CreateRecognizer,
    /// Feed all samples to the recogniser, then read its result.
    FeedAndRead(Vec<i16>),
    FreeRecognizer,
    SetLoaded(bool),
    ClearLoading,
    SetModelPath(String),
    ClearModelPath,
    Stop,
}

/// Which outcome the worker waits for.
#[derive(Debug)]
pub enum Phase {
    Idle,
    CheckingDir(String),
    LoadingDll(String),
    LoadingModel(String),
    CreatingRecognizer { samples: Vec<i16>, source: String },
    Recognizing { source: String },
    Stopped,
}

/// The recognition worker's state between calls into the recogniser library.
#[derive(Debug)]
pub struct VoskWorker {
    pub phase: Phase,
    /// The recogniser library is loaded.
    pub dll_loaded: bool,
    /// A model is loaded and held.
    pub model_held: bool,
    /// The value last published as "loaded".
    pub loaded: bool,
}

/// The library is loaded whenever a model is held or being loaded, and outside a model load the
/// published "loaded" flag implies a held model.
pub open spec fn worker_wf(w: VoskWorker) -> bool {
    &&& w.model_held ==> w.dll_loaded
    &&& w.phase is LoadingModel ==> w.dll_loaded
    &&& (w.phase is LoadingDll || w.phase is LoadingModel) ==> !w.model_held
    &&& (w.phase is Idle || w.phase is CreatingRecognizer || w.phase is Recognizing)
        ==> (w.loaded ==> w.model_held)
}

/// A model is never loaded while another is held: each `LoadModel` in `actions` comes
/// when no model was held, or after a `FreeModel` in the same list.
pub open spec fn no_model_overwrite(held_before: bool, actions: Seq<WorkerAction>) -> bool {
    forall|i: int| 0 <= i < actions.len() && (#[trigger] actions[i]) is LoadModel ==> (!held_before
        || exists|j: int| 0 <= j < i && actions[j] is FreeModel)
}

/// The first action tells the interface `m`.
pub open spec fn sends_status(a: WorkerAction, m: Seq<char>) -> bool {
    a matches WorkerAction::Send(TranscriptEvent::Status(t)) && t@ == m
}

/// The action tells the interface about the error `m`.
pub open spec fn sends_error(a: WorkerAction, m: Seq<char>) -> bool {
    a matches WorkerAction::Send(TranscriptEvent::Error(t)) && t@ == m
}

/// One step of the worker: from `w` and `input` to `n`, asking for `acts`.
pub open spec fn worker_step(w: VoskWorker, input: WorkerInput, n: VoskWorker, acts: Seq<WorkerAction>) -> bool {
    match (w.phase, input) {
        (Phase::Idle, WorkerInput::Msg(WorkerMsg::Load(path))) => {
            &&& n == VoskWorker { phase: Phase::CheckingDir(path), ..w }
            &&& acts.len() == 2
            &&& sends_status(acts[0], "Loading VOSK model ("@ + path@ + ")"@)
            &&& acts[1] matches WorkerAction::CheckModelDir(p) && p == path
        },
        (Phase::Idle, WorkerInput::Msg(WorkerMsg::Unload)) => {
            &&& n == VoskWorker { model_held: false, loaded: false, ..w }
            &&& acts == if w.model_held {
                seq![WorkerAction::FreeModel, WorkerAction::SetLoaded(false), WorkerAction::ClearLoading, WorkerAction::ClearModelPath]
            } else {
                seq![WorkerAction::SetLoaded(false), WorkerAction::ClearLoading, WorkerAction::ClearModelPath]
            }
        },
        (Phase::Idle, WorkerInput::Msg(WorkerMsg::Recognize { samples, source })) => {
            if w.model_held && w.dll_loaded {
                &&& n == VoskWorker { phase: Phase::CreatingRecognizer { samples, source }, ..w }
                &&& acts == seq![WorkerAction::CreateRecognizer]
            } else {
                &&& n == w
                &&& acts.len() == 1
                &&& sends_error(acts[0], "VOSK model not loaded"@)
            }
        },
        (Phase::Idle, WorkerInput::Msg(WorkerMsg::Shutdown)) => {
            &&& n == VoskWorker { phase: Phase::Stopped, model_held: false, ..w }
            &&& acts == if w.model_held {
                seq![WorkerAction::FreeModel, WorkerAction::Stop]
            } else {
                seq![WorkerAction::Stop]
            }
        },
        (Phase::CheckingDir(path), WorkerInput::DirChecked(ok)) => {
            if !ok {
                &&& n == VoskWorker { phase: Phase::Idle, loaded: false, ..w }
                &&& acts.len() == 3
                &&& sends_error(acts[0], "VOSK model directory not found: "@ + path@)
                &&& acts[1] == WorkerAction::SetLoaded(false)
                &&& acts[2] == WorkerAction::ClearLoading
            } else {
                let freed = if w.model_held { seq![WorkerAction::FreeModel] } else { Seq::empty() };
                if w.dll_loaded {
                    &&& n == VoskWorker { phase: Phase::LoadingModel(path), model_held: false, ..w }
                    &&& acts.len() == freed.len() + 1
                    &&& acts.take(freed.len() as int) == freed
                    &&& acts.last() matches WorkerAction::LoadModel(p) && p == path
                } else {
                    &&& n == VoskWorker { phase: Phase::LoadingDll(path), model_held: false, ..w }
                    &&& acts.len() == freed.len() + 2
                    &&& acts.take(freed.len() as int) == freed
                    &&& sends_status(acts[freed.len() as int], "Loading VOSK DLL (may download)..."@)
                    &&& acts.last() matches WorkerAction::LoadDll(p) && p == path
                }
            }
        },
        (Phase::LoadingDll(path), WorkerInput::DllLoaded(res)) => match res {
            Ok(()) => {
                &&& n == VoskWorker { phase: Phase::LoadingModel(path), dll_loaded: true, ..w }
                &&& acts.len() == 1
                &&& acts[0] matches WorkerAction::LoadModel(p) && p == path
            },
            Err(e) => {
                &&& n == VoskWorker { phase: Phase::Idle, loaded: false, ..w }
                &&& acts.len() == 3
                &&& sends_error(acts[0], e@)
                &&& acts[1] == WorkerAction::SetLoaded(false)
                &&& acts[2] == WorkerAction::ClearLoading
            },
        },
        (Phase::LoadingModel(path), WorkerInput::ModelLoaded(res)) => match res {
            Ok(()) => {
                &&& n == VoskWorker { phase: Phase::Idle, model_held: true, loaded: true, ..w }
                &&& acts.len() == 4
                &&& acts[0] matches WorkerAction::SetModelPath(p) && p == path
                &&& acts[1] == WorkerAction::SetLoaded(true)
                &&& acts[2] == WorkerAction::ClearLoading
                &&& sends_status(acts[3], "VOSK ready"@)
            },
            Err(e) => {
                &&& n == VoskWorker { phase: Phase::Idle, loaded: false, ..w }
                &&& acts.len() == 3
                &&& sends_error(acts[0], e@)
                &&& acts[1] == WorkerAction::SetLoaded(false)
                &&& acts[2] == WorkerAction::ClearLoading
            },
        },
        (Phase::CreatingRecognizer { samples, source }, WorkerInput::RecognizerCreated(res)) => match res {
            Ok(()) => {
                &&& n == VoskWorker { phase: Phase::Recognizing { source }, ..w }
                &&& acts.len() == 2
                &&& sends_status(acts[0], "Transcribing..."@)
                &&& acts[1] matches WorkerAction::FeedAndRead(v) && v == samples
            },
            Err(e) => {
                &&& n == VoskWorker { phase: Phase::Idle, ..w }
                &&& acts.len() == 1
                &&& sends_error(acts[0], e@)
            },
        },
        (Phase::Recognizing { source }, WorkerInput::Recognized(json)) => {
            let text = spec_parse_vosk_json(json@);
            &&& n == VoskWorker { phase: Phase::Idle, ..w }
            &&& acts[0] == WorkerAction::FreeRecognizer
            &&& if text.len() == 0 {
                acts.len() == 1
            } else {
                &&& acts.len() == 2
                &&& acts[1] matches WorkerAction::Send(TranscriptEvent::Final { text: t, source: s })
                    && t@ == text && s == source
            }
        },
        (ph, inp) => n.phase == ph && n.dll_loaded == w.dll_loaded && n.model_held == w.model_held
            && n.loaded == w.loaded && acts.len() == 0,
    }
}

impl VoskWorker {
    /// A worker with nothing loaded, waiting for requests.
    pub fn new() -> (r: VoskWorker)
        ensures
            r.phase is Idle,
            !r.dll_loaded,
            !r.model_held,
            !r.loaded,
            worker_wf(r),
    {
        VoskWorker { phase: Phase::Idle, dll_loaded: false, model_held: false, loaded: false }
    }

    /// Takes one input and returns the actions to perform, in order (see `worker_step`).
    /// An input the worker does not wait for in its phase changes nothing.
    pub fn step(&mut self, input: WorkerInput) -> (acts: Vec<WorkerAction>)
        requires
            worker_wf(*old(self)),
        ensures
            worker_step(*old(self), input, *final(self), acts@),
            worker_wf(*final(self)),
            no_model_overwrite(old(self).model_held, acts@),
    {
        let mut acts: Vec<WorkerAction> = Vec::new();
        let mut phase = Phase::Idle;
        std::mem::swap(&mut phase, &mut self.phase);
        match (phase, input) {
            (Phase::Idle, WorkerInput::Msg(WorkerMsg::Load(path))) => {
                acts.push(WorkerAction::Send(TranscriptEvent::Status(cat3("Loading VOSK model (", path.as_str(), ")"))));
                let p2 = path.clone();
                acts.push(WorkerAction::CheckModelDir(p2));
                self.phase = Phase::CheckingDir(path);
            },
            (Phase::Idle, WorkerInput::Msg(WorkerMsg::Unload)) => {
                if self.model_held {
                    acts.push(WorkerAction::FreeModel);
                }
                self.model_held = false;
                self.loaded = false;
                acts.push(WorkerAction::SetLoaded(false));
                acts.push(WorkerAction::ClearLoading);
                acts.push(WorkerAction::ClearModelPath);
                proof {
                    if old(self).model_held {
                        assert(acts@ =~= seq![WorkerAction::FreeModel, WorkerAction::SetLoaded(false), WorkerAction::ClearLoading, WorkerAction::ClearModelPath]);
                    } else {
                        assert(acts@ =~= seq![WorkerAction::SetLoaded(false), WorkerAction::ClearLoading, WorkerAction::ClearModelPath]);
                    }
                }
            },
            (Phase::Idle, WorkerInput::Msg(WorkerMsg::Recognize { samples, source })) => {
                if self.model_held && self.dll_loaded {
                    acts.push(WorkerAction::CreateRecognizer);
                    assert(acts@ =~= seq![WorkerAction::CreateRecognizer]);
                    self.phase = Phase::CreatingRecognizer { samples, source };
                } else {
                    acts.push(WorkerAction::Send(TranscriptEvent::Error(String::from_str("VOSK model not loaded"))));
                }
            },
            (Phase::Idle, WorkerInput::Msg(WorkerMsg::Shutdown)) => {
                if self.model_held {
                    acts.push(WorkerAction::FreeModel);
                }
                self.model_held = false;
                acts.push(WorkerAction::Stop);
                proof {
                    if old(self).model_held {
                        assert(acts@ =~= seq![WorkerAction::FreeModel, WorkerAction::Stop]);
                    } else {
                        assert(acts@ =~= seq![WorkerAction::Stop]);
                    }
                }
                self.phase = Phase::Stopped;
            },
            (Phase::CheckingDir(path), WorkerInput::DirChecked(ok)) => {
                if !ok {
                    acts.push(WorkerAction::Send(TranscriptEvent::Error(crate::text::cat("VOSK model directory not found: ", path.as_str()))));
                    self.loaded = false;
                    acts.push(WorkerAction::SetLoaded(false));
                    acts.push(WorkerAction::ClearLoading);
                } else {
                    if self.model_held {
                        acts.push(WorkerAction::FreeModel);
                    }
                    let ghost freed = acts@;
                    assert(old(self).model_held ==> acts@[0] is FreeModel);
                    self.model_held = false;
                    if self.dll_loaded {
                        acts.push(WorkerAction::LoadModel(path.clone()));
                        assert(acts@.take(freed.len() as int) =~= freed);
                        self.phase = Phase::LoadingModel(path);
                    } else {
                        acts.push(WorkerAction::Send(TranscriptEvent::Status(String::from_str("Loading VOSK DLL (may download)..."))));
                        acts.push(WorkerAction::LoadDll(path.clone()));
                        assert(acts@.take(freed.len() as int) =~= freed);
                        self.phase = Phase::LoadingDll(path);
                    }
                }
            },
            (Phase::LoadingDll(path), WorkerInput::DllLoaded(res)) => match res {
                Ok(()) => {
                    self.dll_loaded = true;
                    acts.push(WorkerAction::LoadModel(path.clone()));
                    self.phase = Phase::LoadingModel(path);
                },
                Err(e) => {
                    acts.push(WorkerAction::Send(TranscriptEvent::Error(e)));
                    self.loaded = false;
                    acts.push(WorkerAction::SetLoaded(false));
                    acts.push(WorkerAction::ClearLoading);
                },
            },
            (Phase::LoadingModel(path), WorkerInput::ModelLoaded(res)) => match res {
                Ok(()) => {
                    self.model_held = true;
                    self.loaded = true;
                    acts.push(WorkerAction::SetModelPath(path));
                    acts.push(WorkerAction::SetLoaded(true));
                    acts.push(WorkerAction::ClearLoading);
                    acts.push(WorkerAction::Send(TranscriptEvent::Status(String::from_str("VOSK ready"))));
                },
                Err(e) => {
                    acts.push(WorkerAction::Send(TranscriptEvent::Error(e)));
                    self.loaded = false;
                    acts.push(WorkerAction::SetLoaded(false));
                    acts.push(WorkerAction::ClearLoading);
                },
            },
            (Phase::CreatingRecognizer { samples, source }, WorkerInput::RecognizerCreated(res)) => match res {
                Ok(()) => {
                    acts.push(WorkerAction::Send(TranscriptEvent::Status(String::from_str("Transcribing..."))));
                    acts.push(WorkerAction::FeedAndRead(samples));
                    self.phase = Phase::Recognizing { source };
                },
                Err(e) => {
                    acts.push(WorkerAction::Send(TranscriptEvent::Error(e)));
                },
            },
            (Phase::Recognizing { source }, WorkerInput::Recognized(json)) => {
                let text = parse_vosk_json(json.as_str());
                acts.push(WorkerAction::FreeRecognizer);
                if !text.as_str().is_empty() {
                    acts.push(WorkerAction::Send(TranscriptEvent::Final { text, source }));
                }
            },
            (ph, _) => {
                self.phase = ph;
            },
        }
        acts
    }
}

/// Once the model directory is found, loading always goes on to the model of that
/// directory, whatever model was held before: the last action asks to load that model
/// when the recogniser library is loaded, or the library first when it is not, and the
/// worker then waits for that outcome. A model still held is freed first.
pub proof fn lemma_found_directory_is_loaded(
    w: VoskWorker,
    path: String,
    n: VoskWorker,
    acts: Seq<WorkerAction>,
)
    requires
        w.phase == Phase::CheckingDir(path),
        worker_step(w, WorkerInput::DirChecked(true), n, acts),
    ensures
        acts.len() >= 1,
        w.dll_loaded ==> (acts.last() matches WorkerAction::LoadModel(p) && p == path)
            && n.phase == Phase::LoadingModel(path),
        !w.dll_loaded ==> (acts.last() matches WorkerAction::LoadDll(p) && p == path)
            && n.phase == Phase::LoadingDll(path),
        w.model_held ==> acts[0] == WorkerAction::FreeModel,
        !n.model_held,
{
    if w.model_held {
        assert(acts.take(1)[0] == acts[0]);
    }
}

/// Loading (or reloading) a model with the library already loaded succeeds end to end:
/// a `Load` of an existing directory, followed by a successful model load, leaves the
/// worker idle with a model held, published as loaded, and tells the interface
/// "VOSK ready" - whatever model was held before.
pub proof fn lemma_reload_ends_with_model(
    w0: VoskWorker,
    path: String,
    w1: VoskWorker,
    a1: Seq<WorkerAction>,
    w2: VoskWorker,
    a2: Seq<WorkerAction>,
    w3: VoskWorker,
    a3: Seq<WorkerAction>,
)
    requires
        w0.phase is Idle,
        w0.dll_loaded,
        worker_step(w0, WorkerInput::Msg(WorkerMsg::Load(path)), w1, a1),
        worker_step(w1, WorkerInput::DirChecked(true), w2, a2),
        worker_step(w2, WorkerInput::ModelLoaded(Ok(())), w3, a3),
    ensures
        w3.phase is Idle,
        w3.model_held,
        w3.loaded,
        a3.contains(WorkerAction::SetLoaded(true)),
        exists|i: int| 0 <= i < a3.len() && sends_status(#[trigger] a3[i], "VOSK ready"@),
{
    assert(w1.phase == Phase::CheckingDir(path));
    assert(w2.phase == Phase::LoadingModel(path));
    assert(a3[1] == WorkerAction::SetLoaded(true));
    assert(sends_status(a3[3], "VOSK ready"@));
}

/// Loading with no library yet succeeds end to end as well: the library, then the
/// model, then a held model published as loaded.
pub proof fn lemma_first_load_ends_with_model(
    w0: VoskWorker,
    path: String,
    w1: VoskWorker,
    a1: Seq<WorkerAction>,
    w2: VoskWorker,
    a2: Seq<WorkerAction>,
    w3: VoskWorker,
    a3: Seq<WorkerAction>,
    w4: VoskWorker,
    a4: Seq<WorkerAction>,
)
    requires
        w0.phase is Idle,
        !w0.dll_loaded,
        worker_step(w0, WorkerInput::Msg(WorkerMsg::Load(path)), w1, a1),
        worker_step(w1, WorkerInput::DirChecked(true), w2, a2),
        worker_step(w2, WorkerInput::DllLoaded(Ok(())), w3, a3),
        worker_step(w3, WorkerInput::ModelLoaded(Ok(())), w4, a4),
    ensures
        w4.phase is Idle,
        w4.dll_loaded,
        w4.model_held,
        w4.loaded,
        a4.contains(WorkerAction::SetLoaded(true)),
{
    assert(w1.phase == Phase::CheckingDir(path));
    assert(w2.phase == Phase::LoadingDll(path));
    assert(w3.phase == Phase::LoadingModel(path));
    assert(a4[1] == WorkerAction::SetLoaded(true));
}

} // verus!
