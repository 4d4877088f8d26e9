//! The assistant's interface state and the decisions taken on each user action and on
//! each report from recording, recognition and the AI. The host performs what a
//! decision asks for (start or stop capturing, recognise, send a question, save the
//! settings) and reports the outcome back.

use vstd::prelude::*;
use crate::audio::AudioMode;
use crate::config::AppConfig;
use crate::hotkeys::HotkeyAction;
use crate::ai::AiEvent;
use crate::transcriber::TranscriptEvent;
use crate::ai::AiTestResult;
use crate::devices::{find_loopback_device, find_mic_device, is_first_where, spec_is_loopback_name, spec_is_mic_name, AudioDeviceInfo};
use crate::text::{cat, chars_of, parse_i32, str_eq, trim, trim_chars};
use crate::helpers::to_int;

verus! {

/// Which arrow key is being held.
#[derive(Clone, Copy, Debug, PartialEq, Eq, Structural)]
pub enum HotkeySide {
    Left,
    Right,
}

/// What a hot-key event asks the host to do.
#[derive(Clone, Copy, Debug, PartialEq, Eq, Structural)]
pub enum HotkeyOutcome {
    Nothing,
    StartRecording(AudioMode),
    StopRecording,
}

/// The interface state of the assistant.
pub struct Session {
    pub cfg: AppConfig,
    pub transcript: String,
    pub question: String,
    pub prev_question: String,
    pub answer: String,
    pub prev_answer: String,
    pub last_error: String,
    pub logs: String,
    pub history_questions: String,
    pub history_answers: String,
    pub status: String,
    pub transcript_hint: String,
    pub vosk_status: String,
    pub big_status: String,
    pub chunk_ms_text: String,
    pub auto_ask_text: String,
    pub device_names: Vec<String>,
    pub recording: bool,
    pub record_mode: Option<AudioMode>,
    pub active_hold: Option<HotkeySide>,
    pub audio_buffer: Vec<i16>,
    pub awaiting_transcript: bool,
    pub ai_busy: bool,
    pub stopping: bool,
}

/// The log line for `msg` at time `ts`: `[ts] msg` and a line break.
pub open spec fn log_line(ts: Seq<char>, msg: Seq<char>) -> Seq<char> {
    "["@ + ts + "] "@ + msg + "\n"@
}

/// The texts the user reads and edits are the same.
pub open spec fn same_texts(a: Session, b: Session) -> bool {
    &&& a.transcript == b.transcript
    &&& a.question == b.question
    &&& a.prev_question == b.prev_question
    &&& a.answer == b.answer
    &&& a.prev_answer == b.prev_answer
    &&& a.last_error == b.last_error
    &&& a.history_questions == b.history_questions
    &&& a.history_answers == b.history_answers
}

/// The recording and request flags are the same.
pub open spec fn same_flags(a: Session, b: Session) -> bool {
    &&& a.recording == b.recording
    &&& a.record_mode == b.record_mode
    &&& a.active_hold == b.active_hold
    &&& a.awaiting_transcript == b.awaiting_transcript
    &&& a.ai_busy == b.ai_busy
    &&& a.stopping == b.stopping
}

/// The status labels are the same.
pub open spec fn same_labels(a: Session, b: Session) -> bool {
    &&& a.status == b.status
    &&& a.transcript_hint == b.transcript_hint
    &&& a.vosk_status == b.vosk_status
    &&& a.big_status == b.big_status
}

/// The settings, the device list and the recorded samples are the same.
pub open spec fn same_setup(a: Session, b: Session) -> bool {
    &&& a.cfg == b.cfg
    &&& a.chunk_ms_text == b.chunk_ms_text
    &&& a.auto_ask_text == b.auto_ask_text
    &&& a.device_names == b.device_names
    &&& a.audio_buffer == b.audio_buffer
}

/// Everything but the log is the same.
pub open spec fn same_but_logs(a: Session, b: Session) -> bool {
    same_texts(a, b) && same_flags(a, b) && same_labels(a, b) && same_setup(a, b)
}

/// The text shown while the AI is thinking.
pub open spec fn thinking() -> Seq<char> {
    "Думаю..."@
}

fn s(t: &str) -> (r: String)
    ensures
        r@ == t@,
{
    String::from_str(t)
}

impl Session {
    /// The state right after start-up, with the loaded settings.
    pub fn new(cfg: AppConfig) -> (r: Session)
        ensures
            r.cfg == cfg,
            r.status@ == "[<-] loopback  [->] mic"@,
            r.transcript_hint@ == "Live speech stream"@,
            r.vosk_status@ == "not loaded"@,
            r.transcript@.len() == 0 && r.question@.len() == 0 && r.answer@.len() == 0,
            r.prev_question@.len() == 0 && r.prev_answer@.len() == 0 && r.last_error@.len() == 0,
            r.logs@.len() == 0 && r.history_questions@.len() == 0 && r.history_answers@.len() == 0,
            r.big_status@.len() == 0,
            r.chunk_ms_text@ == crate::text::decimal(cfg.chunk_ms as nat),
            r.auto_ask_text@ == crate::text::decimal(cfg.auto_ask_sec as nat),
            r.device_names@.len() == 0,
            !r.recording && r.record_mode is None && r.active_hold is None,
            r.audio_buffer@.len() == 0,
            !r.awaiting_transcript && !r.ai_busy && !r.stopping,
    {
        let chunk = crate::text::decimal_chars(cfg.chunk_ms as u64);
        let auto = crate::text::decimal_chars(cfg.auto_ask_sec as u64);
        Session {
            cfg,
            transcript: String::new(),
            question: String::new(),
            prev_question: String::new(),
            answer: String::new(),
            prev_answer: String::new(),
            last_error: String::new(),
            logs: String::new(),
            history_questions: String::new(),
            history_answers: String::new(),
            status: s("[<-] loopback  [->] mic"),
            transcript_hint: s("Live speech stream"),
            vosk_status: s("not loaded"),
            big_status: String::new(),
            chunk_ms_text: crate::text::string_of(chunk.as_slice()),
            auto_ask_text: crate::text::string_of(auto.as_slice()),
            device_names: Vec::new(),
            recording: false,
            record_mode: None,
            active_hold: None,
            audio_buffer: Vec::new(),
            awaiting_transcript: false,
            ai_busy: false,
            stopping: false,
        }
    }

    /// Appends `[ts] msg` as a line of the log.
    pub fn log(&mut self, ts: &str, msg: &str)
        ensures
            final(self).logs@ == old(self).logs@ + log_line(ts@, msg@),
            same_but_logs(*old(self), *final(self)),
    {
        self.logs.append("[");
        self.logs.append(ts);
        self.logs.append("] ");
        self.logs.append(msg);
        self.logs.append("\n");
    }

    /// Shows `msg` in the status line.
    pub fn set_status(&mut self, msg: &str)
        ensures
            final(self).status@ == msg@,
            final(self).logs == old(self).logs,
            same_texts(*old(self), *final(self)),
            same_flags(*old(self), *final(self)),
            same_setup(*old(self), *final(self)),
            final(self).transcript_hint == old(self).transcript_hint,
            final(self).vosk_status == old(self).vosk_status,
            final(self).big_status == old(self).big_status,
    {
        self.status = s(msg);
    }

    /// Reacts to a hot key: a press starts recording when no key is held, and marks that
    /// key as held; a release of the held key ends the hold and stops a recording from
    /// its source. Any other event changes nothing.
    pub fn on_hotkey(&mut self, action: HotkeyAction) -> (r: HotkeyOutcome)
        ensures
            final(self).active_hold == spec_hold_after(old(self).active_hold, action),
            r == spec_hotkey_outcome(old(self).active_hold, old(self).record_mode, action),
            final(self).recording == old(self).recording,
            final(self).record_mode == old(self).record_mode,
            final(self).awaiting_transcript == old(self).awaiting_transcript,
            final(self).ai_busy == old(self).ai_busy,
            final(self).stopping == old(self).stopping,
            same_texts(*old(self), *final(self)),
            same_labels(*old(self), *final(self)),
            same_setup(*old(self), *final(self)),
            final(self).logs == old(self).logs,
    {
        match action {
            HotkeyAction::LoopbackPress => {
                if self.active_hold.is_none() {
                    self.active_hold = Some(HotkeySide::Left);
                    return HotkeyOutcome::StartRecording(AudioMode::Loopback);
                }
            },
            HotkeyAction::LoopbackRelease => {
                if self.active_hold == Some(HotkeySide::Left) {
                    self.active_hold = None;
                    if self.record_mode == Some(AudioMode::Loopback) {
                        return HotkeyOutcome::StopRecording;
                    }
                }
            },
            HotkeyAction::MicPress => {
                if self.active_hold.is_none() {
                    self.active_hold = Some(HotkeySide::Right);
                    return HotkeyOutcome::StartRecording(AudioMode::Mic);
                }
            },
            HotkeyAction::MicRelease => {
                if self.active_hold == Some(HotkeySide::Right) {
                    self.active_hold = None;
                    if self.record_mode == Some(AudioMode::Mic) {
                        return HotkeyOutcome::StopRecording;
                    }
                }
            },
        }
        HotkeyOutcome::Nothing
    }

    /// Decides whether a recording may start: not while one runs; refused, with a
    /// warning, when the recogniser is neither loaded nor loading.
    pub fn recording_request(&mut self, ts: &str, loaded: bool, loading: bool) -> (proceed: bool)
        ensures
            proceed == (!old(self).recording && (loaded || loading)),
            !old(self).recording && !loaded && !loading ==> {
                &&& final(self).big_status@ == "VOSK не подключен! Распознавание невозможно."@
                &&& final(self).status@ == "Ошибка: VOSK не загружен"@
                &&& final(self).logs@ == old(self).logs@ + log_line(ts@, "Recording blocked: VOSK not loaded"@)
                &&& same_texts(*old(self), *final(self)) && same_flags(*old(self), *final(self)) && same_setup(*old(self), *final(self))
                &&& final(self).transcript_hint == old(self).transcript_hint && final(self).vosk_status == old(self).vosk_status
            },
            old(self).recording || loaded || loading ==> *final(self) == *old(self),
    {
        if self.recording {
            return false;
        }
        if !loaded && !loading {
            self.big_status = s("VOSK не подключен! Распознавание невозможно.");
            self.set_status("Ошибка: VOSK не загружен");
            self.log(ts, "Recording blocked: VOSK not loaded");
            return false;
        }
        true
    }

    /// Reads the numeric fields typed by the user into the settings: the block length
    /// (250 when unreadable, at least 20) and the auto-ask delay (0 when unreadable or
    /// negative).
    pub fn sync_numeric_fields(&mut self)
        ensures
            final(self).cfg == (AppConfig {
                chunk_ms: spec_chunk_ms(old(self).chunk_ms_text@),
                auto_ask_sec: spec_auto_ask(old(self).auto_ask_text@),
                ..old(self).cfg
            }),
            final(self).chunk_ms_text == old(self).chunk_ms_text,
            final(self).auto_ask_text == old(self).auto_ask_text,
            final(self).device_names == old(self).device_names,
            final(self).audio_buffer == old(self).audio_buffer,
            same_texts(*old(self), *final(self)),
            same_flags(*old(self), *final(self)),
            same_labels(*old(self), *final(self)),
            final(self).logs == old(self).logs,
    {
        let c = to_int(self.chunk_ms_text.as_str(), 250);
        let a = to_int(self.auto_ask_text.as_str(), 0);
        self.cfg.chunk_ms = if c < 20 { 20 } else { c as u32 };
        self.cfg.auto_ask_sec = if a < 0 { 0 } else { a as u32 };
    }

    /// The settings were saved, or not: logs it, and on success says so in the status.
    pub fn config_saved(&mut self, ts: &str, result: Result<(), String>)
        ensures
            same_texts(*old(self), *final(self)),
            same_flags(*old(self), *final(self)),
            same_setup(*old(self), *final(self)),
            final(self).transcript_hint == old(self).transcript_hint,
            final(self).vosk_status == old(self).vosk_status,
            final(self).big_status == old(self).big_status,
            match result {
                Ok(()) => final(self).status@ == "Настройки сохранены"@
                    && final(self).logs@ == old(self).logs@ + log_line(ts@, "Config saved"@),
                Err(e) => final(self).status == old(self).status
                    && final(self).logs@ == old(self).logs@ + log_line(ts@, "Save error: "@ + e@),
            },
    {
        match result {
            Ok(()) => {
                self.set_status("Настройки сохранены");
                self.log(ts, "Config saved");
            },
            Err(e) => {
                let m = cat("Save error: ", e.as_str());
                self.log(ts, m.as_str());
            },
        }
    }

    /// A recording begins: clears the recorded samples and the transcript, and gives
    /// the configured device for `mode`.
    pub fn recording_begin(&mut self, mode: AudioMode) -> (device: String)
        ensures
            device == match mode {
                AudioMode::Loopback => old(self).cfg.loopback_device,
                AudioMode::Mic => old(self).cfg.mic_device,
            },
            final(self).audio_buffer@.len() == 0,
            final(self).transcript@.len() == 0,
            final(self).cfg == old(self).cfg,
            final(self).question == old(self).question,
            final(self).answer == old(self).answer,
            final(self).history_questions == old(self).history_questions,
            final(self).history_answers == old(self).history_answers,
            same_flags(*old(self), *final(self)),
            same_labels(*old(self), *final(self)),
            final(self).logs == old(self).logs,
    {
        self.audio_buffer = Vec::new();
        self.transcript = String::new();
        match mode {
            AudioMode::Loopback => self.cfg.loopback_device.clone(),
            AudioMode::Mic => self.cfg.mic_device.clone(),
        }
    }

    /// Capturing started from `device` in `mode`.
    pub fn recording_started(&mut self, ts: &str, mode: AudioMode, device: &str)
        ensures
            final(self).recording,
            final(self).record_mode == Some(mode),
            final(self).transcript_hint@ == match mode {
                AudioMode::Loopback => "Источник: LOOPBACK"@,
                AudioMode::Mic => "Источник: MIC"@,
            },
            final(self).status@ == "Запись..."@,
            final(self).logs@ == old(self).logs@ + log_line(ts@, "Recording started: "@ + mode_name(mode) + " ("@ + device@ + ")"@),
            same_texts(*old(self), *final(self)),
            same_setup(*old(self), *final(self)),
            final(self).active_hold == old(self).active_hold,
            final(self).awaiting_transcript == old(self).awaiting_transcript,
            final(self).ai_busy == old(self).ai_busy,
            final(self).stopping == old(self).stopping,
            final(self).vosk_status == old(self).vosk_status,
            final(self).big_status == old(self).big_status,
    {
        self.recording = true;
        self.record_mode = Some(mode);
        self.transcript_hint = match mode {
            AudioMode::Loopback => s("Источник: LOOPBACK"),
            AudioMode::Mic => s("Источник: MIC"),
        };
        self.set_status("Запись...");
        let mut m = s("Recording started: ");
        m.append(match mode {
            AudioMode::Loopback => "Loopback",
            AudioMode::Mic => "Mic",
        });
        m.append(" (");
        m.append(device);
        m.append(")");
        self.log(ts, m.as_str());
    }

    /// Capturing could not start: logs the error and shows it in the status line.
    pub fn recording_failed(&mut self, ts: &str, err: &str)
        ensures
            final(self).status@ == err@,
            final(self).logs@ == old(self).logs@ + log_line(ts@, "Audio error: "@ + err@),
            same_texts(*old(self), *final(self)),
            same_flags(*old(self), *final(self)),
            same_setup(*old(self), *final(self)),
            final(self).transcript_hint == old(self).transcript_hint,
            final(self).vosk_status == old(self).vosk_status,
            final(self).big_status == old(self).big_status,
    {
        let m = cat("Audio error: ", err);
        self.log(ts, m.as_str());
        self.set_status(err);
    }

    /// Ends a running recording; the capture keeps collecting the loopback tail and
    /// the recording is finished by `finish_capture`. Returns whether the host must
    /// signal the capture to stop.
    pub fn stop_recording(&mut self, ts: &str) -> (stop: bool)
        ensures
            stop == old(self).recording,
            !old(self).recording ==> *final(self) == *old(self),
            old(self).recording ==> {
                &&& !final(self).recording
                &&& final(self).stopping
                &&& final(self).record_mode == old(self).record_mode
                &&& final(self).active_hold == old(self).active_hold
                &&& final(self).awaiting_transcript == old(self).awaiting_transcript
                &&& final(self).ai_busy == old(self).ai_busy
                &&& final(self).status@ == "Остановка записи... (сбор хвоста)"@
                &&& final(self).logs@ == old(self).logs@ + log_line(ts@, "Recording stop signalled"@)
                &&& same_texts(*old(self), *final(self)) && same_setup(*old(self), *final(self))
                &&& final(self).transcript_hint == old(self).transcript_hint
                &&& final(self).vosk_status == old(self).vosk_status
                &&& final(self).big_status == old(self).big_status
            },
    {
        if !self.recording {
            return false;
        }
        self.recording = false;
        self.stopping = true;
        self.set_status("Остановка записи... (сбор хвоста)");
        self.log(ts, "Recording stop signalled");
        true
    }

    /// Appends a block of captured samples to the recording.
    pub fn push_audio(&mut self, chunk: &[i16])
        ensures
            final(self).audio_buffer@ == old(self).audio_buffer@ + chunk@,
            same_texts(*old(self), *final(self)),
            same_flags(*old(self), *final(self)),
            same_labels(*old(self), *final(self)),
            final(self).cfg == old(self).cfg,
            final(self).device_names == old(self).device_names,
            final(self).chunk_ms_text == old(self).chunk_ms_text,
            final(self).auto_ask_text == old(self).auto_ask_text,
            final(self).logs == old(self).logs,
    {
        let mut k: usize = 0;
        while k < chunk.len()
            invariant
                k <= chunk.len(),
                self.audio_buffer@ == old(self).audio_buffer@ + chunk@.subrange(0, k as int),
                same_texts(*old(self), *self),
                same_flags(*old(self), *self),
                same_labels(*old(self), *self),
                self.cfg == old(self).cfg,
                self.device_names == old(self).device_names,
                self.chunk_ms_text == old(self).chunk_ms_text,
                self.auto_ask_text == old(self).auto_ask_text,
                self.logs == old(self).logs,
            decreases chunk.len() - k,
        {
            self.audio_buffer.push(chunk[k]);
            k = k + 1;
        }
        assert(chunk@.subrange(0, k as int) =~= chunk@);
    }
}

/// What asking the AI comes to.
#[derive(Debug)]
pub enum AskPlan {
    /// A request is already running.
    Ignored,
    /// There is no question.
    NoText,
    /// Send this (trimmed) question.
    Proceed(String),
}

/// `h` with the entry `x` appended after a blank line (no blank line before the first).
pub open spec fn append_entry(h: Seq<char>, x: Seq<char>) -> Seq<char> {
    if h.len() == 0 { x } else { h + "\n\n"@ + x }
}

fn push_entry(h: &mut String, x: &str)
    ensures
        final(h)@ == append_entry(old(h)@, x@),
{
    if !h.as_str().is_empty() {
        h.append("\n\n");
    }
    h.append(x);
}

impl Session {
    /// Prepares a question for the AI: nothing while a request runs; a notice when the
    /// question is blank; otherwise remembers the previous question (when it differs
    /// from the trimmed one) and the previous real answer, and gives the trimmed question.
    pub fn ask_request(&mut self) -> (r: AskPlan)
        ensures
            old(self).ai_busy ==> r is Ignored && *final(self) == *old(self),
            !old(self).ai_busy && trim(old(self).question@).len() == 0 ==> {
                &&& r is NoText
                &&& final(self).status@ == "Нет текста для AI"@
                &&& same_texts(*old(self), *final(self)) && same_flags(*old(self), *final(self)) && same_setup(*old(self), *final(self))
                &&& final(self).logs == old(self).logs
                &&& final(self).big_status == old(self).big_status
                &&& final(self).vosk_status == old(self).vosk_status
                &&& final(self).transcript_hint == old(self).transcript_hint
            },
            !old(self).ai_busy && trim(old(self).question@).len() != 0 ==> {
                &&& (r matches AskPlan::Proceed(q) && q@ == trim(old(self).question@))
                &&& final(self).prev_question@ == if old(self).prev_question@ != trim(old(self).question@) {
                    old(self).question@
                } else {
                    old(self).prev_question@
                }
                &&& final(self).prev_answer@ == if old(self).answer@.len() != 0 && old(self).answer@ != thinking() {
                    old(self).answer@
                } else {
                    old(self).prev_answer@
                }
                &&& final(self).transcript == old(self).transcript
                &&& final(self).question == old(self).question
                &&& final(self).answer == old(self).answer
                &&& final(self).last_error == old(self).last_error
                &&& final(self).history_questions == old(self).history_questions
                &&& final(self).history_answers == old(self).history_answers
                &&& same_flags(*old(self), *final(self)) && same_labels(*old(self), *final(self)) && same_setup(*old(self), *final(self))
                &&& final(self).logs == old(self).logs
            },
    {
        if self.ai_busy {
            return AskPlan::Ignored;
        }
        let qv = chars_of(self.question.as_str());
        let qt = trim_chars(qv.as_slice());
        if qt.len() == 0 {
            self.set_status("Нет текста для AI");
            return AskPlan::NoText;
        }
        let q = crate::text::string_of(qt.as_slice());
        if !str_eq(self.prev_question.as_str(), q.as_str()) {
            self.prev_question = self.question.clone();
        }
        if !self.answer.as_str().is_empty() && !str_eq(self.answer.as_str(), "Думаю...") {
            self.prev_answer = self.answer.clone();
        }
        AskPlan::Proceed(q)
    }

    /// A question was sent: the answer shows that the AI is thinking, and no other
    /// request may start until this one is answered.
    pub fn ask_started(&mut self, ts: &str)
        ensures
            final(self).answer@ == thinking(),
            final(self).ai_busy,
            final(self).status@ == "Запрос к AI..."@,
            final(self).logs@ == old(self).logs@ + log_line(ts@, "AI request started"@),
            final(self).transcript == old(self).transcript,
            final(self).question == old(self).question,
            final(self).prev_question == old(self).prev_question,
            final(self).prev_answer == old(self).prev_answer,
            final(self).last_error == old(self).last_error,
            final(self).history_questions == old(self).history_questions,
            final(self).history_answers == old(self).history_answers,
            final(self).recording == old(self).recording,
            final(self).record_mode == old(self).record_mode,
            final(self).active_hold == old(self).active_hold,
            final(self).awaiting_transcript == old(self).awaiting_transcript,
            final(self).stopping == old(self).stopping,
            same_setup(*old(self), *final(self)),
            final(self).transcript_hint == old(self).transcript_hint,
            final(self).vosk_status == old(self).vosk_status,
            final(self).big_status == old(self).big_status,
    {
        self.answer = s("Думаю...");
        self.ai_busy = true;
        self.set_status("Запрос к AI...");
        self.log(ts, "AI request started");
    }

    /// The AI answered or failed. An answer becomes the shown answer; an error keeps
    /// the last answer and is shown below it. Either way the question and the answer
    /// (or the marked error) are added to the history, and a new request may start.
    pub fn apply_ai_event(&mut self, ts: &str, event: AiEvent)
        ensures
            !final(self).ai_busy,
            final(self).big_status@.len() == 0,
            final(self).history_questions@ == if old(self).question@.len() != 0 {
                append_entry(old(self).history_questions@, old(self).question@)
            } else {
                old(self).history_questions@
            },
            match event {
                AiEvent::Answer(text) => {
                    &&& final(self).answer == text
                    &&& final(self).history_answers@ == if text@.len() != 0 {
                        append_entry(old(self).history_answers@, text@)
                    } else {
                        old(self).history_answers@
                    }
                    &&& final(self).last_error == old(self).last_error
                    &&& final(self).status@ == "Ответ получен"@
                    &&& final(self).logs@ == old(self).logs@ + log_line(ts@, "AI request completed"@)
                },
                AiEvent::Error(err) => {
                    &&& final(self).answer == old(self).answer
                    &&& final(self).history_answers@ == append_entry(old(self).history_answers@, "[ОШИБКА] "@ + err@)
                    &&& final(self).last_error@ == "Ошибка AI: "@ + err@
                    &&& final(self).status@ == "Ошибка AI"@
                    &&& final(self).logs@ == old(self).logs@ + log_line(ts@, "AI error: "@ + err@)
                },
            },
            final(self).transcript == old(self).transcript,
            final(self).question == old(self).question,
            final(self).prev_question == old(self).prev_question,
            final(self).prev_answer == old(self).prev_answer,
            final(self).recording == old(self).recording,
            final(self).record_mode == old(self).record_mode,
            final(self).active_hold == old(self).active_hold,
            final(self).awaiting_transcript == old(self).awaiting_transcript,
            final(self).stopping == old(self).stopping,
            same_setup(*old(self), *final(self)),
            final(self).transcript_hint == old(self).transcript_hint,
            final(self).vosk_status == old(self).vosk_status,
    {
        if !self.question.as_str().is_empty() {
            push_entry(&mut self.history_questions, self.question.as_str());
        }
        match event {
            AiEvent::Answer(text) => {
                if !text.as_str().is_empty() {
                    push_entry(&mut self.history_answers, text.as_str());
                }
                self.answer = text;
                self.big_status = String::new();
                self.set_status("Ответ получен");
                self.log(ts, "AI request completed");
            },
            AiEvent::Error(err) => {
                let marked = cat("[ОШИБКА] ", err.as_str());
                push_entry(&mut self.history_answers, marked.as_str());
                self.last_error = cat("Ошибка AI: ", err.as_str());
                self.big_status = String::new();
                self.set_status("Ошибка AI");
                let m = cat("AI error: ", err.as_str());
                self.log(ts, m.as_str());
            },
        }
        self.ai_busy = false;
    }

    /// After five seconds without an answer, warns that the AI does not respond.
    pub fn check_ai_timeout(&mut self, waited_five_seconds: bool)
        ensures
            old(self).ai_busy && waited_five_seconds ==> {
                &&& final(self).big_status@ == "Нет ответа от ИИ, проверьте доступность модели"@
                &&& final(self).status@ == "Таймаут AI"@
                &&& same_texts(*old(self), *final(self)) && same_flags(*old(self), *final(self)) && same_setup(*old(self), *final(self))
                &&& final(self).logs == old(self).logs
                &&& final(self).transcript_hint == old(self).transcript_hint
                &&& final(self).vosk_status == old(self).vosk_status
            },
            !(old(self).ai_busy && waited_five_seconds) ==> *final(self) == *old(self),
    {
        if self.ai_busy && waited_five_seconds {
            self.big_status = s("Нет ответа от ИИ, проверьте доступность модели");
            self.set_status("Таймаут AI");
        }
    }

    /// Shows the recogniser as ready once it is loaded and no load is running.
    pub fn mark_vosk_ready(&mut self, loaded: bool, loading: bool)
        ensures
            loaded && !loading ==> final(self).vosk_status@ == "ready"@,
            !(loaded && !loading) ==> final(self).vosk_status == old(self).vosk_status,
            same_texts(*old(self), *final(self)),
            same_flags(*old(self), *final(self)),
            same_setup(*old(self), *final(self)),
            final(self).status == old(self).status,
            final(self).transcript_hint == old(self).transcript_hint,
            final(self).big_status == old(self).big_status,
            final(self).logs == old(self).logs,
    {
        if loaded && !loading && !str_eq(self.vosk_status.as_str(), "ready") {
            self.vosk_status = s("ready");
        }
    }

    /// The recogniser reported: a recognised text is added to the transcript as a
    /// line `[source] text`, and when the end of a recording was awaited, the
    /// transcript becomes the question and the result is `true` (ask the AI now).
    pub fn apply_transcript_event(&mut self, ts: &str, event: TranscriptEvent) -> (ask: bool)
        ensures
            match event {
                TranscriptEvent::Final { text, source } => {
                    let line = "["@ + source@ + "] "@ + text@;
                    let t = old(self).transcript@;
                    &&& final(self).transcript@ == if t.len() != 0 && t.last() != '\n' { t.push('\n') + line } else { t + line }
                    &&& final(self).big_status@.len() == 0
                    &&& ask == old(self).awaiting_transcript
                    &&& !final(self).awaiting_transcript
                    &&& final(self).question@ == if old(self).awaiting_transcript { final(self).transcript@ } else { old(self).question@ }
                    &&& final(self).vosk_status == old(self).vosk_status
                    &&& final(self).logs == old(self).logs
                },
                TranscriptEvent::Status(msg) => {
                    &&& !ask
                    &&& final(self).vosk_status == msg
                    &&& final(self).transcript == old(self).transcript
                    &&& final(self).question == old(self).question
                    &&& final(self).big_status == old(self).big_status
                    &&& final(self).awaiting_transcript == old(self).awaiting_transcript
                    &&& final(self).logs@ == old(self).logs@ + log_line(ts@, msg@)
                },
                TranscriptEvent::Error(msg) => {
                    &&& !ask
                    &&& final(self).vosk_status@ == "error"@
                    &&& final(self).transcript == old(self).transcript
                    &&& final(self).question == old(self).question
                    &&& final(self).big_status@.len() == 0
                    &&& final(self).awaiting_transcript == old(self).awaiting_transcript
                    &&& final(self).logs@ == old(self).logs@ + log_line(ts@, msg@)
                },
            },
            final(self).answer == old(self).answer,
            final(self).prev_question == old(self).prev_question,
            final(self).prev_answer == old(self).prev_answer,
            final(self).last_error == old(self).last_error,
            final(self).history_questions == old(self).history_questions,
            final(self).history_answers == old(self).history_answers,
            final(self).recording == old(self).recording,
            final(self).record_mode == old(self).record_mode,
            final(self).active_hold == old(self).active_hold,
            final(self).ai_busy == old(self).ai_busy,
            final(self).stopping == old(self).stopping,
            same_setup(*old(self), *final(self)),
            final(self).status == old(self).status,
            final(self).transcript_hint == old(self).transcript_hint,
    {
        match event {
            TranscriptEvent::Final { text, source } => {
                let tv = chars_of(self.transcript.as_str());
                if tv.len() != 0 && tv[tv.len() - 1] != '\n' {
                    crate::text::push_char(&mut self.transcript, '\n');
                }
                self.transcript.append("[");
                self.transcript.append(source.as_str());
                self.transcript.append("] ");
                self.transcript.append(text.as_str());
                self.big_status = String::new();
                if self.awaiting_transcript {
                    self.awaiting_transcript = false;
                    self.question = self.transcript.clone();
                    return true;
                }
                false
            },
            TranscriptEvent::Status(msg) => {
                self.log(ts, msg.as_str());
                self.vosk_status = msg;
                false
            },
            TranscriptEvent::Error(msg) => {
                self.vosk_status = s("error");
                self.big_status = String::new();
                self.log(ts, msg.as_str());
                false
            },
        }
    }

    /// The capture has finished collecting the tail of a stopped recording: gives the
    /// whole recording, with its source, for recognition (nothing when it is empty),
    /// clears it, and waits for the transcript. Nothing happens unless a recording was
    /// being stopped.
    pub fn finish_capture(&mut self, ts: &str) -> (r: Option<(Vec<i16>, String)>)
        ensures
            !old(self).stopping ==> r is None && *final(self) == *old(self),
            old(self).stopping ==> {
                &&& match r {
                    Some((samples, source)) => samples@ == old(self).audio_buffer@ && samples@.len() > 0
                        && source@ == source_name(old(self).record_mode)
                        && (old(self).record_mode == Some(AudioMode::Mic) ==> source@ == "MIC"@)
                        && (old(self).record_mode == Some(AudioMode::Loopback) ==> source@ == "LOOPBACK"@)
                        && (old(self).record_mode is None ==> source@ == "AUDIO"@),
                    None => old(self).audio_buffer@.len() == 0,
                }
                &&& final(self).audio_buffer@.len() == 0
                &&& !final(self).stopping
                &&& final(self).record_mode is None
                &&& final(self).awaiting_transcript
                &&& final(self).transcript_hint@ == "Live speech stream"@
                &&& final(self).big_status@ == "Запись остановлена, распознавание..."@
                &&& final(self).status@ == "Запись остановлена, распознавание..."@
                &&& final(self).logs@ == old(self).logs@ + log_line(ts@, "Recording stopped (tail collected)"@)
                &&& same_texts(*old(self), *final(self))
                &&& final(self).recording == old(self).recording
                &&& final(self).active_hold == old(self).active_hold
                &&& final(self).ai_busy == old(self).ai_busy
                &&& final(self).cfg == old(self).cfg
                &&& final(self).device_names == old(self).device_names
                &&& final(self).chunk_ms_text == old(self).chunk_ms_text
                &&& final(self).auto_ask_text == old(self).auto_ask_text
                &&& final(self).vosk_status == old(self).vosk_status
            },
    {
        if !self.stopping {
            return None;
        }
        self.stopping = false;
        let source = match self.record_mode {
            Some(AudioMode::Loopback) => "LOOPBACK",
            Some(AudioMode::Mic) => "MIC",
            None => "AUDIO",
        };
        let mut samples: Vec<i16> = Vec::new();
        std::mem::swap(&mut samples, &mut self.audio_buffer);
        let r = if samples.len() > 0 {
            Some((samples, s(source)))
        } else {
            None
        };
        self.record_mode = None;
        self.transcript_hint = s("Live speech stream");
        self.big_status = s("Запись остановлена, распознавание...");
        self.set_status("Запись остановлена, распознавание...");
        self.log(ts, "Recording stopped (tail collected)");
        self.awaiting_transcript = true;
        r
    }
}

impl Session {
    /// Takes a fresh device list: keeps the names, fills in the loopback and microphone
    /// devices when none is configured (with the first device of that kind, if any),
    /// and reports the count.
    pub fn refresh_devices(&mut self, ts: &str, devices: &[AudioDeviceInfo])
        ensures
            final(self).device_names@.map_values(|n: String| n@) == devices@.map_values(|d: AudioDeviceInfo| d.name@),
            final(self).cfg.loopback_device@ == if old(self).cfg.loopback_device@.len() == 0 {
                first_name_or(devices@, |n: Seq<char>| spec_is_loopback_name(n), old(self).cfg.loopback_device@)
            } else {
                old(self).cfg.loopback_device@
            },
            final(self).cfg.mic_device@ == if old(self).cfg.mic_device@.len() == 0 {
                first_name_or(devices@, |n: Seq<char>| spec_is_mic_name(n), old(self).cfg.mic_device@)
            } else {
                old(self).cfg.mic_device@
            },
            final(self).status@ == "Устройств: "@ + crate::text::decimal(devices@.len()),
            final(self).logs@ == old(self).logs@ + log_line(ts@, "Devices refreshed: "@ + crate::text::decimal(devices@.len())),
            same_texts(*old(self), *final(self)),
            same_flags(*old(self), *final(self)),
            final(self).audio_buffer == old(self).audio_buffer,
            final(self).transcript_hint == old(self).transcript_hint,
            final(self).vosk_status == old(self).vosk_status,
            final(self).big_status == old(self).big_status,
            final(self).cfg == (AppConfig {
                loopback_device: final(self).cfg.loopback_device,
                mic_device: final(self).cfg.mic_device,
                ..old(self).cfg
            }),
            final(self).chunk_ms_text == old(self).chunk_ms_text,
            final(self).auto_ask_text == old(self).auto_ask_text,
    {
        let mut names: Vec<String> = Vec::new();
        let mut i: usize = 0;
        while i < devices.len()
            invariant
                i <= devices.len(),
                names@.map_values(|n: String| n@) == devices@.take(i as int).map_values(|d: AudioDeviceInfo| d.name@),
            decreases devices.len() - i,
        {
            let ghost before = names@;
            names.push(devices[i].name.clone());
            assert(names@.map_values(|n: String| n@) =~= devices@.take(i + 1).map_values(|d: AudioDeviceInfo| d.name@)) by {
                assert(devices@.take(i + 1).map_values(|d: AudioDeviceInfo| d.name@) =~= devices@.take(i as int).map_values(|d: AudioDeviceInfo| d.name@).push(devices@[i as int].name@));
                assert(names@.map_values(|n: String| n@) =~= before.map_values(|n: String| n@).push(names@[i as int]@));
            }
            i = i + 1;
        }
        assert(devices@.take(devices.len() as int) =~= devices@);
        self.device_names = names;
        if self.cfg.loopback_device.as_str().is_empty() {
            if let Some(d) = find_loopback_device(devices) {
                self.cfg.loopback_device = d.name;
            }
        }
        if self.cfg.mic_device.as_str().is_empty() {
            if let Some(d) = find_mic_device(devices) {
                self.cfg.mic_device = d.name;
            }
        }
        let n = crate::text::decimal_chars(devices.len() as u64);
        let ns = crate::text::string_of(n.as_slice());
        let st = cat("Устройств: ", ns.as_str());
        self.set_status(st.as_str());
        let m = cat("Devices refreshed: ", ns.as_str());
        self.log(ts, m.as_str());
    }

    /// Looks for a loopback device: configures the first one found, or reports none.
    pub fn detect_loopback(&mut self, ts: &str, devices: &[AudioDeviceInfo])
        ensures
            match found_first(devices@, |n: Seq<char>| spec_is_loopback_name(n)) {
                Some(name) => final(self).cfg.loopback_device@ == name
                    && final(self).status@ == "Loopback найден"@
                    && final(self).logs@ == old(self).logs@ + log_line(ts@, "Loopback: "@ + name),
                None => final(self).cfg.loopback_device == old(self).cfg.loopback_device
                    && final(self).status@ == "Loopback не найден"@
                    && final(self).logs@ == old(self).logs@ + log_line(ts@, "Loopback not found"@),
            },
            final(self).cfg == (AppConfig { loopback_device: final(self).cfg.loopback_device, ..old(self).cfg }),
            same_texts(*old(self), *final(self)),
            same_flags(*old(self), *final(self)),
            final(self).device_names == old(self).device_names,
            final(self).audio_buffer == old(self).audio_buffer,
            final(self).chunk_ms_text == old(self).chunk_ms_text,
            final(self).auto_ask_text == old(self).auto_ask_text,
            final(self).transcript_hint == old(self).transcript_hint,
            final(self).vosk_status == old(self).vosk_status,
            final(self).big_status == old(self).big_status,
    {
        match find_loopback_device(devices) {
            Some(d) => {
                self.cfg.loopback_device = d.name.clone();
                self.set_status("Loopback найден");
                let m = cat("Loopback: ", d.name.as_str());
                self.log(ts, m.as_str());
            },
            None => {
                self.set_status("Loopback не найден");
                self.log(ts, "Loopback not found");
            },
        }
    }

    /// Looks for a microphone: configures the first one found, or reports none.
    pub fn detect_mic(&mut self, ts: &str, devices: &[AudioDeviceInfo])
        ensures
            match found_first(devices@, |n: Seq<char>| spec_is_mic_name(n)) {
                Some(name) => final(self).cfg.mic_device@ == name
                    && final(self).status@ == "Микрофон найден"@
                    && final(self).logs@ == old(self).logs@ + log_line(ts@, "Mic: "@ + name),
                None => final(self).cfg.mic_device == old(self).cfg.mic_device
                    && final(self).status@ == "Микрофон не найден"@
                    && final(self).logs@ == old(self).logs@ + log_line(ts@, "Mic not found"@),
            },
            final(self).cfg == (AppConfig { mic_device: final(self).cfg.mic_device, ..old(self).cfg }),
            same_texts(*old(self), *final(self)),
            same_flags(*old(self), *final(self)),
            final(self).device_names == old(self).device_names,
            final(self).audio_buffer == old(self).audio_buffer,
            final(self).chunk_ms_text == old(self).chunk_ms_text,
            final(self).auto_ask_text == old(self).auto_ask_text,
            final(self).transcript_hint == old(self).transcript_hint,
            final(self).vosk_status == old(self).vosk_status,
            final(self).big_status == old(self).big_status,
    {
        match find_mic_device(devices) {
            Some(d) => {
                self.cfg.mic_device = d.name.clone();
                self.set_status("Микрофон найден");
                let m = cat("Mic: ", d.name.as_str());
                self.log(ts, m.as_str());
            },
            None => {
                self.set_status("Микрофон не найден");
                self.log(ts, "Mic not found");
            },
        }
    }

    /// Decides whether to load the recogniser's model: not without a configured path,
    /// nor while it is loading or loaded. Gives the path to load.
    pub fn vosk_load_request(&mut self, ts: &str, loading: bool, loaded: bool) -> (r: Option<String>)
        ensures
            old(self).cfg.vosk_model_path@.len() == 0 ==> r is None
                && final(self).vosk_status@ == "no model path"@
                && final(self).logs@ == old(self).logs@ + log_line(ts@, "VOSK: no model path configured"@),
            old(self).cfg.vosk_model_path@.len() != 0 && loading ==> r is None
                && final(self).vosk_status == old(self).vosk_status
                && final(self).logs@ == old(self).logs@ + log_line(ts@, "VOSK: already loading, skipping"@),
            old(self).cfg.vosk_model_path@.len() != 0 && !loading && loaded ==> r is None
                && final(self).vosk_status == old(self).vosk_status
                && final(self).logs@ == old(self).logs@ + log_line(ts@, "VOSK: already loaded, skipping"@),
            old(self).cfg.vosk_model_path@.len() != 0 && !loading && !loaded ==> r == Some(old(self).cfg.vosk_model_path)
                && final(self).vosk_status@ == "loading..."@
                && final(self).logs@ == old(self).logs@ + log_line(ts@, "VOSK load started: "@ + old(self).cfg.vosk_model_path@),
            same_texts(*old(self), *final(self)),
            same_flags(*old(self), *final(self)),
            same_setup(*old(self), *final(self)),
            final(self).status == old(self).status,
            final(self).transcript_hint == old(self).transcript_hint,
            final(self).big_status == old(self).big_status,
    {
        let path = self.cfg.vosk_model_path.clone();
        if path.as_str().is_empty() {
            self.vosk_status = s("no model path");
            self.log(ts, "VOSK: no model path configured");
            return None;
        }
        if loading {
            self.log(ts, "VOSK: already loading, skipping");
            return None;
        }
        if loaded {
            self.log(ts, "VOSK: already loaded, skipping");
            return None;
        }
        self.vosk_status = s("loading...");
        let m = cat("VOSK load started: ", path.as_str());
        self.log(ts, m.as_str());
        Some(path)
    }

    /// Brings back the previous question and answer, unless the previous answer is
    /// missing or was an error.
    pub fn restore_previous(&mut self)
        ensures
            old(self).prev_answer@.len() != 0 && !is_error_text(old(self).prev_answer@) ==> {
                &&& final(self).answer == old(self).prev_answer
                &&& final(self).transcript == old(self).prev_question
                &&& final(self).question == old(self).prev_question
                &&& final(self).status@ == "Восстановлен предыдущий вопрос и ответ"@
            },
            is_error_text(old(self).prev_answer@) ==> {
                &&& final(self).answer == old(self).answer
                &&& final(self).transcript == old(self).transcript
                &&& final(self).question == old(self).question
                &&& final(self).status@ == "Предыдущий ответ был ошибочным, не восстанавливаем"@
            },
            old(self).prev_answer@.len() == 0 ==> {
                &&& final(self).answer == old(self).answer
                &&& final(self).transcript == old(self).transcript
                &&& final(self).question == old(self).question
                &&& final(self).status@ == "Нет предыдущего ответа"@
            },
            final(self).prev_question == old(self).prev_question,
            final(self).prev_answer == old(self).prev_answer,
            final(self).last_error == old(self).last_error,
            final(self).history_questions == old(self).history_questions,
            final(self).history_answers == old(self).history_answers,
            same_flags(*old(self), *final(self)),
            same_setup(*old(self), *final(self)),
            final(self).logs == old(self).logs,
            final(self).big_status == old(self).big_status,
    {
        let pv = chars_of(self.prev_answer.as_str());
        let marker = chars_of("Ошибка AI:");
        proof {
            reveal_strlit("Ошибка AI:");
        }
        let is_err = starts_with_chars(pv.as_slice(), marker.as_slice());
        if pv.len() != 0 && !is_err {
            self.answer = self.prev_answer.clone();
            self.transcript = self.prev_question.clone();
            self.question = self.prev_question.clone();
            self.set_status("Восстановлен предыдущий вопрос и ответ");
        } else if is_err {
            self.set_status("Предыдущий ответ был ошибочным, не восстанавливаем");
        } else {
            self.set_status("Нет предыдущего ответа");
        }
    }

    /// Takes imported settings and shows their numeric fields.
    pub fn apply_imported_config(&mut self, ts: &str, cfg: AppConfig, from: &str)
        ensures
            final(self).cfg == cfg,
            final(self).chunk_ms_text@ == crate::text::decimal(cfg.chunk_ms as nat),
            final(self).auto_ask_text@ == crate::text::decimal(cfg.auto_ask_sec as nat),
            final(self).logs@ == old(self).logs@ + log_line(ts@, "Imported: "@ + from@),
            final(self).device_names == old(self).device_names,
            final(self).audio_buffer == old(self).audio_buffer,
            same_texts(*old(self), *final(self)),
            same_flags(*old(self), *final(self)),
            same_labels(*old(self), *final(self)),
    {
        let c = crate::text::decimal_chars(cfg.chunk_ms as u64);
        let a = crate::text::decimal_chars(cfg.auto_ask_sec as u64);
        self.cfg = cfg;
        self.chunk_ms_text = crate::text::string_of(c.as_slice());
        self.auto_ask_text = crate::text::string_of(a.as_slice());
        let m = cat("Imported: ", from);
        self.log(ts, m.as_str());
    }

    /// Reports the outcome of a connection test in the log and the status line.
    pub fn ai_test_done(&mut self, ts: &str, result: &AiTestResult)
        ensures
            final(self).status == result.message,
            final(self).logs@ == old(self).logs@ + log_line(
                ts@,
                "AI test: "@ + (if result.ok { "OK"@ } else { "FAIL"@ }) + " — "@ + result.message@,
            ),
            same_texts(*old(self), *final(self)),
            same_flags(*old(self), *final(self)),
            same_setup(*old(self), *final(self)),
            final(self).transcript_hint == old(self).transcript_hint,
            final(self).vosk_status == old(self).vosk_status,
            final(self).big_status == old(self).big_status,
    {
        let mut m = s("AI test: ");
        m.append(if result.ok { "OK" } else { "FAIL" });
        m.append(" — ");
        m.append(result.message.as_str());
        self.log(ts, m.as_str());
        self.status = result.message.clone();
    }
}

/// A previous answer that records an AI error.
pub open spec fn is_error_text(t: Seq<char>) -> bool {
    "Ошибка AI:"@.len() <= t.len() && t.take("Ошибка AI:"@.len() as int) == "Ошибка AI:"@
}

fn starts_with_chars(t: &[char], p: &[char]) -> (r: bool)
    ensures
        r == (p@.len() <= t@.len() && t@.take(p@.len() as int) == p@),
{
    if p.len() > t.len() {
        return false;
    }
    let mut i: usize = 0;
    while i < p.len()
        invariant
            p.len() <= t.len(),
            i <= p.len(),
            forall|k: int| 0 <= k < i ==> t@[k] == p@[k],
        decreases p.len() - i,
    {
        if t[i] != p[i] {
            assert(t@.take(p@.len() as int)[i as int] != p@[i as int]);
            assert(!(t@.take(p@.len() as int) =~= p@));
            return false;
        }
        i = i + 1;
    }
    assert(t@.take(p@.len() as int) =~= p@);
    true
}

/// The name of the first device whose name satisfies `p`, if any.
pub open spec fn found_first(devices: Seq<AudioDeviceInfo>, p: spec_fn(Seq<char>) -> bool) -> Option<Seq<char>> {
    if exists|d: AudioDeviceInfo| is_first_where(devices, p, Some(d)) {
        Some((choose|d: AudioDeviceInfo| is_first_where(devices, p, Some(d))).name@)
    } else {
        None
    }
}

/// The name of the first device whose name satisfies `p`, or `dflt`.
pub open spec fn first_name_or(devices: Seq<AudioDeviceInfo>, p: spec_fn(Seq<char>) -> bool, dflt: Seq<char>) -> Seq<char> {
    match found_first(devices, p) {
        Some(n) => n,
        None => dflt,
    }
}

/// The source label of a recording in the transcript.
pub open spec fn source_name(mode: Option<AudioMode>) -> Seq<char> {
    match mode {
        Some(AudioMode::Loopback) => "LOOPBACK"@,
        Some(AudioMode::Mic) => "MIC"@,
        None => "AUDIO"@,
    }
}

/// How a mode is written in the log.
pub open spec fn mode_name(mode: AudioMode) -> Seq<char> {
    match mode {
        AudioMode::Loopback => "Loopback"@,
        AudioMode::Mic => "Mic"@,
    }
}

/// The block length in the settings for the typed text `t`.
pub open spec fn spec_chunk_ms(t: Seq<char>) -> u32 {
    let v = match parse_i32(trim(t)) {
        Some(v) => v as int,
        None => 250,
    };
    if v < 20 { 20 } else { v as u32 }
}

/// The auto-ask delay in the settings for the typed text `t`.
pub open spec fn spec_auto_ask(t: Seq<char>) -> u32 {
    let v = match parse_i32(trim(t)) {
        Some(v) => v as int,
        None => 0,
    };
    if v < 0 { 0 } else { v as u32 }
}

/// Which key is held after `action`.
pub open spec fn spec_hold_after(hold: Option<HotkeySide>, action: HotkeyAction) -> Option<HotkeySide> {
    match action {
        HotkeyAction::LoopbackPress => if hold is None { Some(HotkeySide::Left) } else { hold },
        HotkeyAction::MicPress => if hold is None { Some(HotkeySide::Right) } else { hold },
        HotkeyAction::LoopbackRelease => if hold == Some(HotkeySide::Left) { None } else { hold },
        HotkeyAction::MicRelease => if hold == Some(HotkeySide::Right) { None } else { hold },
    }
}

/// What the host must do after `action`.
pub open spec fn spec_hotkey_outcome(hold: Option<HotkeySide>, mode: Option<AudioMode>, action: HotkeyAction) -> HotkeyOutcome {
    match action {
        HotkeyAction::LoopbackPress => if hold is None { HotkeyOutcome::StartRecording(AudioMode::Loopback) } else { HotkeyOutcome::Nothing },
        HotkeyAction::MicPress => if hold is None { HotkeyOutcome::StartRecording(AudioMode::Mic) } else { HotkeyOutcome::Nothing },
        HotkeyAction::LoopbackRelease => if hold == Some(HotkeySide::Left) && mode == Some(AudioMode::Loopback) {
            HotkeyOutcome::StopRecording
        } else {
            HotkeyOutcome::Nothing
        },
        HotkeyAction::MicRelease => if hold == Some(HotkeySide::Right) && mode == Some(AudioMode::Mic) {
            HotkeyOutcome::StopRecording
        } else {
            HotkeyOutcome::Nothing
        },
    }
}

/// Holding a key and letting it go: a press with no key held starts a recording from
/// that key's source and marks the key as held; its release ends the hold and stops
/// the recording when it runs from that source.
pub proof fn lemma_press_then_release(mode: Option<AudioMode>)
    ensures
        spec_hold_after(None, HotkeyAction::LoopbackPress) == Some(HotkeySide::Left),
        spec_hotkey_outcome(None, mode, HotkeyAction::LoopbackPress) == HotkeyOutcome::StartRecording(AudioMode::Loopback),
        spec_hold_after(Some(HotkeySide::Left), HotkeyAction::LoopbackRelease) is None,
        spec_hotkey_outcome(Some(HotkeySide::Left), mode, HotkeyAction::LoopbackRelease)
            == if mode == Some(AudioMode::Loopback) { HotkeyOutcome::StopRecording } else { HotkeyOutcome::Nothing },
        spec_hold_after(None, HotkeyAction::MicPress) == Some(HotkeySide::Right),
        spec_hotkey_outcome(None, mode, HotkeyAction::MicPress) == HotkeyOutcome::StartRecording(AudioMode::Mic),
        spec_hold_after(Some(HotkeySide::Right), HotkeyAction::MicRelease) is None,
        spec_hotkey_outcome(Some(HotkeySide::Right), mode, HotkeyAction::MicRelease)
            == if mode == Some(AudioMode::Mic) { HotkeyOutcome::StopRecording } else { HotkeyOutcome::Nothing },
{
}

/// While one key is held, the other key is ignored: its press and its release change
/// neither the hold nor the recording.
pub proof fn lemma_other_key_ignored(mode: Option<AudioMode>)
    ensures
        spec_hold_after(Some(HotkeySide::Left), HotkeyAction::MicPress) == Some(HotkeySide::Left),
        spec_hold_after(Some(HotkeySide::Left), HotkeyAction::MicRelease) == Some(HotkeySide::Left),
        spec_hotkey_outcome(Some(HotkeySide::Left), mode, HotkeyAction::MicPress) == HotkeyOutcome::Nothing,
        spec_hotkey_outcome(Some(HotkeySide::Left), mode, HotkeyAction::MicRelease) == HotkeyOutcome::Nothing,
        spec_hold_after(Some(HotkeySide::Right), HotkeyAction::LoopbackPress) == Some(HotkeySide::Right),
        spec_hold_after(Some(HotkeySide::Right), HotkeyAction::LoopbackRelease) == Some(HotkeySide::Right),
        spec_hotkey_outcome(Some(HotkeySide::Right), mode, HotkeyAction::LoopbackPress) == HotkeyOutcome::Nothing,
        spec_hotkey_outcome(Some(HotkeySide::Right), mode, HotkeyAction::LoopbackRelease) == HotkeyOutcome::Nothing,
{
}

/// A recording is only ever started when no key was held, and only ever stopped by
/// the release of the held key whose source is recording; afterwards no key is held.
pub proof fn lemma_hotkey_discipline(hold: Option<HotkeySide>, mode: Option<AudioMode>, action: HotkeyAction)
    ensures
        spec_hotkey_outcome(hold, mode, action) is StartRecording ==> hold is None
            && spec_hold_after(hold, action) is Some,
        spec_hotkey_outcome(hold, mode, action) is StopRecording ==> {
            &&& spec_hold_after(hold, action) is None
            &&& (hold == Some(HotkeySide::Left) && mode == Some(AudioMode::Loopback)
                || hold == Some(HotkeySide::Right) && mode == Some(AudioMode::Mic))
        },
        hold is Some && spec_hold_after(hold, action) is Some ==> spec_hold_after(hold, action) == hold,
{
}

/// A press never interrupts a hold: while a key is held, a press of either key (such
/// as the key's own auto-repeat) keeps the hold and asks for nothing.
pub proof fn lemma_press_while_held_ignored(side: HotkeySide, mode: Option<AudioMode>, action: HotkeyAction)
    requires
        action == HotkeyAction::LoopbackPress || action == HotkeyAction::MicPress,
    ensures
        spec_hold_after(Some(side), action) == Some(side),
        spec_hotkey_outcome(Some(side), mode, action) == HotkeyOutcome::Nothing,
{
}

/// Only a release stops a recording, and only a press starts one.
pub proof fn lemma_stop_only_on_release(hold: Option<HotkeySide>, mode: Option<AudioMode>, action: HotkeyAction)
    ensures
        spec_hotkey_outcome(hold, mode, action) == HotkeyOutcome::StopRecording
            ==> action == HotkeyAction::LoopbackRelease || action == HotkeyAction::MicRelease,
        spec_hotkey_outcome(hold, mode, action) is StartRecording
            ==> action == HotkeyAction::LoopbackPress || action == HotkeyAction::MicPress,
{
}

/// The source named with a recording tells its mode: "LOOPBACK" for system sound,
/// "MIC" for the microphone, "AUDIO" without a mode; the two modes never share a name,
/// and each is the one shown in the transcript hint while that mode records.
pub proof fn lemma_source_names_mode(m: AudioMode, other: AudioMode)
    ensures
        source_name(Some(AudioMode::Loopback)) == "LOOPBACK"@,
        source_name(Some(AudioMode::Mic)) == "MIC"@,
        source_name(None) == "AUDIO"@,
        m != other ==> source_name(Some(m)) != source_name(Some(other)),
        source_name(Some(m)) != source_name(None),
        "Источник: "@ + source_name(Some(m)) == match m {
            AudioMode::Loopback => "Источник: LOOPBACK"@,
            AudioMode::Mic => "Источник: MIC"@,
        },
{
    reveal_strlit("LOOPBACK");
    reveal_strlit("MIC");
    reveal_strlit("AUDIO");
    reveal_strlit("Источник: ");
    reveal_strlit("Источник: LOOPBACK");
    reveal_strlit("Источник: MIC");
    assert("LOOPBACK"@.len() != "MIC"@.len());
    assert("LOOPBACK"@[0] != "AUDIO"@[0]);
    assert("MIC"@.len() != "AUDIO"@.len());
    assert("Источник: "@ + "LOOPBACK"@ =~= "Источник: LOOPBACK"@);
    assert("Источник: "@ + "MIC"@ =~= "Источник: MIC"@);
}

} // verus!
