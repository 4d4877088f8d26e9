//! The conversation with the AI provider: its history, the messages sent, where they
//! are sent, and how a reply is read.

use vstd::prelude::*;
use crate::text::{cat, cat3, chars_of, decimal, decimal_chars, extend_chars, lowercase, str_eq, string_of, to_lowercase, trim, trim_chars};

verus! {

/// One chat message: its role ("system", "user" or "assistant") and text.
#[derive(Clone, Debug)]
pub struct AiMessage {
    pub role: String,
    pub content: String,
}

/// The outcome of a connection test.
#[derive(Clone, Debug)]
pub struct AiTestResult {
    pub ok: bool,
    pub message: String,
}

/// What an AI request reports back.
#[derive(Clone, Debug)]
pub enum AiEvent {
    Answer(String),
    Error(String),
}

/// The message as plain text: role and content.
pub open spec fn msg_view(m: AiMessage) -> (Seq<char>, Seq<char>) {
    (m.role@, m.content@)
}

/// The messages as plain text.
pub open spec fn msgs_view(ms: Seq<AiMessage>) -> Seq<(Seq<char>, Seq<char>)> {
    ms.map_values(|m: AiMessage| msg_view(m))
}

/// How many messages the conversation keeps.
pub const MAX_HISTORY: usize = 20;

/// The last `max` items of `s` (all of them when there are fewer).
pub open spec fn last_n<A>(s: Seq<A>, max: nat) -> Seq<A> {
    if s.len() <= max {
        s
    } else {
        s.skip(s.len() - max)
    }
}

/// Why a question was not sent.
#[derive(Clone, Copy, Debug, PartialEq, Eq, Structural)]
pub enum AskError {
    /// The question is blank.
    EmptyQuestion,
    /// No API key is configured.
    NoApiKey,
    /// The API key holds no usable character.
    InvalidApiKey,
    /// No GigaChat authorization key is configured.
    NoGigaChatKey,
    /// GigaChat returned an empty access token.
    EmptyToken,
}

impl AskError {
    /// The message the program shows for this error.
    pub fn message(&self) -> (r: &'static str)
        ensures
            r@ == spec_ask_error_message(*self),
    {
        match self {
            AskError::EmptyQuestion => "Пустой запрос",
            AskError::NoApiKey => "Не указан API Key",
            AskError::InvalidApiKey => "API Key содержит только недопустимые символы",
            AskError::NoGigaChatKey => "GigaChat: не указан Authorization Key",
            AskError::EmptyToken => "GigaChat OAuth: получен пустой токен",
        }
    }
}

/// The message of each error.
pub open spec fn spec_ask_error_message(e: AskError) -> Seq<char> {
    match e {
        AskError::EmptyQuestion => "Пустой запрос"@,
        AskError::NoApiKey => "Не указан API Key"@,
        AskError::InvalidApiKey => "API Key содержит только недопустимые символы"@,
        AskError::NoGigaChatKey => "GigaChat: не указан Authorization Key"@,
        AskError::EmptyToken => "GigaChat OAuth: получен пустой токен"@,
    }
}

/// The conversation kept with the AI: the system prompt and the latest messages.
pub struct Conversation {
    pub system_prompt: String,
    pub messages: Vec<AiMessage>,
}

fn copy_message(m: &AiMessage) -> (r: AiMessage)
    ensures
        r == *m,
{
    AiMessage { role: m.role.clone(), content: m.content.clone() }
}

fn message(role: &str, content: &str) -> (r: AiMessage)
    ensures
        r.role@ == role@,
        r.content@ == content@,
{
    AiMessage { role: String::from_str(role), content: String::from_str(content) }
}

impl Conversation {
    /// The conversation holds no more than `MAX_HISTORY` messages.
    pub open spec fn wf(&self) -> bool {
        self.messages@.len() <= MAX_HISTORY
    }

    /// An empty conversation with the given system prompt.
    pub fn new(system_prompt: String) -> (r: Conversation)
        ensures
            r.system_prompt == system_prompt,
            r.messages@.len() == 0,
            r.wf(),
    {
        Conversation { system_prompt, messages: Vec::new() }
    }

    /// Replaces the system prompt; the messages stay.
    pub fn configure(&mut self, system_prompt: String)
        ensures
            final(self).system_prompt == system_prompt,
            final(self).messages == old(self).messages,
    {
        self.system_prompt = system_prompt;
    }

    /// Drops the oldest messages beyond `MAX_HISTORY`.
    pub fn trim_history(&mut self)
        ensures
            final(self).system_prompt == old(self).system_prompt,
            final(self).messages@ == last_n(old(self).messages@, MAX_HISTORY as nat),
            final(self).wf(),
    {
        let n = self.messages.len();
        if n > MAX_HISTORY {
            let drop = n - MAX_HISTORY;
            let mut kept: Vec<AiMessage> = Vec::new();
            let mut i: usize = drop;
            while i < n
                invariant
                    drop <= i <= n,
                    n == self.messages.len(),
                    kept@ == self.messages@.subrange(drop as int, i as int),
                decreases n - i,
            {
                kept.push(copy_message(&self.messages[i]));
                i = i + 1;
            }
            self.messages = kept;
        }
    }

    /// The messages sent to the provider: the system prompt (when it is not empty),
    /// then the conversation.
    pub fn build_payload(&self) -> (r: Vec<AiMessage>)
        ensures
            msgs_view(r@) == if self.system_prompt@.len() > 0 {
                seq![("system"@, self.system_prompt@)] + msgs_view(self.messages@)
            } else {
                msgs_view(self.messages@)
            },
    {
        let mut out: Vec<AiMessage> = Vec::new();
        if !self.system_prompt.as_str().is_empty() {
            out.push(AiMessage { role: String::from_str("system"), content: self.system_prompt.clone() });
        }
        let ghost head = out@;
        let mut i: usize = 0;
        while i < self.messages.len()
            invariant
                i <= self.messages.len(),
                out@ == head + self.messages@.subrange(0, i as int),
            decreases self.messages.len() - i,
        {
            out.push(copy_message(&self.messages[i]));
            i = i + 1;
        }
        assert(self.messages@.subrange(0, i as int) =~= self.messages@);
        assert(msgs_view(out@) =~= msgs_view(head) + msgs_view(self.messages@));
        out
    }

    /// Records a question: fails on a blank one; otherwise appends it, trimmed, as a
    /// user message and drops the oldest messages beyond the limit.
    pub fn begin_ask(&mut self, question: &str) -> (r: Result<(), AskError>)
        requires
            old(self).wf(),
        ensures
            final(self).system_prompt == old(self).system_prompt,
            trim(question@).len() == 0 ==> r == Err::<(), AskError>(AskError::EmptyQuestion) && final(self).messages == old(self).messages,
            trim(question@).len() != 0 ==> r is Ok && msgs_view(final(self).messages@) == last_n(
                msgs_view(old(self).messages@).push(("user"@, trim(question@))),
                MAX_HISTORY as nat,
            ),
            final(self).wf(),
    {
        let qv = chars_of(question);
        let q = trim_chars(qv.as_slice());
        if q.len() == 0 {
            return Err(AskError::EmptyQuestion);
        }
        let content = string_of(q.as_slice());
        self.push_message(AiMessage { role: String::from_str("user"), content });
        Ok(())
    }

    /// Records the assistant's answer and drops the oldest messages beyond the limit.
    pub fn finish_ask(&mut self, answer: &str)
        ensures
            final(self).system_prompt == old(self).system_prompt,
            msgs_view(final(self).messages@) == last_n(
                msgs_view(old(self).messages@).push(("assistant"@, answer@)),
                MAX_HISTORY as nat,
            ),
            final(self).wf(),
    {
        self.push_message(message("assistant", answer));
    }

    fn push_message(&mut self, m: AiMessage)
        ensures
            final(self).system_prompt == old(self).system_prompt,
            msgs_view(final(self).messages@) == last_n(msgs_view(old(self).messages@).push(msg_view(m)), MAX_HISTORY as nat),
            final(self).wf(),
    {
        let ghost before = self.messages@;
        self.messages.push(m);
        assert(msgs_view(self.messages@) =~= msgs_view(before).push(msg_view(m)));
        let ghost pushed = self.messages@;
        self.trim_history();
        proof {
            if pushed.len() > MAX_HISTORY {
                assert(msgs_view(pushed.skip(pushed.len() - MAX_HISTORY)) =~= msgs_view(pushed).skip(msgs_view(pushed).len() - MAX_HISTORY));
            }
        }
    }
}

/// The kind of API a provider speaks.
#[derive(Clone, Copy, Debug, PartialEq, Eq, Structural)]
pub enum ProviderKind {
    GigaChat,
    LocalLlm,
    OpenAiCompatible,
}

/// "gigachat" and "local llms" (in any letter case) have their own APIs; every other
/// provider speaks the OpenAI chat API.
pub open spec fn spec_provider_kind(provider: Seq<char>) -> ProviderKind {
    if lowercase(provider) == "gigachat"@ {
        ProviderKind::GigaChat
    } else if lowercase(provider) == "local llms"@ {
        ProviderKind::LocalLlm
    } else {
        ProviderKind::OpenAiCompatible
    }
}

/// Which API the configured provider speaks (see `spec_provider_kind`).
pub fn provider_kind(provider: &str) -> (r: ProviderKind)
    ensures
        r == spec_provider_kind(provider@),
{
    let lower = to_lowercase(provider);
    if str_eq(lower.as_str(), "gigachat") {
        ProviderKind::GigaChat
    } else if str_eq(lower.as_str(), "local llms") {
        ProviderKind::LocalLlm
    } else {
        ProviderKind::OpenAiCompatible
    }
}

/// A printable ASCII character other than space (`char::is_ascii_graphic`).
pub open spec fn is_ascii_graphic(c: char) -> bool {
    '!' <= c && c <= '~'
}

/// The API key as sent: only printable ASCII characters and spaces kept, then trimmed.
pub open spec fn spec_clean_key(key: Seq<char>) -> Seq<char> {
    trim(key.filter(|c: char| is_ascii_graphic(c) || c == ' '))
}

/// The key to send to an OpenAI-compatible API: an error for a blank key, or for one
/// that holds no usable character; otherwise the cleaned key (see `spec_clean_key`).
pub fn sanitize_api_key(key: &str) -> (r: Result<String, AskError>)
    ensures
        trim(key@).len() == 0 ==> r == Err::<String, AskError>(AskError::NoApiKey),
        trim(key@).len() != 0 && spec_clean_key(key@).len() == 0 ==> r == Err::<String, AskError>(AskError::InvalidApiKey),
        trim(key@).len() != 0 && spec_clean_key(key@).len() != 0 ==> (r matches Ok(k) && k@ == spec_clean_key(key@)),
{
    let kv = chars_of(key);
    let t = trim_chars(kv.as_slice());
    if t.len() == 0 {
        return Err(AskError::NoApiKey);
    }
    let mut kept: Vec<char> = Vec::new();
    let mut i: usize = 0;
    while i < kv.len()
        invariant
            i <= kv.len(),
            kept@ == kv@.take(i as int).filter(|c: char| is_ascii_graphic(c) || c == ' '),
        decreases kv.len() - i,
    {
        proof {
            reveal_with_fuel(Seq::filter, 1);
            assert(kv@.take(i + 1).drop_last() =~= kv@.take(i as int));
        }
        let c = kv[i];
        if ('!' <= c && c <= '~') || c == ' ' {
            kept.push(c);
        }
        i = i + 1;
    }
    assert(kv@.take(kv.len() as int) =~= kv@);
    let clean = trim_chars(kept.as_slice());
    if clean.len() == 0 {
        return Err(AskError::InvalidApiKey);
    }
    Ok(string_of(clean.as_slice()))
}

/// `s` without its trailing `c` characters (`str::trim_end_matches` with one char).
pub open spec fn trim_end_char(s: Seq<char>, c: char) -> Seq<char>
    decreases s.len(),
{
    if s.len() > 0 && s.last() == c {
        trim_end_char(s.drop_last(), c)
    } else {
        s
    }
}

/// The chat endpoint of an OpenAI-compatible API: the base URL without trailing
/// slashes, then `/chat/completions`.
pub fn chat_completions_url(base_url: &str) -> (r: String)
    ensures
        r@ == trim_end_char(base_url@, '/') + "/chat/completions"@,
{
    let bv = chars_of(base_url);
    let mut n = bv.len();
    assert(bv@.take(n as int) =~= bv@);
    while n > 0 && bv[n - 1] == '/'
        invariant
            n <= bv.len(),
            trim_end_char(bv@, '/') == trim_end_char(bv@.take(n as int), '/'),
        decreases n,
    {
        assert(bv@.take(n as int).drop_last() =~= bv@.take(n - 1));
        n = n - 1;
    }
    let mut out = crate::text::sub_chars(bv.as_slice(), 0, n);
    assert(out@ =~= bv@.take(n as int));
    let tail = chars_of("/chat/completions");
    extend_chars(&mut out, tail.as_slice());
    string_of(out.as_slice())
}

/// The chat endpoint of a local LLM server: `http://{address}:{port}/v1/chat/completions`.
pub fn local_llm_url(address: &str, port: u16) -> (r: String)
    ensures
        r@ == "http://"@ + address@ + ":"@ + decimal(port as nat) + "/v1/chat/completions"@,
{
    let mut out = chars_of("http://");
    let a = chars_of(address);
    extend_chars(&mut out, a.as_slice());
    let colon = chars_of(":");
    extend_chars(&mut out, colon.as_slice());
    let p = decimal_chars(port as u64);
    extend_chars(&mut out, p.as_slice());
    let tail = chars_of("/v1/chat/completions");
    extend_chars(&mut out, tail.as_slice());
    string_of(out.as_slice())
}

/// The answer in a reply: the content of the first choice; when `non_empty` is asked
/// for, an empty content counts as no answer.
pub fn pick_answer(contents: &[String], non_empty: bool) -> (r: Option<String>)
    ensures
        contents@.len() == 0 ==> r is None,
        contents@.len() > 0 && non_empty && contents@[0]@.len() == 0 ==> r is None,
        contents@.len() > 0 && !(non_empty && contents@[0]@.len() == 0) ==> (r matches Some(a) && a@ == contents@[0]@),
{
    if contents.len() == 0 {
        return None;
    }
    if non_empty && contents[0].as_str().is_empty() {
        return None;
    }
    Some(contents[0].clone())
}

/// The `Authorization` header for GigaChat's token request: `Basic` and the trimmed
/// key; an error when the key is blank.
pub fn gigachat_basic_auth(auth_key: &str) -> (r: Result<String, AskError>)
    ensures
        trim(auth_key@).len() == 0 ==> r == Err::<String, AskError>(AskError::NoGigaChatKey),
        trim(auth_key@).len() != 0 ==> (r matches Ok(h) && h@ == "Basic "@ + trim(auth_key@)),
{
    let kv = chars_of(auth_key);
    let t = trim_chars(kv.as_slice());
    if t.len() == 0 {
        return Err(AskError::NoGigaChatKey);
    }
    let ts = string_of(t.as_slice());
    Ok(cat("Basic ", ts.as_str()))
}

/// The body of GigaChat's token request: `scope=` and the scope.
pub fn gigachat_scope_body(scope: &str) -> (r: String)
    ensures
        r@ == "scope="@ + scope@,
{
    cat("scope=", scope)
}

/// The access token from GigaChat's reply, refused when empty.
pub fn check_token(token: String) -> (r: Result<String, AskError>)
    ensures
        token@.len() == 0 ==> r == Err::<String, AskError>(AskError::EmptyToken),
        token@.len() != 0 ==> r == Ok::<String, AskError>(token),
{
    if token.as_str().is_empty() {
        Err(AskError::EmptyToken)
    } else {
        Ok(token)
    }
}

/// The result of a connection test: success with `ok_message`, or failure with the error.
pub fn test_result(outcome: Result<(), String>, ok_message: &str) -> (r: AiTestResult)
    ensures
        outcome is Ok ==> r.ok && r.message@ == ok_message@,
        outcome matches Err(e) ==> !r.ok && r.message@ == e@,
{
    match outcome {
        Ok(()) => AiTestResult { ok: true, message: String::from_str(ok_message) },
        Err(e) => AiTestResult { ok: false, message: e },
    }
}

/// A question and its answer are both kept: after recording a question and then its
/// answer, the conversation ends with the question and the answer, in that order, and
/// holds no more than `MAX_HISTORY` messages.
pub proof fn lemma_exchange_kept(
    ms: Seq<(Seq<char>, Seq<char>)>,
    question: (Seq<char>, Seq<char>),
    answer: (Seq<char>, Seq<char>),
)
    requires
        ms.len() <= MAX_HISTORY,
    ensures
        ({
            let after = last_n(last_n(ms.push(question), MAX_HISTORY as nat).push(answer), MAX_HISTORY as nat);
            &&& after.len() <= MAX_HISTORY
            &&& after.len() >= 2
            &&& after[after.len() - 1] == answer
            &&& after[after.len() - 2] == question
        }),
{
}

} // verus!
