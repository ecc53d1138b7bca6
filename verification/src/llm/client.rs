//! Token accounting, the client's credentials, and the decoding of the
//! server-sent event stream of a streaming completion.
use vstd::prelude::*;
use crate::game_state::opt_str;
use crate::text::{chars_find, chars_of, occurs_at, slice_of, starts_with, str_eq, str_starts_with, str_trim, trim, find};

verus! {

broadcast use vstd::string::group_string_axioms;

/// Token usage from a single completion call.
#[derive(Debug, Clone, Copy)]
pub struct TokenUsage {
    pub prompt_tokens: u64,
    pub completion_tokens: u64,
    pub total_tokens: u64,
}

impl Default for TokenUsage {
    fn default() -> (r: TokenUsage)
        ensures
            r.prompt_tokens == 0 && r.completion_tokens == 0 && r.total_tokens == 0,
    {
        TokenUsage { prompt_tokens: 0, completion_tokens: 0, total_tokens: 0 }
    }
}

/// Two usages can be summed field by field without overflow.
pub open spec fn usage_sum_fits(a: TokenUsage, b: TokenUsage) -> bool {
    a.prompt_tokens + b.prompt_tokens <= u64::MAX && a.completion_tokens + b.completion_tokens
        <= u64::MAX && a.total_tokens + b.total_tokens <= u64::MAX
}

impl TokenUsage {
    /// Total tokens.
    pub fn total(&self) -> (r: u64)
        ensures
            r == self.total_tokens,
    {
        self.total_tokens
    }

    /// The field-by-field sum of two usages.
    pub fn add(self, rhs: TokenUsage) -> (r: TokenUsage)
        requires
            usage_sum_fits(self, rhs),
        ensures
            r.prompt_tokens == self.prompt_tokens + rhs.prompt_tokens,
            r.completion_tokens == self.completion_tokens + rhs.completion_tokens,
            r.total_tokens == self.total_tokens + rhs.total_tokens,
    {
        TokenUsage {
            prompt_tokens: self.prompt_tokens + rhs.prompt_tokens,
            completion_tokens: self.completion_tokens + rhs.completion_tokens,
            total_tokens: self.total_tokens + rhs.total_tokens,
        }
    }

    /// Adds `rhs` into `self`, field by field.
    pub fn add_assign(&mut self, rhs: TokenUsage)
        requires
            usage_sum_fits(*old(self), rhs),
        ensures
            final(self).prompt_tokens == old(self).prompt_tokens + rhs.prompt_tokens,
            final(self).completion_tokens == old(self).completion_tokens + rhs.completion_tokens,
            final(self).total_tokens == old(self).total_tokens + rhs.total_tokens,
    {
        self.prompt_tokens = self.prompt_tokens + rhs.prompt_tokens;
        self.completion_tokens = self.completion_tokens + rhs.completion_tokens;
        self.total_tokens = self.total_tokens + rhs.total_tokens;
    }
}

/// One event of a streaming completion.
pub enum SseEvent {
    Content(String),
    /// Streaming completed; `usage` is present when the stream reported it.
    Done { usage: Option<TokenUsage> },
    Error(String),
}

/// The credentials of the completion service.
pub struct LlmClient {
    api_key: String,
}

impl LlmClient {
    pub closed spec fn key(&self) -> Seq<char> {
        self.api_key@
    }

    pub fn new(api_key: String) -> (r: LlmClient)
        ensures
            r.key() == api_key@,
    {
        LlmClient { api_key }
    }

    /// The key sent in the authorization header.
    pub fn api_key(&self) -> (r: &str)
        ensures
            r@ == self.key(),
    {
        self.api_key.as_str()
    }
}

// ───────────────────────── the event stream ─────────────────────────

/// What one complete line of the event stream asks for.
pub enum SseLine {
    /// An empty line, a comment, or a line that carries no data.
    Skip,
    /// The "[DONE]" sentinel.
    Finished,
    /// The payload of a "data: " line, to be decoded as JSON.
    Data(String),
}

pub enum SseLineView {
    Skip,
    Finished,
    Data(Seq<char>),
}

impl View for SseLine {
    type V = SseLineView;

    open spec fn view(&self) -> SseLineView {
        match self {
            SseLine::Skip => SseLineView::Skip,
            SseLine::Finished => SseLineView::Finished,
            SseLine::Data(d) => SseLineView::Data(d@),
        }
    }
}

/// The meaning of a trimmed stream line.
pub open spec fn line_kind(line: Seq<char>) -> SseLineView {
    if line.len() == 0 || starts_with(line, ":"@) {
        SseLineView::Skip
    } else if starts_with(line, "data: "@) {
        let data = line.subrange(6, line.len() as int);
        if data == "[DONE]"@ {
            SseLineView::Finished
        } else {
            SseLineView::Data(data)
        }
    } else {
        SseLineView::Skip
    }
}

/// Classifies one trimmed line of the event stream.
pub fn classify_sse_line(line: &str) -> (r: SseLine)
    ensures
        r@ == line_kind(line@),
{
    let v = chars_of(line);
    if v.len() == 0 || str_starts_with(line, ":") {
        return SseLine::Skip;
    }
    if str_starts_with(line, "data: ") {
        proof {
            reveal_strlit("data: ");
        }
        let data = slice_of(line, &v, 6, v.len());
        if str_eq(data.as_str(), "[DONE]") {
            SseLine::Finished
        } else {
            SseLine::Data(data)
        }
    } else {
        SseLine::Skip
    }
}

/// The fields of one decoded data payload that the stream reader uses.
pub struct SseChunk {
    /// `choices[0].delta.content`, when it is a string
    pub content: Option<String>,
    /// `usage.prompt_tokens`, when it is an unsigned integer
    pub prompt_tokens: Option<u64>,
    /// `usage.completion_tokens`, when it is an unsigned integer
    pub completion_tokens: Option<u64>,
    /// `usage.total_tokens`, when it is an unsigned integer
    pub total_tokens: Option<u64>,
    /// `choices[0].finish_reason`, when it is a string
    pub finish_reason: Option<String>,
}

/// What a data payload produces: the text to emit, and whether the stream
/// is finished.
pub struct SseStep {
    pub content: Option<String>,
    pub finished: bool,
}

/// Decoding state of a streaming completion: the text received but not yet
/// split into lines, and the last usage the stream reported.
pub struct SseDecoder {
    buffer: String,
    last_usage: Option<TokenUsage>,
}

pub open spec fn unwrap_or_zero(o: Option<u64>) -> u64 {
    match o {
        Some(x) => x,
        None => 0,
    }
}

/// The usage that a payload reports, if it reports a total.
pub open spec fn chunk_usage(c: &SseChunk) -> Option<TokenUsage> {
    match c.total_tokens {
        Some(t) => Some(
            TokenUsage {
                prompt_tokens: unwrap_or_zero(c.prompt_tokens),
                completion_tokens: unwrap_or_zero(c.completion_tokens),
                total_tokens: t,
            },
        ),
        None => None,
    }
}

impl SseDecoder {
    pub closed spec fn pending(&self) -> Seq<char> {
        self.buffer@
    }

    pub closed spec fn usage(&self) -> Option<TokenUsage> {
        self.last_usage
    }

    pub fn new() -> (r: SseDecoder)
        ensures
            r.pending() == Seq::<char>::empty(),
            r.usage() is None,
    {
        SseDecoder { buffer: String::new(), last_usage: None }
    }

    /// Appends received text.
    pub fn push_text(&mut self, text: &str)
        ensures
            final(self).pending() == old(self).pending() + text@,
            final(self).usage() == old(self).usage(),
    {
        self.buffer.append(text);
    }

    /// Takes the next complete line off the pending text, trimmed and
    /// classified; `None` when no line is complete yet.
    pub fn next_line(&mut self) -> (r: Option<SseLine>)
        ensures
            final(self).usage() == old(self).usage(),
            match find(old(self).pending(), "\n"@) {
                Some(k) => r matches Some(l) && l@ == line_kind(
                    trim(old(self).pending().subrange(0, k)),
                ) && final(self).pending() == old(self).pending().subrange(
                    k + 1,
                    old(self).pending().len() as int,
                ),
                None => r is None && final(self).pending() == old(self).pending(),
            },
    {
        let v = chars_of(self.buffer.as_str());
        let nl = chars_of("\n");
        proof {
            reveal_strlit("\n");
        }
        let found = chars_find(&v, &nl);
        if found.is_none() {
            return None;
        }
        let k = found.unwrap();
        assert(occurs_at(v@, nl@, k as int));
        assert(k + 1 <= v.len());
        let raw_line = slice_of(self.buffer.as_str(), &v, 0, k);
        let rest = slice_of(self.buffer.as_str(), &v, k + 1, v.len());
        let line = str_trim(raw_line.as_str());
        self.buffer = rest;
        Some(classify_sse_line(line.as_str()))
    }

    /// Takes in one decoded data payload: remembers the usage it reports,
    /// and says what text to emit and whether the stream has finished (a
    /// non-empty finish reason).
    pub fn on_data(&mut self, chunk: &SseChunk) -> (r: SseStep)
        ensures
            final(self).pending() == old(self).pending(),
            final(self).usage() == match chunk_usage(chunk) {
                Some(u) => Some(u),
                None => old(self).usage(),
            },
            opt_str(r.content) == opt_str(chunk.content),
            r.finished == (chunk.finish_reason matches Some(f) && f@.len() > 0),
    {
        let content = match &chunk.content {
            Some(c) => Some(c.clone()),
            None => None,
        };
        match chunk.total_tokens {
            Some(t) => {
                self.last_usage = Some(
                    TokenUsage {
                        prompt_tokens: match chunk.prompt_tokens {
                            Some(p) => p,
                            None => 0,
                        },
                        completion_tokens: match chunk.completion_tokens {
                            Some(c) => c,
                            None => 0,
                        },
                        total_tokens: t,
                    },
                );
            },
            None => {},
        }
        let finished = match &chunk.finish_reason {
            Some(f) => !f.as_str().is_empty(),
            None => false,
        };
        SseStep { content, finished }
    }

    /// The closing event: done, with the last usage reported.
    pub fn done_event(&self) -> (r: SseEvent)
        ensures
            r matches SseEvent::Done { usage } && usage == self.usage(),
    {
        SseEvent::Done { usage: self.last_usage }
    }
}

} // verus!
