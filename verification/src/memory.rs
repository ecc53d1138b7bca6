//! The conversation window: the message history sent with every request,
//! with compaction of old rounds into a summary.
use vstd::prelude::*;
use crate::text::{cat, char_is_ascii_alnum, char_is_ws, chars_of, is_ascii_alnum, is_ws, owned};

verus! {

broadcast use vstd::string::group_string_axioms;

/// Context limit: 1M tokens; compaction starts at 90% of it.
pub const CONTEXT_LIMIT: usize = 1_000_000;

/// 90% of `CONTEXT_LIMIT`.
pub const COMPACTION_THRESHOLD: usize = 900_000;

/// Number of most recent rounds kept intact after compaction.
pub const KEEP_RECENT_ROUNDS: usize = 30;

/// One chat message.
#[derive(Debug)]
pub struct Message {
    pub role: String,
    pub content: String,
}

/// The mathematical value of a message.
pub struct MessageView {
    pub role: Seq<char>,
    pub content: Seq<char>,
}

impl View for Message {
    type V = MessageView;

    open spec fn view(&self) -> MessageView {
        MessageView { role: self.role@, content: self.content@ }
    }
}

pub open spec fn msg(role: Seq<char>, content: Seq<char>) -> MessageView {
    MessageView { role, content }
}

pub open spec fn message_views(v: Seq<Message>) -> Seq<MessageView> {
    v.map_values(|m: Message| m@)
}

impl Message {
    /// A message with the given role and content.
    pub fn new(role: &str, content: &str) -> (m: Message)
        ensures
            m@ == msg(role@, content@),
    {
        Message { role: owned(role), content: owned(content) }
    }

    /// A copy of this message.
    pub fn duplicate(&self) -> (m: Message)
        ensures
            m@ == self@,
    {
        Message { role: self.role.clone(), content: self.content.clone() }
    }
}

/// Copies of all messages of `v`.
pub fn copy_messages(v: &Vec<Message>) -> (r: Vec<Message>)
    ensures
        message_views(r@) == message_views(v@),
{
    let mut r: Vec<Message> = Vec::new();
    let mut i: usize = 0;
    while i < v.len()
        invariant
            i <= v@.len(),
            r@.len() == i,
            message_views(r@) == message_views(v@).take(i as int),
        decreases v@.len() - i,
    {
        let m = v[i].duplicate();
        let ghost old_r = r@;
        r.push(m);
        proof {
            assert(r@ == old_r.push(m));
            assert forall|j: int| 0 <= j < i + 1 implies message_views(r@)[j] == message_views(
                v@,
            ).take(i + 1)[j] by {
                if j < i {
                    assert(message_views(old_r)[j] == message_views(v@).take(i as int)[j]);
                }
            }
        }
        i = i + 1;
        assert(message_views(r@) =~= message_views(v@).take(i as int));
    }
    assert(message_views(v@).take(v@.len() as int) =~= message_views(v@));
    r
}

// ───────────────────────── token estimate ─────────────────────────

/// One step of the token counter: the count so far and whether the scan is
/// inside an ASCII word.
pub open spec fn token_step(st: (nat, bool), c: char) -> (nat, bool) {
    let word_end: nat = if st.1 {
        1
    } else {
        0
    };
    if is_ws(c) {
        (st.0 + word_end + 1, false)
    } else if is_ascii_alnum(c) {
        (st.0, true)
    } else if (c as u32) > 0x7f {
        (st.0 + word_end + 1, false)
    } else {
        (st.0 + word_end, false)
    }
}

/// The counter state after scanning `s`.
pub open spec fn token_scan(s: Seq<char>) -> (nat, bool)
    decreases s.len(),
{
    if s.len() == 0 {
        (0, false)
    } else {
        token_step(token_scan(s.drop_last()), s.last())
    }
}

/// Rough token count of a text: each whitespace and each non-ASCII character
/// counts one, each ASCII word counts one, ASCII punctuation counts nothing;
/// the total is halved.
pub open spec fn estimate(s: Seq<char>) -> nat {
    let st = token_scan(s);
    (st.0 + (if st.1 {
        1nat
    } else {
        0nat
    })) / 2
}

proof fn lemma_scan_bound(s: Seq<char>)
    ensures
        token_scan(s).0 + (if token_scan(s).1 {
            1nat
        } else {
            0nat
        }) <= s.len(),
    decreases s.len(),
{
    if s.len() > 0 {
        lemma_scan_bound(s.drop_last());
    }
}

/// Rough token count of a text (see `estimate`).
pub fn estimate_tokens(text: &str) -> (r: usize)
    ensures
        r == estimate(text@),
{
    let v = chars_of(text);
    let mut count: usize = 0;
    let mut in_word = false;
    let mut i: usize = 0;
    while i < v.len()
        invariant
            i <= v@.len(),
            (count as nat, in_word) == token_scan(v@.take(i as int)),
            count + (if in_word {
                1int
            } else {
                0int
            }) <= i,
        decreases v@.len() - i,
    {
        let ch = v[i];
        proof {
            assert(v@.take(i + 1).drop_last() =~= v@.take(i as int));
        }
        if char_is_ws(ch) {
            if in_word {
                count += 1;
                in_word = false;
            }
            count += 1;
        } else if char_is_ascii_alnum(ch) {
            in_word = true;
        } else if (ch as u32) > 0x7f {
            if in_word {
                count += 1;
                in_word = false;
            }
            count += 1;
        } else {
            if in_word {
                count += 1;
                in_word = false;
            }
        }
        i = i + 1;
    }
    assert(v@.take(i as int) =~= v@);
    if in_word {
        count += 1;
    }
    count / 2
}

// ───────────────────────── the window ─────────────────────────

/// The mathematical value of a conversation window.
pub struct WindowView {
    pub messages: Seq<MessageView>,
    pub summary: Option<Seq<char>>,
    pub round_count: nat,
}

/// The message history of the game, with an optional summary of the rounds
/// that compaction removed.
#[derive(Debug)]
pub struct ConversationWindow {
    messages: Vec<Message>,
    /// Compressed summary of older history (set after the first compaction)
    summary: Option<String>,
    /// Round counter (incremented on each user-assistant pair)
    round_count: usize,
}

pub open spec fn opt_view(o: Option<String>) -> Option<Seq<char>> {
    match o {
        Some(s) => Some(s@),
        None => None,
    }
}

/// Sum of the token estimates of a sequence of messages.
pub open spec fn messages_tokens(m: Seq<MessageView>) -> nat
    decreases m.len(),
{
    if m.len() == 0 {
        0
    } else {
        messages_tokens(m.drop_last()) + estimate(m.last().content)
    }
}

/// Token estimate of the whole window: every message plus the summary.
pub open spec fn window_tokens(w: WindowView) -> nat {
    messages_tokens(w.messages) + match w.summary {
        Some(s) => estimate(s),
        None => 0,
    }
}

/// Number of messages that compaction keeps.
pub open spec fn keep_messages() -> nat {
    (KEEP_RECENT_ROUNDS * 2) as nat
}

/// There is enough history for a compaction: more than 35 rounds and more
/// than 64 messages.
pub open spec fn can_compact(w: WindowView) -> bool {
    w.round_count > KEEP_RECENT_ROUNDS + 5 && w.messages.len() > keep_messages() + 4
}

/// One history line of the compaction request: "[role]: content\n".
pub open spec fn history_line(m: MessageView) -> Seq<char> {
    "["@ + m.role + "]: "@ + m.content + "\n"@
}

/// The history lines of `m`, in order.
pub open spec fn history_lines(m: Seq<MessageView>) -> Seq<char>
    decreases m.len(),
{
    if m.len() == 0 {
        Seq::empty()
    } else {
        history_lines(m.drop_last()) + history_line(m.last())
    }
}

pub const COMPACTION_HEADER: &'static str = "请将以下修仙游戏对话历史压缩为一段简洁的剧情摘要（200字以内），保留：关键事件、人物关系变化、物品得失、境界变化、重要flag。\n\n";

/// The compaction request: the header followed by the messages that fall
/// outside the kept window.
pub open spec fn compaction_request(w: WindowView) -> Seq<char> {
    COMPACTION_HEADER@ + history_lines(w.messages.take(w.messages.len() - keep_messages()))
}

/// The summary as the system message that opens the context.
pub open spec fn summary_message(s: Seq<char>) -> MessageView {
    msg("system"@, "【剧情回顾】\n"@ + s)
}

/// The context sent to the model: the summary message, if any, then all
/// messages.
pub open spec fn context_of(w: WindowView) -> Seq<MessageView> {
    match w.summary {
        Some(s) => seq![summary_message(s)] + w.messages,
        None => w.messages,
    }
}

impl View for ConversationWindow {
    type V = WindowView;

    closed spec fn view(&self) -> WindowView {
        WindowView {
            messages: message_views(self.messages@),
            summary: opt_view(self.summary),
            round_count: self.round_count as nat,
        }
    }
}

impl ConversationWindow {
    /// An empty window.
    pub fn new() -> (w: Self)
        ensures
            w@.messages == Seq::<MessageView>::empty(),
            w@.summary is None,
            w@.round_count == 0,
    {
        let w = ConversationWindow { messages: Vec::new(), summary: None, round_count: 0 };
        assert(w@.messages =~= Seq::<MessageView>::empty());
        w
    }

    /// A window rebuilt from stored parts.
    pub fn from_parts(messages: Vec<Message>, summary: Option<String>, round_count: usize) -> (w:
        Self)
        ensures
            w@.messages == message_views(messages@),
            w@.summary == opt_view(summary),
            w@.round_count == round_count,
    {
        ConversationWindow { messages, summary, round_count }
    }

    /// The messages of the window.
    pub fn messages(&self) -> (r: &Vec<Message>)
        ensures
            message_views(r@) == self@.messages,
    {
        &self.messages
    }

    /// The summary of compacted history, if any.
    pub fn summary(&self) -> (r: &Option<String>)
        ensures
            opt_view(*r) == self@.summary,
    {
        &self.summary
    }

    /// Records one round: the user's message, then the assistant's reply.
    /// Nothing is dropped; old rounds are only removed by compaction.
    pub fn append_turn(&mut self, user_msg: &str, assistant_msg: &str)
        requires
            old(self)@.round_count < usize::MAX,
        ensures
            final(self)@.messages == old(self)@.messages.push(msg("user"@, user_msg@)).push(
                msg("assistant"@, assistant_msg@),
            ),
            final(self)@.summary == old(self)@.summary,
            final(self)@.round_count == old(self)@.round_count + 1,
    {
        self.messages.push(Message::new("user", user_msg));
        self.messages.push(Message::new("assistant", assistant_msg));
        self.round_count += 1;
        assert(self@.messages =~= old(self)@.messages.push(msg("user"@, user_msg@)).push(
            msg("assistant"@, assistant_msg@),
        ));
    }

    /// Token estimate of the window, or `None` when it does not fit in `usize`.
    pub fn checked_estimated_tokens(&self) -> (r: Option<usize>)
        ensures
            match r {
                Some(n) => n == window_tokens(self@),
                None => window_tokens(self@) > usize::MAX,
            },
    {
        let mut total: usize = 0;
        let mut i: usize = 0;
        while i < self.messages.len()
            invariant
                i <= self.messages@.len(),
                total == messages_tokens(message_views(self.messages@).take(i as int)),
            decreases self.messages@.len() - i,
        {
            proof {
                assert(message_views(self.messages@).take(i + 1).drop_last() =~= message_views(
                    self.messages@,
                ).take(i as int));
            }
            let t = estimate_tokens(self.messages[i].content.as_str());
            if t > usize::MAX - total {
                proof {
                    lemma_tokens_monotone(message_views(self.messages@), i + 1);
                    assert(message_views(self.messages@).take(self.messages@.len() as int)
                        =~= message_views(self.messages@));
                }
                return None;
            }
            total = total + t;
            i = i + 1;
        }
        assert(message_views(self.messages@).take(i as int) =~= message_views(self.messages@));
        match &self.summary {
            Some(s) => {
                let t = estimate_tokens(s.as_str());
                if t > usize::MAX - total {
                    None
                } else {
                    Some(total + t)
                }
            },
            None => Some(total),
        }
    }

    /// Rough token estimate of the window: every message plus the summary.
    pub fn estimated_tokens(&self) -> (r: usize)
        requires
            window_tokens(self@) <= usize::MAX,
        ensures
            r == window_tokens(self@),
    {
        match self.checked_estimated_tokens() {
            Some(n) => n,
            None => 0,
        }
    }

    /// Compaction is needed after more than 35 rounds once the window exceeds
    /// the compaction threshold.
    pub fn needs_compaction(&self) -> (r: bool)
        requires
            self@.round_count > KEEP_RECENT_ROUNDS + 5 ==> window_tokens(self@) <= usize::MAX,
        ensures
            r == (self@.round_count > KEEP_RECENT_ROUNDS + 5 && window_tokens(self@)
                > COMPACTION_THRESHOLD),
    {
        self.round_count > KEEP_RECENT_ROUNDS + 5 && self.estimated_tokens() > COMPACTION_THRESHOLD
    }

    /// The request that asks for a summary of the messages outside the kept
    /// window, or `None` when there is not enough history to compact.
    pub fn prepare_compaction(&self) -> (r: Option<String>)
        ensures
            match r {
                Some(t) => can_compact(self@) && t@ == compaction_request(self@),
                None => !can_compact(self@),
            },
    {
        if self.round_count <= KEEP_RECENT_ROUNDS + 5 {
            return None;
        }
        let keep_msgs = KEEP_RECENT_ROUNDS * 2;
        if self.messages.len() <= keep_msgs + 4 {
            return None;
        }
        let compact_count = self.messages.len() - keep_msgs;
        let mut text = owned(COMPACTION_HEADER);
        let ghost mv = message_views(self.messages@);
        let mut i: usize = 0;
        while i < compact_count
            invariant
                compact_count <= self.messages@.len(),
                i <= compact_count,
                mv == message_views(self.messages@),
                text@ == COMPACTION_HEADER@ + history_lines(mv.take(i as int)),
            decreases compact_count - i,
        {
            proof {
                assert(mv.take(i + 1).drop_last() =~= mv.take(i as int));
            }
            let m = &self.messages[i];
            cat(&mut text, "[");
            cat(&mut text, m.role.as_str());
            cat(&mut text, "]: ");
            cat(&mut text, m.content.as_str());
            cat(&mut text, "\n");
            i = i + 1;
            proof {
                assert(text@ =~= COMPACTION_HEADER@ + history_lines(mv.take(i as int)));
            }
        }
        Some(text)
    }

    /// Replaces the messages outside the kept window by `summary_text`; does
    /// nothing when the window holds 64 messages or fewer.
    pub fn apply_compaction(&mut self, summary_text: &str)
        ensures
            old(self)@.messages.len() > keep_messages() + 4 ==> final(self)@ == compacted(
                old(self)@,
                summary_text@,
            ),
            old(self)@.messages.len() <= keep_messages() + 4 ==> final(self)@ == old(self)@,
    {
        let keep_msgs = KEEP_RECENT_ROUNDS * 2;
        if self.messages.len() <= keep_msgs + 4 {
            return ;
        }
        let compact_count = self.messages.len() - keep_msgs;
        let kept = self.messages.split_off(compact_count);
        self.messages = kept;
        self.summary = Some(owned(summary_text));
        assert(message_views(self.messages@) =~= message_views(old(self).messages@).skip(
            compact_count as int,
        ));
    }

    /// The messages to send: the summary as a system message, if any, then
    /// the whole history.
    pub fn get_context_messages(&self) -> (r: Vec<Message>)
        ensures
            message_views(r@) == context_of(self@),
    {
        let mut result: Vec<Message> = Vec::new();
        match &self.summary {
            Some(summary) => {
                let mut content = owned("【剧情回顾】\n");
                cat(&mut content, summary.as_str());
                result.push(Message { role: owned("system"), content });
            },
            None => {},
        }
        let ghost head = message_views(result@);
        let mut rest = copy_messages(&self.messages);
        result.append(&mut rest);
        assert(message_views(result@) =~= head + message_views(self.messages@));
        proof {
            match &self.summary {
                Some(s) => {
                    assert(head =~= seq![summary_message(s@)]);
                },
                None => {
                    assert(head =~= Seq::<MessageView>::empty());
                },
            }
        }
        result
    }

    /// Number of rounds so far.
    pub fn round_count(&self) -> (r: usize)
        ensures
            r == self@.round_count,
    {
        self.round_count
    }
}

proof fn lemma_tokens_monotone(m: Seq<MessageView>, k: int)
    requires
        0 <= k <= m.len(),
    ensures
        messages_tokens(m.take(k)) <= messages_tokens(m),
    decreases m.len() - k,
{
    if k < m.len() {
        lemma_tokens_monotone(m, k + 1);
        assert(m.take(k + 1).drop_last() =~= m.take(k));
    } else {
        assert(m.take(k) =~= m);
    }
}

/// The window after a compaction that summarised the older messages as `s`.
pub open spec fn compacted(w: WindowView, s: Seq<char>) -> WindowView {
    WindowView {
        messages: w.messages.skip(w.messages.len() - keep_messages()),
        summary: Some(s),
        round_count: w.round_count,
    }
}

/// Compaction loses no message unaccounted for: the request covers exactly
/// the messages that leave the window, the window keeps the last sixty in
/// order (together they are the whole history), and the context then opens
/// with the summary followed by the kept messages.
pub proof fn lemma_compaction_covers_history(w: WindowView, s: Seq<char>)
    requires
        can_compact(w),
    ensures
        w.messages.take(w.messages.len() - keep_messages()) + compacted(w, s).messages
            == w.messages,
        compacted(w, s).messages.len() == keep_messages(),
        compaction_request(w) == COMPACTION_HEADER@ + history_lines(
            w.messages.take(w.messages.len() - keep_messages()),
        ),
        context_of(compacted(w, s)) == seq![summary_message(s)] + compacted(w, s).messages,
{
    let n = w.messages.len() - keep_messages();
    assert(w.messages.take(n) + w.messages.skip(n) =~= w.messages);
}

/// Compaction starts at ninety percent of the context limit.
pub proof fn lemma_threshold_is_ninety_percent()
    ensures
        COMPACTION_THRESHOLD * 10 == CONTEXT_LIMIT * 9,
{
}

/// The counter's value: the count so far, plus one for a word in progress.
pub open spec fn scan_value(st: (nat, bool)) -> nat {
    st.0 + (if st.1 {
        1nat
    } else {
        0nat
    })
}

proof fn lemma_step_grows(st: (nat, bool), c: char)
    ensures
        scan_value(token_step(st, c)) >= scan_value(st),
{
}

proof fn lemma_scan_grows(s: Seq<char>, t: Seq<char>)
    ensures
        scan_value(token_scan(s)) <= scan_value(token_scan(s + t)),
    decreases t.len(),
{
    if t.len() == 0 {
        assert(s + t =~= s);
    } else {
        lemma_scan_grows(s, t.drop_last());
        assert((s + t).drop_last() =~= s + t.drop_last());
        assert((s + t).last() == t.last());
        lemma_step_grows(token_scan(s + t.drop_last()), t.last());
    }
}

/// Appending text never lowers the token estimate, and the empty text is
/// estimated at 0.
pub proof fn lemma_estimate_monotone(s: Seq<char>, t: Seq<char>)
    ensures
        estimate(s) <= estimate(s + t),
        estimate(Seq::<char>::empty()) == 0,
{
    lemma_scan_grows(s, t);
    let a = scan_value(token_scan(s));
    let b = scan_value(token_scan(s + t));
    assert(estimate(s) == a / 2);
    assert(estimate(s + t) == b / 2);
    vstd::arithmetic::div_mod::lemma_div_is_ordered(a as int, b as int, 2);
}

} // verus!
