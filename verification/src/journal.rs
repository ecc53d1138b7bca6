//! What the engine writes about a session for others to read: the log of
//! recent turns given to the state extractor, and the exported document.
use vstd::prelude::*;
use crate::engine::Engine;
use crate::game_state::{first_where, lemma_first_where, lemma_first_where_none, GameView};
use crate::memory::{context_of, message_views, Message, MessageView};
use crate::prompt::builder::{
    parse_structured_response, split_lines, split_lines_of, structured_response, JsonReply,
    JsonReplyView,
};
use crate::text::{
    cat, chars_of, chars_occur_at, dec_int, join, join_strings, occurs_at, owned, push_char,
    push_i64, starts_with, str_eq, str_starts_with, views,
};

verus! {

broadcast use vstd::string::group_string_axioms;

// ───────────────────────── messages with their decoded replies ─────────────────────────

/// The views of the decoded replies.
pub open spec fn reply_views(d: Seq<Option<JsonReply>>) -> Seq<Option<JsonReplyView>> {
    d.map_values(
        |o: Option<JsonReply>|
            match o {
                Some(r) => Some(r@),
                None => None,
            },
    )
}

/// Each message paired with the JSON object decoded from it, if any.
pub open spec fn tagged(ms: Seq<MessageView>, ds: Seq<Option<JsonReplyView>>) -> Seq<
    (MessageView, Option<JsonReplyView>),
> {
    Seq::new(ms.len(), |i: int| (ms[i], ds[i]))
}

fn copy_reply(d: &Option<JsonReply>) -> (r: Option<JsonReply>)
    ensures
        match (d, r) {
            (Some(a), Some(b)) => b@ == a@,
            (None, None) => true,
            _ => false,
        },
{
    match d {
        Some(x) => Some(x.duplicate()),
        None => None,
    }
}

/// The narrative that a message's reply gives.
pub open spec fn reply_narrative(m: MessageView, d: Option<JsonReplyView>) -> Seq<char> {
    structured_response(m.content, d).narrative
}

fn narrative_of_message(m: &Message, d: &Option<JsonReply>) -> (r: String)
    ensures
        r@ == reply_narrative(m@, match d {
            Some(x) => Some(x@),
            None => None,
        }),
{
    let parsed = parse_structured_response(m.content.as_str(), copy_reply(d));
    parsed.narrative
}

/// At most the first `n` characters of `s`.
pub open spec fn prefix(s: Seq<char>, n: nat) -> Seq<char> {
    if s.len() <= n {
        s
    } else {
        s.take(n as int)
    }
}

fn prefix_of(s: &str, n: usize) -> (r: String)
    ensures
        r@ == prefix(s@, n as nat),
{
    let v = chars_of(s);
    if v.len() <= n {
        owned(s)
    } else {
        crate::text::slice_of(s, &v, 0, n)
    }
}

// ───────────────────────── the log of recent turns ─────────────────────────

/// The messages that are not system messages.
pub open spec fn non_system(t: Seq<(MessageView, Option<JsonReplyView>)>) -> Seq<
    (MessageView, Option<JsonReplyView>),
> {
    crate::prompt::vetting::keep(
        t,
        |p: (MessageView, Option<JsonReplyView>)| p.0.role != "system"@,
    )
}

/// The last six of them (all when there are fewer).
pub open spec fn last_six<T>(s: Seq<T>) -> Seq<T> {
    if s.len() <= 6 {
        s
    } else {
        s.skip(s.len() - 6)
    }
}

/// The first message of the given role in a chunk of one or two.
pub open spec fn first_of_role(
    chunk: Seq<(MessageView, Option<JsonReplyView>)>,
    role: Seq<char>,
) -> Option<(MessageView, Option<JsonReplyView>)> {
    if chunk.len() > 0 && chunk[0].0.role == role {
        Some(chunk[0])
    } else if chunk.len() > 1 && chunk[1].0.role == role {
        Some(chunk[1])
    } else {
        None
    }
}

/// The log line of one exchange: the round, the player's choice (at most 80
/// characters) and the narrative of the reply (at most 150 characters; the
/// raw reply when it gives no narrative).
pub open spec fn exchange_line(
    round: int,
    user: MessageView,
    asst: (MessageView, Option<JsonReplyView>),
) -> Seq<char> {
    let n = reply_narrative(asst.0, asst.1);
    let summary = prefix(
        if n.len() == 0 {
            asst.0.content
        } else {
            n
        },
        150,
    );
    "- 回合"@ + dec_int(round) + ": 玩家选择 \""@ + prefix(user.content, 80) + "\" → 天道叙事: \""@
        + summary + "\"\n"@
}

/// The log of the exchanges in `recent`, read two messages at a time; each
/// chunk holding a player message and a reply gives a line, numbered from
/// `round` on.
pub open spec fn turn_log(recent: Seq<(MessageView, Option<JsonReplyView>)>, round: int) -> Seq<
    char,
>
    decreases recent.len(),
{
    if recent.len() == 0 {
        Seq::empty()
    } else {
        let k = if recent.len() >= 2 {
            2int
        } else {
            1int
        };
        let chunk = recent.take(k);
        let rest = recent.skip(k);
        match (first_of_role(chunk, "user"@), first_of_role(chunk, "assistant"@)) {
            (Some(u), Some(a)) => exchange_line(round, u.0, a) + turn_log(rest, round + 1),
            _ => turn_log(rest, round),
        }
    }
}

/// The round the log starts at: the current round less half the number of
/// messages logged, and at least 1.
pub open spec fn log_start(round: i32, n: nat) -> int {
    let r = round - (n / 2) as int;
    if r < 1 {
        1
    } else {
        r
    }
}

/// The log of the last exchanges given to the state extractor.
pub open spec fn recent_turn_log(
    g: GameView,
    context: Seq<MessageView>,
    decoded: Seq<Option<JsonReplyView>>,
) -> Seq<char> {
    let recent = last_six(non_system(tagged(context, decoded)));
    turn_log(recent, log_start(g.round, recent.len()))
}

fn push_exchange_line(s: &mut String, round: i64, user: &Message, asst: &Message, d: &Option<JsonReply>)
    ensures
        final(s)@ == old(s)@ + exchange_line(round as int, user@, (asst@, match d {
            Some(x) => Some(x@),
            None => None,
        })),
{
    let n = narrative_of_message(asst, d);
    let summary = if n.as_str().is_empty() {
        prefix_of(asst.content.as_str(), 150)
    } else {
        prefix_of(n.as_str(), 150)
    };
    let ghost s0 = s@;
    cat(s, "- 回合");
    push_i64(s, round);
    cat(s, ": 玩家选择 \"");
    let choice = prefix_of(user.content.as_str(), 80);
    cat(s, choice.as_str());
    cat(s, "\" → 天道叙事: \"");
    cat(s, summary.as_str());
    cat(s, "\"\n");
    assert(s@ =~= s0 + exchange_line(round as int, user@, (asst@, match d {
        Some(x) => Some(x@),
        None => None,
    })));
}

fn is_role(m: &Message, role: &str) -> (r: bool)
    ensures
        r == (m@.role == role@),
{
    str_eq(m.role.as_str(), role)
}

impl Engine {
    /// The log of the last exchanges, for the state extractor.  `decoded`
    /// holds, for each message of the context (`get_context_messages`), the
    /// JSON object decoded from it, if any.
    pub fn recent_turn_log(&self, decoded: &Vec<Option<JsonReply>>) -> (r: String)
        requires
            decoded@.len() == context_of(self.window@).len(),
        ensures
            r@ == recent_turn_log(self.state@, context_of(self.window@), reply_views(decoded@)),
    {
        let context = self.window.get_context_messages();
        let ghost all = tagged(context_of(self.window@), reply_views(decoded@));
        let ghost p = |p: (MessageView, Option<JsonReplyView>)| p.0.role != "system"@;
        let mut ms: Vec<Message> = Vec::new();
        let mut ds: Vec<Option<JsonReply>> = Vec::new();
        let mut i: usize = 0;
        while i < context.len()
            invariant
                i <= context@.len(),
                message_views(context@) == context_of(self.window@),
                decoded@.len() == context@.len(),
                all == tagged(context_of(self.window@), reply_views(decoded@)),
                p == (|p: (MessageView, Option<JsonReplyView>)| p.0.role != "system"@),
                ms@.len() == ds@.len(),
                tagged(message_views(ms@), reply_views(ds@)) == crate::prompt::vetting::keep(
                    all.take(i as int),
                    p,
                ),
            decreases context@.len() - i,
        {
            proof {
                crate::prompt::vetting::lemma_keep_step(all, p, i as int);
            }
            let ghost before = tagged(message_views(ms@), reply_views(ds@));
            if !is_role(&context[i], "system") {
                ms.push(context[i].duplicate());
                ds.push(copy_reply(&decoded[i]));
                assert(tagged(message_views(ms@), reply_views(ds@)) =~= before + seq![all[i as int]]);
            } else {
                assert(tagged(message_views(ms@), reply_views(ds@)) =~= before + Seq::<
                    (MessageView, Option<JsonReplyView>),
                >::empty());
            }
            i = i + 1;
        }
        assert(all.take(context@.len() as int) =~= all);
        let ghost kept = tagged(message_views(ms@), reply_views(ds@));
        let from: usize = if ms.len() > 6 {
            ms.len() - 6
        } else {
            0
        };
        let ghost recent = last_six(kept);
        assert(recent =~= kept.skip(from as int));
        let count = ms.len() - from;
        let half: i64 = (count / 2) as i64;
        let start0: i64 = self.state.round as i64 - half;
        let start: i64 = if start0 < 1 {
            1
        } else {
            start0
        };
        assert(start == log_start(self.state@.round, recent.len()));
        let mut s = String::new();
        let mut j = from;
        let mut round = start;
        while j < ms.len()
            invariant
                from <= j <= ms@.len(),
                ms@.len() - from <= 6,
                ms@.len() == ds@.len(),
                kept == tagged(message_views(ms@), reply_views(ds@)),
                recent == kept.skip(from as int),
                start <= round <= start + (j - from),
                start <= i32::MAX,
                turn_log(recent, start as int) == s@ + turn_log(kept.skip(j as int), round as int),
            decreases ms@.len() - j,
        {
            let ghost rest = kept.skip(j as int);
            let k: usize = if ms.len() - j >= 2 {
                2
            } else {
                1
            };
            proof {
                assert(rest.take(k as int) =~= Seq::new(k as nat, |x: int| kept[j + x]));
                assert(rest.skip(k as int) =~= kept.skip(j + k));
            }
            let ghost chunk = rest.take(k as int);
            let u_idx: Option<usize> = if is_role(&ms[j], "user") {
                Some(j)
            } else if k == 2 && is_role(&ms[j + 1], "user") {
                Some(j + 1)
            } else {
                None
            };
            let a_idx: Option<usize> = if is_role(&ms[j], "assistant") {
                Some(j)
            } else if k == 2 && is_role(&ms[j + 1], "assistant") {
                Some(j + 1)
            } else {
                None
            };
            match (u_idx, a_idx) {
                (Some(u), Some(a)) => {
                    assert(first_of_role(chunk, "user"@) == Some(kept[u as int]));
                    assert(first_of_role(chunk, "assistant"@) == Some(kept[a as int]));
                    push_exchange_line(&mut s, round, &ms[u], &ms[a], &ds[a]);
                    round = round + 1;
                },
                _ => {
                    assert(first_of_role(chunk, "user"@) is None || first_of_role(
                        chunk,
                        "assistant"@,
                    ) is None);
                },
            }
            j = j + k;
        }
        assert(kept.skip(ms@.len() as int) =~= Seq::<(MessageView, Option<JsonReplyView>)>::empty());
        s
    }
}

// ───────────────────────── the exported document ─────────────────────────

/// `l` without one trailing carriage return.
pub open spec fn strip_cr(l: Seq<char>) -> Seq<char> {
    if l.len() > 0 && l.last() == '\r' {
        l.drop_last()
    } else {
        l
    }
}

/// The lines of `s` as `str::lines` gives them: split at each '\n', a
/// '\r' before the '\n' dropped, and no empty last line.
pub open spec fn text_lines(s: Seq<char>) -> Seq<Seq<char>> {
    let parts = split_lines(s);
    let n = parts.len() as int;
    Seq::new((n - 1) as nat, |i: int| strip_cr(parts[i])) + (if parts[n - 1].len() > 0 {
        seq![parts[n - 1]]
    } else {
        Seq::empty()
    })
}

/// The first three lines of `s`, joined by '\n'.
pub open spec fn first_three_lines(s: Seq<char>) -> Seq<char> {
    let l = text_lines(s);
    join(
        if l.len() <= 3 {
            l
        } else {
            l.take(3)
        },
        "\n"@,
    )
}

fn strip_cr_of(l: &String) -> (r: String)
    ensures
        r@ == strip_cr(l@),
{
    let v = chars_of(l.as_str());
    if v.len() > 0 && v[v.len() - 1] == '\r' {
        crate::text::slice_of(l.as_str(), &v, 0, v.len() - 1)
    } else {
        l.clone()
    }
}

fn first_three_lines_of(s: &str) -> (r: String)
    ensures
        r@ == first_three_lines(s@),
{
    let parts = split_lines_of(s);
    let ghost pv = views(parts@);
    let n = parts.len();
    assert(pv.len() >= 1);
    let mut lines: Vec<String> = Vec::new();
    let mut i: usize = 0;
    while i + 1 < n
        invariant
            i + 1 <= n,
            n == parts@.len(),
            pv == views(parts@),
            views(lines@) == Seq::new(i as nat, |k: int| strip_cr(pv[k])),
        decreases n - i,
    {
        let ghost before = views(lines@);
        let line = strip_cr_of(&parts[i]);
        assert(line@ == strip_cr(pv[i as int]));
        lines.push(line);
        assert(views(lines@) =~= before.push(strip_cr(pv[i as int])));
        assert(views(lines@) =~= Seq::new((i + 1) as nat, |k: int| strip_cr(pv[k])));
        i = i + 1;
    }
    if !parts[n - 1].as_str().is_empty() {
        lines.push(parts[n - 1].clone());
    }
    assert(views(lines@) =~= text_lines(s@));
    let ghost all = views(lines@);
    if lines.len() > 3 {
        lines.truncate(3);
        assert(views(lines@) =~= all.take(3));
    }
    join_strings(&lines, "\n")
}

/// The narrative of a reply as the document shows it: the parsed narrative,
/// or the first three lines of the raw reply when it gives none.
pub open spec fn entry_narrative(m: MessageView, d: Option<JsonReplyView>) -> Seq<char> {
    let n = reply_narrative(m, d);
    if n.len() == 0 {
        first_three_lines(m.content)
    } else {
        n
    }
}

/// One entry of the document's log: the player's action quoted, then the
/// narrative, then a rule.
pub open spec fn log_entry(action: Seq<char>, m: MessageView, d: Option<JsonReplyView>) -> Seq<char> {
    "> "@ + action + "\n\n"@ + entry_narrative(m, d) + "\n\n"@ + "---\n\n"@
}

/// The document's log of the context: each reply that answers a player
/// message gives an entry; other messages give none.  `pending` is the
/// player message still unanswered.
pub open spec fn log_section(
    items: Seq<(MessageView, Option<JsonReplyView>)>,
    pending: Option<Seq<char>>,
) -> Seq<char>
    decreases items.len(),
{
    if items.len() == 0 {
        Seq::empty()
    } else {
        let m = items[0].0;
        let rest = items.drop_first();
        if m.role == "user"@ {
            log_section(rest, Some(m.content))
        } else if m.role == "assistant"@ {
            match pending {
                Some(action) => log_entry(action, m, items[0].1) + log_section(rest, None),
                None => log_section(rest, None),
            }
        } else {
            log_section(rest, pending)
        }
    }
}

/// `s` with every occurrence of `p` removed, left to right (`str::replace`
/// with an empty replacement).
pub open spec fn remove_all(s: Seq<char>, p: Seq<char>) -> Seq<char>
    decreases s.len(),
{
    if p.len() == 0 || s.len() == 0 {
        s
    } else if starts_with(s, p) {
        remove_all(s.skip(p.len() as int), p)
    } else {
        seq![s[0]] + remove_all(s.skip(1), p)
    }
}

fn remove_all_of(s: &str, p: &str) -> (r: String)
    requires
        p@.len() > 0,
    ensures
        r@ == remove_all(s@, p@),
{
    let v = chars_of(s);
    let w = chars_of(p);
    let mut out = String::new();
    let mut i: usize = 0;
    assert(v@.skip(0) =~= v@);
    while i < v.len()
        invariant
            i <= v@.len(),
            v@ == s@,
            w@ == p@,
            w@.len() > 0,
            remove_all(s@, p@) == out@ + remove_all(v@.skip(i as int), p@),
        decreases v@.len() - i,
    {
        let ghost rest = v@.skip(i as int);
        let hit = chars_occur_at(&v, &w, i);
        proof {
            if hit {
                assert(rest.subrange(0, w@.len() as int) =~= v@.subrange(i as int, i + w@.len()));
            } else if w@.len() <= rest.len() {
                assert(rest.subrange(0, w@.len() as int) =~= v@.subrange(i as int, i + w@.len()));
            }
        }
        if hit {
            assert(occurs_at(v@, w@, i as int));
            assert(rest.skip(w@.len() as int) =~= v@.skip(i + w@.len()));
            i = i + w.len();
        } else {
            assert(rest.skip(1) =~= v@.skip(i + 1));
            assert(rest[0] == v@[i as int]);
            push_char(&mut out, v[i]);
            i = i + 1;
        }
    }
    assert(v@.skip(v@.len() as int) =~= Seq::<char>::empty());
    out
}

/// The player's name, from the first "player-name-" flag ("无名" when
/// there is none).
pub open spec fn player_name_of(flags: Seq<Seq<char>>) -> Seq<char> {
    match first_where(flags, |f: Seq<char>| starts_with(f, crate::engine::PLAYER_NAME_FLAG@)) {
        Some(k) => remove_all(flags[k], crate::engine::PLAYER_NAME_FLAG@),
        None => "无名"@,
    }
}

fn player_name(flags: &Vec<String>) -> (r: String)
    ensures
        r@ == player_name_of(views(flags@)),
{
    let ghost fv = views(flags@);
    let ghost p = |f: Seq<char>| starts_with(f, crate::engine::PLAYER_NAME_FLAG@);
    let mut i: usize = 0;
    while i < flags.len()
        invariant
            i <= flags@.len(),
            fv == views(flags@),
            p == (|f: Seq<char>| starts_with(f, crate::engine::PLAYER_NAME_FLAG@)),
            forall|j: int| 0 <= j < i ==> !p(#[trigger] fv[j]),
        decreases flags@.len() - i,
    {
        if str_starts_with(flags[i].as_str(), crate::engine::PLAYER_NAME_FLAG) {
            proof {
                lemma_first_where(fv, p, i as int);
                reveal_strlit("player-name-");
            }
            return remove_all_of(flags[i].as_str(), crate::engine::PLAYER_NAME_FLAG);
        }
        i = i + 1;
    }
    proof {
        lemma_first_where_none(fv, p);
    }
    owned("无名")
}

/// The line under the title: name, realm, round and qi.
pub open spec fn document_header(name: Seq<char>, g: GameView) -> Seq<char> {
    "**修士**: "@ + name + "  |  **境界**: "@ + g.realm + "  |  **回合**: "@ + dec_int(g.round as int)
        + "  |  **灵力**: "@ + dec_int(g.qi as int) + "/"@ + dec_int(g.max_qi as int) + "\n\n"@
}

/// The exported document: title, header, chronicle, the log of the
/// exchanges, and the state snapshot.
pub open spec fn full_document(
    e: &Engine,
    decoded: Seq<Option<JsonReplyView>>,
    progress_pct: Seq<char>,
    proficiency_pcts: Seq<Seq<char>>,
) -> Seq<char> {
    "# 修仙录\n\n"@ + document_header(player_name_of(e.state@.flags), e.state@)
        + crate::chronicle::chronicle_markdown(e.chronicle@.volumes) + "\n---\n\n"@ + "## 修仙录\n\n"@
        + log_section(tagged(context_of(e.window@), decoded), None) + "## 当前状态\n\n"@
        + crate::snapshot::narrative_of(e.state@, progress_pct, proficiency_pcts)
}

fn push_log(s: &mut String, context: &Vec<Message>, decoded: &Vec<Option<JsonReply>>)
    requires
        decoded@.len() == context@.len(),
    ensures
        final(s)@ == old(s)@ + log_section(
            tagged(message_views(context@), reply_views(decoded@)),
            None,
        ),
{
    let ghost all = tagged(message_views(context@), reply_views(decoded@));
    let mut out = String::new();
    let mut pending: Option<String> = None;
    let mut i: usize = 0;
    assert(all.skip(0) =~= all);
    while i < context.len()
        invariant
            i <= context@.len(),
            decoded@.len() == context@.len(),
            all == tagged(message_views(context@), reply_views(decoded@)),
            log_section(all, None) == out@ + log_section(all.skip(i as int), match pending {
                Some(x) => Some(x@),
                None => None,
            }),
        decreases context@.len() - i,
    {
        assert(all.skip(i as int).drop_first() =~= all.skip(i + 1));
        assert(all.skip(i as int)[0] == all[i as int]);
        let m = &context[i];
        if is_role(m, "user") {
            pending = Some(m.content.clone());
        } else if is_role(m, "assistant") {
            match pending {
                Some(action) => {
                    let ghost before = out@;
                    cat(&mut out, "> ");
                    cat(&mut out, action.as_str());
                    cat(&mut out, "\n\n");
                    let n = narrative_of_message(m, &decoded[i]);
                    if n.as_str().is_empty() {
                        let t = first_three_lines_of(m.content.as_str());
                        cat(&mut out, t.as_str());
                    } else {
                        cat(&mut out, n.as_str());
                    }
                    cat(&mut out, "\n\n");
                    cat(&mut out, "---\n\n");
                    assert(out@ =~= before + log_entry(action@, m@, reply_views(decoded@)[i as int]));
                },
                None => {},
            }
            pending = None;
        }
        i = i + 1;
    }
    assert(all.skip(context@.len() as int) =~= Seq::<(MessageView, Option<JsonReplyView>)>::empty());
    cat(s, out.as_str());
}

impl Engine {
    /// The game as a Markdown document: title, header, chronicle, a log of
    /// the exchanges (no system messages or format markers), and the state
    /// snapshot.  `decoded` holds, for each message of the context, the JSON
    /// object decoded from it, if any; `progress_pct` and `proficiency_pcts`
    /// are the percentages the snapshot shows.
    pub fn export_full_document(
        &self,
        decoded: &Vec<Option<JsonReply>>,
        progress_pct: &str,
        proficiency_pcts: &Vec<String>,
    ) -> (r: String)
        requires
            decoded@.len() == context_of(self.window@).len(),
            proficiency_pcts@.len() == self.state.techniques@.len(),
        ensures
            r@ == full_document(self, reply_views(decoded@), progress_pct@, views(proficiency_pcts@)),
    {
        let mut doc = owned("# 修仙录\n\n");
        let name = player_name(&self.state.flags);
        cat(&mut doc, "**修士**: ");
        cat(&mut doc, name.as_str());
        cat(&mut doc, "  |  **境界**: ");
        cat(&mut doc, self.state.realm.as_str());
        cat(&mut doc, "  |  **回合**: ");
        push_i64(&mut doc, self.state.round as i64);
        cat(&mut doc, "  |  **灵力**: ");
        push_i64(&mut doc, self.state.qi as i64);
        cat(&mut doc, "/");
        push_i64(&mut doc, self.state.max_qi as i64);
        cat(&mut doc, "\n\n");
        let ghost head = doc@;
        assert(head =~= "# 修仙录\n\n"@ + document_header(player_name_of(self.state@.flags), self.state@));
        let chronicle = self.chronicle.to_markdown();
        cat(&mut doc, chronicle.as_str());
        cat(&mut doc, "\n---\n\n");
        cat(&mut doc, "## 修仙录\n\n");
        let context = self.window.get_context_messages();
        push_log(&mut doc, &context, decoded);
        cat(&mut doc, "## 当前状态\n\n");
        let snapshot = self.state.to_narrative(progress_pct, proficiency_pcts);
        cat(&mut doc, snapshot.as_str());
        assert(doc@ =~= full_document(
            self,
            reply_views(decoded@),
            progress_pct@,
            views(proficiency_pcts@),
        ));
        doc
    }
}

} // verus!
