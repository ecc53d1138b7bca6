//! The game engine: the state of a session and the decisions of each turn.
//! The calls to the model are made by the caller; the engine decides what
//! to send, and what follows from each reply.
use vstd::prelude::*;
use crate::chronicle::Chronicle;
use crate::game_state::{
    add_locations, opt_str, ChangeView, CharacterNote, GameState, GameView, Relationship,
    RelationshipView, StateChange,
};
use crate::llm::client::{LlmClient, TokenUsage};
use crate::memory::ConversationWindow;
use crate::prompt::builder::{ResponseView, StructuredResponse};
use crate::snapshot::starting_state;
use crate::state::{
    background_flags, initial_items, initial_spirit_stones, initial_stats, CreationChoices,
    WorldConfig,
};
use crate::text::{cat, contains, owned, str_contains, str_eq, views};

verus! {

broadcast use vstd::string::group_string_axioms;

// ───────────────────────── the output of a step ─────────────────────────

/// Output from a single engine step.
pub struct EngineOutput {
    pub narrative: String,
    pub meta_text: Option<String>,
    pub options: Vec<String>,
    pub scene_type: Option<String>,
    pub state_changes: Option<StateChange>,
    pub round: i32,
    /// true if the options were generated as a fallback
    pub had_fallback: bool,
    /// Token usage of all completion calls made during this turn
    pub tokens_this_turn: u64,
}

pub struct OutputView {
    pub narrative: Seq<char>,
    pub meta_text: Option<Seq<char>>,
    pub options: Seq<Seq<char>>,
    pub scene_type: Option<Seq<char>>,
    pub state_changes: Option<ChangeView>,
    pub round: i32,
    pub had_fallback: bool,
    pub tokens_this_turn: u64,
}

impl View for EngineOutput {
    type V = OutputView;

    open spec fn view(&self) -> OutputView {
        OutputView {
            narrative: self.narrative@,
            meta_text: opt_str(self.meta_text),
            options: views(self.options@),
            scene_type: opt_str(self.scene_type),
            state_changes: match self.state_changes {
                Some(c) => Some(c@),
                None => None,
            },
            round: self.round,
            had_fallback: self.had_fallback,
            tokens_this_turn: self.tokens_this_turn,
        }
    }
}

/// The option that lets the player type freely.
pub const CUSTOM_OPTION: &'static str = "✍ 自由输入";

/// The output with the free-input option appended as the last choice.
pub open spec fn with_custom(o: OutputView) -> OutputView {
    OutputView { options: o.options.push(CUSTOM_OPTION@), ..o }
}

impl EngineOutput {
    /// Appends the "custom input" option as the last choice.
    pub fn with_custom_option(self) -> (r: EngineOutput)
        ensures
            r@ == with_custom(self@),
    {
        let mut o = self;
        o.options.push(owned(CUSTOM_OPTION));
        assert(o@.options =~= self@.options.push(CUSTOM_OPTION@));
        o
    }
}

// ───────────────────────── the engine ─────────────────────────

/// The state of a game session.
pub struct Engine {
    pub state: GameState,
    pub window: ConversationWindow,
    /// Directory the prompt templates are read from
    pub template_dir: String,
    pub client: LlmClient,
    pub world_config: WorldConfig,
    /// Name of the key NPC (the template name in older saves)
    pub npc: String,
    pub chronicle: Chronicle,
}

/// The world has a key NPC: a name that is neither empty nor "无".
pub open spec fn has_mentor(w: &WorldConfig) -> bool {
    w.key_npc_name@ != "无"@ && w.key_npc_name@.len() > 0
}

pub const PLAYER_NAME_FLAG: &'static str = "player-name-";

/// The state a world starts a player in: the starting state moved to the
/// world's sect and starting location, with the world's key NPC (if any) as
/// the only acquaintance, and the player's name recorded as a flag.
pub open spec fn initial_state(w: &WorldConfig, player_name: Seq<char>, secs: u64) -> GameView {
    let g = starting_state(secs);
    GameView {
        sect: w.sect_name@,
        current_location: w.starting_location_name@,
        locations: seq![w.starting_location_name@],
        relationships: if has_mentor(w) {
            seq![
                RelationshipView {
                    name: w.key_npc_name@,
                    role: w.key_npc_role@,
                    affinity: 20,
                },
            ]
        } else {
            Seq::empty()
        },
        character_notes: if has_mentor(w) {
            seq![(w.key_npc_name@, w.key_npc_description@)]
        } else {
            Seq::empty()
        },
        flags: g.flags.push(PLAYER_NAME_FLAG@ + player_name),
        ..g
    }
}

/// The state after character creation: the world's initial state with the
/// stats, spirit stones and items the answers give, no technique, and the
/// answers' background flags added once each.
pub open spec fn created_state(
    w: &WorldConfig,
    c: &CreationChoices,
    secs: u64,
) -> GameView {
    let g = initial_state(w, c.player_name@, secs);
    GameView {
        stats: initial_stats(c),
        spirit_stones: initial_spirit_stones(c) as i32,
        inventory: initial_items(c),
        techniques: Seq::empty(),
        flags: add_locations(g.flags, background_flags(c)),
        ..g
    }
}

fn world_has_mentor(w: &WorldConfig) -> (r: bool)
    ensures
        r == has_mentor(w),
{
    !str_eq(w.key_npc_name.as_str(), "无") && !w.key_npc_name.as_str().is_empty()
}

impl Engine {
    /// The state a world starts a player in; `started_at_secs` is the
    /// start time, in seconds since the Unix epoch.
    pub fn build_initial_state(
        world_config: &WorldConfig,
        player_name: &str,
        dao_name: &str,
        started_at_secs: u64,
    ) -> (g: GameState)
        ensures
            g@ == initial_state(world_config, player_name@, started_at_secs),
    {
        let mut state = GameState::new_game(started_at_secs);
        state.sect = world_config.sect_name.clone();
        state.current_location = world_config.starting_location_name.clone();
        let mut locations: Vec<String> = Vec::new();
        locations.push(world_config.starting_location_name.clone());
        state.locations = locations;
        state.relationships = Vec::new();
        state.character_notes = Vec::new();
        if world_has_mentor(world_config) {
            state.relationships.push(
                Relationship {
                    name: world_config.key_npc_name.clone(),
                    role: world_config.key_npc_role.clone(),
                    affinity: 20,
                },
            );
            state.character_notes.push(
                CharacterNote {
                    name: world_config.key_npc_name.clone(),
                    note: world_config.key_npc_description.clone(),
                },
            );
        }
        let mut flag = owned(PLAYER_NAME_FLAG);
        cat(&mut flag, player_name);
        state.flags.push(flag);
        assert(state@ =~= initial_state(world_config, player_name@, started_at_secs));
        state
    }

    /// A session in the default world, for a player not yet named.
    pub fn new(template_dir: String, client: LlmClient, started_at_secs: u64) -> (e: Engine)
        ensures
            crate::state::is_default_world(e.world_config),
            e.state@ == initial_state(&e.world_config, "无名"@, started_at_secs),
            e.window@.messages == Seq::<crate::memory::MessageView>::empty(),
            e.window@.summary is None,
            e.window@.round_count == 0,
            e.template_dir@ == template_dir@,
            e.client.key() == client.key(),
            e.npc@ == "qingxu"@,
            e.chronicle@.volumes == Seq::<crate::chronicle::VolumeView>::empty(),
            e.chronicle@.current_events == Seq::<Seq<char>>::empty(),
            e.chronicle@.current_start_round == 1,
            e.chronicle@.rounds_since_last_volume == 0,
    {
        let world_config = WorldConfig::default();
        let state = Engine::build_initial_state(&world_config, "无名", "", started_at_secs);
        Engine {
            state,
            window: ConversationWindow::new(),
            template_dir,
            client,
            world_config,
            npc: owned("qingxu"),
            chronicle: Chronicle::new(),
        }
    }

    /// Starts the session over from the creation answers and the world
    /// generated from them.
    pub fn init_from_creation(
        &mut self,
        choices: &CreationChoices,
        world_config: WorldConfig,
        started_at_secs: u64,
    )
        ensures
            final(self).state@ == created_state(&world_config, choices, started_at_secs),
            final(self).world_config == world_config,
            final(self).window@.messages == Seq::<crate::memory::MessageView>::empty(),
            final(self).window@.summary is None,
            final(self).window@.round_count == 0,
            final(self).chronicle@.volumes == Seq::<crate::chronicle::VolumeView>::empty(),
            final(self).chronicle@.current_events == Seq::<Seq<char>>::empty(),
            final(self).chronicle@.current_start_round == 1,
            final(self).chronicle@.rounds_since_last_volume == 0,
            final(self).npc@ == world_config.key_npc_name@,
            final(self).template_dir == old(self).template_dir,
            final(self).client == old(self).client,
    {
        let stats = choices.calculate_initial_stats();
        let spirit_stones = choices.calculate_initial_spirit_stones();
        let items = choices.calculate_initial_items();
        let flags = choices.collect_background_flags();
        let mut state = Engine::build_initial_state(
            &world_config,
            choices.player_name.as_str(),
            choices.dao_name.as_str(),
            started_at_secs,
        );
        state.stats = stats;
        state.spirit_stones = spirit_stones;
        state.inventory = items;
        state.techniques = Vec::new();
        crate::game_state::add_locations_to(&mut state.flags, &flags);
        assert(state@ =~= created_state(&world_config, choices, started_at_secs));
        self.npc = world_config.key_npc_name.clone();
        self.world_config = world_config;
        self.state = state;
        self.window = ConversationWindow::new();
        self.chronicle = Chronicle::new();
    }
}

// ───────────────────────── fallback options ─────────────────────────

pub open spec fn cultivation_option(g: GameView) -> Seq<char> {
    if g.qi < 50 {
        "打坐恢复灵力"@
    } else {
        "潜心修炼功法"@
    }
}

pub open spec fn location_option(g: GameView) -> Seq<char> {
    let loc = g.current_location;
    if contains(loc, "洞府"@) || contains(loc, "闭关"@) {
        "出关探索外界"@
    } else if contains(loc, "坊市"@) {
        "浏览坊市摊位"@
    } else if contains(loc, "殿"@) {
        "向师尊请教"@
    } else {
        "继续探索此处"@
    }
}

pub open spec fn item_option(g: GameView) -> Seq<char> {
    if g.inventory.len() > 0 {
        let it = g.inventory[0];
        if it.item_type == "丹药"@ {
            "服用"@ + it.name
        } else if it.item_type == "法器"@ {
            "祭炼"@ + it.name
        } else if it.item_type == "功法"@ {
            "研读"@ + it.name
        } else {
            "整理随身物品"@
        }
    } else {
        "寻找可用资源"@
    }
}

pub open spec fn relationship_option(g: GameView) -> Seq<char> {
    if g.relationships.len() > 0 {
        let r = g.relationships[0];
        if r.affinity > 50 {
            "与"@ + r.name + "深谈"@
        } else if r.affinity < 0 {
            "尝试缓和与"@ + r.name + "的关系"@
        } else {
            "拜访"@ + r.name
        }
    } else {
        "结识新的道友"@
    }
}

/// The four options offered when the model gives none: one each for
/// cultivation, the location, the first item, and the first acquaintance.
pub open spec fn fallback_options(g: GameView) -> Seq<Seq<char>> {
    seq![cultivation_option(g), location_option(g), item_option(g), relationship_option(g)]
}

fn prefixed(prefix: &str, name: &str) -> (r: String)
    ensures
        r@ == prefix@ + name@,
{
    let mut s = owned(prefix);
    cat(&mut s, name);
    s
}

impl Engine {
    /// Context-aware options for when the model produced none.
    pub fn generate_fallback_options(&self) -> (r: Vec<String>)
        ensures
            views(r@) == fallback_options(self.state@),
    {
        let g = &self.state;
        let mut opts: Vec<String> = Vec::new();
        if g.qi < 50 {
            opts.push(owned("打坐恢复灵力"));
        } else {
            opts.push(owned("潜心修炼功法"));
        }
        let loc = g.current_location.as_str();
        if str_contains(loc, "洞府") || str_contains(loc, "闭关") {
            opts.push(owned("出关探索外界"));
        } else if str_contains(loc, "坊市") {
            opts.push(owned("浏览坊市摊位"));
        } else if str_contains(loc, "殿") {
            opts.push(owned("向师尊请教"));
        } else {
            opts.push(owned("继续探索此处"));
        }
        if g.inventory.len() > 0 {
            let it = &g.inventory[0];
            if str_eq(it.item_type.as_str(), "丹药") {
                opts.push(prefixed("服用", it.name.as_str()));
            } else if str_eq(it.item_type.as_str(), "法器") {
                opts.push(prefixed("祭炼", it.name.as_str()));
            } else if str_eq(it.item_type.as_str(), "功法") {
                opts.push(prefixed("研读", it.name.as_str()));
            } else {
                opts.push(owned("整理随身物品"));
            }
        } else {
            opts.push(owned("寻找可用资源"));
        }
        if g.relationships.len() > 0 {
            let rel = &g.relationships[0];
            if rel.affinity > 50 {
                let mut s = prefixed("与", rel.name.as_str());
                cat(&mut s, "深谈");
                opts.push(s);
            } else if rel.affinity < 0 {
                let mut s = prefixed("尝试缓和与", rel.name.as_str());
                cat(&mut s, "的关系");
                opts.push(s);
            } else {
                opts.push(prefixed("拜访", rel.name.as_str()));
            }
        } else {
            opts.push(owned("结识新的道友"));
        }
        assert(views(opts@) =~= fallback_options(self.state@));
        opts
    }
}

// ───────────────────────── the opening ─────────────────────────

/// The meta text shown with the opening when the model gives none.
pub const OPENING_META: &'static str = "你准备如何开始你的修仙之旅？";

/// The options offered with the opening when the model gives none.
pub open spec fn opening_fallback_options() -> Seq<Seq<char>> {
    seq!["开始修炼"@, "探索周围环境"@, "寻找师尊"@, "检查自身状态"@]
}

/// The output of the opening turn for a parsed reply: the fallback options
/// (marked as such) when the reply has none, the opening meta text when it
/// has none, round 0, no state change, and the free-input option last.
pub open spec fn opening_output(reply: ResponseView, tokens: u64) -> OutputView {
    let had_fallback = reply.options.len() == 0;
    with_custom(
        OutputView {
            narrative: reply.narrative,
            meta_text: match reply.meta_text {
                Some(m) => Some(m),
                None => Some(OPENING_META@),
            },
            options: if had_fallback {
                opening_fallback_options()
            } else {
                reply.options
            },
            scene_type: reply.scene_type,
            state_changes: None,
            round: 0,
            had_fallback,
            tokens_this_turn: tokens,
        },
    )
}

/// The opening request of the older fixed-world game.
pub open spec fn legacy_opening_input(sect: Seq<char>) -> Seq<char> {
    "你睁开双眼，发现自己正盘坐在一处陌生的石洞中。灵气在四周流淌，你隐约记得自己刚刚拜入"@ + sect
        + "。请描述此刻的场景，并引入我的师尊清虚道人。"@
}

impl Engine {
    /// Builds the output of the opening turn from the parsed reply and the
    /// tokens the call used.
    pub fn opening_output(reply: StructuredResponse, tokens_this_turn: u64) -> (r: EngineOutput)
        ensures
            r@ == opening_output(reply@, tokens_this_turn),
    {
        let had_fallback = reply.options.len() == 0;
        let options = if had_fallback {
            let mut v: Vec<String> = Vec::new();
            v.push(owned("开始修炼"));
            v.push(owned("探索周围环境"));
            v.push(owned("寻找师尊"));
            v.push(owned("检查自身状态"));
            assert(views(v@) =~= opening_fallback_options());
            v
        } else {
            reply.options
        };
        let meta_text = match reply.meta_text {
            Some(m) => Some(m),
            None => Some(owned(OPENING_META)),
        };
        let out = EngineOutput {
            narrative: reply.narrative,
            meta_text,
            options,
            scene_type: reply.scene_type,
            state_changes: None,
            round: 0,
            had_fallback,
            tokens_this_turn,
        };
        out.with_custom_option()
    }

    /// The opening request of the older fixed-world game, naming the sect.
    pub fn legacy_opening_input(&self) -> (r: String)
        ensures
            r@ == legacy_opening_input(self.state@.sect),
    {
        let mut s = owned("你睁开双眼，发现自己正盘坐在一处陌生的石洞中。灵气在四周流淌，你隐约记得自己刚刚拜入");
        cat(&mut s, self.state.sect.as_str());
        cat(&mut s, "。请描述此刻的场景，并引入我的师尊清虚道人。");
        s
    }
}

// ───────────────────────── a turn ─────────────────────────

/// The reminder of the reply format appended to the player's input.
pub const TURN_HINT: &'static str = "\n\n（每次回复必须输出纯 JSON，格式：{\"narrative\":\"...\",\"meta_text\":\"...\",\"options\":[\"...\",\"...\",\"...\",\"...\"]}）";

/// The reminder sent with the player's input again when a reply had no
/// options.
pub const RETRY_HINT: &'static str = "\n\n【重要：你上次回复格式错误。请重新输出一个严格的 JSON 对象：{\"narrative\":\"...\",\"meta_text\":\"...\",\"options\":[\"...\",\"...\",\"...\",\"...\"]}】";

/// The error of a turn whose reply has no narrative.
pub const NO_NARRATIVE: &'static str = "No narrative in API response";

/// The state after `c` is applied to `g` (`apply_change`).
#[verifier::opaque]
pub open spec fn applied(g: GameView, c: ChangeView) -> GameView {
    crate::game_state::apply_change(g, c)
}

/// `c` can be applied to `g` (`change_applies`).
#[verifier::opaque]
pub open spec fn applies_to(g: GameView, c: ChangeView) -> bool {
    crate::game_state::change_applies(g, c)
}

/// The state after a turn: the change applied, and the narrative kept.
pub open spec fn turn_state(g: GameView, c: ChangeView, narrative: Seq<char>) -> GameView {
    GameView { last_narrative: narrative, ..applied(g, c) }
}

/// Applying a change leaves the round as it is.
proof fn lemma_applied_keeps_round(g: GameView, c: ChangeView)
    ensures
        applied(g, c).round == g.round,
{
    reveal(applied);
    crate::game_state::lemma_apply_keeps_round(g, c);
}

fn apply_turn_change(state: &mut GameState, changes: &StateChange)
    requires
        applies_to(old(state)@, changes@),
    ensures
        final(state)@ == applied(old(state)@, changes@),
        applied(old(state)@, changes@).round == old(state)@.round,
{
    proof {
        assert(crate::game_state::change_applies(state@, changes@)) by {
            reveal(applies_to);
        }
    }
    state.apply_state_change(changes);
    proof {
        assert(state@ == applied(old(state)@, changes@)) by {
            reveal(applied);
        }
        lemma_applied_keeps_round(old(state)@, changes@);
    }
}

/// The output of a turn: the reply's narrative, meta text, options and
/// scene type, the change, the round, whether there were no options, the
/// tokens used, and the free-input option last.
pub open spec fn turn_output(reply: ResponseView, c: ChangeView, round: i32, tokens: u64) -> OutputView {
    with_custom(
        OutputView {
            narrative: reply.narrative,
            meta_text: reply.meta_text,
            options: reply.options,
            scene_type: reply.scene_type,
            state_changes: Some(c),
            round,
            had_fallback: reply.options.len() == 0,
            tokens_this_turn: tokens,
        },
    )
}

/// A turn can be recorded: the change applies, and the window's and the
/// chronicle's counters stay in range.
pub open spec fn turn_can_finish(e: &Engine, c: ChangeView) -> bool {
    let after = applied(e.state@, c);
    &&& applies_to(e.state@, c)
    &&& e.window@.round_count < usize::MAX
    &&& e.chronicle@.rounds_since_last_volume < i32::MAX
    &&& crate::chronicle::closes_volume(e.chronicle@, c, after.flags) ==> after.round < i32::MAX
        && e.chronicle@.volumes.len() < usize::MAX
}

/// The reply kept for a turn: the retry's when the first reply had no
/// options and the retry has some.
pub open spec fn preferred_reply(first: ResponseView, retry: Option<ResponseView>) -> ResponseView {
    match retry {
        Some(r) => if first.options.len() == 0 && r.options.len() > 0 {
            r
        } else {
            first
        },
        None => first,
    }
}

impl Engine {
    /// The player's input with the reminder of the reply format.
    pub fn turn_input(user_input: &str) -> (r: String)
        ensures
            r@ == user_input@ + TURN_HINT@,
    {
        let mut s = owned(user_input);
        cat(&mut s, TURN_HINT);
        s
    }

    /// The player's input with the reminder sent after a reply without
    /// options.
    pub fn retry_input(user_input: &str) -> (r: String)
        ensures
            r@ == user_input@ + RETRY_HINT@,
    {
        let mut s = owned(user_input);
        cat(&mut s, RETRY_HINT);
        s
    }

    /// Starts a turn: the round advances by one.
    pub fn begin_turn(&mut self)
        requires
            old(self).state@.round < i32::MAX,
        ensures
            final(self).state@ == (GameView { round: (old(self).state@.round + 1) as i32, ..old(self).state@ }),
            final(self).window == old(self).window,
            final(self).chronicle == old(self).chronicle,
            final(self).world_config == old(self).world_config,
            final(self).npc == old(self).npc,
            final(self).template_dir == old(self).template_dir,
            final(self).client == old(self).client,
    {
        self.state.round = self.state.round + 1;
    }

    /// The error of a first reply without narrative, if it has none.
    pub fn missing_narrative(reply: &StructuredResponse) -> (r: Option<String>)
        ensures
            opt_str(r) == (if reply@.narrative.len() == 0 {
                Some(NO_NARRATIVE@)
            } else {
                None
            }),
    {
        if reply.narrative.as_str().is_empty() {
            Some(owned(NO_NARRATIVE))
        } else {
            None
        }
    }

    /// A reply without options is asked for again, once.
    pub fn wants_retry(first: &StructuredResponse) -> (r: bool)
        ensures
            r == (first@.options.len() == 0),
    {
        first.options.len() == 0
    }

    /// The tokens of a turn after one more call: the running total plus the
    /// call's total.
    pub fn count_tokens(tokens_this_turn: u64, usage: &TokenUsage) -> (r: u64)
        requires
            tokens_this_turn + usage.total_tokens <= u64::MAX,
        ensures
            r == tokens_this_turn + usage.total_tokens,
    {
        tokens_this_turn + usage.total()
    }

    /// The reply a turn keeps, given the first reply and the retry's (if
    /// one was made and parsed).
    pub fn prefer_retry(first: StructuredResponse, retry: Option<StructuredResponse>) -> (r:
        StructuredResponse)
        ensures
            r@ == preferred_reply(first@, match retry {
                Some(x) => Some(x@),
                None => None,
            }),
    {
        match retry {
            Some(x) => if first.options.len() == 0 && x.options.len() > 0 {
                x
            } else {
                first
            },
            None => first,
        }
    }

    /// Whether `finish_turn` can record a turn with this change.
    pub fn can_finish_turn(&self, changes: &StateChange) -> (r: bool)
        ensures
            r == turn_can_finish(self, changes@),
    {
        let ok = self.state.can_apply_state_change(changes);
        proof {
            reveal(applies_to);
        }
        if !ok {
            return false;
        }
        if self.window.round_count() == usize::MAX {
            return false;
        }
        let mut after = self.state.duplicate();
        apply_turn_change(&mut after, changes);
        self.chronicle.can_record_round(after.round, changes, after.flags.as_slice())
    }

    /// Records a turn: applies the change extracted from the reply, keeps
    /// the narrative, records the round in the chronicle and the exchange in
    /// the window, and gives the turn's output.
    pub fn finish_turn(
        &mut self,
        user_input: &str,
        raw_reply: &str,
        reply: StructuredResponse,
        changes: StateChange,
        tokens_this_turn: u64,
    ) -> (r: EngineOutput)
        requires
            turn_can_finish(old(self), changes@),
        ensures
            final(self).state@ == turn_state(old(self).state@, changes@, reply@.narrative),
            final(self).chronicle@ == crate::chronicle::record(
                old(self).chronicle@,
                old(self).state@.round,
                applied(old(self).state@, changes@).realm,
                changes@,
                applied(old(self).state@, changes@).flags,
            ),
            final(self).window@.messages == old(self).window@.messages.push(
                crate::memory::msg("user"@, user_input@),
            ).push(crate::memory::msg("assistant"@, raw_reply@)),
            final(self).window@.summary == old(self).window@.summary,
            final(self).window@.round_count == old(self).window@.round_count + 1,
            r@ == turn_output(reply@, changes@, old(self).state@.round, tokens_this_turn),
            final(self).world_config == old(self).world_config,
            final(self).npc == old(self).npc,
            final(self).template_dir == old(self).template_dir,
            final(self).client == old(self).client,
    {
        apply_turn_change(&mut self.state, &changes);
        self.state.last_narrative = reply.narrative.clone();
        self.chronicle.record_round(
            self.state.round,
            self.state.realm.as_str(),
            &changes,
            self.state.flags.as_slice(),
        );
        self.window.append_turn(user_input, raw_reply);
        let had_fallback = reply.options.len() == 0;
        let out = EngineOutput {
            narrative: reply.narrative,
            meta_text: reply.meta_text,
            options: reply.options,
            scene_type: reply.scene_type,
            state_changes: Some(changes),
            round: self.state.round,
            had_fallback,
            tokens_this_turn,
        };
        out.with_custom_option()
    }

    /// Records a streamed turn, for which no change is extracted: keeps the
    /// narrative and the exchange, and gives the output with no fallback
    /// and the empty change.
    pub fn finish_streaming_turn(
        &mut self,
        user_input: &str,
        raw_reply: &str,
        reply: StructuredResponse,
        tokens_this_turn: u64,
    ) -> (r: EngineOutput)
        requires
            old(self).window@.round_count < usize::MAX,
        ensures
            final(self).state@ == (GameView { last_narrative: reply@.narrative, ..old(self).state@ }),
            final(self).chronicle == old(self).chronicle,
            final(self).window@.messages == old(self).window@.messages.push(
                crate::memory::msg("user"@, user_input@),
            ).push(crate::memory::msg("assistant"@, raw_reply@)),
            final(self).window@.summary == old(self).window@.summary,
            final(self).window@.round_count == old(self).window@.round_count + 1,
            r@ == with_custom(
                OutputView {
                    narrative: reply@.narrative,
                    meta_text: reply@.meta_text,
                    options: reply@.options,
                    scene_type: reply@.scene_type,
                    state_changes: Some(crate::game_state::no_change()),
                    round: old(self).state@.round,
                    had_fallback: false,
                    tokens_this_turn,
                },
            ),
            final(self).world_config == old(self).world_config,
            final(self).npc == old(self).npc,
            final(self).template_dir == old(self).template_dir,
            final(self).client == old(self).client,
    {
        self.state.last_narrative = reply.narrative.clone();
        self.window.append_turn(user_input, raw_reply);
        let out = EngineOutput {
            narrative: reply.narrative,
            meta_text: reply.meta_text,
            options: reply.options,
            scene_type: reply.scene_type,
            state_changes: Some(StateChange::default()),
            round: self.state.round,
            had_fallback: false,
            tokens_this_turn,
        };
        out.with_custom_option()
    }
}

impl Engine {
    /// Every fifth round is saved automatically.
    pub fn autosave_due(&self) -> (r: bool)
        ensures
            r == (self.state@.round % 5 == 0),
    {
        self.state.round % 5 == 0
    }
}

impl Engine {
    /// Records a streamed reply on the terminal's path: applies the change
    /// extracted from the narrative, keeps the narrative, and records the
    /// exchange (the player's input and the narrative) in the window; the
    /// chronicle is left as it is.
    pub fn record_streamed_reply(&mut self, user_input: &str, narrative: &str, changes: &StateChange)
        requires
            applies_to(old(self).state@, changes@),
            old(self).window@.round_count < usize::MAX,
        ensures
            final(self).state@ == turn_state(old(self).state@, changes@, narrative@),
            final(self).window@.messages == old(self).window@.messages.push(
                crate::memory::msg("user"@, user_input@),
            ).push(crate::memory::msg("assistant"@, narrative@)),
            final(self).window@.summary == old(self).window@.summary,
            final(self).window@.round_count == old(self).window@.round_count + 1,
            final(self).chronicle == old(self).chronicle,
            final(self).world_config == old(self).world_config,
            final(self).npc == old(self).npc,
            final(self).template_dir == old(self).template_dir,
            final(self).client == old(self).client,
    {
        apply_turn_change(&mut self.state, changes);
        self.state.last_narrative = owned(narrative);
        self.window.append_turn(user_input, narrative);
    }

    /// Whether `record_streamed_reply` can record this change: it applies,
    /// and the window's round counter stays in range.
    pub fn can_record_streamed_reply(&self, changes: &StateChange) -> (r: bool)
        ensures
            r == (applies_to(self.state@, changes@) && self.window@.round_count < usize::MAX),
    {
        let ok = self.state.can_apply_state_change(changes);
        proof {
            reveal(applies_to);
        }
        ok && self.window.round_count() < usize::MAX
    }
}

// ───────────────────────── laws ─────────────────────────

/// The state a world starts a player in satisfies the state invariant.
pub proof fn lemma_initial_state_valid(w: &WorldConfig, player_name: Seq<char>, secs: u64)
    ensures
        crate::game_state::state_invariant(initial_state(w, player_name, secs)),
{
    reveal_strlit("game-started");
    reveal_strlit("player-name-");
    let g = initial_state(w, player_name, secs);
    let f0 = crate::snapshot::START_FLAG@;
    let f1 = PLAYER_NAME_FLAG@ + player_name;
    assert(f0[0] != f1[0]);
    assert(g.flags =~= seq![f0, f1]);
    assert(g.flags.no_duplicates());
    assert(g.locations.no_duplicates());
}

/// The state after character creation satisfies the state invariant.
pub proof fn lemma_created_state_valid(w: &WorldConfig, c: &CreationChoices, secs: u64)
    ensures
        crate::game_state::state_invariant(created_state(w, c, secs)),
{
    let g = initial_state(w, c.player_name@, secs);
    lemma_initial_state_valid(w, c.player_name@, secs);
    crate::state::lemma_starting_values_bounded(c);
    crate::game_state::lemma_add_locations(g.flags, background_flags(c));
}

/// A turn keeps the state invariant: starting the turn moves only the
/// round, and finishing it applies a change and keeps the narrative.
pub proof fn lemma_turn_keeps_invariant(g: GameView, c: ChangeView, narrative: Seq<char>)
    requires
        crate::game_state::state_invariant(g),
        crate::game_state::change_applies(g, c),
        g.round < i32::MAX,
    ensures
        crate::game_state::state_invariant(GameView { round: (g.round + 1) as i32, ..g }),
        crate::game_state::state_invariant(turn_state(g, c, narrative)),
{
    reveal(applied);
    crate::game_state::lemma_apply_keeps_invariant(g, c);
}


/// Law: the model-less options are always four, in this order: one for
/// cultivation (rest below 50 qi, otherwise practise), one for the place
/// (leave a cave or a seclusion, browse a market, consult the master in a
/// hall, otherwise explore on), one for the first item by its type (丹药 is taken with "服用", 法器 refined
/// with "祭炼", 功法 studied with "研读", each followed by the item's name;
/// another type tidies the belongings; no item means looking for
/// resources), and one for the first acquaintance by affinity (above 50 a
/// deep talk, below 0 mending the relation, otherwise a visit; nobody known
/// means making a new friend).
pub proof fn lemma_fallback_options_follow_state(g: GameView)
    ensures
        fallback_options(g).len() == 4,
        g.qi < 50 ==> fallback_options(g)[0] == "打坐恢复灵力"@,
        g.qi >= 50 ==> fallback_options(g)[0] == "潜心修炼功法"@,
        contains(g.current_location, "洞府"@) || contains(g.current_location, "闭关"@)
            ==> fallback_options(g)[1] == "出关探索外界"@,
        !contains(g.current_location, "洞府"@) && !contains(g.current_location, "闭关"@)
            && contains(g.current_location, "坊市"@) ==> fallback_options(g)[1] == "浏览坊市摊位"@,
        !contains(g.current_location, "洞府"@) && !contains(g.current_location, "闭关"@)
            && !contains(g.current_location, "坊市"@) && contains(g.current_location, "殿"@)
            ==> fallback_options(g)[1] == "向师尊请教"@,
        !contains(g.current_location, "洞府"@) && !contains(g.current_location, "闭关"@)
            && !contains(g.current_location, "坊市"@) && !contains(g.current_location, "殿"@)
            ==> fallback_options(g)[1] == "继续探索此处"@,
        g.inventory.len() > 0 && g.inventory[0].item_type == "丹药"@ ==> fallback_options(g)[2]
            == "服用"@ + g.inventory[0].name,
        g.inventory.len() > 0 && g.inventory[0].item_type == "法器"@ ==> fallback_options(g)[2]
            == "祭炼"@ + g.inventory[0].name,
        g.inventory.len() > 0 && g.inventory[0].item_type == "功法"@ ==> fallback_options(g)[2]
            == "研读"@ + g.inventory[0].name,
        g.inventory.len() > 0 && g.inventory[0].item_type != "丹药"@ && g.inventory[0].item_type
            != "法器"@ && g.inventory[0].item_type != "功法"@ ==> fallback_options(g)[2]
            == "整理随身物品"@,
        g.inventory.len() == 0 ==> fallback_options(g)[2] == "寻找可用资源"@,
        g.relationships.len() > 0 && g.relationships[0].affinity > 50 ==> fallback_options(g)[3]
            == "与"@ + g.relationships[0].name + "深谈"@,
        g.relationships.len() > 0 && g.relationships[0].affinity < 0 ==> fallback_options(g)[3]
            == "尝试缓和与"@ + g.relationships[0].name + "的关系"@,
        g.relationships.len() > 0 && 0 <= g.relationships[0].affinity <= 50
            ==> fallback_options(g)[3] == "拜访"@ + g.relationships[0].name,
        g.relationships.len() == 0 ==> fallback_options(g)[3] == "结识新的道友"@,
{
    reveal_strlit("丹药");
    reveal_strlit("法器");
    reveal_strlit("功法");
    assert("丹药"@[0] != "法器"@[0]);
    assert("丹药"@[0] != "功法"@[0]);
    assert("法器"@[0] != "功法"@[0]);
}

} // verus!
