//! The state a new game starts from, and the narrative snapshot of a game
//! state that is given to the model.
use vstd::prelude::*;
use crate::game_state::{
    CharacterNote, GameState, GameView, Quest, QuestStatus, QuestView, Relationship,
    RelationshipView, Technique, TechniqueView,
};
use crate::state::{default_stats, InventoryItem, ItemView, PlayerStats};
use crate::text::{cat, dec_int, dec_nat, join, join_strings, owned, push_i64, push_u64, views};

verus! {

broadcast use vstd::string::group_string_axioms;

// ───────────────────────── the starting state ─────────────────────────

pub const START_SCENARIO: &'static str = "qingyun";

pub const START_REALM: &'static str = "练气期初期";

pub const START_TECHNIQUE: &'static str = "青云吐纳术";

pub const START_TECHNIQUE_TIER: &'static str = "黄阶";

pub const START_TECHNIQUE_TYPE: &'static str = "心法";

/// The bit pattern of the 32-bit float 0.3, the starting proficiency.
pub const START_PROFICIENCY_BITS: u32 = 0x3e99999a;

pub const START_CAVE: &'static str = "青云宗·外门洞府";

pub const START_HALL: &'static str = "青云宗·传功殿";

pub const START_SECT: &'static str = "青云宗";

pub const START_MENTOR: &'static str = "清虚道人";

pub const START_MENTOR_ROLE: &'static str = "师尊";

pub const START_MENTOR_NOTE: &'static str = "青云宗传功长老，元婴后期大修士，外表四十余岁，面容清瘦，双目如电。表面冷淡，内心护短。";

pub const START_FLAG: &'static str = "game-started";

pub const ID_PREFIX: &'static str = "qingyun-";

/// The state of a new game started `secs` seconds after the Unix epoch.
pub open spec fn starting_state(secs: u64) -> GameView {
    GameView {
        id: ID_PREFIX@ + dec_nat(secs as nat),
        scenario: START_SCENARIO@,
        round: 0,
        realm: START_REALM@,
        realm_progress_bits: 0,
        qi: 100,
        max_qi: 100,
        stats: default_stats(),
        techniques: seq![
            TechniqueView {
                name: START_TECHNIQUE@,
                tier: START_TECHNIQUE_TIER@,
                tech_type: START_TECHNIQUE_TYPE@,
                proficiency_bits: START_PROFICIENCY_BITS,
            },
        ],
        inventory: Seq::empty(),
        spirit_stones: 0,
        locations: seq![START_CAVE@, START_HALL@],
        current_location: START_CAVE@,
        quests: Seq::empty(),
        sect: START_SECT@,
        relationships: seq![
            RelationshipView { name: START_MENTOR@, role: START_MENTOR_ROLE@, affinity: 20 },
        ],
        character_notes: seq![(START_MENTOR@, START_MENTOR_NOTE@)],
        flags: seq![START_FLAG@],
        recent_events: Seq::empty(),
        last_narrative: Seq::empty(),
    }
}

impl GameState {
    /// The state of a new game started `started_at_secs` seconds after the
    /// Unix epoch (the game id is "qingyun-" and that number).
    pub fn new_game(started_at_secs: u64) -> (g: GameState)
        ensures
            g@ == starting_state(started_at_secs),
    {
        let mut id = owned(ID_PREFIX);
        push_u64(&mut id, started_at_secs);
        let mut techniques: Vec<Technique> = Vec::new();
        techniques.push(
            Technique {
                name: owned(START_TECHNIQUE),
                tier: owned(START_TECHNIQUE_TIER),
                tech_type: owned(START_TECHNIQUE_TYPE),
                proficiency_bits: START_PROFICIENCY_BITS,
            },
        );
        let mut locations: Vec<String> = Vec::new();
        locations.push(owned(START_CAVE));
        locations.push(owned(START_HALL));
        let mut relationships: Vec<Relationship> = Vec::new();
        relationships.push(
            Relationship { name: owned(START_MENTOR), role: owned(START_MENTOR_ROLE), affinity: 20 },
        );
        let mut character_notes: Vec<CharacterNote> = Vec::new();
        character_notes.push(CharacterNote { name: owned(START_MENTOR), note: owned(START_MENTOR_NOTE) });
        let mut flags: Vec<String> = Vec::new();
        flags.push(owned(START_FLAG));
        let g = GameState {
            id,
            scenario: owned(START_SCENARIO),
            round: 0,
            realm: owned(START_REALM),
            realm_progress_bits: 0,
            qi: 100,
            max_qi: 100,
            stats: PlayerStats::new_default(),
            techniques,
            inventory: Vec::new(),
            spirit_stones: 0,
            locations,
            current_location: owned(START_CAVE),
            quests: Vec::new(),
            sect: owned(START_SECT),
            relationships,
            character_notes,
            flags,
            recent_events: Vec::new(),
            last_narrative: String::new(),
        };
        assert(g@ =~= starting_state(started_at_secs));
        g
    }
}

// ───────────────────────── the narrative snapshot ─────────────────────────

/// The lines concatenated.
pub open spec fn concat(lines: Seq<Seq<char>>) -> Seq<char>
    decreases lines.len(),
{
    if lines.len() == 0 {
        Seq::empty()
    } else {
        concat(lines.drop_last()) + lines.last()
    }
}

pub proof fn lemma_concat_step(lines: Seq<Seq<char>>, i: int)
    requires
        0 <= i < lines.len(),
    ensures
        concat(lines.take(i + 1)) == concat(lines.take(i)) + lines[i],
{
    assert(lines.take(i + 1).drop_last() =~= lines.take(i));
}

pub open spec fn technique_line(t: TechniqueView, pct: Seq<char>) -> Seq<char> {
    "  - "@ + t.name + " ("@ + t.tier + " "@ + t.tech_type + ", 熟练:"@ + pct + "%)\n"@
}

pub open spec fn item_line(i: ItemView) -> Seq<char> {
    "  - "@ + i.name + " ("@ + i.quality + " "@ + i.item_type + ") x"@ + dec_int(i.quantity as int)
        + ": "@ + i.effect + "\n"@
}

pub open spec fn status_word(s: QuestStatus) -> Seq<char> {
    match s {
        QuestStatus::Active => "进行中"@,
        QuestStatus::Completed => "已完成"@,
    }
}

pub open spec fn quest_line(q: QuestView) -> Seq<char> {
    "  - ["@ + status_word(q.status) + "] "@ + q.name + ": "@ + q.description + "\n"@
}

pub open spec fn relationship_line(r: RelationshipView) -> Seq<char> {
    "  - "@ + r.name + " ("@ + r.role + ") 好感: "@ + dec_int(r.affinity as int) + "\n"@
}

pub open spec fn event_line(e: Seq<char>) -> Seq<char> {
    "  - "@ + e + "\n"@
}

/// The realm, progress and qi lines of the snapshot.
pub open spec fn head_cultivation(g: GameView, progress_pct: Seq<char>) -> Seq<char> {
    "【角色状态】\n"@ + "修炼境界: "@ + g.realm + "\n"@ + "修炼进度: "@ + progress_pct + "%\n"@
        + "灵力: "@ + dec_int(g.qi as int) + "/"@ + dec_int(g.max_qi as int) + "\n"@
}

/// The line of the six stats.
pub open spec fn head_stats(g: GameView) -> Seq<char> {
    "六维: 剑道"@ + dec_int(g.stats.sword_art as int) + " 术法"@ + dec_int(g.stats.spell_art as int)
        + " 气血"@ + dec_int(g.stats.blood_qi as int) + " 神魂"@ + dec_int(
        g.stats.spirit_soul as int,
    ) + " 神识"@ + dec_int(g.stats.divine_sense as int) + " 道心"@ + dec_int(
        g.stats.dao_heart as int,
    ) + "\n"@
}

/// The spirit stone, sect and location lines.
pub open spec fn head_place(g: GameView) -> Seq<char> {
    "灵石: "@ + dec_int(g.spirit_stones as int) + "\n"@ + "宗门: "@ + g.sect + "\n"@ + "当前地点: "@
        + g.current_location + "\n"@
}

/// The fixed lines of the snapshot: realm, progress, qi, the six stats,
/// spirit stones, sect and location.
pub open spec fn narrative_head(g: GameView, progress_pct: Seq<char>) -> Seq<char> {
    head_cultivation(g, progress_pct) + head_stats(g) + head_place(g)
}

pub open spec fn techniques_part(ts: Seq<TechniqueView>, pcts: Seq<Seq<char>>) -> Seq<char> {
    if ts.len() == 0 {
        Seq::empty()
    } else {
        "功法:\n"@ + concat(Seq::new(ts.len(), |i: int| technique_line(ts[i], pcts[i])))
    }
}

pub open spec fn items_part(items: Seq<ItemView>) -> Seq<char> {
    if items.len() == 0 {
        Seq::empty()
    } else {
        "物品:\n"@ + concat(items.map_values(|i: ItemView| item_line(i)))
    }
}

pub open spec fn locations_part(locs: Seq<Seq<char>>) -> Seq<char> {
    if locs.len() == 0 {
        Seq::empty()
    } else {
        "已探索地点: "@ + join(locs, "、"@) + "\n"@
    }
}

pub open spec fn quests_part(qs: Seq<QuestView>) -> Seq<char> {
    if qs.len() == 0 {
        Seq::empty()
    } else {
        "当前任务:\n"@ + concat(qs.map_values(|q: QuestView| quest_line(q)))
    }
}

pub open spec fn relationships_part(rs: Seq<RelationshipView>) -> Seq<char> {
    if rs.len() == 0 {
        Seq::empty()
    } else {
        "人物关系:\n"@ + concat(rs.map_values(|r: RelationshipView| relationship_line(r)))
    }
}

pub open spec fn events_part(es: Seq<Seq<char>>) -> Seq<char> {
    if es.len() == 0 {
        Seq::empty()
    } else {
        "近期事件:\n"@ + concat(es.map_values(|e: Seq<char>| event_line(e)))
    }
}

/// The snapshot of a game state given to the model; `progress_pct` is the
/// realm progress and `proficiency_pcts` the proficiency of each technique,
/// as whole percentages.
pub open spec fn narrative_of(g: GameView, progress_pct: Seq<char>, proficiency_pcts: Seq<
    Seq<char>,
>) -> Seq<char> {
    narrative_head(g, progress_pct) + techniques_part(g.techniques, proficiency_pcts) + items_part(
        g.inventory,
    ) + locations_part(g.locations) + quests_part(g.quests) + relationships_part(g.relationships)
        + events_part(g.recent_events)
}

fn push_int(s: &mut String, n: i32)
    ensures
        final(s)@ == old(s)@ + dec_int(n as int),
{
    push_i64(s, n as i64);
}

fn push_cultivation(s: &mut String, g: &GameState, progress_pct: &str)
    ensures
        final(s)@ == old(s)@ + head_cultivation(g@, progress_pct@),
{
    let ghost s0 = s@;
    cat(s, "【角色状态】\n");
    cat(s, "修炼境界: ");
    cat(s, g.realm.as_str());
    cat(s, "\n");
    cat(s, "修炼进度: ");
    cat(s, progress_pct);
    cat(s, "%\n");
    cat(s, "灵力: ");
    push_int(s, g.qi);
    cat(s, "/");
    push_int(s, g.max_qi);
    cat(s, "\n");
    assert(s@ =~= s0 + head_cultivation(g@, progress_pct@));
}

fn push_stats(s: &mut String, g: &GameState)
    ensures
        final(s)@ == old(s)@ + head_stats(g@),
{
    let ghost s0 = s@;
    cat(s, "六维: 剑道");
    push_int(s, g.stats.sword_art);
    cat(s, " 术法");
    push_int(s, g.stats.spell_art);
    cat(s, " 气血");
    push_int(s, g.stats.blood_qi);
    cat(s, " 神魂");
    push_int(s, g.stats.spirit_soul);
    cat(s, " 神识");
    push_int(s, g.stats.divine_sense);
    cat(s, " 道心");
    push_int(s, g.stats.dao_heart);
    cat(s, "\n");
    assert(s@ =~= s0 + head_stats(g@));
}

fn push_place(s: &mut String, g: &GameState)
    ensures
        final(s)@ == old(s)@ + head_place(g@),
{
    let ghost s0 = s@;
    cat(s, "灵石: ");
    push_int(s, g.spirit_stones);
    cat(s, "\n");
    cat(s, "宗门: ");
    cat(s, g.sect.as_str());
    cat(s, "\n");
    cat(s, "当前地点: ");
    cat(s, g.current_location.as_str());
    cat(s, "\n");
    assert(s@ =~= s0 + head_place(g@));
}

fn push_head(s: &mut String, g: &GameState, progress_pct: &str)
    ensures
        final(s)@ == old(s)@ + narrative_head(g@, progress_pct@),
{
    let ghost s0 = s@;
    push_cultivation(s, g, progress_pct);
    push_stats(s, g);
    push_place(s, g);
    assert(s@ =~= s0 + narrative_head(g@, progress_pct@));
}

fn push_techniques(s: &mut String, ts: &Vec<Technique>, pcts: &Vec<String>)
    requires
        pcts@.len() == ts@.len(),
    ensures
        final(s)@ == old(s)@ + techniques_part(crate::game_state::technique_views(ts@), views(pcts@)),
{
    let ghost tv = crate::game_state::technique_views(ts@);
    let ghost pv = views(pcts@);
    let ghost lines = Seq::new(tv.len(), |i: int| technique_line(tv[i], pv[i]));
    if ts.len() == 0 {
        assert(s@ =~= old(s)@ + techniques_part(tv, pv));
        return ;
    }
    cat(s, "功法:\n");
    let ghost s0 = s@;
    let mut i: usize = 0;
    while i < ts.len()
        invariant
            i <= ts@.len(),
            pcts@.len() == ts@.len(),
            tv == crate::game_state::technique_views(ts@),
            pv == views(pcts@),
            lines == Seq::new(tv.len(), |i: int| technique_line(tv[i], pv[i])),
            s@ == s0 + concat(lines.take(i as int)),
        decreases ts@.len() - i,
    {
        proof {
            lemma_concat_step(lines, i as int);
        }
        let t = &ts[i];
        let ghost before = s@;
        cat(s, "  - ");
        cat(s, t.name.as_str());
        cat(s, " (");
        cat(s, t.tier.as_str());
        cat(s, " ");
        cat(s, t.tech_type.as_str());
        cat(s, ", 熟练:");
        cat(s, pcts[i].as_str());
        cat(s, "%)\n");
        assert(s@ =~= before + lines[i as int]);
        i = i + 1;
    }
    assert(lines.take(ts@.len() as int) =~= lines);
}

fn push_items(s: &mut String, items: &Vec<InventoryItem>)
    ensures
        final(s)@ == old(s)@ + items_part(crate::state::item_views(items@)),
{
    let ghost iv = crate::state::item_views(items@);
    let ghost lines = iv.map_values(|i: ItemView| item_line(i));
    if items.len() == 0 {
        assert(s@ =~= old(s)@ + items_part(iv));
        return ;
    }
    cat(s, "物品:\n");
    let ghost s0 = s@;
    let mut i: usize = 0;
    while i < items.len()
        invariant
            i <= items@.len(),
            iv == crate::state::item_views(items@),
            lines == iv.map_values(|i: ItemView| item_line(i)),
            s@ == s0 + concat(lines.take(i as int)),
        decreases items@.len() - i,
    {
        proof {
            lemma_concat_step(lines, i as int);
        }
        let it = &items[i];
        let ghost before = s@;
        cat(s, "  - ");
        cat(s, it.name.as_str());
        cat(s, " (");
        cat(s, it.quality.as_str());
        cat(s, " ");
        cat(s, it.item_type.as_str());
        cat(s, ") x");
        push_int(s, it.quantity);
        cat(s, ": ");
        cat(s, it.effect.as_str());
        cat(s, "\n");
        assert(s@ =~= before + lines[i as int]);
        i = i + 1;
    }
    assert(lines.take(items@.len() as int) =~= lines);
}

fn push_quests(s: &mut String, qs: &Vec<Quest>)
    ensures
        final(s)@ == old(s)@ + quests_part(crate::game_state::quest_views(qs@)),
{
    let ghost qv = crate::game_state::quest_views(qs@);
    let ghost lines = qv.map_values(|q: QuestView| quest_line(q));
    if qs.len() == 0 {
        assert(s@ =~= old(s)@ + quests_part(qv));
        return ;
    }
    cat(s, "当前任务:\n");
    let ghost s0 = s@;
    let mut i: usize = 0;
    while i < qs.len()
        invariant
            i <= qs@.len(),
            qv == crate::game_state::quest_views(qs@),
            lines == qv.map_values(|q: QuestView| quest_line(q)),
            s@ == s0 + concat(lines.take(i as int)),
        decreases qs@.len() - i,
    {
        proof {
            lemma_concat_step(lines, i as int);
        }
        let q = &qs[i];
        let ghost before = s@;
        cat(s, "  - [");
        match q.status {
            QuestStatus::Active => cat(s, "进行中"),
            QuestStatus::Completed => cat(s, "已完成"),
        }
        cat(s, "] ");
        cat(s, q.name.as_str());
        cat(s, ": ");
        cat(s, q.description.as_str());
        cat(s, "\n");
        assert(s@ =~= before + lines[i as int]);
        i = i + 1;
    }
    assert(lines.take(qs@.len() as int) =~= lines);
}

fn push_relationships(s: &mut String, rs: &Vec<Relationship>)
    ensures
        final(s)@ == old(s)@ + relationships_part(crate::game_state::relationship_views(rs@)),
{
    let ghost rv = crate::game_state::relationship_views(rs@);
    let ghost lines = rv.map_values(|r: RelationshipView| relationship_line(r));
    if rs.len() == 0 {
        assert(s@ =~= old(s)@ + relationships_part(rv));
        return ;
    }
    cat(s, "人物关系:\n");
    let ghost s0 = s@;
    let mut i: usize = 0;
    while i < rs.len()
        invariant
            i <= rs@.len(),
            rv == crate::game_state::relationship_views(rs@),
            lines == rv.map_values(|r: RelationshipView| relationship_line(r)),
            s@ == s0 + concat(lines.take(i as int)),
        decreases rs@.len() - i,
    {
        proof {
            lemma_concat_step(lines, i as int);
        }
        let r = &rs[i];
        let ghost before = s@;
        cat(s, "  - ");
        cat(s, r.name.as_str());
        cat(s, " (");
        cat(s, r.role.as_str());
        cat(s, ") 好感: ");
        push_int(s, r.affinity);
        cat(s, "\n");
        assert(s@ =~= before + lines[i as int]);
        i = i + 1;
    }
    assert(lines.take(rs@.len() as int) =~= lines);
}

fn push_events(s: &mut String, es: &Vec<String>)
    ensures
        final(s)@ == old(s)@ + events_part(views(es@)),
{
    let ghost ev = views(es@);
    let ghost lines = ev.map_values(|e: Seq<char>| event_line(e));
    if es.len() == 0 {
        assert(s@ =~= old(s)@ + events_part(ev));
        return ;
    }
    cat(s, "近期事件:\n");
    let ghost s0 = s@;
    let mut i: usize = 0;
    while i < es.len()
        invariant
            i <= es@.len(),
            ev == views(es@),
            lines == ev.map_values(|e: Seq<char>| event_line(e)),
            s@ == s0 + concat(lines.take(i as int)),
        decreases es@.len() - i,
    {
        proof {
            lemma_concat_step(lines, i as int);
        }
        let ghost before = s@;
        cat(s, "  - ");
        cat(s, es[i].as_str());
        cat(s, "\n");
        assert(s@ =~= before + lines[i as int]);
        i = i + 1;
    }
    assert(lines.take(es@.len() as int) =~= lines);
}

impl GameState {
    /// The state as narrative text for the model.  `progress_pct` is the
    /// realm progress and `proficiency_pcts` the proficiency of each
    /// technique, in order, as whole percentages.
    pub fn to_narrative(&self, progress_pct: &str, proficiency_pcts: &Vec<String>) -> (r: String)
        requires
            proficiency_pcts@.len() == self.techniques@.len(),
        ensures
            r@ == narrative_of(self@, progress_pct@, views(proficiency_pcts@)),
    {
        let mut s = String::new();
        push_head(&mut s, self, progress_pct);
        push_techniques(&mut s, &self.techniques, proficiency_pcts);
        push_items(&mut s, &self.inventory);
        if self.locations.len() > 0 {
            cat(&mut s, "已探索地点: ");
            let joined = join_strings(&self.locations, "、");
            cat(&mut s, joined.as_str());
            cat(&mut s, "\n");
        }
        push_quests(&mut s, &self.quests);
        push_relationships(&mut s, &self.relationships);
        push_events(&mut s, &self.recent_events);
        assert(s@ =~= narrative_of(self@, progress_pct@, views(proficiency_pcts@)));
        s
    }
}

} // verus!
