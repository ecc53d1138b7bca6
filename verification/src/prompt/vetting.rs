//! The vetting of what the model extracted or generated: a state change is
//! cut down to what is new and within bounds, and a generated world keeps
//! the answers of the creation questionnaire.
use vstd::prelude::*;
use crate::game_state::{
    technique_views, ChangeView, GameState, GameView, QuestUpdate, QuestUpdateView, StateChange,
    Technique, TechniqueView,
};
use crate::state::{background_flags, item_views, CreationChoices, InventoryItem, ItemView, WorldConfig};
use crate::text::{chars_of, slice_of, str_trim, trim, views};
use crate::prompt::builder::{strip_prefixes, strip_suffixes};

verus! {

broadcast use vstd::string::group_string_axioms;

// ───────────────────────── code fences ─────────────────────────

/// The text without the code fences that models wrap JSON in: trimmed, a
/// leading "```json" (or "```") removed, trailing "```" removed, trimmed
/// again.
pub open spec fn unfenced_json(s: Seq<char>) -> Seq<char> {
    trim(
        strip_suffixes(
            strip_prefixes(trim(strip_prefixes(trim(s), "```json"@)), "```"@),
            "```"@,
        ),
    )
}

fn strip_prefixes_of(s: String, p: &str) -> (r: String)
    requires
        p@.len() > 0,
    ensures
        r@ == strip_prefixes(s@, p@),
    decreases s@.len(),
{
    let v = chars_of(s.as_str());
    let w = chars_of(p);
    if crate::text::chars_starts_with(&v, &w) {
        let shorter = slice_of(s.as_str(), &v, w.len(), v.len());
        strip_prefixes_of(shorter, p)
    } else {
        s
    }
}

fn strip_suffixes_of(s: String, p: &str) -> (r: String)
    requires
        p@.len() > 0,
    ensures
        r@ == strip_suffixes(s@, p@),
    decreases s@.len(),
{
    let v = chars_of(s.as_str());
    let w = chars_of(p);
    if crate::text::chars_ends_with(&v, &w) {
        let shorter = slice_of(s.as_str(), &v, 0, v.len() - w.len());
        strip_suffixes_of(shorter, p)
    } else {
        s
    }
}

/// Removes the code fences around a JSON reply.
pub fn strip_json_fences(s: &str) -> (r: String)
    ensures
        r@ == unfenced_json(s@),
{
    proof {
        reveal_strlit("```json");
        reveal_strlit("```");
    }
    let t1 = str_trim(s);
    let t2 = strip_prefixes_of(t1, "```json");
    let t3 = str_trim(t2.as_str());
    let t4 = strip_prefixes_of(t3, "```");
    let t5 = strip_suffixes_of(t4, "```");
    str_trim(t5.as_str())
}

// ───────────────────────── names in place of objects ─────────────────────────

/// A technique as the model may write it: a full object, or only its name.
pub enum TechniqueEntry {
    Name(String),
    Full(Technique),
}

/// An item as the model may write it: a full object, or only its name.
pub enum ItemEntry {
    Name(String),
    Full(InventoryItem),
}

/// The bit pattern of the 32-bit float 0.1, the proficiency of a technique
/// given by name only.
pub const NAMED_TECHNIQUE_PROFICIENCY_BITS: u32 = 0x3dcccccd;

/// The technique an entry stands for: a name alone gives a 黄阶 心法
/// technique of proficiency 0.1.
pub open spec fn entry_technique(e: TechniqueEntry) -> TechniqueView {
    match e {
        TechniqueEntry::Name(n) => TechniqueView {
            name: n@,
            tier: "黄阶"@,
            tech_type: "心法"@,
            proficiency_bits: NAMED_TECHNIQUE_PROFICIENCY_BITS,
        },
        TechniqueEntry::Full(t) => t@,
    }
}

/// The item an entry stands for: a name alone gives one ordinary 杂物 item
/// without effect.
pub open spec fn entry_item(e: ItemEntry) -> ItemView {
    match e {
        ItemEntry::Name(n) => ItemView {
            name: n@,
            item_type: "杂物"@,
            quality: "普通"@,
            quantity: 1,
            effect: Seq::empty(),
        },
        ItemEntry::Full(i) => i@,
    }
}

/// The technique an entry stands for.
pub fn technique_of_entry(e: TechniqueEntry) -> (r: Technique)
    ensures
        r@ == entry_technique(e),
{
    match e {
        TechniqueEntry::Name(n) => Technique {
            name: n,
            tier: crate::text::owned("黄阶"),
            tech_type: crate::text::owned("心法"),
            proficiency_bits: NAMED_TECHNIQUE_PROFICIENCY_BITS,
        },
        TechniqueEntry::Full(t) => t,
    }
}

/// The item an entry stands for.
pub fn item_of_entry(e: ItemEntry) -> (r: InventoryItem)
    ensures
        r@ == entry_item(e),
{
    match e {
        ItemEntry::Name(n) => InventoryItem {
            name: n,
            item_type: crate::text::owned("杂物"),
            quality: crate::text::owned("普通"),
            quantity: 1,
            effect: String::new(),
        },
        ItemEntry::Full(i) => i,
    }
}

// ───────────────────────── the state change ─────────────────────────

/// The elements of `s` that satisfy `p`, in order.
pub open spec fn keep<T>(s: Seq<T>, p: spec_fn(T) -> bool) -> Seq<T>
    decreases s.len(),
{
    if s.len() == 0 {
        s
    } else {
        keep(s.drop_last(), p) + (if p(s.last()) {
            seq![s.last()]
        } else {
            Seq::empty()
        })
    }
}

pub proof fn lemma_keep_step<T>(s: Seq<T>, p: spec_fn(T) -> bool, i: int)
    requires
        0 <= i < s.len(),
    ensures
        keep(s.take(i + 1), p) == keep(s.take(i), p) + (if p(s[i]) {
            seq![s[i]]
        } else {
            Seq::empty()
        }),
{
    assert(s.take(i + 1).drop_last() =~= s.take(i));
}

/// `Some(s)`, or `None` when `s` is empty.
pub open spec fn unless_empty<T>(s: Seq<T>) -> Option<Seq<T>> {
    if s.len() == 0 {
        None
    } else {
        Some(s)
    }
}

pub open spec fn knows_technique(g: GameView, name: Seq<char>) -> bool {
    exists|j: int| 0 <= j < g.techniques.len() && (#[trigger] g.techniques[j]).name == name
}

pub open spec fn has_quest(g: GameView, name: Seq<char>) -> bool {
    exists|j: int| 0 <= j < g.quests.len() && (#[trigger] g.quests[j]).name == name
}

pub open spec fn holds_item(g: GameView, name: Seq<char>) -> bool {
    exists|j: int| 0 <= j < g.inventory.len() && (#[trigger] g.inventory[j]).name == name
}

/// A stat delta limited to -5..=5.
pub open spec fn clamp_delta(d: Option<i32>) -> Option<i32> {
    match d {
        Some(x) => Some(
            if x < -5 {
                -5i32
            } else if x > 5 {
                5i32
            } else {
                x
            },
        ),
        None => None,
    }
}

/// A decoded change vetted against the current state: techniques,
/// items and quests (by name) and locations already known are dropped, a
/// list left empty becomes absent, a flag already set is dropped, and each
/// stat delta is limited to -5..=5.  Everything else is kept.
pub open spec fn vetted(c: ChangeView, g: GameView) -> ChangeView {
    ChangeView {
        set_realm: c.set_realm,
        qi_delta: c.qi_delta,
        qi_set: c.qi_set,
        max_qi_delta: c.max_qi_delta,
        spirit_stones_delta: c.spirit_stones_delta,
        sword_art_delta: clamp_delta(c.sword_art_delta),
        spell_art_delta: clamp_delta(c.spell_art_delta),
        blood_qi_delta: clamp_delta(c.blood_qi_delta),
        spirit_soul_delta: clamp_delta(c.spirit_soul_delta),
        divine_sense_delta: clamp_delta(c.divine_sense_delta),
        dao_heart_delta: clamp_delta(c.dao_heart_delta),
        add_techniques: match c.add_techniques {
            Some(ts) => unless_empty(keep(ts, |t: TechniqueView| !knows_technique(g, t.name))),
            None => None,
        },
        add_items: match c.add_items {
            Some(items) => unless_empty(keep(items, |i: ItemView| !holds_item(g, i.name))),
            None => None,
        },
        remove_items: c.remove_items,
        relationship_changes: c.relationship_changes,
        new_locations: match c.new_locations {
            Some(ls) => unless_empty(keep(ls, |l: Seq<char>| !g.locations.contains(l))),
            None => None,
        },
        set_current_location: c.set_current_location,
        quest_updates: match c.quest_updates {
            Some(qs) => unless_empty(keep(qs, |q: QuestUpdateView| !has_quest(g, q.name))),
            None => None,
        },
        add_flag: match c.add_flag {
            Some(f) => if g.flags.contains(f) {
                None
            } else {
                Some(f)
            },
            None => None,
        },
        add_event: c.add_event,
        consume_items: c.consume_items,
        rename_relationships: c.rename_relationships,
    }
}

fn knows_technique_named(state: &GameState, name: &String) -> (r: bool)
    ensures
        r == knows_technique(state@, name@),
{
    let mut i: usize = 0;
    while i < state.techniques.len()
        invariant
            i <= state.techniques@.len(),
            forall|j: int| 0 <= j < i ==> (#[trigger] state@.techniques[j]).name != name@,
        decreases state.techniques@.len() - i,
    {
        if state.techniques[i].name == *name {
            assert(state@.techniques[i as int].name == name@);
            return true;
        }
        i = i + 1;
    }
    false
}

fn holds_item_named(state: &GameState, name: &String) -> (r: bool)
    ensures
        r == holds_item(state@, name@),
{
    let mut i: usize = 0;
    while i < state.inventory.len()
        invariant
            i <= state.inventory@.len(),
            forall|j: int| 0 <= j < i ==> (#[trigger] state@.inventory[j]).name != name@,
        decreases state.inventory@.len() - i,
    {
        if state.inventory[i].name == *name {
            assert(state@.inventory[i as int].name == name@);
            return true;
        }
        i = i + 1;
    }
    false
}

fn knows_location(state: &GameState, loc: &String) -> (r: bool)
    ensures
        r == state@.locations.contains(loc@),
{
    let mut i: usize = 0;
    while i < state.locations.len()
        invariant
            i <= state.locations@.len(),
            forall|j: int| 0 <= j < i ==> state@.locations[j] != loc@,
        decreases state.locations@.len() - i,
    {
        if state.locations[i] == *loc {
            assert(state@.locations[i as int] == loc@);
            return true;
        }
        i = i + 1;
    }
    false
}

fn has_flag(state: &GameState, flag: &String) -> (r: bool)
    ensures
        r == state@.flags.contains(flag@),
{
    let mut i: usize = 0;
    while i < state.flags.len()
        invariant
            i <= state.flags@.len(),
            forall|j: int| 0 <= j < i ==> state@.flags[j] != flag@,
        decreases state.flags@.len() - i,
    {
        if state.flags[i] == *flag {
            assert(state@.flags[i as int] == flag@);
            return true;
        }
        i = i + 1;
    }
    false
}

fn new_techniques(ts: &Vec<Technique>, state: &GameState) -> (r: Option<Vec<Technique>>)
    ensures
        match r {
            Some(v) => Some(technique_views(v@)) == unless_empty(
                keep(technique_views(ts@), |t: TechniqueView| !knows_technique(state@, t.name)),
            ),
            None => unless_empty(
                keep(technique_views(ts@), |t: TechniqueView| !knows_technique(state@, t.name)),
            ) is None,
        },
{
    let ghost p = |t: TechniqueView| !knows_technique(state@, t.name);
    let ghost tv = technique_views(ts@);
    let mut kept: Vec<Technique> = Vec::new();
    let mut i: usize = 0;
    while i < ts.len()
        invariant
            i <= ts@.len(),
            tv == technique_views(ts@),
            p == (|t: TechniqueView| !knows_technique(state@, t.name)),
            technique_views(kept@) == keep(tv.take(i as int), p),
        decreases ts@.len() - i,
    {
        proof {
            lemma_keep_step(tv, p, i as int);
        }
        let ghost before = technique_views(kept@);
        if !knows_technique_named(state, &ts[i].name) {
            kept.push(ts[i].duplicate());
            assert(technique_views(kept@) =~= before + seq![tv[i as int]]);
        } else {
            assert(technique_views(kept@) =~= before + Seq::<TechniqueView>::empty());
        }
        i = i + 1;
    }
    assert(tv.take(ts@.len() as int) =~= tv);
    if kept.len() == 0 {
        None
    } else {
        Some(kept)
    }
}

fn new_items(items: &Vec<InventoryItem>, state: &GameState) -> (r: Option<Vec<InventoryItem>>)
    ensures
        match r {
            Some(v) => Some(item_views(v@)) == unless_empty(
                keep(item_views(items@), |i: ItemView| !holds_item(state@, i.name)),
            ),
            None => unless_empty(
                keep(item_views(items@), |i: ItemView| !holds_item(state@, i.name)),
            ) is None,
        },
{
    let ghost p = |i: ItemView| !holds_item(state@, i.name);
    let ghost iv = item_views(items@);
    let mut kept: Vec<InventoryItem> = Vec::new();
    let mut i: usize = 0;
    while i < items.len()
        invariant
            i <= items@.len(),
            iv == item_views(items@),
            p == (|i: ItemView| !holds_item(state@, i.name)),
            item_views(kept@) == keep(iv.take(i as int), p),
        decreases items@.len() - i,
    {
        proof {
            lemma_keep_step(iv, p, i as int);
        }
        let ghost before = item_views(kept@);
        if !holds_item_named(state, &items[i].name) {
            kept.push(items[i].duplicate());
            assert(item_views(kept@) =~= before + seq![iv[i as int]]);
        } else {
            assert(item_views(kept@) =~= before + Seq::<ItemView>::empty());
        }
        i = i + 1;
    }
    assert(iv.take(items@.len() as int) =~= iv);
    if kept.len() == 0 {
        None
    } else {
        Some(kept)
    }
}

fn new_locations(locs: &Vec<String>, state: &GameState) -> (r: Option<Vec<String>>)
    ensures
        match r {
            Some(v) => Some(views(v@)) == unless_empty(
                keep(views(locs@), |l: Seq<char>| !state@.locations.contains(l)),
            ),
            None => unless_empty(
                keep(views(locs@), |l: Seq<char>| !state@.locations.contains(l)),
            ) is None,
        },
{
    let ghost p = |l: Seq<char>| !state@.locations.contains(l);
    let ghost lv = views(locs@);
    let mut kept: Vec<String> = Vec::new();
    let mut i: usize = 0;
    while i < locs.len()
        invariant
            i <= locs@.len(),
            lv == views(locs@),
            p == (|l: Seq<char>| !state@.locations.contains(l)),
            views(kept@) == keep(lv.take(i as int), p),
        decreases locs@.len() - i,
    {
        proof {
            lemma_keep_step(lv, p, i as int);
        }
        let ghost before = views(kept@);
        if !knows_location(state, &locs[i]) {
            kept.push(locs[i].clone());
            assert(views(kept@) =~= before + seq![lv[i as int]]);
        } else {
            assert(views(kept@) =~= before + Seq::<Seq<char>>::empty());
        }
        i = i + 1;
    }
    assert(lv.take(locs@.len() as int) =~= lv);
    if kept.len() == 0 {
        None
    } else {
        Some(kept)
    }
}

fn has_quest_named(state: &GameState, name: &String) -> (r: bool)
    ensures
        r == has_quest(state@, name@),
{
    let mut i: usize = 0;
    while i < state.quests.len()
        invariant
            i <= state.quests@.len(),
            forall|j: int| 0 <= j < i ==> (#[trigger] state@.quests[j]).name != name@,
        decreases state.quests@.len() - i,
    {
        if state.quests[i].name == *name {
            assert(state@.quests[i as int].name == name@);
            return true;
        }
        i = i + 1;
    }
    false
}

fn copy_quest_update(q: &QuestUpdate) -> (r: QuestUpdate)
    ensures
        r@ == q@,
{
    QuestUpdate {
        name: q.name.clone(),
        status: match &q.status {
            Some(s) => Some(s.clone()),
            None => None,
        },
        description: match &q.description {
            Some(d) => Some(d.clone()),
            None => None,
        },
    }
}

fn new_quest_updates(qs: &Vec<QuestUpdate>, state: &GameState) -> (r: Option<Vec<QuestUpdate>>)
    ensures
        match r {
            Some(v) => Some(v@.map_values(|q: QuestUpdate| q@)) == unless_empty(
                keep(qs@.map_values(|q: QuestUpdate| q@), |q: QuestUpdateView| !has_quest(state@, q.name)),
            ),
            None => unless_empty(
                keep(qs@.map_values(|q: QuestUpdate| q@), |q: QuestUpdateView| !has_quest(state@, q.name)),
            ) is None,
        },
{
    let ghost p = |q: QuestUpdateView| !has_quest(state@, q.name);
    let ghost qv = qs@.map_values(|q: QuestUpdate| q@);
    let mut kept: Vec<QuestUpdate> = Vec::new();
    let mut i: usize = 0;
    while i < qs.len()
        invariant
            i <= qs@.len(),
            qv == qs@.map_values(|q: QuestUpdate| q@),
            p == (|q: QuestUpdateView| !has_quest(state@, q.name)),
            kept@.map_values(|q: QuestUpdate| q@) == keep(qv.take(i as int), p),
        decreases qs@.len() - i,
    {
        proof {
            lemma_keep_step(qv, p, i as int);
        }
        let ghost before = kept@.map_values(|q: QuestUpdate| q@);
        if !has_quest_named(state, &qs[i].name) {
            kept.push(copy_quest_update(&qs[i]));
            assert(kept@.map_values(|q: QuestUpdate| q@) =~= before + seq![qv[i as int]]);
        } else {
            assert(kept@.map_values(|q: QuestUpdate| q@) =~= before + Seq::<QuestUpdateView>::empty());
        }
        i = i + 1;
    }
    assert(qv.take(qs@.len() as int) =~= qv);
    if kept.len() == 0 {
        None
    } else {
        Some(kept)
    }
}

fn clamp_stat_delta(d: Option<i32>) -> (r: Option<i32>)
    ensures
        r == clamp_delta(d),
{
    match d {
        Some(x) => Some(
            if x < -5 {
                -5
            } else if x > 5 {
                5
            } else {
                x
            },
        ),
        None => None,
    }
}

/// Vets a decoded state change against the current state (no change
/// when nothing was decoded): what is already known is dropped and the stat
/// deltas are limited to -5..=5.
pub fn vet_state_change(decoded: Option<StateChange>, state: &GameState) -> (r: StateChange)
    ensures
        r@ == match decoded {
            Some(c) => vetted(c@, state@),
            None => crate::game_state::no_change(),
        },
{
    let c = match decoded {
        Some(c) => c,
        None => {
            return StateChange::default();
        },
    };
    let ghost cv = c@;
    let add_techniques = match &c.add_techniques {
        Some(ts) => new_techniques(ts, state),
        None => None,
    };
    let add_items = match &c.add_items {
        Some(items) => new_items(items, state),
        None => None,
    };
    let new_locations = match &c.new_locations {
        Some(ls) => new_locations(ls, state),
        None => None,
    };
    let quest_updates = match &c.quest_updates {
        Some(qs) => new_quest_updates(qs, state),
        None => None,
    };
    let add_flag = match &c.add_flag {
        Some(f) => if has_flag(state, f) {
            None
        } else {
            Some(f.clone())
        },
        None => None,
    };
    let r = StateChange {
        set_realm: c.set_realm,
        qi_delta: c.qi_delta,
        qi_set: c.qi_set,
        max_qi_delta: c.max_qi_delta,
        spirit_stones_delta: c.spirit_stones_delta,
        sword_art_delta: clamp_stat_delta(c.sword_art_delta),
        spell_art_delta: clamp_stat_delta(c.spell_art_delta),
        blood_qi_delta: clamp_stat_delta(c.blood_qi_delta),
        spirit_soul_delta: clamp_stat_delta(c.spirit_soul_delta),
        divine_sense_delta: clamp_stat_delta(c.divine_sense_delta),
        dao_heart_delta: clamp_stat_delta(c.dao_heart_delta),
        add_techniques,
        add_items,
        remove_items: c.remove_items,
        relationship_changes: c.relationship_changes,
        new_locations,
        set_current_location: c.set_current_location,
        quest_updates,
        add_flag,
        add_event: c.add_event,
        consume_items: c.consume_items,
        rename_relationships: c.rename_relationships,
    };
    assert(r@ =~= vetted(cv, state@));
    r
}

// ───────────────────────── the generated world ─────────────────────────

/// The generated fields of `r` are those of `w`.
pub open spec fn same_generated_fields(r: &WorldConfig, w: &WorldConfig) -> bool {
    &&& r.era_name@ == w.era_name@
    &&& r.era_description@ == w.era_description@
    &&& r.continent_name@ == w.continent_name@
    &&& r.continent_description@ == w.continent_description@
    &&& r.sect_name@ == w.sect_name@
    &&& r.sect_type@ == w.sect_type@
    &&& r.sect_scale@ == w.sect_scale@
    &&& r.sect_description@ == w.sect_description@
    &&& r.sect_atmosphere@ == w.sect_atmosphere@
    &&& r.player_title@ == w.player_title@
    &&& r.player_title_description@ == w.player_title_description@
    &&& r.starting_location_name@ == w.starting_location_name@
    &&& r.starting_location_description@ == w.starting_location_description@
    &&& r.key_npc_name@ == w.key_npc_name@
    &&& r.key_npc_role@ == w.key_npc_role@
    &&& r.key_npc_realm@ == w.key_npc_realm@
    &&& r.key_npc_description@ == w.key_npc_description@
    &&& r.nearby_threat_name@ == w.nearby_threat_name@
    &&& r.nearby_threat_description@ == w.nearby_threat_description@
    &&& r.world_hook@ == w.world_hook@
}

/// The questionnaire fields of `r` are the answers in `c`, and its
/// background flags are those the answers give.
pub open spec fn answers_kept(r: &WorldConfig, c: &CreationChoices) -> bool {
    &&& r.narrative_style@ == c.narrative_style@
    &&& views(r.background_flags@) == background_flags(c)
    &&& r.sect_category@ == c.sect_category@
    &&& r.join_reason@ == c.join_reason@
    &&& r.demonic_stance@ == c.demonic_stance@
    &&& r.personality_archetype@ == c.personality_archetype@
    &&& r.core_value@ == c.core_value@
    &&& r.altruism@ == c.altruism@
}

/// The world generated by the model with the questionnaire's answers put
/// back: `None` when nothing was decoded from the reply.
pub fn world_config_from_decoded(decoded: Option<WorldConfig>, choices: &CreationChoices) -> (r:
    Option<WorldConfig>)
    ensures
        match (decoded, r) {
            (Some(w), Some(x)) => same_generated_fields(&x, &w) && answers_kept(&x, choices),
            (None, None) => true,
            _ => false,
        },
{
    match decoded {
        Some(w) => {
            let mut wc = w;
            wc.narrative_style = choices.narrative_style.clone();
            wc.background_flags = choices.collect_background_flags();
            wc.sect_category = choices.sect_category.clone();
            wc.join_reason = choices.join_reason.clone();
            wc.demonic_stance = choices.demonic_stance.clone();
            wc.personality_archetype = choices.personality_archetype.clone();
            wc.core_value = choices.core_value.clone();
            wc.altruism = choices.altruism.clone();
            Some(wc)
        },
        None => None,
    }
}

// ───────────────────────── laws ─────────────────────────

pub proof fn lemma_keep_satisfies<T>(s: Seq<T>, p: spec_fn(T) -> bool)
    ensures
        forall|i: int| 0 <= i < keep(s, p).len() ==> p(#[trigger] keep(s, p)[i]),
    decreases s.len(),
{
    if s.len() > 0 {
        lemma_keep_satisfies(s.drop_last(), p);
        let k = keep(s.drop_last(), p);
        assert forall|i: int| 0 <= i < keep(s, p).len() implies p(#[trigger] keep(s, p)[i]) by {
            if i < k.len() {
                assert(keep(s, p)[i] == k[i]);
            }
        }
    }
}

pub open spec fn within_five(d: Option<i32>) -> bool {
    d matches Some(x) ==> -5 <= x <= 5
}

/// A vetted change adds nothing the state already has: no technique or
/// item under a name already held, no update of a quest already present,
/// no location already recorded, no flag
/// already set; no list it adds is empty; and every stat delta lies within
/// -5..=5.
pub proof fn lemma_vetted_adds_only_new(c: ChangeView, g: GameView)
    ensures
        vetted(c, g).add_techniques matches Some(ts) ==> ts.len() > 0 && forall|i: int|
            0 <= i < ts.len() ==> !knows_technique(g, (#[trigger] ts[i]).name),
        vetted(c, g).add_items matches Some(items) ==> items.len() > 0 && forall|i: int|
            0 <= i < items.len() ==> !holds_item(g, (#[trigger] items[i]).name),
        vetted(c, g).new_locations matches Some(ls) ==> ls.len() > 0 && forall|i: int|
            0 <= i < ls.len() ==> !g.locations.contains(#[trigger] ls[i]),
        vetted(c, g).quest_updates matches Some(qs) ==> qs.len() > 0 && forall|i: int|
            0 <= i < qs.len() ==> !has_quest(g, (#[trigger] qs[i]).name),
        vetted(c, g).add_flag matches Some(f) ==> !g.flags.contains(f),
        within_five(vetted(c, g).sword_art_delta),
        within_five(vetted(c, g).spell_art_delta),
        within_five(vetted(c, g).blood_qi_delta),
        within_five(vetted(c, g).spirit_soul_delta),
        within_five(vetted(c, g).divine_sense_delta),
        within_five(vetted(c, g).dao_heart_delta),
{
    if let Some(ts) = c.add_techniques {
        lemma_keep_satisfies(ts, |t: TechniqueView| !knows_technique(g, t.name));
    }
    if let Some(items) = c.add_items {
        lemma_keep_satisfies(items, |i: ItemView| !holds_item(g, i.name));
    }
    if let Some(ls) = c.new_locations {
        lemma_keep_satisfies(ls, |l: Seq<char>| !g.locations.contains(l));
    }
    if let Some(qs) = c.quest_updates {
        lemma_keep_satisfies(qs, |q: QuestUpdateView| !has_quest(g, q.name));
    }
}


/// Every element of `s` that satisfies `p` is among those kept.
pub proof fn lemma_keep_contains<T>(s: Seq<T>, p: spec_fn(T) -> bool)
    ensures
        forall|i: int| 0 <= i < s.len() && p(s[i]) ==> keep(s, p).contains(#[trigger] s[i]),
    decreases s.len(),
{
    if s.len() > 0 {
        let d = s.drop_last();
        lemma_keep_contains(d, p);
        let k = keep(d, p);
        assert forall|i: int| 0 <= i < s.len() && p(s[i]) implies keep(s, p).contains(
            #[trigger] s[i],
        ) by {
            if i < d.len() {
                assert(d[i] == s[i]);
                let j = choose|j: int| 0 <= j < k.len() && k[j] == d[i];
                assert(keep(s, p)[j] == s[i]);
            } else {
                assert(keep(s, p)[k.len() as int] == s[i]);
            }
        }
    }
}

/// `after` is the stat delta `before` limited to -5..=5: absent stays
/// absent, a delta within the bounds is kept, one above is cut to 5 and one
/// below to -5.
pub open spec fn limited_to_five(before: Option<i32>, after: Option<i32>) -> bool {
    &&& (before is None <==> after is None)
    &&& (before matches Some(x) && -5 <= x <= 5 ==> after == before)
    &&& (before matches Some(x) && x > 5 ==> after == Some(5i32))
    &&& (before matches Some(x) && x < -5 ==> after == Some(-5i32))
}

/// Law: vetting limits only the six stat deltas and drops only what the
/// state already knows.  The realm, the qi, the maximum qi, the spirit
/// stones, the removals, the relationship changes, the current location,
/// the event, the consumption and the renames pass through as they are;
/// each stat delta is limited to -5..=5; every technique, item, location
/// and quest update the state does not know yet is kept, and so is a flag
/// not yet set.
pub proof fn lemma_vetting_keeps_the_rest(c: ChangeView, g: GameView)
    ensures
        vetted(c, g).set_realm == c.set_realm,
        vetted(c, g).qi_delta == c.qi_delta,
        vetted(c, g).qi_set == c.qi_set,
        vetted(c, g).max_qi_delta == c.max_qi_delta,
        vetted(c, g).spirit_stones_delta == c.spirit_stones_delta,
        vetted(c, g).remove_items == c.remove_items,
        vetted(c, g).relationship_changes == c.relationship_changes,
        vetted(c, g).set_current_location == c.set_current_location,
        vetted(c, g).add_event == c.add_event,
        vetted(c, g).consume_items == c.consume_items,
        vetted(c, g).rename_relationships == c.rename_relationships,
        limited_to_five(c.sword_art_delta, vetted(c, g).sword_art_delta),
        limited_to_five(c.spell_art_delta, vetted(c, g).spell_art_delta),
        limited_to_five(c.blood_qi_delta, vetted(c, g).blood_qi_delta),
        limited_to_five(c.spirit_soul_delta, vetted(c, g).spirit_soul_delta),
        limited_to_five(c.divine_sense_delta, vetted(c, g).divine_sense_delta),
        limited_to_five(c.dao_heart_delta, vetted(c, g).dao_heart_delta),
        c.add_techniques matches Some(ts) ==> forall|i: int|
            0 <= i < ts.len() && !knows_technique(g, ts[i].name) ==> (vetted(
                c,
                g,
            ).add_techniques matches Some(vs) && vs.contains(#[trigger] ts[i])),
        c.add_items matches Some(items) ==> forall|i: int|
            0 <= i < items.len() && !holds_item(g, items[i].name) ==> (vetted(
                c,
                g,
            ).add_items matches Some(vs) && vs.contains(#[trigger] items[i])),
        c.new_locations matches Some(ls) ==> forall|i: int|
            0 <= i < ls.len() && !g.locations.contains(ls[i]) ==> (vetted(
                c,
                g,
            ).new_locations matches Some(vs) && vs.contains(#[trigger] ls[i])),
        c.quest_updates matches Some(qs) ==> forall|i: int|
            0 <= i < qs.len() && !has_quest(g, qs[i].name) ==> (vetted(
                c,
                g,
            ).quest_updates matches Some(vs) && vs.contains(#[trigger] qs[i])),
        c.add_flag matches Some(f) ==> (!g.flags.contains(f) ==> vetted(c, g).add_flag == Some(f)),
{
    if let Some(ts) = c.add_techniques {
        lemma_keep_contains(ts, |t: TechniqueView| !knows_technique(g, t.name));
    }
    if let Some(items) = c.add_items {
        lemma_keep_contains(items, |i: ItemView| !holds_item(g, i.name));
    }
    if let Some(ls) = c.new_locations {
        lemma_keep_contains(ls, |l: Seq<char>| !g.locations.contains(l));
    }
    if let Some(qs) = c.quest_updates {
        lemma_keep_contains(qs, |q: QuestUpdateView| !has_quest(g, q.name));
    }
}

} // verus!
