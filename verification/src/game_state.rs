//! The player's game state and the state changes extracted from each turn.
use vstd::prelude::*;
use crate::state::{InventoryItem, ItemView, item_views, PlayerStats};
use crate::text::{chars_eq, chars_of, ends_with, owned, str_ends_with, views};

verus! {

broadcast use vstd::string::group_string_axioms;

// ───────────────────────── element types ─────────────────────────

/// A cultivation technique.  Its proficiency fraction is kept as the bit
/// pattern of the 32-bit float that the save file holds.
pub struct Technique {
    pub name: String,
    pub tier: String,
    pub tech_type: String,
    pub proficiency_bits: u32,
}

pub struct TechniqueView {
    pub name: Seq<char>,
    pub tier: Seq<char>,
    pub tech_type: Seq<char>,
    pub proficiency_bits: u32,
}

impl View for Technique {
    type V = TechniqueView;

    open spec fn view(&self) -> TechniqueView {
        TechniqueView {
            name: self.name@,
            tier: self.tier@,
            tech_type: self.tech_type@,
            proficiency_bits: self.proficiency_bits,
        }
    }
}

pub open spec fn technique_views(v: Seq<Technique>) -> Seq<TechniqueView> {
    v.map_values(|t: Technique| t@)
}

impl Technique {
    pub fn duplicate(&self) -> (r: Technique)
        ensures
            r@ == self@,
    {
        Technique {
            name: self.name.clone(),
            tier: self.tier.clone(),
            tech_type: self.tech_type.clone(),
            proficiency_bits: self.proficiency_bits,
        }
    }
}

/// A relationship with another character.
pub struct Relationship {
    pub name: String,
    pub role: String,
    pub affinity: i32,
}

pub struct RelationshipView {
    pub name: Seq<char>,
    pub role: Seq<char>,
    pub affinity: i32,
}

impl View for Relationship {
    type V = RelationshipView;

    open spec fn view(&self) -> RelationshipView {
        RelationshipView { name: self.name@, role: self.role@, affinity: self.affinity }
    }
}

pub open spec fn relationship_views(v: Seq<Relationship>) -> Seq<RelationshipView> {
    v.map_values(|r: Relationship| r@)
}

impl Relationship {
    pub fn duplicate(&self) -> (r: Relationship)
        ensures
            r@ == self@,
    {
        Relationship { name: self.name.clone(), role: self.role.clone(), affinity: self.affinity }
    }
}

/// Quest status.
#[derive(Debug, Clone, Copy, PartialEq, Eq, Structural)]
pub enum QuestStatus {
    Active,
    Completed,
}

/// A quest.
pub struct Quest {
    pub name: String,
    pub status: QuestStatus,
    pub description: String,
}

pub struct QuestView {
    pub name: Seq<char>,
    pub status: QuestStatus,
    pub description: Seq<char>,
}

impl View for Quest {
    type V = QuestView;

    open spec fn view(&self) -> QuestView {
        QuestView { name: self.name@, status: self.status, description: self.description@ }
    }
}

pub open spec fn quest_views(v: Seq<Quest>) -> Seq<QuestView> {
    v.map_values(|q: Quest| q@)
}

impl Quest {
    pub fn duplicate(&self) -> (r: Quest)
        ensures
            r@ == self@,
    {
        Quest { name: self.name.clone(), status: self.status, description: self.description.clone() }
    }
}

/// What the player knows about one character.
pub struct CharacterNote {
    pub name: String,
    pub note: String,
}

pub open spec fn note_views(v: Seq<CharacterNote>) -> Seq<(Seq<char>, Seq<char>)> {
    v.map_values(|n: CharacterNote| (n.name@, n.note@))
}

impl CharacterNote {
    pub fn duplicate(&self) -> (r: CharacterNote)
        ensures
            r.name@ == self.name@,
            r.note@ == self.note@,
    {
        CharacterNote { name: self.name.clone(), note: self.note.clone() }
    }
}

/// Reduce the quantity of an existing inventory item.
pub struct ConsumeItem {
    pub name: String,
    pub quantity: i32,
}

/// Rename an existing relationship (e.g. "未知壮汉" → "张三").
pub struct RenameRelationship {
    pub old_name: String,
    pub new_name: String,
}

/// Change the affinity (and maybe the role) of a relationship.
pub struct RelationshipChange {
    pub name: String,
    pub affinity_delta: i32,
    pub new_role: Option<String>,
}

/// Create or update a quest.
pub struct QuestUpdate {
    pub name: String,
    /// "active" or "completed"
    pub status: Option<String>,
    pub description: Option<String>,
}

pub struct ConsumeView {
    pub name: Seq<char>,
    pub quantity: i32,
}

pub struct RenameView {
    pub old_name: Seq<char>,
    pub new_name: Seq<char>,
}

pub struct RelChangeView {
    pub name: Seq<char>,
    pub affinity_delta: i32,
    pub new_role: Option<Seq<char>>,
}

pub struct QuestUpdateView {
    pub name: Seq<char>,
    pub status: Option<Seq<char>>,
    pub description: Option<Seq<char>>,
}

pub open spec fn opt_str(o: Option<String>) -> Option<Seq<char>> {
    match o {
        Some(s) => Some(s@),
        None => None,
    }
}

impl View for ConsumeItem {
    type V = ConsumeView;

    open spec fn view(&self) -> ConsumeView {
        ConsumeView { name: self.name@, quantity: self.quantity }
    }
}

impl View for RenameRelationship {
    type V = RenameView;

    open spec fn view(&self) -> RenameView {
        RenameView { old_name: self.old_name@, new_name: self.new_name@ }
    }
}

impl View for RelationshipChange {
    type V = RelChangeView;

    open spec fn view(&self) -> RelChangeView {
        RelChangeView {
            name: self.name@,
            affinity_delta: self.affinity_delta,
            new_role: opt_str(self.new_role),
        }
    }
}

impl View for QuestUpdate {
    type V = QuestUpdateView;

    open spec fn view(&self) -> QuestUpdateView {
        QuestUpdateView {
            name: self.name@,
            status: opt_str(self.status),
            description: opt_str(self.description),
        }
    }
}

/// State change extracted from a turn's narrative.
pub struct StateChange {
    /// explicit realm name change (e.g. "练气期中期")
    pub set_realm: Option<String>,
    pub qi_delta: Option<i32>,
    /// absolute set (for breakthroughs that fully restore)
    pub qi_set: Option<i32>,
    /// increase max qi
    pub max_qi_delta: Option<i32>,
    pub spirit_stones_delta: Option<i32>,
    pub sword_art_delta: Option<i32>,
    pub spell_art_delta: Option<i32>,
    pub blood_qi_delta: Option<i32>,
    pub spirit_soul_delta: Option<i32>,
    pub divine_sense_delta: Option<i32>,
    pub dao_heart_delta: Option<i32>,
    pub add_techniques: Option<Vec<Technique>>,
    pub add_items: Option<Vec<InventoryItem>>,
    pub remove_items: Option<Vec<String>>,
    pub relationship_changes: Option<Vec<RelationshipChange>>,
    pub new_locations: Option<Vec<String>>,
    pub set_current_location: Option<String>,
    pub quest_updates: Option<Vec<QuestUpdate>>,
    pub add_flag: Option<String>,
    pub add_event: Option<String>,
    /// Consume (reduce quantity of) existing inventory items
    pub consume_items: Option<Vec<ConsumeItem>>,
    /// Rename existing relationships
    pub rename_relationships: Option<Vec<RenameRelationship>>,
}

#[verifier::ext_equal]
pub struct ChangeView {
    pub set_realm: Option<Seq<char>>,
    pub qi_delta: Option<i32>,
    pub qi_set: Option<i32>,
    pub max_qi_delta: Option<i32>,
    pub spirit_stones_delta: Option<i32>,
    pub sword_art_delta: Option<i32>,
    pub spell_art_delta: Option<i32>,
    pub blood_qi_delta: Option<i32>,
    pub spirit_soul_delta: Option<i32>,
    pub divine_sense_delta: Option<i32>,
    pub dao_heart_delta: Option<i32>,
    pub add_techniques: Option<Seq<TechniqueView>>,
    pub add_items: Option<Seq<ItemView>>,
    pub remove_items: Option<Seq<Seq<char>>>,
    pub relationship_changes: Option<Seq<RelChangeView>>,
    pub new_locations: Option<Seq<Seq<char>>>,
    pub set_current_location: Option<Seq<char>>,
    pub quest_updates: Option<Seq<QuestUpdateView>>,
    pub add_flag: Option<Seq<char>>,
    pub add_event: Option<Seq<char>>,
    pub consume_items: Option<Seq<ConsumeView>>,
    pub rename_relationships: Option<Seq<RenameView>>,
}

pub open spec fn opt_views<T: View>(o: Option<Vec<T>>) -> Option<Seq<T::V>> {
    match o {
        Some(v) => Some(v@.map_values(|x: T| x@)),
        None => None,
    }
}

pub open spec fn opt_strs(o: Option<Vec<String>>) -> Option<Seq<Seq<char>>> {
    match o {
        Some(v) => Some(views(v@)),
        None => None,
    }
}

impl View for StateChange {
    type V = ChangeView;

    open spec fn view(&self) -> ChangeView {
        ChangeView {
            set_realm: opt_str(self.set_realm),
            qi_delta: self.qi_delta,
            qi_set: self.qi_set,
            max_qi_delta: self.max_qi_delta,
            spirit_stones_delta: self.spirit_stones_delta,
            sword_art_delta: self.sword_art_delta,
            spell_art_delta: self.spell_art_delta,
            blood_qi_delta: self.blood_qi_delta,
            spirit_soul_delta: self.spirit_soul_delta,
            divine_sense_delta: self.divine_sense_delta,
            dao_heart_delta: self.dao_heart_delta,
            add_techniques: opt_views(self.add_techniques),
            add_items: opt_views(self.add_items),
            remove_items: opt_strs(self.remove_items),
            relationship_changes: opt_views(self.relationship_changes),
            new_locations: opt_strs(self.new_locations),
            set_current_location: opt_str(self.set_current_location),
            quest_updates: opt_views(self.quest_updates),
            add_flag: opt_str(self.add_flag),
            add_event: opt_str(self.add_event),
            consume_items: opt_views(self.consume_items),
            rename_relationships: opt_views(self.rename_relationships),
        }
    }
}

/// A change that changes nothing.
pub open spec fn no_change() -> ChangeView {
    ChangeView {
        set_realm: None,
        qi_delta: None,
        qi_set: None,
        max_qi_delta: None,
        spirit_stones_delta: None,
        sword_art_delta: None,
        spell_art_delta: None,
        blood_qi_delta: None,
        spirit_soul_delta: None,
        divine_sense_delta: None,
        dao_heart_delta: None,
        add_techniques: None,
        add_items: None,
        remove_items: None,
        relationship_changes: None,
        new_locations: None,
        set_current_location: None,
        quest_updates: None,
        add_flag: None,
        add_event: None,
        consume_items: None,
        rename_relationships: None,
    }
}

impl Default for StateChange {
    fn default() -> (c: StateChange)
        ensures
            c@ == no_change(),
    {
        StateChange {
            set_realm: None,
            qi_delta: None,
            qi_set: None,
            max_qi_delta: None,
            spirit_stones_delta: None,
            sword_art_delta: None,
            spell_art_delta: None,
            blood_qi_delta: None,
            spirit_soul_delta: None,
            divine_sense_delta: None,
            dao_heart_delta: None,
            add_techniques: None,
            add_items: None,
            remove_items: None,
            relationship_changes: None,
            new_locations: None,
            set_current_location: None,
            quest_updates: None,
            add_flag: None,
            add_event: None,
            consume_items: None,
            rename_relationships: None,
        }
    }
}

// ───────────────────────── the game state ─────────────────────────

/// Core game state.
pub struct GameState {
    pub id: String,
    pub scenario: String,
    pub round: i32,
    /// Cultivation
    pub realm: String,
    /// Bit pattern of the 32-bit float progress fraction (0.0 ~ 1.0)
    pub realm_progress_bits: u32,
    pub qi: i32,
    pub max_qi: i32,
    /// Combat
    pub stats: PlayerStats,
    /// Techniques & Items
    pub techniques: Vec<Technique>,
    pub inventory: Vec<InventoryItem>,
    pub spirit_stones: i32,
    /// Exploration
    pub locations: Vec<String>,
    pub current_location: String,
    /// Quests
    pub quests: Vec<Quest>,
    /// Social
    pub sect: String,
    pub relationships: Vec<Relationship>,
    /// The player's knowledge about each character (name → description),
    /// one entry per name
    pub character_notes: Vec<CharacterNote>,
    /// Narrative
    pub flags: Vec<String>,
    pub recent_events: Vec<String>,
    pub last_narrative: String,
}

#[verifier::ext_equal]
pub struct GameView {
    pub id: Seq<char>,
    pub scenario: Seq<char>,
    pub round: i32,
    pub realm: Seq<char>,
    pub realm_progress_bits: u32,
    pub qi: i32,
    pub max_qi: i32,
    pub stats: PlayerStats,
    pub techniques: Seq<TechniqueView>,
    pub inventory: Seq<ItemView>,
    pub spirit_stones: i32,
    pub locations: Seq<Seq<char>>,
    pub current_location: Seq<char>,
    pub quests: Seq<QuestView>,
    pub sect: Seq<char>,
    pub relationships: Seq<RelationshipView>,
    pub character_notes: Seq<(Seq<char>, Seq<char>)>,
    pub flags: Seq<Seq<char>>,
    pub recent_events: Seq<Seq<char>>,
    pub last_narrative: Seq<char>,
}

impl View for GameState {
    type V = GameView;

    open spec fn view(&self) -> GameView {
        GameView {
            id: self.id@,
            scenario: self.scenario@,
            round: self.round,
            realm: self.realm@,
            realm_progress_bits: self.realm_progress_bits,
            qi: self.qi,
            max_qi: self.max_qi,
            stats: self.stats,
            techniques: technique_views(self.techniques@),
            inventory: item_views(self.inventory@),
            spirit_stones: self.spirit_stones,
            locations: views(self.locations@),
            current_location: self.current_location@,
            quests: quest_views(self.quests@),
            sect: self.sect@,
            relationships: relationship_views(self.relationships@),
            character_notes: note_views(self.character_notes@),
            flags: views(self.flags@),
            recent_events: views(self.recent_events@),
            last_narrative: self.last_narrative@,
        }
    }
}

// ───────────────────────── realms ─────────────────────────

/// The ordered cultivation realm list.
pub open spec fn realm_order() -> Seq<Seq<char>> {
    seq![
        "练气期初期"@, "练气期中期"@, "练气期后期"@, "练气期圆满"@,
        "筑基期初期"@, "筑基期中期"@, "筑基期后期"@, "筑基期圆满"@,
        "金丹期初期"@, "金丹期中期"@, "金丹期后期"@, "金丹期圆满"@,
        "元婴期初期"@, "元婴期中期"@, "元婴期后期"@, "元婴期圆满"@,
        "化神期初期"@, "化神期中期"@, "化神期后期"@, "化神期圆满"@,
    ]
}

/// The ordered cultivation realm list.
pub fn realm_names() -> (r: Vec<&'static str>)
    ensures
        r@.map_values(|s: &str| s@) == realm_order(),
{
    let r = vec![
        "练气期初期", "练气期中期", "练气期后期", "练气期圆满",
        "筑基期初期", "筑基期中期", "筑基期后期", "筑基期圆满",
        "金丹期初期", "金丹期中期", "金丹期后期", "金丹期圆满",
        "元婴期初期", "元婴期中期", "元婴期后期", "元婴期圆满",
        "化神期初期", "化神期中期", "化神期后期", "化神期圆满",
    ];
    assert(r@.map_values(|s: &str| s@) =~= realm_order());
    r
}

/// Whether `realm` is one of the realm names.
pub fn is_known_realm(realm: &str) -> (r: bool)
    ensures
        r == realm_order().contains(realm@),
{
    let names = realm_names();
    let v = chars_of(realm);
    let mut i: usize = 0;
    while i < names.len()
        invariant
            i <= names@.len(),
            names@.map_values(|s: &str| s@) == realm_order(),
            v@ == realm@,
            forall|j: int| 0 <= j < i ==> realm_order()[j] != realm@,
        decreases names@.len() - i,
    {
        let w = chars_of(names[i]);
        if chars_eq(&v, &w) {
            assert(realm_order()[i as int] == realm@);
            return true;
        }
        i = i + 1;
    }
    false
}

/// The realm name ends with a sub-stage (初期/中期/后期/圆满).
pub open spec fn ends_with_stage(r: Seq<char>) -> bool {
    ends_with(r, "初期"@) || ends_with(r, "中期"@) || ends_with(r, "后期"@) || ends_with(r, "圆满"@)
}

// ───────────────────────── numeric helpers ─────────────────────────

pub open spec fn clamp(v: int, lo: int, hi: int) -> int {
    if v < lo {
        lo
    } else if v > hi {
        hi
    } else {
        v
    }
}

pub open spec fn max_int(a: int, b: int) -> int {
    if a >= b {
        a
    } else {
        b
    }
}

pub open spec fn min_int(a: int, b: int) -> int {
    if a <= b {
        a
    } else {
        b
    }
}

pub open spec fn fits_i32(v: int) -> bool {
    i32::MIN <= v <= i32::MAX
}

fn clamp_i32(v: i32, lo: i32, hi: i32) -> (r: i32)
    requires
        lo <= hi,
    ensures
        r == clamp(v as int, lo as int, hi as int),
{
    if v < lo {
        lo
    } else if v > hi {
        hi
    } else {
        v
    }
}

/// `a + b`, or `None` when it leaves `i32`.
fn add_i32(a: i32, b: i32) -> (r: Option<i32>)
    ensures
        match r {
            Some(v) => v == a + b,
            None => !fits_i32(a + b),
        },
{
    let t: i64 = a as i64 + b as i64;
    if t < i32::MIN as i64 || t > i32::MAX as i64 {
        None
    } else {
        Some(t as i32)
    }
}

// ───────────────────────── searching sequences ─────────────────────────

/// Index of the first element of `s` that satisfies `p`, if any.
pub open spec fn first_where<T>(s: Seq<T>, p: spec_fn(T) -> bool) -> Option<int> {
    if exists|k: int| 0 <= k < s.len() && p(s[k]) {
        Some(choose|k: int| 0 <= k < s.len() && p(s[k]) && forall|j: int| 0 <= j < k ==> !p(s[j]))
    } else {
        None
    }
}

pub proof fn lemma_first_where<T>(s: Seq<T>, p: spec_fn(T) -> bool, k: int)
    requires
        0 <= k < s.len(),
        p(s[k]),
        forall|j: int| 0 <= j < k ==> !p(s[j]),
    ensures
        first_where(s, p) == Some(k),
{
    let m = choose|m: int| 0 <= m < s.len() && p(s[m]) && forall|j: int| 0 <= j < m ==> !p(s[j]);
    assert(0 <= m < s.len() && p(s[m]) && forall|j: int| 0 <= j < m ==> !p(s[j]));
    if m < k {
        assert(!p(s[m]));
    } else if k < m {
        assert(!p(s[k]));
    }
}

pub proof fn lemma_first_where_none<T>(s: Seq<T>, p: spec_fn(T) -> bool)
    requires
        forall|j: int| 0 <= j < s.len() ==> !p(s[j]),
    ensures
        first_where(s, p) is None,
{
}

proof fn lemma_first_exists<T>(s: Seq<T>, p: spec_fn(T) -> bool, k: int)
    requires
        0 <= k < s.len(),
        p(s[k]),
    ensures
        exists|m: int| 0 <= m < s.len() && p(s[m]) && forall|j: int| 0 <= j < m ==> !p(s[j]),
    decreases k,
{
    if exists|j: int| 0 <= j < k && p(s[j]) {
        let j = choose|j: int| 0 <= j < k && p(s[j]);
        lemma_first_exists(s, p, j);
    } else {
        assert(0 <= k < s.len() && p(s[k]) && forall|j: int| 0 <= j < k ==> !p(s[j]));
    }
}

/// The index that `first_where` gives is in bounds and satisfies `p`.
pub proof fn lemma_first_where_bounds<T>(s: Seq<T>, p: spec_fn(T) -> bool)
    ensures
        match first_where(s, p) {
            Some(k) => 0 <= k < s.len() && p(s[k]) && forall|j: int| 0 <= j < k ==> !p(s[j]),
            None => forall|j: int| 0 <= j < s.len() ==> !p(s[j]),
        },
{
    if exists|k: int| 0 <= k < s.len() && p(s[k]) {
        let k = choose|k: int| 0 <= k < s.len() && p(s[k]);
        lemma_first_exists(s, p, k);
    }
}

pub open spec fn item_key(name: Seq<char>, item_type: Seq<char>) -> spec_fn(ItemView) -> bool {
    |i: ItemView| i.name == name && i.item_type == item_type
}

pub open spec fn item_named(name: Seq<char>) -> spec_fn(ItemView) -> bool {
    |i: ItemView| i.name == name
}

pub open spec fn rel_named(name: Seq<char>) -> spec_fn(RelationshipView) -> bool {
    |r: RelationshipView| r.name == name
}

pub open spec fn quest_named(name: Seq<char>) -> spec_fn(QuestView) -> bool {
    |q: QuestView| q.name == name
}

pub open spec fn note_keyed(name: Seq<char>) -> spec_fn((Seq<char>, Seq<char>)) -> bool {
    |n: (Seq<char>, Seq<char>)| n.0 == name
}

/// `s` with `x` appended unless it is already present.
pub open spec fn push_unique(s: Seq<Seq<char>>, x: Seq<char>) -> Seq<Seq<char>> {
    if s.contains(x) {
        s
    } else {
        s.push(x)
    }
}

// ───────────────────────── the update, step by step ─────────────────────────

/// 1. A recognised realm name replaces the realm, resets the progress and,
/// for a realm with a sub-stage, restores qi to the maximum.
pub open spec fn step_realm(g: GameView, c: ChangeView) -> GameView {
    match c.set_realm {
        Some(r) => if realm_order().contains(r) {
            GameView {
                realm: r,
                realm_progress_bits: 0,
                qi: if ends_with_stage(r) {
                    g.max_qi
                } else {
                    g.qi
                },
                ..g
            }
        } else {
            g
        },
        None => g,
    }
}

/// 2. Qi moves by the delta, clamped to `0..=max_qi`.
pub open spec fn step_qi_delta(g: GameView, c: ChangeView) -> GameView {
    match c.qi_delta {
        Some(d) => GameView { qi: clamp(g.qi + d, 0, g.max_qi as int) as i32, ..g },
        None => g,
    }
}

pub open spec fn ok_qi_delta(g: GameView, c: ChangeView) -> bool {
    match c.qi_delta {
        Some(d) => fits_i32(g.qi + d) && g.max_qi >= 0,
        None => true,
    }
}

/// 3. Qi is set to the value, clamped to `0..=max_qi`.
pub open spec fn step_qi_set(g: GameView, c: ChangeView) -> GameView {
    match c.qi_set {
        Some(v) => GameView { qi: clamp(v as int, 0, g.max_qi as int) as i32, ..g },
        None => g,
    }
}

pub open spec fn ok_qi_set(g: GameView, c: ChangeView) -> bool {
    c.qi_set is Some ==> g.max_qi >= 0
}

/// 4. The maximum moves by the delta but stays at least 10; qi is capped by it.
pub open spec fn step_max_qi(g: GameView, c: ChangeView) -> GameView {
    match c.max_qi_delta {
        Some(m) => {
            let mq = max_int(g.max_qi + m, 10);
            GameView { max_qi: mq as i32, qi: min_int(g.qi as int, mq) as i32, ..g }
        },
        None => g,
    }
}

pub open spec fn ok_max_qi(g: GameView, c: ChangeView) -> bool {
    match c.max_qi_delta {
        Some(m) => fits_i32(g.max_qi + m),
        None => true,
    }
}

/// `v` moved by `d` and kept non-negative.
pub open spec fn bump(v: i32, d: Option<i32>) -> i32 {
    match d {
        Some(x) => max_int(v + x, 0) as i32,
        None => v,
    }
}

pub open spec fn ok_bump(v: i32, d: Option<i32>) -> bool {
    match d {
        Some(x) => fits_i32(v + x),
        None => true,
    }
}

/// 5. Spirit stones move by the delta and stay non-negative.
pub open spec fn step_stones(g: GameView, c: ChangeView) -> GameView {
    GameView { spirit_stones: bump(g.spirit_stones, c.spirit_stones_delta), ..g }
}

pub open spec fn ok_stones(g: GameView, c: ChangeView) -> bool {
    ok_bump(g.spirit_stones, c.spirit_stones_delta)
}

/// 6. Each of the six stats moves by its delta and stays non-negative.
pub open spec fn step_stats(g: GameView, c: ChangeView) -> GameView {
    GameView {
        stats: PlayerStats {
            sword_art: bump(g.stats.sword_art, c.sword_art_delta),
            spell_art: bump(g.stats.spell_art, c.spell_art_delta),
            blood_qi: bump(g.stats.blood_qi, c.blood_qi_delta),
            spirit_soul: bump(g.stats.spirit_soul, c.spirit_soul_delta),
            divine_sense: bump(g.stats.divine_sense, c.divine_sense_delta),
            dao_heart: bump(g.stats.dao_heart, c.dao_heart_delta),
        },
        ..g
    }
}

pub open spec fn ok_stats(g: GameView, c: ChangeView) -> bool {
    &&& ok_bump(g.stats.sword_art, c.sword_art_delta)
    &&& ok_bump(g.stats.spell_art, c.spell_art_delta)
    &&& ok_bump(g.stats.blood_qi, c.blood_qi_delta)
    &&& ok_bump(g.stats.spirit_soul, c.spirit_soul_delta)
    &&& ok_bump(g.stats.divine_sense, c.divine_sense_delta)
    &&& ok_bump(g.stats.dao_heart, c.dao_heart_delta)
}

/// 7. New techniques are appended.
pub open spec fn step_techniques(g: GameView, c: ChangeView) -> GameView {
    match c.add_techniques {
        Some(ts) => GameView { techniques: g.techniques + ts, ..g },
        None => g,
    }
}

/// One added item merges into the first item with the same name and type
/// (quantities add up), or is appended.
pub open spec fn add_item(inv: Seq<ItemView>, it: ItemView) -> Seq<ItemView> {
    match first_where(inv, item_key(it.name, it.item_type)) {
        Some(k) => inv.update(k, ItemView { quantity: (inv[k].quantity + it.quantity) as i32, ..inv[k] }),
        None => inv.push(it),
    }
}

pub open spec fn ok_add_item(inv: Seq<ItemView>, it: ItemView) -> bool {
    match first_where(inv, item_key(it.name, it.item_type)) {
        Some(k) => fits_i32(inv[k].quantity + it.quantity),
        None => true,
    }
}

pub open spec fn add_items(inv: Seq<ItemView>, items: Seq<ItemView>) -> Seq<ItemView>
    decreases items.len(),
{
    if items.len() == 0 {
        inv
    } else {
        add_item(add_items(inv, items.drop_last()), items.last())
    }
}

pub open spec fn ok_add_items(inv: Seq<ItemView>, items: Seq<ItemView>) -> bool
    decreases items.len(),
{
    if items.len() == 0 {
        true
    } else {
        ok_add_items(inv, items.drop_last()) && ok_add_item(
            add_items(inv, items.drop_last()),
            items.last(),
        )
    }
}

/// 8. Added items are merged one by one.
pub open spec fn step_add_items(g: GameView, c: ChangeView) -> GameView {
    match c.add_items {
        Some(items) => GameView { inventory: add_items(g.inventory, items), ..g },
        None => g,
    }
}

pub open spec fn ok_step_add_items(g: GameView, c: ChangeView) -> bool {
    match c.add_items {
        Some(items) => ok_add_items(g.inventory, items),
        None => true,
    }
}

/// `inv` without the items called `name`.
pub open spec fn remove_named(inv: Seq<ItemView>, name: Seq<char>) -> Seq<ItemView>
    decreases inv.len(),
{
    if inv.len() == 0 {
        inv
    } else {
        remove_named(inv.drop_last(), name) + (if inv.last().name == name {
            Seq::empty()
        } else {
            seq![inv.last()]
        })
    }
}

pub open spec fn remove_all_named(inv: Seq<ItemView>, names: Seq<Seq<char>>) -> Seq<ItemView>
    decreases names.len(),
{
    if names.len() == 0 {
        inv
    } else {
        remove_named(remove_all_named(inv, names.drop_last()), names.last())
    }
}

/// 9. Items whose name is listed are dropped.
pub open spec fn step_remove_items(g: GameView, c: ChangeView) -> GameView {
    match c.remove_items {
        Some(names) => GameView { inventory: remove_all_named(g.inventory, names), ..g },
        None => g,
    }
}

/// One relationship change: the first relationship with that name has its
/// affinity moved (clamped to -100..=100) and maybe its role replaced; an
/// unknown name becomes a new relationship.  Changes without a name are
/// skipped.
pub open spec fn rel_change(rels: Seq<RelationshipView>, rc: RelChangeView) -> Seq<
    RelationshipView,
> {
    if rc.name.len() == 0 {
        rels
    } else {
        match first_where(rels, rel_named(rc.name)) {
            Some(k) => rels.update(
                k,
                RelationshipView {
                    affinity: clamp(rels[k].affinity + rc.affinity_delta, -100, 100) as i32,
                    role: match rc.new_role {
                        Some(r) => r,
                        None => rels[k].role,
                    },
                    ..rels[k]
                },
            ),
            None => rels.push(
                RelationshipView {
                    name: rc.name,
                    role: match rc.new_role {
                        Some(r) => r,
                        None => "未知"@,
                    },
                    affinity: clamp(rc.affinity_delta as int, -100, 100) as i32,
                },
            ),
        }
    }
}

pub open spec fn ok_rel_change(rels: Seq<RelationshipView>, rc: RelChangeView) -> bool {
    rc.name.len() != 0 ==> match first_where(rels, rel_named(rc.name)) {
        Some(k) => fits_i32(rels[k].affinity + rc.affinity_delta),
        None => true,
    }
}

pub open spec fn rel_changes(rels: Seq<RelationshipView>, rcs: Seq<RelChangeView>) -> Seq<
    RelationshipView,
>
    decreases rcs.len(),
{
    if rcs.len() == 0 {
        rels
    } else {
        rel_change(rel_changes(rels, rcs.drop_last()), rcs.last())
    }
}

pub open spec fn ok_rel_changes(rels: Seq<RelationshipView>, rcs: Seq<RelChangeView>) -> bool
    decreases rcs.len(),
{
    if rcs.len() == 0 {
        true
    } else {
        ok_rel_changes(rels, rcs.drop_last()) && ok_rel_change(
            rel_changes(rels, rcs.drop_last()),
            rcs.last(),
        )
    }
}

/// 10. Relationship changes are applied one by one.
pub open spec fn step_relationships(g: GameView, c: ChangeView) -> GameView {
    match c.relationship_changes {
        Some(rcs) => GameView { relationships: rel_changes(g.relationships, rcs), ..g },
        None => g,
    }
}

pub open spec fn ok_step_relationships(g: GameView, c: ChangeView) -> bool {
    match c.relationship_changes {
        Some(rcs) => ok_rel_changes(g.relationships, rcs),
        None => true,
    }
}

pub open spec fn add_locations(locs: Seq<Seq<char>>, new: Seq<Seq<char>>) -> Seq<Seq<char>>
    decreases new.len(),
{
    if new.len() == 0 {
        locs
    } else {
        push_unique(add_locations(locs, new.drop_last()), new.last())
    }
}

/// 11. New locations are recorded once each.
pub open spec fn step_new_locations(g: GameView, c: ChangeView) -> GameView {
    match c.new_locations {
        Some(ls) => GameView { locations: add_locations(g.locations, ls), ..g },
        None => g,
    }
}

/// 12. The current location moves, and is recorded among the locations.
pub open spec fn step_current_location(g: GameView, c: ChangeView) -> GameView {
    match c.set_current_location {
        Some(l) => GameView { current_location: l, locations: push_unique(g.locations, l), ..g },
        None => g,
    }
}

/// "completed" marks a quest completed; any other status marks it active.
pub open spec fn status_of(s: Seq<char>) -> QuestStatus {
    if s == "completed"@ {
        QuestStatus::Completed
    } else {
        QuestStatus::Active
    }
}

/// One quest update: the first quest with that name gets the given status
/// and description; an unknown name becomes a new quest.
pub open spec fn quest_update(qs: Seq<QuestView>, qu: QuestUpdateView) -> Seq<QuestView> {
    match first_where(qs, quest_named(qu.name)) {
        Some(k) => qs.update(
            k,
            QuestView {
                status: match qu.status {
                    Some(s) => status_of(s),
                    None => qs[k].status,
                },
                description: match qu.description {
                    Some(d) => d,
                    None => qs[k].description,
                },
                ..qs[k]
            },
        ),
        None => qs.push(
            QuestView {
                name: qu.name,
                status: match qu.status {
                    Some(s) => status_of(s),
                    None => QuestStatus::Active,
                },
                description: match qu.description {
                    Some(d) => d,
                    None => Seq::empty(),
                },
            },
        ),
    }
}

pub open spec fn quest_updates(qs: Seq<QuestView>, qus: Seq<QuestUpdateView>) -> Seq<QuestView>
    decreases qus.len(),
{
    if qus.len() == 0 {
        qs
    } else {
        quest_update(quest_updates(qs, qus.drop_last()), qus.last())
    }
}

/// 13. Quest updates are applied one by one.
pub open spec fn step_quests(g: GameView, c: ChangeView) -> GameView {
    match c.quest_updates {
        Some(qus) => GameView { quests: quest_updates(g.quests, qus), ..g },
        None => g,
    }
}

/// 14. A new flag is recorded once.
pub open spec fn step_flag(g: GameView, c: ChangeView) -> GameView {
    match c.add_flag {
        Some(f) => GameView { flags: push_unique(g.flags, f), ..g },
        None => g,
    }
}

/// 15. The event is appended; beyond ten events the oldest is dropped.
pub open spec fn step_event(g: GameView, c: ChangeView) -> GameView {
    match c.add_event {
        Some(e) => {
            let ev = g.recent_events.push(e);
            GameView {
                recent_events: if ev.len() > 10 {
                    ev.drop_first()
                } else {
                    ev
                },
                ..g
            }
        },
        None => g,
    }
}

/// One consumption: the first item with that name loses the quantity (not
/// below zero).  Entries without a name are skipped.
pub open spec fn consume_one(inv: Seq<ItemView>, ci: ConsumeView) -> Seq<ItemView> {
    if ci.name.len() == 0 {
        inv
    } else {
        match first_where(inv, item_named(ci.name)) {
            Some(k) => inv.update(
                k,
                ItemView { quantity: max_int(inv[k].quantity - ci.quantity, 0) as i32, ..inv[k] },
            ),
            None => inv,
        }
    }
}

pub open spec fn ok_consume_one(inv: Seq<ItemView>, ci: ConsumeView) -> bool {
    ci.name.len() != 0 ==> match first_where(inv, item_named(ci.name)) {
        Some(k) => fits_i32(inv[k].quantity - ci.quantity),
        None => true,
    }
}

pub open spec fn consume_all(inv: Seq<ItemView>, cs: Seq<ConsumeView>) -> Seq<ItemView>
    decreases cs.len(),
{
    if cs.len() == 0 {
        inv
    } else {
        consume_one(consume_all(inv, cs.drop_last()), cs.last())
    }
}

pub open spec fn ok_consume_all(inv: Seq<ItemView>, cs: Seq<ConsumeView>) -> bool
    decreases cs.len(),
{
    if cs.len() == 0 {
        true
    } else {
        ok_consume_all(inv, cs.drop_last()) && ok_consume_one(
            consume_all(inv, cs.drop_last()),
            cs.last(),
        )
    }
}

/// The items with a positive quantity, in order.
pub open spec fn keep_stocked(inv: Seq<ItemView>) -> Seq<ItemView>
    decreases inv.len(),
{
    if inv.len() == 0 {
        inv
    } else {
        keep_stocked(inv.drop_last()) + (if inv.last().quantity > 0 {
            seq![inv.last()]
        } else {
            Seq::empty()
        })
    }
}

/// 16. Consumptions are applied one by one, then exhausted items are dropped.
pub open spec fn step_consume(g: GameView, c: ChangeView) -> GameView {
    match c.consume_items {
        Some(cs) => GameView { inventory: keep_stocked(consume_all(g.inventory, cs)), ..g },
        None => g,
    }
}

pub open spec fn ok_step_consume(g: GameView, c: ChangeView) -> bool {
    match c.consume_items {
        Some(cs) => ok_consume_all(g.inventory, cs),
        None => true,
    }
}

/// `notes` without the entries for `name`.
pub open spec fn drop_note(notes: Seq<(Seq<char>, Seq<char>)>, name: Seq<char>) -> Seq<
    (Seq<char>, Seq<char>),
>
    decreases notes.len(),
{
    if notes.len() == 0 {
        notes
    } else {
        drop_note(notes.drop_last(), name) + (if notes.last().0 == name {
            Seq::empty()
        } else {
            seq![notes.last()]
        })
    }
}

/// `notes` with the note for `name` set to `v` (replaced, or appended).
pub open spec fn put_note(notes: Seq<(Seq<char>, Seq<char>)>, name: Seq<char>, v: Seq<char>) -> Seq<
    (Seq<char>, Seq<char>),
> {
    match first_where(notes, note_keyed(name)) {
        Some(k) => notes.update(k, (name, v)),
        None => notes.push((name, v)),
    }
}

/// One rename: the first relationship with the old name takes the new name,
/// and the note kept under the old name moves to the new name.  Renames with
/// an empty name are skipped.
pub open spec fn rename_one(
    rels: Seq<RelationshipView>,
    notes: Seq<(Seq<char>, Seq<char>)>,
    r: RenameView,
) -> (Seq<RelationshipView>, Seq<(Seq<char>, Seq<char>)>) {
    if r.old_name.len() == 0 || r.new_name.len() == 0 {
        (rels, notes)
    } else {
        (
            match first_where(rels, rel_named(r.old_name)) {
                Some(k) => rels.update(k, RelationshipView { name: r.new_name, ..rels[k] }),
                None => rels,
            },
            match first_where(notes, note_keyed(r.old_name)) {
                Some(k) => put_note(drop_note(notes, r.old_name), r.new_name, notes[k].1),
                None => notes,
            },
        )
    }
}

pub open spec fn rename_all(
    rels: Seq<RelationshipView>,
    notes: Seq<(Seq<char>, Seq<char>)>,
    rs: Seq<RenameView>,
) -> (Seq<RelationshipView>, Seq<(Seq<char>, Seq<char>)>)
    decreases rs.len(),
{
    if rs.len() == 0 {
        (rels, notes)
    } else {
        let prev = rename_all(rels, notes, rs.drop_last());
        rename_one(prev.0, prev.1, rs.last())
    }
}

/// 17. Renames are applied one by one.
pub open spec fn step_renames(g: GameView, c: ChangeView) -> GameView {
    match c.rename_relationships {
        Some(rs) => {
            let r = rename_all(g.relationships, g.character_notes, rs);
            GameView { relationships: r.0, character_notes: r.1, ..g }
        },
        None => g,
    }
}

/// The state after applying a change, step by step in the order above.
pub open spec fn apply_change(g: GameView, c: ChangeView) -> GameView {
    let g1 = step_realm(g, c);
    let g2 = step_qi_delta(g1, c);
    let g3 = step_qi_set(g2, c);
    let g4 = step_max_qi(g3, c);
    let g5 = step_stones(g4, c);
    let g6 = step_stats(g5, c);
    let g7 = step_techniques(g6, c);
    let g8 = step_add_items(g7, c);
    let g9 = step_remove_items(g8, c);
    let g10 = step_relationships(g9, c);
    let g11 = step_new_locations(g10, c);
    let g12 = step_current_location(g11, c);
    let g13 = step_quests(g12, c);
    let g14 = step_flag(g13, c);
    let g15 = step_event(g14, c);
    let g16 = step_consume(g15, c);
    step_renames(g16, c)
}

/// Applying the change keeps every number in `i32` and never clamps qi into
/// an empty range.
pub open spec fn change_applies(g: GameView, c: ChangeView) -> bool {
    let g1 = step_realm(g, c);
    let g2 = step_qi_delta(g1, c);
    let g3 = step_qi_set(g2, c);
    let g4 = step_max_qi(g3, c);
    let g5 = step_stones(g4, c);
    let g6 = step_stats(g5, c);
    let g7 = step_techniques(g6, c);
    let g8 = step_add_items(g7, c);
    let g9 = step_remove_items(g8, c);
    let g10 = step_relationships(g9, c);
    let g11 = step_new_locations(g10, c);
    let g12 = step_current_location(g11, c);
    let g13 = step_quests(g12, c);
    let g14 = step_flag(g13, c);
    let g15 = step_event(g14, c);
    &&& ok_qi_delta(g1, c)
    &&& ok_qi_set(g2, c)
    &&& ok_max_qi(g3, c)
    &&& ok_stones(g4, c)
    &&& ok_stats(g5, c)
    &&& ok_step_add_items(g7, c)
    &&& ok_step_relationships(g9, c)
    &&& ok_step_consume(g15, c)
}

// ───────────────────────── executable steps ─────────────────────────

fn copy_strings(v: &Vec<String>) -> (r: Vec<String>)
    ensures
        views(r@) == views(v@),
{
    let mut r: Vec<String> = Vec::new();
    let mut i: usize = 0;
    while i < v.len()
        invariant
            i <= v@.len(),
            r@.len() == i,
            views(r@) == views(v@).take(i as int),
        decreases v@.len() - i,
    {
        r.push(v[i].clone());
        i = i + 1;
        assert(views(r@) =~= views(v@).take(i as int));
    }
    assert(views(v@).take(v@.len() as int) =~= views(v@));
    r
}

fn copy_items(v: &Vec<InventoryItem>) -> (r: Vec<InventoryItem>)
    ensures
        item_views(r@) == item_views(v@),
{
    let mut r: Vec<InventoryItem> = Vec::new();
    let mut i: usize = 0;
    while i < v.len()
        invariant
            i <= v@.len(),
            r@.len() == i,
            item_views(r@) == item_views(v@).take(i as int),
        decreases v@.len() - i,
    {
        r.push(v[i].duplicate());
        i = i + 1;
        assert(item_views(r@) =~= item_views(v@).take(i as int));
    }
    assert(item_views(v@).take(v@.len() as int) =~= item_views(v@));
    r
}

fn copy_techniques(v: &Vec<Technique>) -> (r: Vec<Technique>)
    ensures
        technique_views(r@) == technique_views(v@),
{
    let mut r: Vec<Technique> = Vec::new();
    let mut i: usize = 0;
    while i < v.len()
        invariant
            i <= v@.len(),
            r@.len() == i,
            technique_views(r@) == technique_views(v@).take(i as int),
        decreases v@.len() - i,
    {
        r.push(v[i].duplicate());
        i = i + 1;
        assert(technique_views(r@) =~= technique_views(v@).take(i as int));
    }
    assert(technique_views(v@).take(v@.len() as int) =~= technique_views(v@));
    r
}

fn copy_quests(v: &Vec<Quest>) -> (r: Vec<Quest>)
    ensures
        quest_views(r@) == quest_views(v@),
{
    let mut r: Vec<Quest> = Vec::new();
    let mut i: usize = 0;
    while i < v.len()
        invariant
            i <= v@.len(),
            r@.len() == i,
            quest_views(r@) == quest_views(v@).take(i as int),
        decreases v@.len() - i,
    {
        r.push(v[i].duplicate());
        i = i + 1;
        assert(quest_views(r@) =~= quest_views(v@).take(i as int));
    }
    assert(quest_views(v@).take(v@.len() as int) =~= quest_views(v@));
    r
}

fn copy_relationships(v: &Vec<Relationship>) -> (r: Vec<Relationship>)
    ensures
        relationship_views(r@) == relationship_views(v@),
{
    let mut r: Vec<Relationship> = Vec::new();
    let mut i: usize = 0;
    while i < v.len()
        invariant
            i <= v@.len(),
            r@.len() == i,
            relationship_views(r@) == relationship_views(v@).take(i as int),
        decreases v@.len() - i,
    {
        r.push(v[i].duplicate());
        i = i + 1;
        assert(relationship_views(r@) =~= relationship_views(v@).take(i as int));
    }
    assert(relationship_views(v@).take(v@.len() as int) =~= relationship_views(v@));
    r
}

fn copy_notes(v: &Vec<CharacterNote>) -> (r: Vec<CharacterNote>)
    ensures
        note_views(r@) == note_views(v@),
{
    let mut r: Vec<CharacterNote> = Vec::new();
    let mut i: usize = 0;
    while i < v.len()
        invariant
            i <= v@.len(),
            r@.len() == i,
            note_views(r@) == note_views(v@).take(i as int),
        decreases v@.len() - i,
    {
        r.push(v[i].duplicate());
        i = i + 1;
        assert(note_views(r@) =~= note_views(v@).take(i as int));
    }
    assert(note_views(v@).take(v@.len() as int) =~= note_views(v@));
    r
}

/// Whether `s` holds `x`.
fn strings_contain(s: &Vec<String>, x: &String) -> (r: bool)
    ensures
        r == views(s@).contains(x@),
{
    let mut i: usize = 0;
    while i < s.len()
        invariant
            i <= s@.len(),
            forall|j: int| 0 <= j < i ==> views(s@)[j] != x@,
        decreases s@.len() - i,
    {
        if s[i] == *x {
            assert(views(s@)[i as int] == x@);
            return true;
        }
        i = i + 1;
    }
    false
}

/// Appends `x` to `s` unless present.
fn push_unique_to(s: &mut Vec<String>, x: &String)
    ensures
        views(final(s)@) == push_unique(views(old(s)@), x@),
{
    if !strings_contain(s, x) {
        s.push(x.clone());
        assert(views(s@) =~= views(old(s)@).push(x@));
    }
}

pub(crate) fn add_locations_to(locs: &mut Vec<String>, new: &Vec<String>)
    ensures
        views(final(locs)@) == add_locations(views(old(locs)@), views(new@)),
{
    let ghost orig = views(locs@);
    let mut i: usize = 0;
    while i < new.len()
        invariant
            i <= new@.len(),
            views(locs@) == add_locations(orig, views(new@).take(i as int)),
        decreases new@.len() - i,
    {
        proof {
            assert(views(new@).take(i + 1).drop_last() =~= views(new@).take(i as int));
        }
        push_unique_to(locs, &new[i]);
        i = i + 1;
    }
    assert(views(new@).take(new@.len() as int) =~= views(new@));
}

fn find_item_key(inv: &Vec<InventoryItem>, name: &String, item_type: &String) -> (r: Option<usize>)
    ensures
        match r {
            Some(k) => k < inv@.len() && first_where(item_views(inv@), item_key(name@, item_type@))
                == Some(k as int),
            None => first_where(item_views(inv@), item_key(name@, item_type@)) is None,
        },
{
    let ghost p = item_key(name@, item_type@);
    let mut i: usize = 0;
    while i < inv.len()
        invariant
            i <= inv@.len(),
            p == item_key(name@, item_type@),
            forall|j: int| 0 <= j < i ==> !p(#[trigger] item_views(inv@)[j]),
        decreases inv@.len() - i,
    {
        if inv[i].name == *name && inv[i].item_type == *item_type {
            proof {
                assert(p(item_views(inv@)[i as int]));
                lemma_first_where(item_views(inv@), p, i as int);
            }
            return Some(i);
        }
        assert(!p(item_views(inv@)[i as int]));
        i = i + 1;
    }
    proof {
        lemma_first_where_none(item_views(inv@), p);
    }
    None
}

fn find_item_named(inv: &Vec<InventoryItem>, name: &String) -> (r: Option<usize>)
    ensures
        match r {
            Some(k) => k < inv@.len() && first_where(item_views(inv@), item_named(name@)) == Some(
                k as int,
            ),
            None => first_where(item_views(inv@), item_named(name@)) is None,
        },
{
    let ghost p = item_named(name@);
    let mut i: usize = 0;
    while i < inv.len()
        invariant
            i <= inv@.len(),
            p == item_named(name@),
            forall|j: int| 0 <= j < i ==> !p(#[trigger] item_views(inv@)[j]),
        decreases inv@.len() - i,
    {
        if inv[i].name == *name {
            proof {
                assert(p(item_views(inv@)[i as int]));
                lemma_first_where(item_views(inv@), p, i as int);
            }
            return Some(i);
        }
        assert(!p(item_views(inv@)[i as int]));
        i = i + 1;
    }
    proof {
        lemma_first_where_none(item_views(inv@), p);
    }
    None
}

fn find_rel_named(rels: &Vec<Relationship>, name: &String) -> (r: Option<usize>)
    ensures
        match r {
            Some(k) => k < rels@.len() && first_where(relationship_views(rels@), rel_named(name@))
                == Some(k as int),
            None => first_where(relationship_views(rels@), rel_named(name@)) is None,
        },
{
    let ghost p = rel_named(name@);
    let mut i: usize = 0;
    while i < rels.len()
        invariant
            i <= rels@.len(),
            p == rel_named(name@),
            forall|j: int| 0 <= j < i ==> !p(#[trigger] relationship_views(rels@)[j]),
        decreases rels@.len() - i,
    {
        if rels[i].name == *name {
            proof {
                assert(p(relationship_views(rels@)[i as int]));
                lemma_first_where(relationship_views(rels@), p, i as int);
            }
            return Some(i);
        }
        assert(!p(relationship_views(rels@)[i as int]));
        i = i + 1;
    }
    proof {
        lemma_first_where_none(relationship_views(rels@), p);
    }
    None
}

fn find_quest_named(qs: &Vec<Quest>, name: &String) -> (r: Option<usize>)
    ensures
        match r {
            Some(k) => k < qs@.len() && first_where(quest_views(qs@), quest_named(name@)) == Some(
                k as int,
            ),
            None => first_where(quest_views(qs@), quest_named(name@)) is None,
        },
{
    let ghost p = quest_named(name@);
    let mut i: usize = 0;
    while i < qs.len()
        invariant
            i <= qs@.len(),
            p == quest_named(name@),
            forall|j: int| 0 <= j < i ==> !p(#[trigger] quest_views(qs@)[j]),
        decreases qs@.len() - i,
    {
        if qs[i].name == *name {
            proof {
                assert(p(quest_views(qs@)[i as int]));
                lemma_first_where(quest_views(qs@), p, i as int);
            }
            return Some(i);
        }
        assert(!p(quest_views(qs@)[i as int]));
        i = i + 1;
    }
    proof {
        lemma_first_where_none(quest_views(qs@), p);
    }
    None
}

fn find_note_keyed(notes: &Vec<CharacterNote>, name: &String) -> (r: Option<usize>)
    ensures
        match r {
            Some(k) => k < notes@.len() && first_where(note_views(notes@), note_keyed(name@))
                == Some(k as int),
            None => first_where(note_views(notes@), note_keyed(name@)) is None,
        },
{
    let ghost p = note_keyed(name@);
    let mut i: usize = 0;
    while i < notes.len()
        invariant
            i <= notes@.len(),
            p == note_keyed(name@),
            forall|j: int| 0 <= j < i ==> !p(#[trigger] note_views(notes@)[j]),
        decreases notes@.len() - i,
    {
        if notes[i].name == *name {
            proof {
                assert(p(note_views(notes@)[i as int]));
                lemma_first_where(note_views(notes@), p, i as int);
            }
            return Some(i);
        }
        assert(!p(note_views(notes@)[i as int]));
        i = i + 1;
    }
    proof {
        lemma_first_where_none(note_views(notes@), p);
    }
    None
}

fn add_item_to(inv: &mut Vec<InventoryItem>, it: &InventoryItem) -> (ok: bool)
    ensures
        ok == ok_add_item(item_views(old(inv)@), it@),
        ok ==> item_views(final(inv)@) == add_item(item_views(old(inv)@), it@),
{
    match find_item_key(inv, &it.name, &it.item_type) {
        Some(k) => {
            match add_i32(inv[k].quantity, it.quantity) {
                Some(q) => {
                    let mut e = inv[k].duplicate();
                    e.quantity = q;
                    inv.set(k, e);
                    assert(item_views(inv@) =~= item_views(old(inv)@).update(
                        k as int,
                        ItemView { quantity: q, ..item_views(old(inv)@)[k as int] },
                    ));
                    true
                },
                None => false,
            }
        },
        None => {
            inv.push(it.duplicate());
            assert(item_views(inv@) =~= item_views(old(inv)@).push(it@));
            true
        },
    }
}

fn add_items_to(inv: &mut Vec<InventoryItem>, items: &Vec<InventoryItem>) -> (ok: bool)
    ensures
        ok == ok_add_items(item_views(old(inv)@), item_views(items@)),
        ok ==> item_views(final(inv)@) == add_items(item_views(old(inv)@), item_views(items@)),
{
    let ghost orig = item_views(inv@);
    let mut i: usize = 0;
    while i < items.len()
        invariant
            i <= items@.len(),
            orig == item_views(old(inv)@),
            ok_add_items(orig, item_views(items@).take(i as int)),
            item_views(inv@) == add_items(orig, item_views(items@).take(i as int)),
        decreases items@.len() - i,
    {
        proof {
            assert(item_views(items@).take(i + 1).drop_last() =~= item_views(items@).take(
                i as int,
            ));
        }
        let ghost before = item_views(inv@);
        if !add_item_to(inv, &items[i]) {
            proof {
                assert(item_views(items@).take(i + 1).last() == items@[i as int]@);
                assert(!ok_add_item(before, items@[i as int]@));
                assert(!ok_add_items(orig, item_views(items@).take(i + 1)));
                lemma_ok_add_items_prefix(orig, item_views(items@), i + 1);
                assert(item_views(items@).take(items@.len() as int) =~= item_views(items@));
            }
            return false;
        }
        i = i + 1;
    }
    assert(item_views(items@).take(items@.len() as int) =~= item_views(items@));
    true
}

proof fn lemma_ok_add_items_prefix(inv: Seq<ItemView>, items: Seq<ItemView>, k: int)
    requires
        0 <= k <= items.len(),
        !ok_add_items(inv, items.take(k)),
    ensures
        !ok_add_items(inv, items),
    decreases items.len() - k,
{
    if k < items.len() {
        assert(items.take(k + 1).drop_last() =~= items.take(k));
        lemma_ok_add_items_prefix(inv, items, k + 1);
    } else {
        assert(items.take(k) =~= items);
    }
}

fn remove_named_from(inv: &mut Vec<InventoryItem>, name: &String)
    ensures
        item_views(final(inv)@) == remove_named(item_views(old(inv)@), name@),
{
    let mut kept: Vec<InventoryItem> = Vec::new();
    let mut i: usize = 0;
    while i < inv.len()
        invariant
            i <= inv@.len(),
            item_views(kept@) == remove_named(item_views(inv@).take(i as int), name@),
        decreases inv@.len() - i,
    {
        proof {
            assert(item_views(inv@).take(i + 1).drop_last() =~= item_views(inv@).take(i as int));
        }
        if inv[i].name != *name {
            let ghost before = item_views(kept@);
            kept.push(inv[i].duplicate());
            assert(item_views(kept@) =~= before + seq![item_views(inv@)[i as int]]);
        } else {
            assert(item_views(kept@) =~= item_views(kept@) + Seq::<ItemView>::empty());
        }
        i = i + 1;
    }
    assert(item_views(inv@).take(inv@.len() as int) =~= item_views(inv@));
    *inv = kept;
}

fn remove_all_named_from(inv: &mut Vec<InventoryItem>, names: &Vec<String>)
    ensures
        item_views(final(inv)@) == remove_all_named(item_views(old(inv)@), views(names@)),
{
    let ghost orig = item_views(inv@);
    let mut i: usize = 0;
    while i < names.len()
        invariant
            i <= names@.len(),
            item_views(inv@) == remove_all_named(orig, views(names@).take(i as int)),
        decreases names@.len() - i,
    {
        proof {
            assert(views(names@).take(i + 1).drop_last() =~= views(names@).take(i as int));
        }
        remove_named_from(inv, &names[i]);
        i = i + 1;
    }
    assert(views(names@).take(names@.len() as int) =~= views(names@));
}

fn rel_change_in(rels: &mut Vec<Relationship>, rc: &RelationshipChange) -> (ok: bool)
    ensures
        ok == ok_rel_change(relationship_views(old(rels)@), rc@),
        ok ==> relationship_views(final(rels)@) == rel_change(relationship_views(old(rels)@), rc@),
{
    if rc.name.as_str().is_empty() {
        return true;
    }
    match find_rel_named(rels, &rc.name) {
        Some(k) => {
            match add_i32(rels[k].affinity, rc.affinity_delta) {
                Some(a) => {
                    let mut e = rels[k].duplicate();
                    e.affinity = clamp_i32(a, -100, 100);
                    match &rc.new_role {
                        Some(r) => {
                            e.role = r.clone();
                        },
                        None => {},
                    }
                    rels.set(k, e);
                    assert(relationship_views(rels@) =~= rel_change(
                        relationship_views(old(rels)@),
                        rc@,
                    ));
                    true
                },
                None => false,
            }
        },
        None => {
            let role = match &rc.new_role {
                Some(r) => r.clone(),
                None => owned("未知"),
            };
            rels.push(
                Relationship {
                    name: rc.name.clone(),
                    role,
                    affinity: clamp_i32(rc.affinity_delta, -100, 100),
                },
            );
            assert(relationship_views(rels@) =~= rel_change(relationship_views(old(rels)@), rc@));
            true
        },
    }
}

proof fn lemma_ok_rel_changes_prefix(rels: Seq<RelationshipView>, rcs: Seq<RelChangeView>, k: int)
    requires
        0 <= k <= rcs.len(),
        !ok_rel_changes(rels, rcs.take(k)),
    ensures
        !ok_rel_changes(rels, rcs),
    decreases rcs.len() - k,
{
    if k < rcs.len() {
        assert(rcs.take(k + 1).drop_last() =~= rcs.take(k));
        lemma_ok_rel_changes_prefix(rels, rcs, k + 1);
    } else {
        assert(rcs.take(k) =~= rcs);
    }
}

fn rel_changes_in(rels: &mut Vec<Relationship>, rcs: &Vec<RelationshipChange>) -> (ok: bool)
    ensures
        ok == ok_rel_changes(relationship_views(old(rels)@), rcs@.map_values(|x: RelationshipChange| x@)),
        ok ==> relationship_views(final(rels)@) == rel_changes(
            relationship_views(old(rels)@),
            rcs@.map_values(|x: RelationshipChange| x@),
        ),
{
    let ghost orig = relationship_views(rels@);
    let ghost all = rcs@.map_values(|x: RelationshipChange| x@);
    let mut i: usize = 0;
    while i < rcs.len()
        invariant
            i <= rcs@.len(),
            orig == relationship_views(old(rels)@),
            all == rcs@.map_values(|x: RelationshipChange| x@),
            ok_rel_changes(orig, all.take(i as int)),
            relationship_views(rels@) == rel_changes(orig, all.take(i as int)),
        decreases rcs@.len() - i,
    {
        proof {
            assert(all.take(i + 1).drop_last() =~= all.take(i as int));
            assert(all.take(i + 1).last() == rcs@[i as int]@);
        }
        let ghost before = relationship_views(rels@);
        if !rel_change_in(rels, &rcs[i]) {
            proof {
                assert(!ok_rel_changes(orig, all.take(i + 1)));
                lemma_ok_rel_changes_prefix(orig, all, i + 1);
            }
            return false;
        }
        i = i + 1;
    }
    assert(all.take(rcs@.len() as int) =~= all);
    true
}

fn quest_update_in(qs: &mut Vec<Quest>, qu: &QuestUpdate)
    ensures
        quest_views(final(qs)@) == quest_update(quest_views(old(qs)@), qu@),
{
    let status: Option<QuestStatus> = match &qu.status {
        Some(st) => {
            if is_completed(st) {
                Some(QuestStatus::Completed)
            } else {
                Some(QuestStatus::Active)
            }
        },
        None => None,
    };
    match find_quest_named(qs, &qu.name) {
        Some(k) => {
            let mut e = qs[k].duplicate();
            match status {
                Some(st) => {
                    e.status = st;
                },
                None => {},
            }
            match &qu.description {
                Some(d) => {
                    e.description = d.clone();
                },
                None => {},
            }
            qs.set(k, e);
            assert(quest_views(qs@) =~= quest_update(quest_views(old(qs)@), qu@));
        },
        None => {
            let description = match &qu.description {
                Some(d) => d.clone(),
                None => String::new(),
            };
            qs.push(
                Quest {
                    name: qu.name.clone(),
                    status: match status {
                        Some(st) => st,
                        None => QuestStatus::Active,
                    },
                    description,
                },
            );
            assert(quest_views(qs@) =~= quest_update(quest_views(old(qs)@), qu@));
        },
    }
}

fn is_completed(s: &String) -> (r: bool)
    ensures
        r == (s@ == "completed"@),
{
    let v = chars_of(s.as_str());
    let w = chars_of("completed");
    chars_eq(&v, &w)
}

fn quest_updates_in(qs: &mut Vec<Quest>, qus: &Vec<QuestUpdate>)
    ensures
        quest_views(final(qs)@) == quest_updates(
            quest_views(old(qs)@),
            qus@.map_values(|x: QuestUpdate| x@),
        ),
{
    let ghost orig = quest_views(qs@);
    let ghost all = qus@.map_values(|x: QuestUpdate| x@);
    let mut i: usize = 0;
    while i < qus.len()
        invariant
            i <= qus@.len(),
            orig == quest_views(old(qs)@),
            all == qus@.map_values(|x: QuestUpdate| x@),
            quest_views(qs@) == quest_updates(orig, all.take(i as int)),
        decreases qus@.len() - i,
    {
        proof {
            assert(all.take(i + 1).drop_last() =~= all.take(i as int));
            assert(all.take(i + 1).last() == qus@[i as int]@);
        }
        quest_update_in(qs, &qus[i]);
        i = i + 1;
    }
    assert(all.take(qus@.len() as int) =~= all);
}

fn consume_one_in(inv: &mut Vec<InventoryItem>, ci: &ConsumeItem) -> (ok: bool)
    ensures
        ok == ok_consume_one(item_views(old(inv)@), ci@),
        ok ==> item_views(final(inv)@) == consume_one(item_views(old(inv)@), ci@),
{
    if ci.name.as_str().is_empty() {
        return true;
    }
    match find_item_named(inv, &ci.name) {
        Some(k) => {
            let t: i64 = inv[k].quantity as i64 - ci.quantity as i64;
            if t < i32::MIN as i64 || t > i32::MAX as i64 {
                return false;
            }
            let q: i32 = if t < 0 {
                0
            } else {
                t as i32
            };
            let mut e = inv[k].duplicate();
            e.quantity = q;
            inv.set(k, e);
            assert(item_views(inv@) =~= consume_one(item_views(old(inv)@), ci@));
            true
        },
        None => true,
    }
}

proof fn lemma_ok_consume_prefix(inv: Seq<ItemView>, cs: Seq<ConsumeView>, k: int)
    requires
        0 <= k <= cs.len(),
        !ok_consume_all(inv, cs.take(k)),
    ensures
        !ok_consume_all(inv, cs),
    decreases cs.len() - k,
{
    if k < cs.len() {
        assert(cs.take(k + 1).drop_last() =~= cs.take(k));
        lemma_ok_consume_prefix(inv, cs, k + 1);
    } else {
        assert(cs.take(k) =~= cs);
    }
}

fn consume_all_in(inv: &mut Vec<InventoryItem>, cs: &Vec<ConsumeItem>) -> (ok: bool)
    ensures
        ok == ok_consume_all(item_views(old(inv)@), cs@.map_values(|x: ConsumeItem| x@)),
        ok ==> item_views(final(inv)@) == consume_all(
            item_views(old(inv)@),
            cs@.map_values(|x: ConsumeItem| x@),
        ),
{
    let ghost orig = item_views(inv@);
    let ghost all = cs@.map_values(|x: ConsumeItem| x@);
    let mut i: usize = 0;
    while i < cs.len()
        invariant
            i <= cs@.len(),
            orig == item_views(old(inv)@),
            all == cs@.map_values(|x: ConsumeItem| x@),
            ok_consume_all(orig, all.take(i as int)),
            item_views(inv@) == consume_all(orig, all.take(i as int)),
        decreases cs@.len() - i,
    {
        proof {
            assert(all.take(i + 1).drop_last() =~= all.take(i as int));
            assert(all.take(i + 1).last() == cs@[i as int]@);
        }
        if !consume_one_in(inv, &cs[i]) {
            proof {
                assert(!ok_consume_all(orig, all.take(i + 1)));
                lemma_ok_consume_prefix(orig, all, i + 1);
            }
            return false;
        }
        i = i + 1;
    }
    assert(all.take(cs@.len() as int) =~= all);
    true
}

fn keep_stocked_in(inv: &mut Vec<InventoryItem>)
    ensures
        item_views(final(inv)@) == keep_stocked(item_views(old(inv)@)),
{
    let mut kept: Vec<InventoryItem> = Vec::new();
    let mut i: usize = 0;
    while i < inv.len()
        invariant
            i <= inv@.len(),
            item_views(kept@) == keep_stocked(item_views(inv@).take(i as int)),
        decreases inv@.len() - i,
    {
        proof {
            assert(item_views(inv@).take(i + 1).drop_last() =~= item_views(inv@).take(i as int));
        }
        if inv[i].quantity > 0 {
            let ghost before = item_views(kept@);
            kept.push(inv[i].duplicate());
            assert(item_views(kept@) =~= before + seq![item_views(inv@)[i as int]]);
        } else {
            assert(item_views(kept@) =~= item_views(kept@) + Seq::<ItemView>::empty());
        }
        i = i + 1;
    }
    assert(item_views(inv@).take(inv@.len() as int) =~= item_views(inv@));
    *inv = kept;
}

fn drop_note_in(notes: &mut Vec<CharacterNote>, name: &String)
    ensures
        note_views(final(notes)@) == drop_note(note_views(old(notes)@), name@),
{
    let mut kept: Vec<CharacterNote> = Vec::new();
    let mut i: usize = 0;
    while i < notes.len()
        invariant
            i <= notes@.len(),
            note_views(kept@) == drop_note(note_views(notes@).take(i as int), name@),
        decreases notes@.len() - i,
    {
        proof {
            assert(note_views(notes@).take(i + 1).drop_last() =~= note_views(notes@).take(
                i as int,
            ));
        }
        if notes[i].name != *name {
            let ghost before = note_views(kept@);
            kept.push(notes[i].duplicate());
            assert(note_views(kept@) =~= before + seq![note_views(notes@)[i as int]]);
        } else {
            assert(note_views(kept@) =~= note_views(kept@) + Seq::<(Seq<char>, Seq<char>)>::empty());
        }
        i = i + 1;
    }
    assert(note_views(notes@).take(notes@.len() as int) =~= note_views(notes@));
    *notes = kept;
}

fn put_note_in(notes: &mut Vec<CharacterNote>, name: &String, v: String)
    ensures
        note_views(final(notes)@) == put_note(note_views(old(notes)@), name@, v@),
{
    let ghost vv = v@;
    match find_note_keyed(notes, name) {
        Some(k) => {
            notes.set(k, CharacterNote { name: name.clone(), note: v });
            assert(note_views(notes@) =~= note_views(old(notes)@).update(k as int, (name@, vv)));
        },
        None => {
            notes.push(CharacterNote { name: name.clone(), note: v });
            assert(note_views(notes@) =~= note_views(old(notes)@).push((name@, vv)));
        },
    }
}

fn rename_one_in(rels: &mut Vec<Relationship>, notes: &mut Vec<CharacterNote>, r: &RenameRelationship)
    ensures
        (relationship_views(final(rels)@), note_views(final(notes)@)) == rename_one(
            relationship_views(old(rels)@),
            note_views(old(notes)@),
            r@,
        ),
{
    if r.old_name.as_str().is_empty() || r.new_name.as_str().is_empty() {
        return ;
    }
    match find_rel_named(rels, &r.old_name) {
        Some(k) => {
            let mut e = rels[k].duplicate();
            e.name = r.new_name.clone();
            rels.set(k, e);
            assert(relationship_views(rels@) =~= relationship_views(old(rels)@).update(
                k as int,
                RelationshipView { name: r.new_name@, ..relationship_views(old(rels)@)[k as int] },
            ));
        },
        None => {},
    }
    match find_note_keyed(notes, &r.old_name) {
        Some(k) => {
            let v = notes[k].note.clone();
            assert(v@ == note_views(old(notes)@)[k as int].1);
            drop_note_in(notes, &r.old_name);
            put_note_in(notes, &r.new_name, v);
        },
        None => {},
    }
}

fn rename_all_in(rels: &mut Vec<Relationship>, notes: &mut Vec<CharacterNote>, rs: &Vec<RenameRelationship>)
    ensures
        (relationship_views(final(rels)@), note_views(final(notes)@)) == rename_all(
            relationship_views(old(rels)@),
            note_views(old(notes)@),
            rs@.map_values(|x: RenameRelationship| x@),
        ),
{
    let ghost orig_r = relationship_views(rels@);
    let ghost orig_n = note_views(notes@);
    let ghost all = rs@.map_values(|x: RenameRelationship| x@);
    let mut i: usize = 0;
    while i < rs.len()
        invariant
            i <= rs@.len(),
            orig_r == relationship_views(old(rels)@),
            orig_n == note_views(old(notes)@),
            all == rs@.map_values(|x: RenameRelationship| x@),
            (relationship_views(rels@), note_views(notes@)) == rename_all(
                orig_r,
                orig_n,
                all.take(i as int),
            ),
        decreases rs@.len() - i,
    {
        proof {
            assert(all.take(i + 1).drop_last() =~= all.take(i as int));
            assert(all.take(i + 1).last() == rs@[i as int]@);
        }
        rename_one_in(rels, notes, &rs[i]);
        i = i + 1;
    }
    assert(all.take(rs@.len() as int) =~= all);
}

fn bump_i32(v: i32, d: Option<i32>) -> (r: Option<i32>)
    ensures
        match r {
            Some(x) => ok_bump(v, d) && x == bump(v, d),
            None => !ok_bump(v, d),
        },
{
    match d {
        Some(x) => match add_i32(v, x) {
            Some(t) => Some(
                if t < 0 {
                    0
                } else {
                    t
                },
            ),
            None => None,
        },
        None => Some(v),
    }
}

impl GameState {
    /// A copy of this state.
    pub fn duplicate(&self) -> (r: GameState)
        ensures
            r@ == self@,
    {
        let r = GameState {
            id: self.id.clone(),
            scenario: self.scenario.clone(),
            round: self.round,
            realm: self.realm.clone(),
            realm_progress_bits: self.realm_progress_bits,
            qi: self.qi,
            max_qi: self.max_qi,
            stats: self.stats,
            techniques: copy_techniques(&self.techniques),
            inventory: copy_items(&self.inventory),
            spirit_stones: self.spirit_stones,
            locations: copy_strings(&self.locations),
            current_location: self.current_location.clone(),
            quests: copy_quests(&self.quests),
            sect: self.sect.clone(),
            relationships: copy_relationships(&self.relationships),
            character_notes: copy_notes(&self.character_notes),
            flags: copy_strings(&self.flags),
            recent_events: copy_strings(&self.recent_events),
            last_narrative: self.last_narrative.clone(),
        };
        assert(r@ =~= self@);
        r
    }

    fn apply_realm(&mut self, c: &StateChange)
        ensures
            final(self)@ == step_realm(old(self)@, c@),
    {
        match &c.set_realm {
            Some(r) => {
                if is_known_realm(r.as_str()) {
                    self.realm = r.clone();
                    self.realm_progress_bits = 0;
                    let rs = r.as_str();
                    if str_ends_with(rs, "初期") || str_ends_with(rs, "中期") || str_ends_with(
                        rs,
                        "后期",
                    ) || str_ends_with(rs, "圆满") {
                        self.qi = self.max_qi;
                    }
                }
            },
            None => {},
        }
        assert(self@ =~= step_realm(old(self)@, c@));
    }

    fn apply_numbers(&mut self, c: &StateChange) -> (ok: bool)
        ensures
            ok == {
                let g1 = old(self)@;
                let g2 = step_qi_delta(g1, c@);
                let g3 = step_qi_set(g2, c@);
                let g4 = step_max_qi(g3, c@);
                let g5 = step_stones(g4, c@);
                &&& ok_qi_delta(g1, c@)
                &&& ok_qi_set(g2, c@)
                &&& ok_max_qi(g3, c@)
                &&& ok_stones(g4, c@)
                &&& ok_stats(g5, c@)
            },
            ok ==> final(self)@ == step_stats(
                step_stones(step_max_qi(step_qi_set(step_qi_delta(old(self)@, c@), c@), c@), c@),
                c@,
            ),
    {
        let ghost g1 = self@;
        if let Some(d) = c.qi_delta {
            match add_i32(self.qi, d) {
                Some(v) => {
                    if self.max_qi < 0 {
                        return false;
                    }
                    self.qi = clamp_i32(v, 0, self.max_qi);
                },
                None => {
                    return false;
                },
            }
        }
        assert(self@ =~= step_qi_delta(g1, c@));
        let ghost g2 = self@;
        if let Some(v) = c.qi_set {
            if self.max_qi < 0 {
                return false;
            }
            self.qi = clamp_i32(v, 0, self.max_qi);
        }
        assert(self@ =~= step_qi_set(g2, c@));
        let ghost g3 = self@;
        if let Some(m) = c.max_qi_delta {
            match add_i32(self.max_qi, m) {
                Some(t) => {
                    self.max_qi = if t < 10 {
                        10
                    } else {
                        t
                    };
                    if self.qi > self.max_qi {
                        self.qi = self.max_qi;
                    }
                },
                None => {
                    return false;
                },
            }
        }
        assert(self@ =~= step_max_qi(g3, c@));
        let ghost g4 = self@;
        match bump_i32(self.spirit_stones, c.spirit_stones_delta) {
            Some(v) => {
                self.spirit_stones = v;
            },
            None => {
                return false;
            },
        }
        assert(self@ =~= step_stones(g4, c@));
        let ghost g5 = self@;
        let sw = bump_i32(self.stats.sword_art, c.sword_art_delta);
        let sp = bump_i32(self.stats.spell_art, c.spell_art_delta);
        let bq = bump_i32(self.stats.blood_qi, c.blood_qi_delta);
        let ss = bump_i32(self.stats.spirit_soul, c.spirit_soul_delta);
        let ds = bump_i32(self.stats.divine_sense, c.divine_sense_delta);
        let dh = bump_i32(self.stats.dao_heart, c.dao_heart_delta);
        match (sw, sp, bq, ss, ds, dh) {
            (Some(a), Some(b), Some(c2), Some(d), Some(e), Some(f)) => {
                self.stats = PlayerStats {
                    sword_art: a,
                    spell_art: b,
                    blood_qi: c2,
                    spirit_soul: d,
                    divine_sense: e,
                    dao_heart: f,
                };
            },
            _ => {
                return false;
            },
        }
        assert(self@ =~= step_stats(g5, c@));
        true
    }

    fn apply_collections(&mut self, c: &StateChange) -> (ok: bool)
        ensures
            ok == {
                let g7 = step_techniques(old(self)@, c@);
                let g8 = step_add_items(g7, c@);
                let g9 = step_remove_items(g8, c@);
                &&& ok_step_add_items(g7, c@)
                &&& ok_step_relationships(g9, c@)
            },
            ok ==> final(self)@ == step_relationships(
                step_remove_items(step_add_items(step_techniques(old(self)@, c@), c@), c@),
                c@,
            ),
    {
        match &c.add_techniques {
            Some(ts) => {
                let mut copies = copy_techniques(ts);
                let ghost before = technique_views(self.techniques@);
                self.techniques.append(&mut copies);
                assert(technique_views(self.techniques@) =~= before + technique_views(ts@));
            },
            None => {},
        }
        let ghost g7 = self@;
        assert(g7 =~= step_techniques(old(self)@, c@));
        match &c.add_items {
            Some(items) => {
                if !add_items_to(&mut self.inventory, items) {
                    return false;
                }
            },
            None => {},
        }
        let ghost g8 = self@;
        assert(g8 =~= step_add_items(g7, c@));
        match &c.remove_items {
            Some(names) => {
                remove_all_named_from(&mut self.inventory, names);
            },
            None => {},
        }
        let ghost g9 = self@;
        assert(g9 =~= step_remove_items(g8, c@));
        match &c.relationship_changes {
            Some(rcs) => {
                if !rel_changes_in(&mut self.relationships, rcs) {
                    return false;
                }
            },
            None => {},
        }
        assert(self@ =~= step_relationships(g9, c@));
        true
    }

    fn apply_world(&mut self, c: &StateChange)
        ensures
            final(self)@ == step_event(
                step_flag(
                    step_quests(step_current_location(step_new_locations(old(self)@, c@), c@), c@),
                    c@,
                ),
                c@,
            ),
    {
        match &c.new_locations {
            Some(ls) => {
                add_locations_to(&mut self.locations, ls);
            },
            None => {},
        }
        let ghost g11 = self@;
        assert(g11 =~= step_new_locations(old(self)@, c@));
        match &c.set_current_location {
            Some(l) => {
                self.current_location = l.clone();
                push_unique_to(&mut self.locations, l);
            },
            None => {},
        }
        let ghost g12 = self@;
        assert(g12 =~= step_current_location(g11, c@));
        match &c.quest_updates {
            Some(qus) => {
                quest_updates_in(&mut self.quests, qus);
            },
            None => {},
        }
        let ghost g13 = self@;
        assert(g13 =~= step_quests(g12, c@));
        match &c.add_flag {
            Some(f) => {
                push_unique_to(&mut self.flags, f);
            },
            None => {},
        }
        let ghost g14 = self@;
        assert(g14 =~= step_flag(g13, c@));
        match &c.add_event {
            Some(e) => {
                self.recent_events.push(e.clone());
                if self.recent_events.len() > 10 {
                    self.recent_events.remove(0);
                }
            },
            None => {},
        }
        assert(self@ =~= step_event(g14, c@));
    }

    fn apply_consumption_and_renames(&mut self, c: &StateChange) -> (ok: bool)
        ensures
            ok == ok_step_consume(old(self)@, c@),
            ok ==> final(self)@ == step_renames(step_consume(old(self)@, c@), c@),
    {
        match &c.consume_items {
            Some(cs) => {
                if !consume_all_in(&mut self.inventory, cs) {
                    return false;
                }
                keep_stocked_in(&mut self.inventory);
            },
            None => {},
        }
        let ghost g16 = self@;
        assert(g16 =~= step_consume(old(self)@, c@));
        match &c.rename_relationships {
            Some(rs) => {
                rename_all_in(&mut self.relationships, &mut self.character_notes, rs);
            },
            None => {},
        }
        assert(self@ =~= step_renames(g16, c@));
        true
    }

    /// Applies `change`, reporting whether every number stayed in range.
    fn apply_checked(&mut self, change: &StateChange) -> (ok: bool)
        ensures
            ok == change_applies(old(self)@, change@),
            ok ==> final(self)@ == apply_change(old(self)@, change@),
    {
        self.apply_realm(change);
        if !self.apply_numbers(change) {
            return false;
        }
        if !self.apply_collections(change) {
            return false;
        }
        self.apply_world(change);
        if !self.apply_consumption_and_renames(change) {
            return false;
        }
        true
    }

    /// Whether `change` can be applied to this state: every number stays in
    /// `i32` and qi is never clamped into an empty range.
    pub fn can_apply_state_change(&self, change: &StateChange) -> (r: bool)
        ensures
            r == change_applies(self@, change@),
    {
        let mut copy = self.duplicate();
        copy.apply_checked(change)
    }

    /// Applies the changes extracted from one turn, in a fixed order: realm,
    /// qi, maximum qi, spirit stones, stats, techniques, added items, removed
    /// items, relationships, locations, current location, quests, flag,
    /// event, consumed items, renames.
    pub fn apply_state_change(&mut self, change: &StateChange)
        requires
            change_applies(old(self)@, change@),
        ensures
            final(self)@ == apply_change(old(self)@, change@),
    {
        let ok = self.apply_checked(change);
    }
}

// ───────────────────────── the state invariant ─────────────────────────

/// Affinities lie in -100..=100.
pub open spec fn affinities_in_range(rels: Seq<RelationshipView>) -> bool {
    forall|i: int| 0 <= i < rels.len() ==> -100 <= #[trigger] rels[i].affinity <= 100
}

/// No two notes share a name.
pub open spec fn notes_unique(notes: Seq<(Seq<char>, Seq<char>)>) -> bool {
    forall|i: int, j: int| 0 <= i < j < notes.len() ==> #[trigger] notes[i].0 != #[trigger] notes[j].0
}

/// The invariant that every state update keeps: qi within `0..=max_qi`,
/// non-negative spirit stones and stats, affinities within -100..=100,
/// each flag and each location recorded once, at most ten recent events,
/// and one note per character.
pub open spec fn state_invariant(g: GameView) -> bool {
    &&& 0 <= g.qi <= g.max_qi
    &&& g.spirit_stones >= 0
    &&& g.stats.sword_art >= 0
    &&& g.stats.spell_art >= 0
    &&& g.stats.blood_qi >= 0
    &&& g.stats.spirit_soul >= 0
    &&& g.stats.divine_sense >= 0
    &&& g.stats.dao_heart >= 0
    &&& affinities_in_range(g.relationships)
    &&& g.flags.no_duplicates()
    &&& g.locations.no_duplicates()
    &&& g.recent_events.len() <= 10
    &&& notes_unique(g.character_notes)
}

pub(crate) proof fn lemma_push_unique(s: Seq<Seq<char>>, x: Seq<char>)
    requires
        s.no_duplicates(),
    ensures
        push_unique(s, x).no_duplicates(),
        push_unique(s, x).contains(x),
{
    if !s.contains(x) {
        let t = s.push(x);
        assert forall|i: int, j: int| 0 <= i < t.len() && 0 <= j < t.len() && i != j implies t[i]
            != t[j] by {
            if i == s.len() as int {
                assert(t[j] == s[j]);
            } else if j == s.len() as int {
                assert(t[i] == s[i]);
            }
        }
        assert(t[s.len() as int] == x);
    }
}

pub(crate) proof fn lemma_add_locations(locs: Seq<Seq<char>>, new: Seq<Seq<char>>)
    requires
        locs.no_duplicates(),
    ensures
        add_locations(locs, new).no_duplicates(),
    decreases new.len(),
{
    if new.len() > 0 {
        lemma_add_locations(locs, new.drop_last());
        lemma_push_unique(add_locations(locs, new.drop_last()), new.last());
    }
}

proof fn lemma_rel_changes_range(rels: Seq<RelationshipView>, rcs: Seq<RelChangeView>)
    requires
        affinities_in_range(rels),
    ensures
        affinities_in_range(rel_changes(rels, rcs)),
    decreases rcs.len(),
{
    if rcs.len() > 0 {
        lemma_rel_changes_range(rels, rcs.drop_last());
        let prev = rel_changes(rels, rcs.drop_last());
        let rc = rcs.last();
        lemma_first_where_bounds(prev, rel_named(rc.name));
        if rc.name.len() != 0 {
            match first_where(prev, rel_named(rc.name)) {
                Some(k) => {
                    let r = rel_change(prev, rc);
                    assert forall|i: int| 0 <= i < r.len() implies -100 <= #[trigger] r[i].affinity
                        <= 100 by {
                        if i != k {
                            assert(r[i] == prev[i]);
                        }
                    }
                },
                None => {
                    let r = rel_change(prev, rc);
                    assert forall|i: int| 0 <= i < r.len() implies -100 <= #[trigger] r[i].affinity
                        <= 100 by {
                        if i < prev.len() {
                            assert(r[i] == prev[i]);
                        }
                    }
                },
            }
        }
    }
}

proof fn lemma_rename_range(
    rels: Seq<RelationshipView>,
    notes: Seq<(Seq<char>, Seq<char>)>,
    rs: Seq<RenameView>,
)
    requires
        affinities_in_range(rels),
        notes_unique(notes),
    ensures
        affinities_in_range(rename_all(rels, notes, rs).0),
        notes_unique(rename_all(rels, notes, rs).1),
    decreases rs.len(),
{
    if rs.len() > 0 {
        lemma_rename_range(rels, notes, rs.drop_last());
        let prev = rename_all(rels, notes, rs.drop_last());
        let r = rs.last();
        lemma_first_where_bounds(prev.0, rel_named(r.old_name));
        lemma_first_where_bounds(prev.1, note_keyed(r.old_name));
        if !(r.old_name.len() == 0 || r.new_name.len() == 0) {
            match first_where(prev.0, rel_named(r.old_name)) {
                Some(k) => {
                    let n = prev.0.update(k, RelationshipView { name: r.new_name, ..prev.0[k] });
                    assert forall|i: int| 0 <= i < n.len() implies -100 <= #[trigger] n[i].affinity
                        <= 100 by {
                        if i != k {
                            assert(n[i] == prev.0[i]);
                        }
                    }
                },
                None => {},
            }
            match first_where(prev.1, note_keyed(r.old_name)) {
                Some(k) => {
                    lemma_drop_note(prev.1, r.old_name);
                    lemma_put_note(drop_note(prev.1, r.old_name), r.new_name, prev.1[k].1);
                },
                None => {},
            }
        }
    }
}

proof fn lemma_drop_note(notes: Seq<(Seq<char>, Seq<char>)>, name: Seq<char>)
    requires
        notes_unique(notes),
    ensures
        notes_unique(drop_note(notes, name)),
        forall|i: int| 0 <= i < drop_note(notes, name).len() ==> notes.contains(
            #[trigger] drop_note(notes, name)[i],
        ),
    decreases notes.len(),
{
    if notes.len() > 0 {
        let init = notes.drop_last();
        assert(notes_unique(init)) by {
            assert forall|i: int, j: int| 0 <= i < j < init.len() implies #[trigger] init[i].0
                != #[trigger] init[j].0 by {
                assert(init[i] == notes[i] && init[j] == notes[j]);
            }
        }
        lemma_drop_note(init, name);
        let d = drop_note(init, name);
        if notes.last().0 != name {
            let t = d + seq![notes.last()];
            assert forall|i: int| 0 <= i < t.len() implies notes.contains(#[trigger] t[i]) by {
                if i < d.len() {
                    assert(init.contains(d[i]));
                    let k = choose|k: int| 0 <= k < init.len() && init[k] == d[i];
                    assert(notes[k] == d[i]);
                } else {
                    assert(notes[notes.len() - 1] == t[i]);
                }
            }
            assert forall|i: int, j: int| 0 <= i < j < t.len() implies #[trigger] t[i].0
                != #[trigger] t[j].0 by {
                if j == d.len() {
                    assert(init.contains(d[i]));
                    let k = choose|k: int| 0 <= k < init.len() && init[k] == d[i];
                    assert(notes[k] == d[i]);
                    assert(notes[k].0 != notes[notes.len() - 1].0);
                } else {
                    assert(t[i] == d[i] && t[j] == d[j]);
                }
            }
        } else {
            let t = d + Seq::<(Seq<char>, Seq<char>)>::empty();
            assert(t =~= d);
            assert forall|i: int| 0 <= i < t.len() implies notes.contains(#[trigger] t[i]) by {
                assert(init.contains(d[i]));
                let k = choose|k: int| 0 <= k < init.len() && init[k] == d[i];
                assert(notes[k] == d[i]);
            }
        }
    }
}

proof fn lemma_put_note(notes: Seq<(Seq<char>, Seq<char>)>, name: Seq<char>, v: Seq<char>)
    requires
        notes_unique(notes),
    ensures
        notes_unique(put_note(notes, name, v)),
{
    lemma_first_where_bounds(notes, note_keyed(name));
    match first_where(notes, note_keyed(name)) {
        Some(k) => {
            let t = notes.update(k, (name, v));
            assert(notes[k].0 == name);
            assert forall|i: int, j: int| 0 <= i < j < t.len() implies #[trigger] t[i].0
                != #[trigger] t[j].0 by {
                assert(t[i].0 == notes[i].0 && t[j].0 == notes[j].0);
            }
        },
        None => {
            let t = notes.push((name, v));
            assert forall|i: int, j: int| 0 <= i < j < t.len() implies #[trigger] t[i].0
                != #[trigger] t[j].0 by {
                if j == notes.len() {
                    assert(!note_keyed(name)(notes[i]));
                } else {
                    assert(t[i] == notes[i] && t[j] == notes[j]);
                }
            }
        },
    }
}

proof fn lemma_numbers_keep(g: GameView, c: ChangeView)
    requires
        state_invariant(g),
        ok_qi_delta(step_realm(g, c), c),
        ok_qi_set(step_qi_delta(step_realm(g, c), c), c),
        ok_max_qi(step_qi_set(step_qi_delta(step_realm(g, c), c), c), c),
        ok_stones(step_max_qi(step_qi_set(step_qi_delta(step_realm(g, c), c), c), c), c),
        ok_stats(
            step_stones(step_max_qi(step_qi_set(step_qi_delta(step_realm(g, c), c), c), c), c),
            c,
        ),
    ensures
        state_invariant(
            step_stats(
                step_stones(
                    step_max_qi(step_qi_set(step_qi_delta(step_realm(g, c), c), c), c),
                    c,
                ),
                c,
            ),
        ),
{
}

proof fn lemma_collections_keep(g: GameView, c: ChangeView)
    requires
        state_invariant(g),
    ensures
        state_invariant(
            step_relationships(step_remove_items(step_add_items(step_techniques(g, c), c), c), c),
        ),
{
    let g9 = step_remove_items(step_add_items(step_techniques(g, c), c), c);
    assert(state_invariant(g9));
    match c.relationship_changes {
        Some(rcs) => {
            lemma_rel_changes_range(g9.relationships, rcs);
        },
        None => {},
    }
}

proof fn lemma_world_keep(g: GameView, c: ChangeView)
    requires
        state_invariant(g),
    ensures
        state_invariant(
            step_event(
                step_flag(step_quests(step_current_location(step_new_locations(g, c), c), c), c),
                c,
            ),
        ),
{
    let g11 = step_new_locations(g, c);
    match c.new_locations {
        Some(ls) => {
            lemma_add_locations(g.locations, ls);
        },
        None => {},
    }
    assert(state_invariant(g11));
    let g12 = step_current_location(g11, c);
    match c.set_current_location {
        Some(l) => {
            lemma_push_unique(g11.locations, l);
        },
        None => {},
    }
    assert(state_invariant(g12));
    let g13 = step_quests(g12, c);
    assert(state_invariant(g13));
    let g14 = step_flag(g13, c);
    match c.add_flag {
        Some(f) => {
            lemma_push_unique(g13.flags, f);
        },
        None => {},
    }
    assert(state_invariant(g14));
}

proof fn lemma_tail_keep(g: GameView, c: ChangeView)
    requires
        state_invariant(g),
    ensures
        state_invariant(step_renames(step_consume(g, c), c)),
{
    let g16 = step_consume(g, c);
    assert(state_invariant(g16));
    match c.rename_relationships {
        Some(rs) => {
            lemma_rename_range(g16.relationships, g16.character_notes, rs);
        },
        None => {},
    }
}

/// Law: applying a state change keeps the state invariant (qi within
/// `0..=max_qi`, non-negative stones and stats, affinities within
/// -100..=100, no repeated flag or location, at most ten recent events, one
/// note per character).
pub proof fn lemma_apply_keeps_invariant(g: GameView, c: ChangeView)
    requires
        state_invariant(g),
        change_applies(g, c),
    ensures
        state_invariant(apply_change(g, c)),
{
    lemma_numbers_keep(g, c);
    let g6 = step_stats(
        step_stones(step_max_qi(step_qi_set(step_qi_delta(step_realm(g, c), c), c), c), c),
        c,
    );
    lemma_collections_keep(g6, c);
    let g10 = step_relationships(
        step_remove_items(step_add_items(step_techniques(g6, c), c), c),
        c,
    );
    lemma_world_keep(g10, c);
    let g15 = step_event(
        step_flag(step_quests(step_current_location(step_new_locations(g10, c), c), c), c),
        c,
    );
    lemma_tail_keep(g15, c);
}

/// The empty change always applies, and applying it leaves the state as it
/// is.
pub proof fn lemma_no_change_keeps_state(g: GameView)
    ensures
        change_applies(g, no_change()),
        apply_change(g, no_change()) == g,
{
}

/// Applying a change leaves the round as it is.
pub proof fn lemma_apply_keeps_round(g: GameView, c: ChangeView)
    ensures
        apply_change(g, c).round == g.round,
{
}

/// The locations after a change: the new ones, then the current one, each
/// recorded once after those already known.
pub open spec fn recorded_locations(g: GameView, c: ChangeView) -> Seq<Seq<char>> {
    let l1 = match c.new_locations {
        Some(ls) => add_locations(g.locations, ls),
        None => g.locations,
    };
    match c.set_current_location {
        Some(l) => push_unique(l1, l),
        None => l1,
    }
}

/// The events after a change: the event appended, the oldest dropped beyond
/// ten.
pub open spec fn recorded_events(g: GameView, c: ChangeView) -> Seq<Seq<char>> {
    match c.add_event {
        Some(e) => {
            let ev = g.recent_events.push(e);
            if ev.len() > 10 {
                ev.drop_first()
            } else {
                ev
            }
        },
        None => g.recent_events,
    }
}

proof fn lemma_push_unique_prefix(s: Seq<Seq<char>>, x: Seq<char>)
    ensures
        push_unique(s, x).len() >= s.len(),
        push_unique(s, x).take(s.len() as int) == s,
        push_unique(s, x).contains(x),
{
    if !s.contains(x) {
        assert(s.push(x).take(s.len() as int) =~= s);
        assert(s.push(x)[s.len() as int] == x);
    } else {
        assert(s.take(s.len() as int) =~= s);
    }
}

proof fn lemma_add_locations_records(locs: Seq<Seq<char>>, new: Seq<Seq<char>>)
    ensures
        add_locations(locs, new).len() >= locs.len(),
        add_locations(locs, new).take(locs.len() as int) == locs,
        forall|i: int| 0 <= i < new.len() ==> add_locations(locs, new).contains(#[trigger] new[i]),
    decreases new.len(),
{
    if new.len() == 0 {
        assert(locs.take(locs.len() as int) =~= locs);
    } else {
        let prev = add_locations(locs, new.drop_last());
        lemma_add_locations_records(locs, new.drop_last());
        lemma_push_unique_prefix(prev, new.last());
        let cur = push_unique(prev, new.last());
        assert(cur.take(locs.len() as int) =~= prev.take(prev.len() as int).take(locs.len() as int)) by {
            assert(cur.take(prev.len() as int) == prev);
        }
        assert(prev.take(prev.len() as int) =~= prev);
        assert forall|i: int| 0 <= i < new.len() implies cur.contains(#[trigger] new[i]) by {
            if i < new.len() - 1 {
                assert(new.drop_last()[i] == new[i]);
                let k = choose|k: int| 0 <= k < prev.len() && prev[k] == new[i];
                assert(cur.take(prev.len() as int)[k] == new[i]);
                assert(cur[k] == new[i]);
            }
        }
    }
}

/// The fields a change touches for its books, step by step.
proof fn lemma_apply_books_fields(g: GameView, c: ChangeView)
    ensures
        apply_change(g, c).max_qi == (match c.max_qi_delta {
            Some(m) => max_int(g.max_qi + m, 10) as i32,
            None => g.max_qi,
        }),
        apply_change(g, c).locations == recorded_locations(g, c),
        apply_change(g, c).current_location == (match c.set_current_location {
            Some(l) => l,
            None => g.current_location,
        }),
        apply_change(g, c).flags == (match c.add_flag {
            Some(f) => push_unique(g.flags, f),
            None => g.flags,
        }),
        apply_change(g, c).recent_events == recorded_events(g, c),
{
    let g0 = g;
    let g1 = step_realm(g0, c);
    let g2 = step_qi_delta(g1, c);
    let g3 = step_qi_set(g2, c);
    let g4 = step_max_qi(g3, c);
    let g5 = step_stones(g4, c);
    let g6 = step_stats(g5, c);
    let g7 = step_techniques(g6, c);
    let g8 = step_add_items(g7, c);
    let g9 = step_remove_items(g8, c);
    let g10 = step_relationships(g9, c);
    let g11 = step_new_locations(g10, c);
    let g12 = step_current_location(g11, c);
    let g13 = step_quests(g12, c);
    let g14 = step_flag(g13, c);
    let g15 = step_event(g14, c);
    let g16 = step_consume(g15, c);
    let g17 = step_renames(g16, c);
    assert(g1.max_qi == g0.max_qi);
    assert(g1.locations == g0.locations);
    assert(g1.current_location == g0.current_location);
    assert(g1.flags == g0.flags);
    assert(g1.recent_events == g0.recent_events);
    assert(g2.max_qi == g1.max_qi);
    assert(g2.locations == g1.locations);
    assert(g2.current_location == g1.current_location);
    assert(g2.flags == g1.flags);
    assert(g2.recent_events == g1.recent_events);
    assert(g3.max_qi == g2.max_qi);
    assert(g3.locations == g2.locations);
    assert(g3.current_location == g2.current_location);
    assert(g3.flags == g2.flags);
    assert(g3.recent_events == g2.recent_events);
    assert(g4.locations == g3.locations);
    assert(g4.current_location == g3.current_location);
    assert(g4.flags == g3.flags);
    assert(g4.recent_events == g3.recent_events);
    assert(g5.max_qi == g4.max_qi);
    assert(g5.locations == g4.locations);
    assert(g5.current_location == g4.current_location);
    assert(g5.flags == g4.flags);
    assert(g5.recent_events == g4.recent_events);
    assert(g6.max_qi == g5.max_qi);
    assert(g6.locations == g5.locations);
    assert(g6.current_location == g5.current_location);
    assert(g6.flags == g5.flags);
    assert(g6.recent_events == g5.recent_events);
    assert(g7.max_qi == g6.max_qi);
    assert(g7.locations == g6.locations);
    assert(g7.current_location == g6.current_location);
    assert(g7.flags == g6.flags);
    assert(g7.recent_events == g6.recent_events);
    assert(g8.max_qi == g7.max_qi);
    assert(g8.locations == g7.locations);
    assert(g8.current_location == g7.current_location);
    assert(g8.flags == g7.flags);
    assert(g8.recent_events == g7.recent_events);
    assert(g9.max_qi == g8.max_qi);
    assert(g9.locations == g8.locations);
    assert(g9.current_location == g8.current_location);
    assert(g9.flags == g8.flags);
    assert(g9.recent_events == g8.recent_events);
    assert(g10.max_qi == g9.max_qi);
    assert(g10.locations == g9.locations);
    assert(g10.current_location == g9.current_location);
    assert(g10.flags == g9.flags);
    assert(g10.recent_events == g9.recent_events);
    assert(g11.max_qi == g10.max_qi);
    assert(g11.current_location == g10.current_location);
    assert(g11.flags == g10.flags);
    assert(g11.recent_events == g10.recent_events);
    assert(g12.max_qi == g11.max_qi);
    assert(g12.flags == g11.flags);
    assert(g12.recent_events == g11.recent_events);
    assert(g13.max_qi == g12.max_qi);
    assert(g13.locations == g12.locations);
    assert(g13.current_location == g12.current_location);
    assert(g13.flags == g12.flags);
    assert(g13.recent_events == g12.recent_events);
    assert(g14.max_qi == g13.max_qi);
    assert(g14.locations == g13.locations);
    assert(g14.current_location == g13.current_location);
    assert(g14.recent_events == g13.recent_events);
    assert(g15.max_qi == g14.max_qi);
    assert(g15.locations == g14.locations);
    assert(g15.current_location == g14.current_location);
    assert(g15.flags == g14.flags);
    assert(g16.max_qi == g15.max_qi);
    assert(g16.locations == g15.locations);
    assert(g16.current_location == g15.current_location);
    assert(g16.flags == g15.flags);
    assert(g16.recent_events == g15.recent_events);
    assert(g17.max_qi == g16.max_qi);
    assert(g17.locations == g16.locations);
    assert(g17.current_location == g16.current_location);
    assert(g17.flags == g16.flags);
    assert(g17.recent_events == g16.recent_events);
    assert(apply_change(g, c) == g17);
}

/// What the recorded locations, flags and events keep.
proof fn lemma_books_kept(g: GameView, c: ChangeView)
    ensures
        recorded_locations(g, c).take(g.locations.len() as int) == g.locations,
        c.new_locations matches Some(ls) ==> forall|i: int|
            0 <= i < ls.len() ==> recorded_locations(g, c).contains(#[trigger] ls[i]),
        c.set_current_location matches Some(l) ==> recorded_locations(g, c).contains(l),
        g.locations.no_duplicates() ==> recorded_locations(g, c).no_duplicates(),
        (match c.add_flag {
            Some(f) => push_unique(g.flags, f),
            None => g.flags,
        }).take(g.flags.len() as int) == g.flags,
        c.add_flag matches Some(f) ==> push_unique(g.flags, f).contains(f),
        g.flags.no_duplicates() ==> (match c.add_flag {
            Some(f) => push_unique(g.flags, f),
            None => g.flags,
        }).no_duplicates(),
        g.recent_events.len() <= 10 ==> recorded_events(g, c).len() <= 10,
        c.add_event matches Some(e) ==> recorded_events(g, c).last() == e,
{
    let l1 = match c.new_locations {
        Some(ls) => add_locations(g.locations, ls),
        None => g.locations,
    };
    match c.new_locations {
        Some(ls) => {
            lemma_add_locations_records(g.locations, ls);
            if g.locations.no_duplicates() {
                lemma_add_locations(g.locations, ls);
            }
        },
        None => {
            assert(g.locations.take(g.locations.len() as int) =~= g.locations);
        },
    }
    match c.set_current_location {
        Some(l) => {
            lemma_push_unique_prefix(l1, l);
            if l1.no_duplicates() {
                lemma_push_unique(l1, l);
            }
            let l2 = push_unique(l1, l);
            assert(l2.take(g.locations.len() as int) =~= l2.take(l1.len() as int).take(
                g.locations.len() as int,
            ));
            if let Some(ls) = c.new_locations {
                assert forall|i: int| 0 <= i < ls.len() implies l2.contains(#[trigger] ls[i]) by {
                    let k = choose|k: int| 0 <= k < l1.len() && l1[k] == ls[i];
                    assert(l2.take(l1.len() as int)[k] == ls[i]);
                    assert(l2[k] == ls[i]);
                }
            }
        },
        None => {},
    }
    match c.add_flag {
        Some(f) => {
            lemma_push_unique_prefix(g.flags, f);
            if g.flags.no_duplicates() {
                lemma_push_unique(g.flags, f);
            }
        },
        None => {
            assert(g.flags.take(g.flags.len() as int) =~= g.flags);
        },
    }
}

/// How a change keeps the state's books: the maximum qi moves only by its
/// delta and never below 10; the new locations and then the current
/// location are recorded once each after those already known, which stay
/// first; a new flag is recorded once, after the others; an event is
/// appended and, beyond ten, the oldest dropped.
pub proof fn lemma_apply_bookkeeping(g: GameView, c: ChangeView)
    ensures
        apply_change(g, c).max_qi == (match c.max_qi_delta {
            Some(m) => max_int(g.max_qi + m, 10) as i32,
            None => g.max_qi,
        }),
        apply_change(g, c).locations == recorded_locations(g, c),
        apply_change(g, c).current_location == (match c.set_current_location {
            Some(l) => l,
            None => g.current_location,
        }),
        apply_change(g, c).flags == (match c.add_flag {
            Some(f) => push_unique(g.flags, f),
            None => g.flags,
        }),
        apply_change(g, c).recent_events == recorded_events(g, c),
        recorded_locations(g, c).take(g.locations.len() as int) == g.locations,
        c.new_locations matches Some(ls) ==> forall|i: int|
            0 <= i < ls.len() ==> recorded_locations(g, c).contains(#[trigger] ls[i]),
        c.set_current_location matches Some(l) ==> recorded_locations(g, c).contains(l),
        g.locations.no_duplicates() ==> recorded_locations(g, c).no_duplicates(),
        c.add_flag matches Some(f) ==> push_unique(g.flags, f).contains(f) && push_unique(
            g.flags,
            f,
        ).take(g.flags.len() as int) == g.flags,
        g.flags.no_duplicates() ==> apply_change(g, c).flags.no_duplicates(),
        g.recent_events.len() <= 10 ==> recorded_events(g, c).len() <= 10,
        c.add_event matches Some(e) ==> recorded_events(g, c).last() == e,
{
    lemma_apply_books_fields(g, c);
    lemma_books_kept(g, c);
}


/// Law: a relationship change that names no new role keeps the name and the
/// role of every relationship already known, each in its place; where the
/// change names a known character, the first relationship with that name has
/// its affinity moved by the delta, held within -100..=100, and no
/// relationship is added.
pub proof fn lemma_rel_change_keeps_roles(rels: Seq<RelationshipView>, rc: RelChangeView, k: int)
    requires
        rc.new_role is None,
    ensures
        rel_change(rels, rc).len() >= rels.len(),
        forall|i: int|
            0 <= i < rels.len() ==> (#[trigger] rel_change(rels, rc)[i]).name == rels[i].name
                && rel_change(rels, rc)[i].role == rels[i].role,
        0 <= k < rels.len() && rels[k].name == rc.name && rc.name.len() > 0 && (forall|j: int|
            0 <= j < k ==> rels[j].name != rc.name) ==> {
            &&& rel_change(rels, rc).len() == rels.len()
            &&& rel_change(rels, rc)[k].affinity == clamp(
                rels[k].affinity + rc.affinity_delta,
                -100,
                100,
            )
        },
{
    lemma_first_where_bounds(rels, rel_named(rc.name));
    if 0 <= k < rels.len() && rels[k].name == rc.name && rc.name.len() > 0 && (forall|j: int|
        0 <= j < k ==> rels[j].name != rc.name) {
        lemma_first_where(rels, rel_named(rc.name), k);
    }
}

/// Law: a relationship change without a name changes nothing; one for a
/// known character touches only the first relationship with that name,
/// whose affinity moves by the delta within -100..=100 and whose role is
/// replaced only where the change names one; one for a character not yet
/// known adds that character at the end, with the role named or "未知", and
/// the delta, held within -100..=100, as affinity.
pub proof fn lemma_rel_change_outcome(rels: Seq<RelationshipView>, rc: RelChangeView, k: int)
    ensures
        rc.name.len() == 0 ==> rel_change(rels, rc) == rels,
        rc.name.len() > 0 && 0 <= k < rels.len() && rels[k].name == rc.name && (forall|j: int|
            0 <= j < k ==> rels[j].name != rc.name) ==> {
            &&& rel_change(rels, rc).len() == rels.len()
            &&& forall|i: int|
                0 <= i < rels.len() && i != k ==> #[trigger] rel_change(rels, rc)[i] == rels[i]
            &&& rel_change(rels, rc)[k].name == rels[k].name
            &&& rel_change(rels, rc)[k].affinity == clamp(
                rels[k].affinity + rc.affinity_delta,
                -100,
                100,
            )
            &&& rel_change(rels, rc)[k].role == (match rc.new_role {
                Some(r) => r,
                None => rels[k].role,
            })
        },
        rc.name.len() > 0 && (forall|j: int| 0 <= j < rels.len() ==> rels[j].name != rc.name)
            ==> {
            &&& rel_change(rels, rc).len() == rels.len() + 1
            &&& rel_change(rels, rc).take(rels.len() as int) == rels
            &&& rel_change(rels, rc).last().name == rc.name
            &&& rel_change(rels, rc).last().affinity == clamp(rc.affinity_delta as int, -100, 100)
            &&& rel_change(rels, rc).last().role == (match rc.new_role {
                Some(r) => r,
                None => "未知"@,
            })
        },
{
    if rc.name.len() > 0 && 0 <= k < rels.len() && rels[k].name == rc.name && (forall|j: int|
        0 <= j < k ==> rels[j].name != rc.name) {
        lemma_first_where(rels, rel_named(rc.name), k);
    }
    if rc.name.len() > 0 && (forall|j: int| 0 <= j < rels.len() ==> rels[j].name != rc.name) {
        lemma_first_where_none(rels, rel_named(rc.name));
        assert(rel_change(rels, rc).take(rels.len() as int) =~= rels);
    }
}

/// Law: a run of relationship changes none of which names a new role keeps
/// the name and the role of every relationship already known, each in its
/// place.
pub proof fn lemma_rel_changes_keep_roles(rels: Seq<RelationshipView>, rcs: Seq<RelChangeView>)
    requires
        forall|j: int| 0 <= j < rcs.len() ==> (#[trigger] rcs[j]).new_role is None,
    ensures
        rel_changes(rels, rcs).len() >= rels.len(),
        forall|i: int|
            0 <= i < rels.len() ==> (#[trigger] rel_changes(rels, rcs)[i]).name == rels[i].name
                && rel_changes(rels, rcs)[i].role == rels[i].role,
    decreases rcs.len(),
{
    if rcs.len() > 0 {
        let prev = rcs.drop_last();
        assert forall|j: int| 0 <= j < prev.len() implies (#[trigger] prev[j]).new_role is None by {
            assert(prev[j] == rcs[j]);
        }
        lemma_rel_changes_keep_roles(rels, prev);
        assert(rcs.last() == rcs[rcs.len() - 1]);
        lemma_rel_change_keeps_roles(rel_changes(rels, prev), rcs.last(), 0);
    }
}

/// Law: applying a change whose relationship changes name no new role, and
/// which renames nobody, keeps the name and the role of every relationship
/// the state already held; where it holds a single change for a known
/// character, that character's affinity moves by the delta, held within
/// -100..=100.
pub proof fn lemma_apply_keeps_roles(g: GameView, c: ChangeView, k: int)
    requires
        c.rename_relationships is None,
        match c.relationship_changes {
            Some(rcs) => forall|j: int| 0 <= j < rcs.len() ==> (#[trigger] rcs[j]).new_role is None,
            None => true,
        },
    ensures
        apply_change(g, c).relationships.len() >= g.relationships.len(),
        forall|i: int|
            0 <= i < g.relationships.len() ==> (#[trigger] apply_change(g, c).relationships[i]).name
                == g.relationships[i].name && apply_change(g, c).relationships[i].role
                == g.relationships[i].role,
        match c.relationship_changes {
            Some(rcs) => rcs.len() == 1 && 0 <= k < g.relationships.len()
                && g.relationships[k].name == rcs[0].name && rcs[0].name.len() > 0 && (forall|
                j: int|
                0 <= j < k ==> g.relationships[j].name != rcs[0].name) ==> {
                &&& apply_change(g, c).relationships.len() == g.relationships.len()
                &&& apply_change(g, c).relationships[k].affinity == clamp(
                    g.relationships[k].affinity + rcs[0].affinity_delta,
                    -100,
                    100,
                )
            },
            None => true,
        },
{
    let g1 = step_realm(g, c);
    let g2 = step_qi_delta(g1, c);
    let g3 = step_qi_set(g2, c);
    let g4 = step_max_qi(g3, c);
    let g5 = step_stones(g4, c);
    let g6 = step_stats(g5, c);
    let g7 = step_techniques(g6, c);
    let g8 = step_add_items(g7, c);
    let g9 = step_remove_items(g8, c);
    let g10 = step_relationships(g9, c);
    let g11 = step_new_locations(g10, c);
    let g12 = step_current_location(g11, c);
    let g13 = step_quests(g12, c);
    let g14 = step_flag(g13, c);
    let g15 = step_event(g14, c);
    let g16 = step_consume(g15, c);
    assert(g1.relationships == g.relationships);
    assert(g2.relationships == g.relationships);
    assert(g3.relationships == g.relationships);
    assert(g4.relationships == g.relationships);
    assert(g5.relationships == g.relationships);
    assert(g6.relationships == g.relationships);
    assert(g7.relationships == g.relationships);
    assert(g8.relationships == g.relationships);
    assert(g9.relationships == g.relationships);
    assert(g11.relationships == g10.relationships);
    assert(g12.relationships == g10.relationships);
    assert(g13.relationships == g10.relationships);
    assert(g14.relationships == g10.relationships);
    assert(g15.relationships == g10.relationships);
    assert(g16.relationships == g10.relationships);
    assert(apply_change(g, c).relationships == g10.relationships);
    match c.relationship_changes {
        Some(rcs) => {
            lemma_rel_changes_keep_roles(g.relationships, rcs);
            if rcs.len() == 1 {
                assert(rcs.drop_last() =~= Seq::<RelChangeView>::empty());
                assert(rcs.last() == rcs[0]);
                assert(rel_changes(g.relationships, rcs.drop_last()) == g.relationships);
                lemma_rel_change_keeps_roles(g.relationships, rcs[0], k);
            }
        },
        None => {},
    }
}

} // verus!
