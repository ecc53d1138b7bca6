//! Character creation and what its answers give (stats, spirit stones,
//! items, background flags), and the configuration of the generated world.
use vstd::prelude::*;
use crate::text::{cat, chars_eq, chars_of, chars_starts_with, owned, starts_with, views};

verus! {

broadcast use vstd::string::group_string_axioms;

// ══════════════════════════════════════════════════════════════════════
// Character creation — the raw answers of the creation questionnaire
// ══════════════════════════════════════════════════════════════════════

/// Raw answers from the character creation questionnaire.
/// The sect question is split into the sect category and the join reason;
/// the temperament question into four parts.
pub struct CreationChoices {
    /// 家世出身 — family background (e.g. "寒门之后", "修真世家")
    pub family_background: String,
    /// 少年经历 — childhood experience (e.g. "静心读书", "习武强身")
    pub childhood_experience: String,
    /// 宗门选择 — sect category (e.g. "仙门正宗", "魔道宗门")
    pub sect_category: String,
    /// 加入缘由 — why you joined (e.g. "仰慕其名，主动拜入")
    pub join_reason: String,
    /// 入道机缘 — how you entered cultivation
    pub entry_method: String,
    /// 对魔道修士的态度
    pub demonic_stance: String,
    /// 行事风格最接近的修士 (e.g. "韩立", "王林")
    pub personality_archetype: String,
    /// 修仙之路上最重要的是什么
    pub core_value: String,
    /// 洞府场景选择
    pub altruism: String,
    /// 问道之志 — why you seek the Dao
    pub dao_quest: String,
    /// 姓名
    pub player_name: String,
    /// 道号 (optional, empty when absent)
    pub dao_name: String,
    /// "male" = 男频, "female" = 女频
    pub narrative_style: String,
}

/// Player combat attributes (六维).
#[derive(Debug, Clone, Copy, PartialEq, Eq)]
pub struct PlayerStats {
    /// 剑道
    pub sword_art: i32,
    /// 术法
    pub spell_art: i32,
    /// 气血
    pub blood_qi: i32,
    /// 神魂
    pub spirit_soul: i32,
    /// 神识
    pub divine_sense: i32,
    /// 道心
    pub dao_heart: i32,
}

pub open spec fn stats(sw: int, sp: int, bq: int, ss: int, ds: int, dh: int) -> PlayerStats {
    PlayerStats {
        sword_art: sw as i32,
        spell_art: sp as i32,
        blood_qi: bq as i32,
        spirit_soul: ss as i32,
        divine_sense: ds as i32,
        dao_heart: dh as i32,
    }
}

/// Field-wise sum of two stat blocks.
pub open spec fn stats_sum(a: PlayerStats, b: PlayerStats) -> PlayerStats {
    stats(
        a.sword_art + b.sword_art,
        a.spell_art + b.spell_art,
        a.blood_qi + b.blood_qi,
        a.spirit_soul + b.spirit_soul,
        a.divine_sense + b.divine_sense,
        a.dao_heart + b.dao_heart,
    )
}

/// Every field lies in `0..=hi`.
pub open spec fn stats_within(s: PlayerStats, hi: int) -> bool {
    &&& 0 <= s.sword_art <= hi
    &&& 0 <= s.spell_art <= hi
    &&& 0 <= s.blood_qi <= hi
    &&& 0 <= s.spirit_soul <= hi
    &&& 0 <= s.divine_sense <= hi
    &&& 0 <= s.dao_heart <= hi
}

/// The default stat block (no recognised family background).
pub open spec fn default_stats() -> PlayerStats {
    stats(10, 5, 8, 4, 3, 6)
}

impl PlayerStats {
    /// The default stat block: 剑道10 术法5 气血8 神魂4 神识3 道心6.
    pub fn new_default() -> (s: PlayerStats)
        ensures
            s == default_stats(),
    {
        PlayerStats {
            sword_art: 10,
            spell_art: 5,
            blood_qi: 8,
            spirit_soul: 4,
            divine_sense: 3,
            dao_heart: 6,
        }
    }
}

impl Default for PlayerStats {
    fn default() -> (s: PlayerStats)
        ensures
            s == default_stats(),
    {
        PlayerStats::new_default()
    }
}

/// Family background → starting stats.
pub open spec fn family_stats(fb: Seq<char>) -> PlayerStats {
    if fb == "寒门之后"@ {
        stats(8, 6, 6, 5, 4, 8)
    } else if fb == "修真世家"@ {
        stats(11, 7, 7, 5, 4, 4)
    } else if fb == "山野遗孤"@ {
        stats(7, 5, 10, 6, 5, 7)
    } else if fb == "商贾之家"@ {
        stats(7, 7, 6, 5, 4, 5)
    } else if fb == "书香门第"@ {
        stats(6, 8, 5, 7, 8, 7)
    } else if fb == "将门虎子"@ {
        stats(12, 5, 8, 4, 3, 5)
    } else if fb == "医道传家"@ {
        stats(5, 9, 5, 6, 7, 7)
    } else if fb == "乞儿流浪"@ {
        stats(6, 4, 9, 4, 7, 8)
    } else {
        default_stats()
    }
}

/// Childhood experience → stat bonus.
pub open spec fn childhood_bonus(ce: Seq<char>) -> PlayerStats {
    if ce == "静心读书"@ {
        stats(0, 0, 0, 0, 2, 1)
    } else if ce == "习武强身"@ {
        stats(1, 0, 2, 0, 0, 0)
    } else if ce == "市井谋生"@ {
        stats(0, 0, 0, 1, 0, 0)
    } else if ce == "山林探险"@ {
        stats(0, 1, 1, 0, 1, 0)
    } else if ce == "拜入道观"@ {
        stats(0, 2, 0, 0, 0, 2)
    } else if ce == "随商队游历"@ {
        stats(0, 0, 0, 2, 1, 0)
    } else if ce == "服侍贵人"@ {
        stats(0, 0, 0, 1, 0, 2)
    } else if ce == "独自修炼"@ {
        stats(0, 1, 0, 0, 1, 1)
    } else {
        stats(0, 0, 0, 0, 0, 0)
    }
}

/// Sect category → stat bonus.
pub open spec fn sect_bonus(sc: Seq<char>) -> PlayerStats {
    if sc == "仙门正宗"@ {
        stats(0, 1, 0, 0, 0, 2)
    } else if sc == "魔道宗门"@ {
        stats(2, 0, 0, 1, 0, 0)
    } else if sc == "旁门左道"@ {
        stats(0, 0, 1, 0, 1, 0)
    } else if sc == "散修联盟"@ {
        stats(0, 0, 0, 2, 0, 0)
    } else if sc == "隐世宗门"@ {
        stats(0, 0, 0, 0, 2, 1)
    } else if sc == "佛门禅院"@ {
        stats(0, 0, 1, 0, 0, 3)
    } else if sc == "散修独行"@ {
        stats(0, 0, 2, 2, 0, 0)
    } else {
        stats(0, 0, 0, 0, 0, 0)
    }
}

/// Join reason → stat bonus.
pub open spec fn join_bonus(jr: Seq<char>) -> PlayerStats {
    if jr == "仰慕其名，主动拜入"@ {
        stats(0, 0, 0, 0, 1, 1)
    } else if jr == "为报恩情，被恩人引入"@ {
        stats(0, 0, 0, 0, 0, 2)
    } else if jr == "为避仇家，托庇于此"@ {
        stats(0, 0, 0, 2, 0, 0)
    } else if jr == "家族安排，身不由己"@ {
        stats(0, 0, 0, 1, 0, 0)
    } else if jr == "被胁迫加入，身不由己"@ {
        stats(0, 0, 2, 0, 0, 1)
    } else if jr == "作为卧底潜入，另有目的"@ {
        stats(0, 0, 0, 1, 2, 0)
    } else if jr == "机缘巧合，误打误撞"@ {
        stats(0, 0, 0, 0, 1, 0)
    } else if jr == "被其收留，入其门下"@ {
        stats(0, 0, 0, 1, 0, 1)
    } else {
        stats(0, 0, 0, 0, 0, 0)
    }
}

/// Entry method → stat bonus.
pub open spec fn entry_bonus(em: Seq<char>) -> PlayerStats {
    if em == "仙师路过，被收为记名弟子"@ {
        stats(0, 3, 0, 0, 1, 0)
    } else if em == "宗门大开山门，通过考核入外门"@ {
        stats(2, 0, 0, 0, 0, 1)
    } else if em == "误入上古遗迹，获得传承玉简"@ {
        stats(0, 0, 0, 1, 3, 0)
    } else if em == "家传秘法，终于入门"@ {
        stats(0, 2, 0, 2, 0, 0)
    } else if em == "落崖奇遇，得遇洞府"@ {
        stats(0, 0, 3, 0, 0, 0)
    } else if em == "散修收留，入门为杂役"@ {
        stats(0, 0, 0, 0, 1, 3)
    } else if em == "被仇家追杀，误入仙门"@ {
        stats(3, 0, 0, 1, 0, 0)
    } else {
        stats(0, 0, 0, 0, 0, 0)
    }
}

/// Dao quest → stat bonus.
pub open spec fn quest_bonus(dq: Seq<char>) -> PlayerStats {
    if dq == "超脱生死，得证长生"@ {
        stats(0, 0, 0, 0, 1, 4)
    } else if dq == "复仇雪恨，手刃仇敌"@ {
        stats(3, 0, 0, 2, 0, 0)
    } else if dq == "守护苍生，以武止戈"@ {
        stats(0, 0, 2, 0, 0, 2)
    } else if dq == "探寻真理，穷究天道"@ {
        stats(0, 2, 0, 0, 3, 0)
    } else if dq == "重振家声，光耀门楣"@ {
        stats(0, 0, 0, 2, 0, 1)
    } else if dq == "只为自由，不受束缚"@ {
        stats(2, 0, 3, 0, 0, 0)
    } else if dq == "无他，随波逐流"@ {
        stats(0, 0, 0, 1, 1, 2)
    } else {
        stats(0, 0, 0, 0, 0, 0)
    }
}

/// Altruism scene choice → stat bonus.
pub open spec fn altruism_bonus(al: Seq<char>) -> PlayerStats {
    if al == "先救人，再取丹。人命关天。"@ {
        stats(0, 0, 0, 0, 0, 2)
    } else if al == "取丹离去，心中默念抱歉。筑基丹太珍贵了。"@ {
        stats(0, 0, 0, 0, 1, 0)
    } else if al == "救醒他，了解情况后再决定。"@ {
        stats(0, 0, 0, 1, 0, 0)
    } else if al == "救醒他，然后让他拿身上的东西作为报答。"@ {
        stats(0, 0, 0, 0, 0, 1)
    } else {
        stats(0, 0, 0, 0, 0, 0)
    }
}

/// The starting stats of a character: the family table plus the bonus of each
/// later answer, in questionnaire order.
pub open spec fn initial_stats(c: &CreationChoices) -> PlayerStats {
    stats_sum(
        stats_sum(
            stats_sum(
                stats_sum(
                    stats_sum(
                        stats_sum(family_stats(c.family_background@), childhood_bonus(c.childhood_experience@)),
                        sect_bonus(c.sect_category@),
                    ),
                    join_bonus(c.join_reason@),
                ),
                entry_bonus(c.entry_method@),
            ),
            quest_bonus(c.dao_quest@),
        ),
        altruism_bonus(c.altruism@),
    )
}

/// Family background → starting spirit stones.
pub open spec fn family_stones(fb: Seq<char>) -> int {
    if fb == "修真世家"@ {
        30
    } else if fb == "商贾之家"@ {
        80
    } else if fb == "书香门第"@ {
        10
    } else if fb == "将门虎子"@ {
        20
    } else if fb == "医道传家"@ {
        15
    } else {
        0
    }
}

/// Sect category → starting spirit stones.
pub open spec fn sect_stones(sc: Seq<char>) -> int {
    if sc == "旁门左道"@ {
        20
    } else if sc == "散修联盟"@ {
        30
    } else {
        0
    }
}

/// The starting spirit stones of a character.
pub open spec fn initial_spirit_stones(c: &CreationChoices) -> int {
    family_stones(c.family_background@) + (if c.childhood_experience@ == "市井谋生"@ {
        15int
    } else {
        0int
    }) + sect_stones(c.sect_category@) + (if c.join_reason@ == "家族安排，身不由己"@ {
        10int
    } else {
        0int
    }) + (if c.dao_quest@ == "重振家声，光耀门楣"@ {
        20int
    } else {
        0int
    }) + (if c.altruism@ == "救醒他，然后让他拿身上的东西作为报答。"@ {
        50int
    } else {
        0int
    })
}

/// Inventory item.
pub struct InventoryItem {
    pub name: String,
    pub item_type: String,
    pub quality: String,
    pub quantity: i32,
    pub effect: String,
}

/// The mathematical value of an inventory item.
pub struct ItemView {
    pub name: Seq<char>,
    pub item_type: Seq<char>,
    pub quality: Seq<char>,
    pub quantity: i32,
    pub effect: Seq<char>,
}

impl View for InventoryItem {
    type V = ItemView;

    open spec fn view(&self) -> ItemView {
        ItemView {
            name: self.name@,
            item_type: self.item_type@,
            quality: self.quality@,
            quantity: self.quantity,
            effect: self.effect@,
        }
    }
}

pub open spec fn item_view(
    name: Seq<char>,
    item_type: Seq<char>,
    quality: Seq<char>,
    quantity: i32,
    effect: Seq<char>,
) -> ItemView {
    ItemView { name, item_type, quality, quantity, effect }
}

/// The views of a sequence of inventory items.
pub open spec fn item_views(v: Seq<InventoryItem>) -> Seq<ItemView> {
    v.map_values(|i: InventoryItem| i@)
}

impl InventoryItem {
    /// A copy of this item.
    pub fn duplicate(&self) -> (r: InventoryItem)
        ensures
            r@ == self@,
    {
        InventoryItem {
            name: self.name.clone(),
            item_type: self.item_type.clone(),
            quality: self.quality.clone(),
            quantity: self.quantity,
            effect: self.effect.clone(),
        }
    }
}

fn make_item(name: &str, item_type: &str, quality: &str, quantity: i32, effect: &str) -> (r:
    InventoryItem)
    ensures
        r@ == item_view(name@, item_type@, quality@, quantity, effect@),
{
    InventoryItem {
        name: owned(name),
        item_type: owned(item_type),
        quality: owned(quality),
        quantity,
        effect: owned(effect),
    }
}

pub open spec fn heal_pill(n: i32) -> ItemView {
    item_view("疗伤丹"@, "丹药"@, "普通"@, n, "治疗轻伤"@)
}

pub open spec fn foundation_pill() -> ItemView {
    item_view("筑基丹"@, "丹药"@, "稀有"@, 1, "大幅提升筑基成功率"@)
}

/// Family background → starting items.
pub open spec fn family_items(fb: Seq<char>) -> Seq<ItemView> {
    if fb == "山野遗孤"@ {
        seq![heal_pill(1)]
    } else if fb == "书香门第"@ {
        seq![item_view("旧书卷"@, "杂物"@, "普通"@, 1, "记载着残缺的上古文字"@)]
    } else if fb == "将门虎子"@ {
        seq![item_view("铁剑"@, "法器"@, "普通"@, 1, "凡铁所铸，胜在结实"@)]
    } else if fb == "医道传家"@ {
        seq![heal_pill(3)]
    } else {
        Seq::empty()
    }
}

/// Entry method → starting items.
pub open spec fn entry_items(em: Seq<char>) -> Seq<ItemView> {
    if em == "误入上古遗迹，获得传承玉简"@ {
        seq![item_view("残破玉简"@, "杂物"@, "稀有"@, 1, "蕴含上古传承的残缺信息"@)]
    } else if em == "落崖奇遇，得遇洞府"@ {
        seq![item_view("未知丹药"@, "丹药"@, "精良"@, 2, "异香扑鼻，药性未知"@)]
    } else {
        Seq::empty()
    }
}

/// Join reason → starting items.
pub open spec fn join_items(jr: Seq<char>) -> Seq<ItemView> {
    if jr == "机缘巧合，误打误撞"@ {
        seq![item_view("机缘信物"@, "杂物"@, "精良"@, 1, "散发着微光，似有灵性"@)]
    } else {
        Seq::empty()
    }
}

/// Altruism scene choice → starting items.
pub open spec fn altruism_items(al: Seq<char>) -> Seq<ItemView> {
    if al == "取丹离去，心中默念抱歉。筑基丹太珍贵了。"@ {
        seq![foundation_pill()]
    } else if al == "取走丹药和令牌，放任其自生自灭。"@ {
        seq![
            foundation_pill(),
            item_view("内门令牌"@, "杂物"@, "精良"@, 1, "某宗门内门弟子的身份令牌"@),
        ]
    } else {
        Seq::empty()
    }
}

/// The starting inventory of a character.
pub open spec fn initial_items(c: &CreationChoices) -> Seq<ItemView> {
    family_items(c.family_background@) + entry_items(c.entry_method@) + join_items(
        c.join_reason@,
    ) + altruism_items(c.altruism@)
}

pub open spec fn family_flag(fb: Seq<char>) -> Seq<Seq<char>> {
    if fb == "寒门之后"@ {
        seq!["humble-origin"@]
    } else if fb == "修真世家"@ {
        seq!["clan-descendant"@]
    } else if fb == "山野遗孤"@ {
        seq!["wild-orphan"@]
    } else if fb == "商贾之家"@ {
        seq!["merchant-born"@]
    } else if fb == "书香门第"@ {
        seq!["scholar-born"@]
    } else if fb == "将门虎子"@ {
        seq!["general-descendant"@]
    } else if fb == "医道传家"@ {
        seq!["healer-born"@]
    } else if fb == "乞儿流浪"@ {
        seq!["beggar-origin"@]
    } else {
        Seq::empty()
    }
}

pub open spec fn childhood_flag(ce: Seq<char>) -> Seq<Seq<char>> {
    if ce == "静心读书"@ {
        seq!["studious-youth"@]
    } else if ce == "习武强身"@ {
        seq!["martial-youth"@]
    } else if ce == "市井谋生"@ {
        seq!["streetwise-youth"@]
    } else if ce == "山林探险"@ {
        seq!["explorer-youth"@]
    } else if ce == "拜入道观"@ {
        seq!["taoist-youth"@]
    } else if ce == "随商队游历"@ {
        seq!["traveler-youth"@]
    } else if ce == "服侍贵人"@ {
        seq!["servant-youth"@]
    } else if ce == "独自修炼"@ {
        seq!["solitary-youth"@]
    } else {
        Seq::empty()
    }
}

pub open spec fn sect_flag(sc: Seq<char>) -> Seq<Seq<char>> {
    if sc == "仙门正宗"@ {
        seq!["orthodox-sect"@]
    } else if sc == "魔道宗门"@ {
        seq!["demonic-sect"@]
    } else if sc == "旁门左道"@ {
        seq!["unorthodox-sect"@]
    } else if sc == "散修联盟"@ {
        seq!["loose-cultivator"@]
    } else if sc == "隐世宗门"@ {
        seq!["hidden-sect"@]
    } else if sc == "佛门禅院"@ {
        seq!["buddhist-temple"@]
    } else if sc == "散修独行"@ {
        seq!["rogue-cultivator"@]
    } else {
        Seq::empty()
    }
}

pub open spec fn archetype_flag(pa: Seq<char>) -> Seq<Seq<char>> {
    if pa == "韩立"@ {
        seq!["cautious"@]
    } else if pa == "王林"@ {
        seq!["ruthless"@]
    } else if pa == "徐缺"@ {
        seq!["witty"@]
    } else if pa == "萧炎"@ {
        seq!["loyal"@]
    } else if pa == "白小纯"@ {
        seq!["lucky"@]
    } else if pa == "方平"@ {
        seq!["strategic"@]
    } else if pa == "李长寿"@ {
        seq!["hidden"@]
    } else {
        Seq::empty()
    }
}

pub open spec fn value_flag(cv: Seq<char>) -> Seq<Seq<char>> {
    if cv == "长生久视，寿与天齐"@ {
        seq!["value-immortality"@]
    } else if cv == "逍遥自在，不受束缚"@ {
        seq!["value-freedom"@]
    } else if cv == "登临绝顶，俯瞰众生"@ {
        seq!["value-power"@]
    } else if cv == "守护所爱，庇护一方"@ {
        seq!["value-protection"@]
    } else if cv == "探寻真理，穷究天道"@ {
        seq!["value-knowledge"@]
    } else if cv == "快意恩仇，不负此生"@ {
        seq!["value-justice"@]
    } else {
        Seq::empty()
    }
}

/// The altruism flag is chosen by the opening words of the answer.
pub open spec fn altruism_flag(al: Seq<char>) -> Seq<Seq<char>> {
    if starts_with(al, "先救人"@) {
        seq!["altruistic"@]
    } else if starts_with(al, "取丹离去"@) {
        seq!["self-interested"@]
    } else if starts_with(al, "救醒他，了解"@) {
        seq!["cautiously-kind"@]
    } else if starts_with(al, "取走丹药"@) {
        seq!["ruthless"@]
    } else if starts_with(al, "救醒他，然后"@) {
        seq!["pragmatic"@]
    } else {
        Seq::empty()
    }
}

/// All background flags of a character, one per recognised answer, in
/// questionnaire order.
pub open spec fn background_flags(c: &CreationChoices) -> Seq<Seq<char>> {
    family_flag(c.family_background@) + childhood_flag(c.childhood_experience@) + sect_flag(
        c.sect_category@,
    ) + archetype_flag(c.personality_archetype@) + value_flag(c.core_value@) + altruism_flag(
        c.altruism@,
    )
}

/// "女" for the female narrative style, "男" otherwise.
pub open spec fn gender_word(style: Seq<char>) -> Seq<char> {
    if style == "female"@ {
        "女"@
    } else {
        "男"@
    }
}

/// "女频" for the female narrative style, "男频" otherwise.
pub open spec fn style_word(style: Seq<char>) -> Seq<char> {
    if style == "female"@ {
        "女频"@
    } else {
        "男频"@
    }
}

/// The questionnaire summary that feeds the world-generation prompt.
pub open spec fn choices_text(c: &CreationChoices) -> Seq<char> {
    "修士姓名: "@ + c.player_name@ + "\n"@ + (if c.dao_name@.len() == 0 {
        Seq::empty()
    } else {
        "道号: "@ + c.dao_name@ + "\n"@
    }) + "修士性别: "@ + gender_word(c.narrative_style@) + "\n"@ + "叙事风格: "@ + style_word(
        c.narrative_style@,
    ) + "\n"@ + "\n## 修士背景\n\n"@ + "家世出身: "@ + c.family_background@ + "\n"@ + "少年经历: "@
        + c.childhood_experience@ + "\n"@ + "宗门选择: "@ + c.sect_category@ + "\n"@ + "加入缘由: "@
        + c.join_reason@ + "\n"@ + "入道机缘: "@ + c.entry_method@ + "\n"@ + "对魔道态度: "@
        + c.demonic_stance@ + "\n"@ + "行事风格: "@ + c.personality_archetype@ + "式\n"@
        + "核心追求: "@ + c.core_value@ + "\n"@ + "道德场景选择: "@ + c.altruism@ + "\n"@
        + "问道之志: "@ + c.dao_quest@ + "\n"@
}

/// Whether `v` spells the literal `lit`.
pub fn is_lit(v: &Vec<char>, lit: &str) -> (r: bool)
    ensures
        r == (v@ == lit@),
{
    let w = chars_of(lit);
    chars_eq(v, &w)
}

fn add_stats(a: PlayerStats, b: PlayerStats) -> (r: PlayerStats)
    requires
        stats_within(a, 100),
        stats_within(b, 100),
    ensures
        r == stats_sum(a, b),
        stats_within(r, 200),
{
    PlayerStats {
        sword_art: a.sword_art + b.sword_art,
        spell_art: a.spell_art + b.spell_art,
        blood_qi: a.blood_qi + b.blood_qi,
        spirit_soul: a.spirit_soul + b.spirit_soul,
        divine_sense: a.divine_sense + b.divine_sense,
        dao_heart: a.dao_heart + b.dao_heart,
    }
}

fn mk(sw: i32, sp: i32, bq: i32, ss: i32, ds: i32, dh: i32) -> (r: PlayerStats)
    ensures
        r == stats(sw as int, sp as int, bq as int, ss as int, ds as int, dh as int),
{
    PlayerStats {
        sword_art: sw,
        spell_art: sp,
        blood_qi: bq,
        spirit_soul: ss,
        divine_sense: ds,
        dao_heart: dh,
    }
}

fn family_stats_of(v: &Vec<char>) -> (r: PlayerStats)
    ensures
        r == family_stats(v@),
        stats_within(r, 12),
{
    if is_lit(v, "寒门之后") {
        mk(8, 6, 6, 5, 4, 8)
    } else if is_lit(v, "修真世家") {
        mk(11, 7, 7, 5, 4, 4)
    } else if is_lit(v, "山野遗孤") {
        mk(7, 5, 10, 6, 5, 7)
    } else if is_lit(v, "商贾之家") {
        mk(7, 7, 6, 5, 4, 5)
    } else if is_lit(v, "书香门第") {
        mk(6, 8, 5, 7, 8, 7)
    } else if is_lit(v, "将门虎子") {
        mk(12, 5, 8, 4, 3, 5)
    } else if is_lit(v, "医道传家") {
        mk(5, 9, 5, 6, 7, 7)
    } else if is_lit(v, "乞儿流浪") {
        mk(6, 4, 9, 4, 7, 8)
    } else {
        PlayerStats::new_default()
    }
}

fn childhood_bonus_of(v: &Vec<char>) -> (r: PlayerStats)
    ensures
        r == childhood_bonus(v@),
        stats_within(r, 4),
{
    if is_lit(v, "静心读书") {
        mk(0, 0, 0, 0, 2, 1)
    } else if is_lit(v, "习武强身") {
        mk(1, 0, 2, 0, 0, 0)
    } else if is_lit(v, "市井谋生") {
        mk(0, 0, 0, 1, 0, 0)
    } else if is_lit(v, "山林探险") {
        mk(0, 1, 1, 0, 1, 0)
    } else if is_lit(v, "拜入道观") {
        mk(0, 2, 0, 0, 0, 2)
    } else if is_lit(v, "随商队游历") {
        mk(0, 0, 0, 2, 1, 0)
    } else if is_lit(v, "服侍贵人") {
        mk(0, 0, 0, 1, 0, 2)
    } else if is_lit(v, "独自修炼") {
        mk(0, 1, 0, 0, 1, 1)
    } else {
        mk(0, 0, 0, 0, 0, 0)
    }
}

fn sect_bonus_of(v: &Vec<char>) -> (r: PlayerStats)
    ensures
        r == sect_bonus(v@),
        stats_within(r, 4),
{
    if is_lit(v, "仙门正宗") {
        mk(0, 1, 0, 0, 0, 2)
    } else if is_lit(v, "魔道宗门") {
        mk(2, 0, 0, 1, 0, 0)
    } else if is_lit(v, "旁门左道") {
        mk(0, 0, 1, 0, 1, 0)
    } else if is_lit(v, "散修联盟") {
        mk(0, 0, 0, 2, 0, 0)
    } else if is_lit(v, "隐世宗门") {
        mk(0, 0, 0, 0, 2, 1)
    } else if is_lit(v, "佛门禅院") {
        mk(0, 0, 1, 0, 0, 3)
    } else if is_lit(v, "散修独行") {
        mk(0, 0, 2, 2, 0, 0)
    } else {
        mk(0, 0, 0, 0, 0, 0)
    }
}

fn join_bonus_of(v: &Vec<char>) -> (r: PlayerStats)
    ensures
        r == join_bonus(v@),
        stats_within(r, 4),
{
    if is_lit(v, "仰慕其名，主动拜入") {
        mk(0, 0, 0, 0, 1, 1)
    } else if is_lit(v, "为报恩情，被恩人引入") {
        mk(0, 0, 0, 0, 0, 2)
    } else if is_lit(v, "为避仇家，托庇于此") {
        mk(0, 0, 0, 2, 0, 0)
    } else if is_lit(v, "家族安排，身不由己") {
        mk(0, 0, 0, 1, 0, 0)
    } else if is_lit(v, "被胁迫加入，身不由己") {
        mk(0, 0, 2, 0, 0, 1)
    } else if is_lit(v, "作为卧底潜入，另有目的") {
        mk(0, 0, 0, 1, 2, 0)
    } else if is_lit(v, "机缘巧合，误打误撞") {
        mk(0, 0, 0, 0, 1, 0)
    } else if is_lit(v, "被其收留，入其门下") {
        mk(0, 0, 0, 1, 0, 1)
    } else {
        mk(0, 0, 0, 0, 0, 0)
    }
}

fn entry_bonus_of(v: &Vec<char>) -> (r: PlayerStats)
    ensures
        r == entry_bonus(v@),
        stats_within(r, 4),
{
    if is_lit(v, "仙师路过，被收为记名弟子") {
        mk(0, 3, 0, 0, 1, 0)
    } else if is_lit(v, "宗门大开山门，通过考核入外门") {
        mk(2, 0, 0, 0, 0, 1)
    } else if is_lit(v, "误入上古遗迹，获得传承玉简") {
        mk(0, 0, 0, 1, 3, 0)
    } else if is_lit(v, "家传秘法，终于入门") {
        mk(0, 2, 0, 2, 0, 0)
    } else if is_lit(v, "落崖奇遇，得遇洞府") {
        mk(0, 0, 3, 0, 0, 0)
    } else if is_lit(v, "散修收留，入门为杂役") {
        mk(0, 0, 0, 0, 1, 3)
    } else if is_lit(v, "被仇家追杀，误入仙门") {
        mk(3, 0, 0, 1, 0, 0)
    } else {
        mk(0, 0, 0, 0, 0, 0)
    }
}

fn quest_bonus_of(v: &Vec<char>) -> (r: PlayerStats)
    ensures
        r == quest_bonus(v@),
        stats_within(r, 4),
{
    if is_lit(v, "超脱生死，得证长生") {
        mk(0, 0, 0, 0, 1, 4)
    } else if is_lit(v, "复仇雪恨，手刃仇敌") {
        mk(3, 0, 0, 2, 0, 0)
    } else if is_lit(v, "守护苍生，以武止戈") {
        mk(0, 0, 2, 0, 0, 2)
    } else if is_lit(v, "探寻真理，穷究天道") {
        mk(0, 2, 0, 0, 3, 0)
    } else if is_lit(v, "重振家声，光耀门楣") {
        mk(0, 0, 0, 2, 0, 1)
    } else if is_lit(v, "只为自由，不受束缚") {
        mk(2, 0, 3, 0, 0, 0)
    } else if is_lit(v, "无他，随波逐流") {
        mk(0, 0, 0, 1, 1, 2)
    } else {
        mk(0, 0, 0, 0, 0, 0)
    }
}

fn altruism_bonus_of(v: &Vec<char>) -> (r: PlayerStats)
    ensures
        r == altruism_bonus(v@),
        stats_within(r, 4),
{
    if is_lit(v, "先救人，再取丹。人命关天。") {
        mk(0, 0, 0, 0, 0, 2)
    } else if is_lit(v, "取丹离去，心中默念抱歉。筑基丹太珍贵了。") {
        mk(0, 0, 0, 0, 1, 0)
    } else if is_lit(v, "救醒他，了解情况后再决定。") {
        mk(0, 0, 0, 1, 0, 0)
    } else if is_lit(v, "救醒他，然后让他拿身上的东西作为报答。") {
        mk(0, 0, 0, 0, 0, 1)
    } else {
        mk(0, 0, 0, 0, 0, 0)
    }
}

fn push_flag_if(flags: &mut Vec<String>, f: Option<&str>)
    ensures
        views(final(flags)@) == views(old(flags)@) + match f {
            Some(s) => seq![s@],
            None => Seq::<Seq<char>>::empty(),
        },
{
    match f {
        Some(s) => {
            flags.push(owned(s));
            assert(views(flags@) =~= views(old(flags)@) + seq![s@]);
        },
        None => {
            assert(views(flags@) =~= views(old(flags)@));
        },
    }
}

pub open spec fn opt_lit(f: Option<&str>) -> Seq<Seq<char>> {
    match f {
        Some(s) => seq![s@],
        None => Seq::empty(),
    }
}

impl CreationChoices {
    /// Starting player stats from the questionnaire: the family table plus a
    /// bonus for each later answer.
    pub fn calculate_initial_stats(&self) -> (r: PlayerStats)
        ensures
            r == initial_stats(self),
    {
        let s1 = family_stats_of(&chars_of(self.family_background.as_str()));
        let s2 = add_stats(s1, childhood_bonus_of(&chars_of(self.childhood_experience.as_str())));
        let s3 = add_stats(s2, sect_bonus_of(&chars_of(self.sect_category.as_str())));
        let s4 = add_stats(s3, join_bonus_of(&chars_of(self.join_reason.as_str())));
        let s5 = add_stats(s4, entry_bonus_of(&chars_of(self.entry_method.as_str())));
        let s6 = add_stats(s5, quest_bonus_of(&chars_of(self.dao_quest.as_str())));
        add_stats(s6, altruism_bonus_of(&chars_of(self.altruism.as_str())))
    }

    /// Starting spirit stones from the questionnaire.
    pub fn calculate_initial_spirit_stones(&self) -> (r: i32)
        ensures
            r == initial_spirit_stones(self),
    {
        let mut stones: i32 = 0;
        let fb = chars_of(self.family_background.as_str());
        if is_lit(&fb, "修真世家") {
            stones += 30;
        } else if is_lit(&fb, "商贾之家") {
            stones += 80;
        } else if is_lit(&fb, "书香门第") {
            stones += 10;
        } else if is_lit(&fb, "将门虎子") {
            stones += 20;
        } else if is_lit(&fb, "医道传家") {
            stones += 15;
        }
        if is_lit(&chars_of(self.childhood_experience.as_str()), "市井谋生") {
            stones += 15;
        }
        let sc = chars_of(self.sect_category.as_str());
        if is_lit(&sc, "旁门左道") {
            stones += 20;
        } else if is_lit(&sc, "散修联盟") {
            stones += 30;
        }
        if is_lit(&chars_of(self.join_reason.as_str()), "家族安排，身不由己") {
            stones += 10;
        }
        if is_lit(&chars_of(self.dao_quest.as_str()), "重振家声，光耀门楣") {
            stones += 20;
        }
        if is_lit(&chars_of(self.altruism.as_str()), "救醒他，然后让他拿身上的东西作为报答。") {
            stones += 50;
        }
        stones
    }

    /// Starting inventory from the questionnaire.
    pub fn calculate_initial_items(&self) -> (r: Vec<InventoryItem>)
        ensures
            item_views(r@) == initial_items(self),
    {
        let mut items: Vec<InventoryItem> = Vec::new();
        let fb = chars_of(self.family_background.as_str());
        if is_lit(&fb, "山野遗孤") {
            items.push(make_item("疗伤丹", "丹药", "普通", 1, "治疗轻伤"));
        } else if is_lit(&fb, "书香门第") {
            items.push(make_item("旧书卷", "杂物", "普通", 1, "记载着残缺的上古文字"));
        } else if is_lit(&fb, "将门虎子") {
            items.push(make_item("铁剑", "法器", "普通", 1, "凡铁所铸，胜在结实"));
        } else if is_lit(&fb, "医道传家") {
            items.push(make_item("疗伤丹", "丹药", "普通", 3, "治疗轻伤"));
        }
        let ghost a = item_views(items@);
        assert(a =~= family_items(self.family_background@));
        let em = chars_of(self.entry_method.as_str());
        if is_lit(&em, "误入上古遗迹，获得传承玉简") {
            items.push(make_item("残破玉简", "杂物", "稀有", 1, "蕴含上古传承的残缺信息"));
        } else if is_lit(&em, "落崖奇遇，得遇洞府") {
            items.push(make_item("未知丹药", "丹药", "精良", 2, "异香扑鼻，药性未知"));
        }
        let ghost b = item_views(items@);
        assert(b =~= a + entry_items(self.entry_method@));
        if is_lit(&chars_of(self.join_reason.as_str()), "机缘巧合，误打误撞") {
            items.push(make_item("机缘信物", "杂物", "精良", 1, "散发着微光，似有灵性"));
        }
        let ghost c = item_views(items@);
        assert(c =~= b + join_items(self.join_reason@));
        let al = chars_of(self.altruism.as_str());
        if is_lit(&al, "取丹离去，心中默念抱歉。筑基丹太珍贵了。") {
            items.push(make_item("筑基丹", "丹药", "稀有", 1, "大幅提升筑基成功率"));
        } else if is_lit(&al, "取走丹药和令牌，放任其自生自灭。") {
            items.push(make_item("筑基丹", "丹药", "稀有", 1, "大幅提升筑基成功率"));
            items.push(make_item("内门令牌", "杂物", "精良", 1, "某宗门内门弟子的身份令牌"));
        }
        assert(item_views(items@) =~= c + altruism_items(self.altruism@));
        items
    }

    /// All background flags derived from the questionnaire.
    pub fn collect_background_flags(&self) -> (r: Vec<String>)
        ensures
            views(r@) == background_flags(self),
    {
        let mut flags: Vec<String> = Vec::new();
        let v = chars_of(self.family_background.as_str());
        let f1: Option<&str> = if is_lit(&v, "寒门之后") {
            Some("humble-origin")
        } else if is_lit(&v, "修真世家") {
            Some("clan-descendant")
        } else if is_lit(&v, "山野遗孤") {
            Some("wild-orphan")
        } else if is_lit(&v, "商贾之家") {
            Some("merchant-born")
        } else if is_lit(&v, "书香门第") {
            Some("scholar-born")
        } else if is_lit(&v, "将门虎子") {
            Some("general-descendant")
        } else if is_lit(&v, "医道传家") {
            Some("healer-born")
        } else if is_lit(&v, "乞儿流浪") {
            Some("beggar-origin")
        } else {
            None
        };
        assert(opt_lit(f1) =~= family_flag(self.family_background@));
        push_flag_if(&mut flags, f1);
        let v = chars_of(self.childhood_experience.as_str());
        let f2: Option<&str> = if is_lit(&v, "静心读书") {
            Some("studious-youth")
        } else if is_lit(&v, "习武强身") {
            Some("martial-youth")
        } else if is_lit(&v, "市井谋生") {
            Some("streetwise-youth")
        } else if is_lit(&v, "山林探险") {
            Some("explorer-youth")
        } else if is_lit(&v, "拜入道观") {
            Some("taoist-youth")
        } else if is_lit(&v, "随商队游历") {
            Some("traveler-youth")
        } else if is_lit(&v, "服侍贵人") {
            Some("servant-youth")
        } else if is_lit(&v, "独自修炼") {
            Some("solitary-youth")
        } else {
            None
        };
        assert(opt_lit(f2) =~= childhood_flag(self.childhood_experience@));
        push_flag_if(&mut flags, f2);
        let v = chars_of(self.sect_category.as_str());
        let f3: Option<&str> = if is_lit(&v, "仙门正宗") {
            Some("orthodox-sect")
        } else if is_lit(&v, "魔道宗门") {
            Some("demonic-sect")
        } else if is_lit(&v, "旁门左道") {
            Some("unorthodox-sect")
        } else if is_lit(&v, "散修联盟") {
            Some("loose-cultivator")
        } else if is_lit(&v, "隐世宗门") {
            Some("hidden-sect")
        } else if is_lit(&v, "佛门禅院") {
            Some("buddhist-temple")
        } else if is_lit(&v, "散修独行") {
            Some("rogue-cultivator")
        } else {
            None
        };
        assert(opt_lit(f3) =~= sect_flag(self.sect_category@));
        push_flag_if(&mut flags, f3);
        let v = chars_of(self.personality_archetype.as_str());
        let f4: Option<&str> = if is_lit(&v, "韩立") {
            Some("cautious")
        } else if is_lit(&v, "王林") {
            Some("ruthless")
        } else if is_lit(&v, "徐缺") {
            Some("witty")
        } else if is_lit(&v, "萧炎") {
            Some("loyal")
        } else if is_lit(&v, "白小纯") {
            Some("lucky")
        } else if is_lit(&v, "方平") {
            Some("strategic")
        } else if is_lit(&v, "李长寿") {
            Some("hidden")
        } else {
            None
        };
        assert(opt_lit(f4) =~= archetype_flag(self.personality_archetype@));
        push_flag_if(&mut flags, f4);
        let v = chars_of(self.core_value.as_str());
        let f5: Option<&str> = if is_lit(&v, "长生久视，寿与天齐") {
            Some("value-immortality")
        } else if is_lit(&v, "逍遥自在，不受束缚") {
            Some("value-freedom")
        } else if is_lit(&v, "登临绝顶，俯瞰众生") {
            Some("value-power")
        } else if is_lit(&v, "守护所爱，庇护一方") {
            Some("value-protection")
        } else if is_lit(&v, "探寻真理，穷究天道") {
            Some("value-knowledge")
        } else if is_lit(&v, "快意恩仇，不负此生") {
            Some("value-justice")
        } else {
            None
        };
        assert(opt_lit(f5) =~= value_flag(self.core_value@));
        push_flag_if(&mut flags, f5);
        let v = chars_of(self.altruism.as_str());
        let f6: Option<&str> = if chars_starts_with(&v, &chars_of("先救人")) {
            Some("altruistic")
        } else if chars_starts_with(&v, &chars_of("取丹离去")) {
            Some("self-interested")
        } else if chars_starts_with(&v, &chars_of("救醒他，了解")) {
            Some("cautiously-kind")
        } else if chars_starts_with(&v, &chars_of("取走丹药")) {
            Some("ruthless")
        } else if chars_starts_with(&v, &chars_of("救醒他，然后")) {
            Some("pragmatic")
        } else {
            None
        };
        assert(opt_lit(f6) =~= altruism_flag(self.altruism@));
        push_flag_if(&mut flags, f6);
        assert(views(flags@) =~= background_flags(self));
        flags
    }

    /// The questionnaire summary for the world-generation prompt.
    pub fn to_prompt_text(&self) -> (r: String)
        ensures
            r@ == choices_text(self),
    {
        let female = is_lit(&chars_of(self.narrative_style.as_str()), "female");
        let mut s = owned("修士姓名: ");
        cat(&mut s, self.player_name.as_str());
        cat(&mut s, "\n");
        let ghost s0 = s@;
        if !is_lit(&chars_of(self.dao_name.as_str()), "") {
            cat(&mut s, "道号: ");
            cat(&mut s, self.dao_name.as_str());
            cat(&mut s, "\n");
        }
        proof {
            reveal_strlit("");
            if self.dao_name@.len() == 0 {
                assert(self.dao_name@ =~= ""@);
                assert(s@ =~= s0 + Seq::empty());
            } else {
                assert(s@ =~= s0 + ("道号: "@ + self.dao_name@ + "\n"@));
            }
        }
        cat(&mut s, "修士性别: ");
        cat(&mut s, if female { "女" } else { "男" });
        cat(&mut s, "\n");
        cat(&mut s, "叙事风格: ");
        cat(&mut s, if female { "女频" } else { "男频" });
        cat(&mut s, "\n");
        cat(&mut s, "\n## 修士背景\n\n");
        cat(&mut s, "家世出身: ");
        cat(&mut s, self.family_background.as_str());
        cat(&mut s, "\n");
        cat(&mut s, "少年经历: ");
        cat(&mut s, self.childhood_experience.as_str());
        cat(&mut s, "\n");
        cat(&mut s, "宗门选择: ");
        cat(&mut s, self.sect_category.as_str());
        cat(&mut s, "\n");
        cat(&mut s, "加入缘由: ");
        cat(&mut s, self.join_reason.as_str());
        cat(&mut s, "\n");
        cat(&mut s, "入道机缘: ");
        cat(&mut s, self.entry_method.as_str());
        cat(&mut s, "\n");
        cat(&mut s, "对魔道态度: ");
        cat(&mut s, self.demonic_stance.as_str());
        cat(&mut s, "\n");
        cat(&mut s, "行事风格: ");
        cat(&mut s, self.personality_archetype.as_str());
        cat(&mut s, "式\n");
        cat(&mut s, "核心追求: ");
        cat(&mut s, self.core_value.as_str());
        cat(&mut s, "\n");
        cat(&mut s, "道德场景选择: ");
        cat(&mut s, self.altruism.as_str());
        cat(&mut s, "\n");
        cat(&mut s, "问道之志: ");
        cat(&mut s, self.dao_quest.as_str());
        cat(&mut s, "\n");
        s
    }
}

// ══════════════════════════════════════════════════════════════════════
// World configuration — the generated world setting
// ══════════════════════════════════════════════════════════════════════

/// World configuration generated from the creation choices.
/// It is stored with the game state and injected into every prompt.
pub struct WorldConfig {
    /// "male" or "female" — the narrative style (男频/女频)
    pub narrative_style: String,
    /// All background flags of the character (for reference)
    pub background_flags: Vec<String>,
    /// Sect choice (kept from the questionnaire, not generated)
    pub sect_category: String,
    pub join_reason: String,
    /// Temperament answers
    pub demonic_stance: String,
    pub personality_archetype: String,
    pub core_value: String,
    pub altruism: String,
    /// Generated world fields
    pub era_name: String,
    pub era_description: String,
    pub continent_name: String,
    pub continent_description: String,
    pub sect_name: String,
    pub sect_type: String,
    pub sect_scale: String,
    pub sect_description: String,
    pub sect_atmosphere: String,
    pub player_title: String,
    pub player_title_description: String,
    pub starting_location_name: String,
    pub starting_location_description: String,
    /// "无" when the character has no mentor
    pub key_npc_name: String,
    pub key_npc_role: String,
    pub key_npc_realm: String,
    pub key_npc_description: String,
    pub nearby_threat_name: String,
    pub nearby_threat_description: String,
    pub world_hook: String,
}

/// The default world: 东荒, 青云宗, with 清虚道人 as the mentor.
pub open spec fn is_default_world(w: WorldConfig) -> bool {
    &&& w.narrative_style@ == "male"@
    &&& views(w.background_flags@) == seq!["default-world"@]
    &&& w.sect_category@ == "仙门正宗"@
    &&& w.join_reason@ == "仰慕其名，主动拜入"@
    &&& w.demonic_stance@ == "势不两立，见之必除"@
    &&& w.personality_archetype@ == "韩立"@
    &&& w.core_value@ == "长生久视，寿与天齐"@
    &&& w.altruism@ == "先救人，再取丹。人命关天。"@
    &&& w.era_name@ == "太虚历"@
    &&& w.era_description@ == DEFAULT_ERA_DESCRIPTION@
    &&& w.continent_name@ == "东荒"@
    &&& w.continent_description@ == DEFAULT_CONTINENT_DESCRIPTION@
    &&& w.sect_name@ == "青云宗"@
    &&& w.sect_type@ == "仙门正宗"@
    &&& w.sect_scale@ == "中等门派"@
    &&& w.sect_description@ == DEFAULT_SECT_DESCRIPTION@
    &&& w.sect_atmosphere@ == DEFAULT_SECT_ATMOSPHERE@
    &&& w.player_title@ == "外门弟子"@
    &&& w.player_title_description@ == DEFAULT_TITLE_DESCRIPTION@
    &&& w.starting_location_name@ == "青云宗·外门洞府"@
    &&& w.starting_location_description@ == DEFAULT_LOCATION_DESCRIPTION@
    &&& w.key_npc_name@ == "清虚道人"@
    &&& w.key_npc_role@ == "师尊"@
    &&& w.key_npc_realm@ == "元婴后期"@
    &&& w.key_npc_description@ == DEFAULT_NPC_DESCRIPTION@
    &&& w.nearby_threat_name@ == "黑风岭散修"@
    &&& w.nearby_threat_description@ == DEFAULT_THREAT_DESCRIPTION@
    &&& w.world_hook@ == DEFAULT_WORLD_HOOK@
}

pub const DEFAULT_ERA_DESCRIPTION: &'static str = "太虚历三万年后，天地灵气渐薄，修仙界进入末法时代的前夜。各大宗门明争暗斗，散修艰难求生。";
pub const DEFAULT_CONTINENT_DESCRIPTION: &'static str = "东荒大陆，群山环绕，灵脉纵横。大小宗门星罗棋布，妖兽横行于荒野，凡人与修士共处一方天地。";
pub const DEFAULT_SECT_DESCRIPTION: &'static str = "青云宗坐落于东荒群山之中，以剑道筑基闻名。宗门传承三千余年，虽非顶尖大派，却也是东荒有头有脸的修仙势力。";
pub const DEFAULT_SECT_ATMOSPHERE: &'static str = "师徒情深，团结互助。长老虽严，却真心为弟子着想。";
pub const DEFAULT_TITLE_DESCRIPTION: &'static str = "青云宗外门弟子，刚入门不久，正在熟悉宗门规矩和基础功法。";
pub const DEFAULT_LOCATION_DESCRIPTION: &'static str = "一处简陋的石洞，位于青云宗外门区域。洞内只有一张石床、一个蒲团和一盏长明灯。";
pub const DEFAULT_NPC_DESCRIPTION: &'static str = "青云宗传功长老，元婴后期大修士，外表四十余岁，面容清瘦，双目如电。表面冷淡，内心护短。";
pub const DEFAULT_THREAT_DESCRIPTION: &'static str = "青云宗外围黑风岭中盘踞着一伙散修，时常劫掠落单的外门弟子，是新手修士的首要威胁。";
pub const DEFAULT_WORLD_HOOK: &'static str = "东荒大陆看似平静，实则暗流涌动。古老的秘境即将开启，各方势力蠢蠢欲动。而你，一个刚入门的小修士，即将被卷入这场风暴之中。";

impl Default for WorldConfig {
    fn default() -> (w: WorldConfig)
        ensures
            is_default_world(w),
    {
        let mut flags: Vec<String> = Vec::new();
        flags.push(owned("default-world"));
        assert(views(flags@) =~= seq!["default-world"@]);
        WorldConfig {
            narrative_style: owned("male"),
            background_flags: flags,
            sect_category: owned("仙门正宗"),
            join_reason: owned("仰慕其名，主动拜入"),
            demonic_stance: owned("势不两立，见之必除"),
            personality_archetype: owned("韩立"),
            core_value: owned("长生久视，寿与天齐"),
            altruism: owned("先救人，再取丹。人命关天。"),
            era_name: owned("太虚历"),
            era_description: owned(DEFAULT_ERA_DESCRIPTION),
            continent_name: owned("东荒"),
            continent_description: owned(DEFAULT_CONTINENT_DESCRIPTION),
            sect_name: owned("青云宗"),
            sect_type: owned("仙门正宗"),
            sect_scale: owned("中等门派"),
            sect_description: owned(DEFAULT_SECT_DESCRIPTION),
            sect_atmosphere: owned(DEFAULT_SECT_ATMOSPHERE),
            player_title: owned("外门弟子"),
            player_title_description: owned(DEFAULT_TITLE_DESCRIPTION),
            starting_location_name: owned("青云宗·外门洞府"),
            starting_location_description: owned(DEFAULT_LOCATION_DESCRIPTION),
            key_npc_name: owned("清虚道人"),
            key_npc_role: owned("师尊"),
            key_npc_realm: owned("元婴后期"),
            key_npc_description: owned(DEFAULT_NPC_DESCRIPTION),
            nearby_threat_name: owned("黑风岭散修"),
            nearby_threat_description: owned(DEFAULT_THREAT_DESCRIPTION),
            world_hook: owned(DEFAULT_WORLD_HOOK),
        }
    }
}

/// The world has no mentor: its key NPC is "无" or empty.
pub open spec fn no_mentor(name: Seq<char>) -> bool {
    name == "无"@ || name.len() == 0
}

/// The narrative-style directive that opens the world section.
pub open spec fn style_directive(style: Seq<char>) -> Seq<char> {
    if style == "female"@ {
        "主角设定: 女性修士。\n"@ + "当前叙事风格: 女频\n"@ + FEMALE_STYLE_LINE@
    } else {
        "主角设定: 男性修士。\n"@ + "当前叙事风格: 男频\n"@ + MALE_STYLE_LINE@
    }
}

pub const FEMALE_STYLE_LINE: &'static str = "女频：侧重人物关系、情感描写、成长蜕变、社会互动、命运纠葛。文风细腻，注重内心戏。\n";
pub const MALE_STYLE_LINE: &'static str = "男频：侧重力量成长、战斗描写、功法体系、资源竞争、宗门政治。文风爽快，注重升级感。\n";

/// The mentor paragraph, or the "alone" paragraph when there is no mentor.
pub open spec fn mentor_paragraph(w: &WorldConfig) -> Seq<char> {
    if no_mentor(w.key_npc_name@) {
        "\n## 你的处境\n\n"@ + "你在"@ + w.player_title_description@ + ALONE_TAIL@
    } else {
        "\n## 关键人物\n\n"@ + w.key_npc_name@ + "是你的"@ + w.key_npc_role@ + "，"@
            + w.key_npc_realm@ + "修士。\n"@ + w.key_npc_description@ + "\n"@
    }
}

pub const ALONE_TAIL: &'static str = "，目前独自一人。宗门之中，你需要靠自己去结识他人、寻找机缘。\n";

pub open spec fn setting_part(w: &WorldConfig) -> Seq<char> {
    "\n## 世界设定\n\n"@ + "时代: "@ + w.era_name@ + " — "@ + w.era_description@ + "\n"@ + "大陆: "@
        + w.continent_name@ + " — "@ + w.continent_description@ + "\n"@
}

pub open spec fn sect_part(w: &WorldConfig) -> Seq<char> {
    "\n## 宗门\n\n"@ + "名称: "@ + w.sect_name@ + "\n"@ + "类型: "@ + w.sect_type@ + " ("@
        + w.sect_scale@ + ")\n"@ + "描述: "@ + w.sect_description@ + "\n"@ + "氛围: "@
        + w.sect_atmosphere@ + "\n"@
}

pub open spec fn identity_part(w: &WorldConfig) -> Seq<char> {
    "\n## 你的身份\n\n"@ + "职位: "@ + w.player_title@ + "\n"@ + "描述: "@
        + w.player_title_description@ + "\n"@ + "\n## 起始地点\n\n"@ + w.starting_location_name@
        + " — "@ + w.starting_location_description@ + "\n"@
}

pub open spec fn threat_part(w: &WorldConfig) -> Seq<char> {
    if w.nearby_threat_name@.len() == 0 {
        Seq::empty()
    } else {
        "\n## 附近威胁\n\n"@ + w.nearby_threat_name@ + " — "@ + w.nearby_threat_description@
            + "\n"@
    }
}

pub open spec fn hook_part(w: &WorldConfig) -> Seq<char> {
    if w.world_hook@.len() == 0 {
        Seq::empty()
    } else {
        "\n## 世界暗流\n\n"@ + w.world_hook@ + "\n"@
    }
}

/// The world-setting section of the system prompt.
pub open spec fn world_section(w: &WorldConfig) -> Seq<char> {
    style_directive(w.narrative_style@) + setting_part(w) + sect_part(w) + identity_part(w)
        + mentor_paragraph(w) + threat_part(w) + hook_part(w)
}

impl WorldConfig {
    fn push_style(&self, s: &mut String)
        ensures
            final(s)@ == old(s)@ + style_directive(self.narrative_style@),
    {
        if is_lit(&chars_of(self.narrative_style.as_str()), "female") {
            cat(s, "主角设定: 女性修士。\n");
            cat(s, "当前叙事风格: 女频\n");
            cat(s, FEMALE_STYLE_LINE);
        } else {
            cat(s, "主角设定: 男性修士。\n");
            cat(s, "当前叙事风格: 男频\n");
            cat(s, MALE_STYLE_LINE);
        }
        assert(s@ =~= old(s)@ + style_directive(self.narrative_style@));
    }

    fn push_setting(&self, s: &mut String)
        ensures
            final(s)@ == old(s)@ + setting_part(self),
    {
        cat(s, "\n## 世界设定\n\n");
        cat(s, "时代: ");
        cat(s, self.era_name.as_str());
        cat(s, " — ");
        cat(s, self.era_description.as_str());
        cat(s, "\n");
        cat(s, "大陆: ");
        cat(s, self.continent_name.as_str());
        cat(s, " — ");
        cat(s, self.continent_description.as_str());
        cat(s, "\n");
        assert(s@ =~= old(s)@ + setting_part(self));
    }

    fn push_sect(&self, s: &mut String)
        ensures
            final(s)@ == old(s)@ + sect_part(self),
    {
        cat(s, "\n## 宗门\n\n");
        cat(s, "名称: ");
        cat(s, self.sect_name.as_str());
        cat(s, "\n");
        cat(s, "类型: ");
        cat(s, self.sect_type.as_str());
        cat(s, " (");
        cat(s, self.sect_scale.as_str());
        cat(s, ")\n");
        cat(s, "描述: ");
        cat(s, self.sect_description.as_str());
        cat(s, "\n");
        cat(s, "氛围: ");
        cat(s, self.sect_atmosphere.as_str());
        cat(s, "\n");
        assert(s@ =~= old(s)@ + sect_part(self));
    }

    fn push_identity(&self, s: &mut String)
        ensures
            final(s)@ == old(s)@ + identity_part(self),
    {
        cat(s, "\n## 你的身份\n\n");
        cat(s, "职位: ");
        cat(s, self.player_title.as_str());
        cat(s, "\n");
        cat(s, "描述: ");
        cat(s, self.player_title_description.as_str());
        cat(s, "\n");
        cat(s, "\n## 起始地点\n\n");
        cat(s, self.starting_location_name.as_str());
        cat(s, " — ");
        cat(s, self.starting_location_description.as_str());
        cat(s, "\n");
        assert(s@ =~= old(s)@ + identity_part(self));
    }

    fn push_mentor(&self, s: &mut String)
        ensures
            final(s)@ == old(s)@ + mentor_paragraph(self),
    {
        let npc = chars_of(self.key_npc_name.as_str());
        if is_lit(&npc, "无") || npc.len() == 0 {
            cat(s, "\n## 你的处境\n\n");
            cat(s, "你在");
            cat(s, self.player_title_description.as_str());
            cat(s, ALONE_TAIL);
        } else {
            cat(s, "\n## 关键人物\n\n");
            cat(s, self.key_npc_name.as_str());
            cat(s, "是你的");
            cat(s, self.key_npc_role.as_str());
            cat(s, "，");
            cat(s, self.key_npc_realm.as_str());
            cat(s, "修士。\n");
            cat(s, self.key_npc_description.as_str());
            cat(s, "\n");
        }
        assert(s@ =~= old(s)@ + mentor_paragraph(self));
    }

    fn push_threat_and_hook(&self, s: &mut String)
        ensures
            final(s)@ == old(s)@ + threat_part(self) + hook_part(self),
    {
        if chars_of(self.nearby_threat_name.as_str()).len() > 0 {
            cat(s, "\n## 附近威胁\n\n");
            cat(s, self.nearby_threat_name.as_str());
            cat(s, " — ");
            cat(s, self.nearby_threat_description.as_str());
            cat(s, "\n");
        }
        assert(s@ =~= old(s)@ + threat_part(self));
        let ghost mid = s@;
        if chars_of(self.world_hook.as_str()).len() > 0 {
            cat(s, "\n## 世界暗流\n\n");
            cat(s, self.world_hook.as_str());
            cat(s, "\n");
        }
        assert(s@ =~= mid + hook_part(self));
    }

    /// The world-setting section of the system prompt.
    pub fn to_system_prompt_section(&self) -> (r: String)
        ensures
            r@ == world_section(self),
    {
        let mut s = String::new();
        self.push_style(&mut s);
        self.push_setting(&mut s);
        self.push_sect(&mut s);
        self.push_identity(&mut s);
        self.push_mentor(&mut s);
        self.push_threat_and_hook(&mut s);
        assert(s@ =~= world_section(self));
        s
    }
}

// ───────────────────────── bounds of the starting values ─────────────────────────

proof fn lemma_family_stats_bounded(fb: Seq<char>)
    ensures
        stats_within(family_stats(fb), 12),
{
}

proof fn lemma_childhood_bonus_bounded(ce: Seq<char>)
    ensures
        stats_within(childhood_bonus(ce), 4),
{
}

proof fn lemma_sect_bonus_bounded(sc: Seq<char>)
    ensures
        stats_within(sect_bonus(sc), 4),
{
}

proof fn lemma_join_bonus_bounded(jr: Seq<char>)
    ensures
        stats_within(join_bonus(jr), 4),
{
}

proof fn lemma_entry_bonus_bounded(em: Seq<char>)
    ensures
        stats_within(entry_bonus(em), 4),
{
}

proof fn lemma_quest_bonus_bounded(dq: Seq<char>)
    ensures
        stats_within(quest_bonus(dq), 4),
{
}

proof fn lemma_altruism_bonus_bounded(al: Seq<char>)
    ensures
        stats_within(altruism_bonus(al), 4),
{
}

/// The starting stats are between 0 and 100 each, and the starting spirit
/// stones between 0 and 1000.
pub proof fn lemma_starting_values_bounded(c: &CreationChoices)
    ensures
        stats_within(initial_stats(c), 100),
        0 <= initial_spirit_stones(c) <= 1000,
{
    lemma_family_stats_bounded(c.family_background@);
    lemma_childhood_bonus_bounded(c.childhood_experience@);
    lemma_sect_bonus_bounded(c.sect_category@);
    lemma_join_bonus_bounded(c.join_reason@);
    lemma_entry_bonus_bounded(c.entry_method@);
    lemma_quest_bonus_bounded(c.dao_quest@);
    lemma_altruism_bonus_bounded(c.altruism@);
}


/// A text that opens with `p` does not open with `q` where the two differ
/// at a place within both.
proof fn lemma_openings_exclude(s: Seq<char>, p: Seq<char>, q: Seq<char>, i: int)
    requires
        starts_with(s, p),
        0 <= i < p.len(),
        i < q.len(),
        p[i] != q[i],
    ensures
        !starts_with(s, q),
{
    assert(s.subrange(0, p.len() as int)[i] == s[i]);
    if starts_with(s, q) {
        assert(s.subrange(0, q.len() as int)[i] == s[i]);
    }
}

/// The last background flag, where there is one.
pub open spec fn last_flag(c: &CreationChoices) -> Option<Seq<char>> {
    if background_flags(c).len() == 0 {
        None
    } else {
        Some(background_flags(c).last())
    }
}

/// Law: the answer to the altruism scene decides the last background flag
/// by its opening words, and the five openings exclude each other: one
/// opening with 先救人 ends the flags with "altruistic", 取丹离去 with
/// "self-interested", 救醒他，了解 with "cautiously-kind", 取走丹药 with
/// "ruthless" and 救醒他，然后 with "pragmatic".  So each of the scene's five
/// answers ends the flags with a flag of its own.
pub proof fn lemma_altruism_flags(c: &CreationChoices)
    ensures
        starts_with(c.altruism@, "先救人"@) ==> last_flag(c) == Some("altruistic"@),
        starts_with(c.altruism@, "取丹离去"@) ==> last_flag(c) == Some("self-interested"@),
        starts_with(c.altruism@, "救醒他，了解"@) ==> last_flag(c) == Some("cautiously-kind"@),
        starts_with(c.altruism@, "取走丹药"@) ==> last_flag(c) == Some("ruthless"@),
        starts_with(c.altruism@, "救醒他，然后"@) ==> last_flag(c) == Some("pragmatic"@),
        c.altruism@ == "先救人，再取丹。人命关天。"@ ==> last_flag(c) == Some("altruistic"@),
        c.altruism@ == "取丹离去，心中默念抱歉。筑基丹太珍贵了。"@ ==> last_flag(c) == Some(
            "self-interested"@,
        ),
        c.altruism@ == "救醒他，了解情况后再决定。"@ ==> last_flag(c) == Some("cautiously-kind"@),
        c.altruism@ == "取走丹药和令牌，放任其自生自灭。"@ ==> last_flag(c) == Some("ruthless"@),
        c.altruism@ == "救醒他，然后让他拿身上的东西作为报答。"@ ==> last_flag(c) == Some(
            "pragmatic"@,
        ),
{
    let al = c.altruism@;
    let p1 = "先救人"@;
    let p2 = "取丹离去"@;
    let p3 = "救醒他，了解"@;
    let p4 = "取走丹药"@;
    let p5 = "救醒他，然后"@;
    reveal_strlit("先救人");
    reveal_strlit("取丹离去");
    reveal_strlit("救醒他，了解");
    reveal_strlit("取走丹药");
    reveal_strlit("救醒他，然后");
    reveal_strlit("先救人，再取丹。人命关天。");
    reveal_strlit("取丹离去，心中默念抱歉。筑基丹太珍贵了。");
    reveal_strlit("救醒他，了解情况后再决定。");
    reveal_strlit("取走丹药和令牌，放任其自生自灭。");
    reveal_strlit("救醒他，然后让他拿身上的东西作为报答。");
    if al == "先救人，再取丹。人命关天。"@ {
        assert(al.subrange(0, 3) =~= p1);
    }
    if al == "取丹离去，心中默念抱歉。筑基丹太珍贵了。"@ {
        assert(al.subrange(0, 4) =~= p2);
    }
    if al == "救醒他，了解情况后再决定。"@ {
        assert(al.subrange(0, 6) =~= p3);
    }
    if al == "取走丹药和令牌，放任其自生自灭。"@ {
        assert(al.subrange(0, 4) =~= p4);
    }
    if al == "救醒他，然后让他拿身上的东西作为报答。"@ {
        assert(al.subrange(0, 6) =~= p5);
    }
    let front = family_flag(c.family_background@) + childhood_flag(c.childhood_experience@)
        + sect_flag(c.sect_category@) + archetype_flag(c.personality_archetype@) + value_flag(
        c.core_value@,
    );
    assert(background_flags(c) == front + altruism_flag(al));
    if starts_with(al, p2) {
        lemma_openings_exclude(al, p2, p1, 0);
    }
    if starts_with(al, p3) {
        lemma_openings_exclude(al, p3, p1, 0);
        lemma_openings_exclude(al, p3, p2, 0);
    }
    if starts_with(al, p4) {
        lemma_openings_exclude(al, p4, p1, 0);
        assert(p4[1] == '走' && p2[1] == '丹');
        lemma_openings_exclude(al, p4, p2, 1);
        lemma_openings_exclude(al, p4, p3, 0);
    }
    if starts_with(al, p5) {
        lemma_openings_exclude(al, p5, p1, 0);
        lemma_openings_exclude(al, p5, p2, 0);
        assert(p5[4] == '然' && p3[4] == '了');
        lemma_openings_exclude(al, p5, p3, 4);
        lemma_openings_exclude(al, p5, p4, 0);
    }
    if altruism_flag(al).len() == 1 {
        assert((front + altruism_flag(al)).last() == altruism_flag(al)[0]);
    }
}

} // verus!
