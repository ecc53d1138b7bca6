//! Prompt assembly and the parsing of structured model replies.
use vstd::prelude::*;
use crate::game_state::{GameState, GameView, QuestView, RelationshipView, TechniqueView};
use crate::memory::{Message, MessageView, ConversationWindow, context_of, message_views, msg};
use crate::state::{choices_text, gender_word, style_word, world_section, CreationChoices, ItemView, WorldConfig};
use crate::game_state::{opt_str, opt_strs};
use crate::prompt::loader::{binding_views, render_template, rendered};
use crate::text::{is_ascii_digit, occurs_at, str_contains, cat, chars_contains, chars_ends_with, chars_find, chars_of, chars_rfind, chars_starts_with, contains, dec_int, ends_with, find, join, join_strings, owned, push_i64, rfind, slice_of, starts_with, str_ends_with, str_trim, str_trim_end, trim, trim_end, views};

verus! {

broadcast use vstd::string::group_string_axioms;

pub const FORMAT_INSTRUCTION: &'static str = r#"每次回复必须输出一个严格的 JSON 对象，不要添加任何文字、注释或代码块标记。

{"narrative":"…叙事…","meta_text":"…询问下一步…","options":["选项1","选项2","选项3","选项4"]}

要求：
- 必须恰好4个选项，每个简短具体（不超过15字），与当前场景和剧情紧密相关
- 至少1个选项提供与当前场景类型不同的方向（探索、交谈、修炼、战斗等交叉推荐）
- 选项排列考虑风险梯度：保守安全 → 到冒险激进
- 叙事中的对话引用中文引号「」，JSON 键和字符串分隔符仍用英文双引号"#;

pub const EXTRACTION_INTRO: &'static str = r#"你是一个修仙游戏状态解析器。你的任务是逐项检查本回合叙事中玩家的状态是否发生了变化。

⚠️ 重要警告：大量测试表明，LLM经常遗漏状态变化。你必须极度仔细地阅读叙事中的每一句话。即使是很微妙的描写（如"灵力消耗殆尽""经脉稳固了一分""对某某微微点头"），也意味着状态变化。不要因为变化太小而忽略它。每一个字都可能意味着某个状态发生了变化。

你必须按以下清单，逐条检查。每一条都是一个具体的问题，你必须回答它。

══════════════════════════════════════════
最近对话记录（追踪角色身份和物品）:
"#;

pub const EXTRACTION_STATE_HEAD: &'static str = r#"

══════════════════════════════════════════
玩家当前全部状态（更新前）:
- 功法: "#;

pub const EXTRACTION_NARRATIVE_HEAD: &'static str = r#"

══════════════════════════════════════════
本回合叙事（玩家行动后发生的事）:
"#;

pub const EXTRACTION_QUESTIONS: &'static str = r#"

══════════════════════════════════════════
请逐项回答以下问题。每一项都必须给出答案。如果叙事中没有发生该变化，填 null 或空数组。

1. 境界名称是否变化？叙事中是否明确出现了新的境界名称（如"练气期中期""筑基期初期"）？
   → set_realm (完整境界名称，必须在以下列表中：练气期初期、练气期中期、练气期后期、练气期圆满、筑基期初期、筑基期中期、筑基期后期、筑基期圆满、金丹期初期、金丹期中期、金丹期后期、金丹期圆满、元婴期初期、元婴期中期、元婴期后期、元婴期圆满、化神期初期、化神期中期、化神期后期、化神期圆满)
   如果没有出现新境界名称，填 null

2. 灵力是否变化？叙事中是否有消耗灵力（施法、战斗、御器）、恢复灵力（休息、服药、吸收灵气）的描写？
   → qi_delta (负数表示消耗，正数表示恢复)
   如果没有灵力变化的描写，填 null

3. 灵力是否被设定为某个精确值（如突破后灵力回满）？
   → qi_set (具体数值)
   如果不是精确设定，填 null

4. 灵力上限是否变化（如突破境界后上限提升）？
   → max_qi_delta
   如果没有，填 null

5. 灵石数量是否变化？叙事中是否有获得灵石、花费灵石的描写？
   → spirit_stones_delta (获得为正，花费为负)
   如果没有，填 null

6. 剑道是否提升？叙事中是否有剑术、剑气、剑法相关的修炼或领悟描写？
   → sword_art_delta (+1~+3)
   如果没有，填 null

7. 术法是否提升？叙事中是否有术法、法术、神通、符箓相关的修炼或领悟描写？
   → spell_art_delta (+1~+3)
   如果没有，填 null

8. 气血是否提升？叙事中是否有肉身、体魄、炼体相关的修炼或强化描写？
   → blood_qi_delta (+1~+3)
   如果没有，填 null

9. 神魂是否提升？叙事中是否有魂魄、元神、精神相关的修炼或强化描写？
    → spirit_soul_delta (+1~+3)
    如果没有，填 null

10. 神识是否提升？叙事中是否有神识、灵觉、感知相关的修炼或突破描写？
    → divine_sense_delta (+1~+3)
    如果没有，填 null

11. 道心是否提升？叙事中是否有道心、心性、意志相关的感悟或突破描写？
    → dao_heart_delta (+1~+3)
    如果没有，填 null

12. 是否习得了新功法？叙事中是否出现了新的功法名称（如师父传授、自行领悟、获得秘籍）？
    → add_techniques: [{"name":"功法名","tier":"黄阶/玄阶/地阶/天阶","tech_type":"攻击/防御/身法/心法","proficiency":0.1}]
    注意：如果功法名已存在于"当前已有功法"列表中，不要重复添加，填 []
    如果没有新功法，填 []

13. 是否获得了新物品？叙事中是否出现了新的物品（如捡到、收到、购买、发现）？
    → add_items: [{"name":"物品名","item_type":"丹药/法器/材料/杂物","quality":"普通/精良/稀有/传说","quantity":数量,"effect":"效果描述"}]
    注意：如果物品名已存在于"当前已有物品"列表中，填 []
    如果没有新物品，填 []

14. 是否丢弃或失去了物品？
    → remove_items: ["物品名"]
    如果没有，填 []

15. 是否消耗/使用了物品？叙事中是否描写了使用物品（如服药、使用符箓、消耗材料）？
    → consume_items: [{"name":"物品名（必须精确匹配当前已有物品名）","quantity":消耗数量（未明确则默认1）}]
    如果没有消耗物品，填 []

16. 当前位置是否变更？叙事中玩家是否移动到了新的地点？
    → set_current_location: "新地点全名"
    如果没有，填 null

17. 是否发现了新地点？玩家是否初次到达一个不在"已探索地点"列表中的地点？
    → new_locations: ["新地点名"]
    注意：如果该地点已在已探索列表中，填 []
    如果没有新地点，填 []

18. 人物好感是否变化？叙事中是否有人物对玩家态度变化的描写（如更加信任、冷淡、尊敬、厌恶等）？
    → relationship_changes: [{"name":"人物名（必须精确匹配当前已有关系名）","affinity_delta":±数值}]
    小幅变化填 ±3~±10，明显变化填 ±10~±20
    如果没有好感变化，填 []

19. 已知人物是否获得了新名字？叙事中是否揭示了某个人物的真名（如之前叫"未知壮汉"，现在知道叫"赵铁柱"）？
    → rename_relationships: [{"old_name":"旧名字（当前关系列表中的名字）","new_name":"新名字"}]
    注意：不要添加新人物！用这个字段来改名
    如果没有改名，填 []

20. 任务是否有变化？叙事中是否有任务完成、接到新任务的描写？
    → quest_updates: [{"name":"任务名","status":"active/completed","description":"任务描述"}]
    如果没有，填 []

21. 是否有重大剧情节点需要标记？
    → add_flag: "flag名（英文小写，用-分隔，如 breakthrough-baset, entered-secret-realm）"
    如果没有，填 null

22. 是否有值得记录的事件？
    → add_event: "简短事件描述（15字以内）"
    如果没有，填 null

══════════════════════════════════════════
输出严格JSON（必须包含以下所有22个字段）:

{
  "set_realm": null,
  "qi_delta": null,
  "qi_set": null,
  "max_qi_delta": null,
  "spirit_stones_delta": null,
  "sword_art_delta": null,
  "spell_art_delta": null,
  "blood_qi_delta": null,
  "spirit_soul_delta": null,
  "divine_sense_delta": null,
  "dao_heart_delta": null,
  "add_techniques": [],
  "add_items": [],
  "remove_items": [],
  "consume_items": [],
  "set_current_location": null,
  "new_locations": [],
  "relationship_changes": [],
  "rename_relationships": [],
  "quest_updates": [],
  "add_flag": null,
  "add_event": null
}"#;

pub const WORLDGEN_INTRO: &'static str = r#"你是一个修仙世界的创世者。根据以下修士的背景设定，生成一个完整的修仙世界。

"#;

pub const WORLDGEN_TASK_HEAD: &'static str = r#"

══════════════════════════════════════════
你的任务：
1. 修士的宗门已经在背景中选定（"#;

pub const WORLDGEN_TASK_BODY: &'static str = r#"），你不能更改宗门名称或类型。你必须围绕这个宗门构建世界。
2. 宗门名称由你根据修士的背景、宗门类型和加入缘由来创意命名。名字要有古风，符合修仙世界的命名习惯。
3. 生成以下信息（必须输出严格JSON）：

{
  "era_name": "时代名称（如：太虚历、洪荒纪、灵潮历等）",
  "era_description": "时代简述（一句话，描述当前修仙世界的大环境）",
  "continent_name": "大陆名称（如：东荒、南域、中土等）",
  "continent_description": "大陆简述（一句话，描述大陆的地理和势力分布）",
  "sect_name": "宗门全名（你根据修士背景创意命名，如：青云宗、太虚剑派、幽冥谷等）",
  "sect_type": "宗门类型（原样保留："#;

pub const WORLDGEN_FORMAT_TAIL: &'static str = r#"）",
  "sect_scale": "宗门规模（小型门派/中等门派/大型宗门/超级势力 之一）",
  "sect_description": "宗门简述（2-3句话，描述宗门的历史、特色、地位）",
  "sect_atmosphere": "宗门氛围（一句话描述宗门内部的人际关系和文化）",
  "player_title": "修士在宗门中的职位（如：外门弟子、内门弟子、记名弟子、杂役弟子 等，要与修士的入道机缘和背景匹配）",
  "player_title_description": "职位简述（一句话描述修士当前的处境）",
  "starting_location_name": "起始地点名称（如：青云宗·外门洞府、黑风岭·废弃矿洞 等）",
  "starting_location_description": "起始地点简述（一句话描述环境）",
  "key_npc_name": "关键人物姓名（修士的导师/引路人。如果修士的入道机缘中没有明确导师（如宗门考核、散修收留），且加入缘由不是被引入，则填\"无\"）",
  "key_npc_role": "关键人物身份（如：师尊、引路人、师兄 等。如果key_npc_name为\"无\"，填空字符串）",
  "key_npc_realm": "关键人物境界（如：金丹后期、元婴初期 等。如果key_npc_name为\"无\"，填空字符串）",
  "key_npc_description": "关键人物简述（外貌、性格、与修士的关系。如果key_npc_name为\"无\"，填空字符串）",
  "nearby_threat_name": "附近的主要威胁名称（如：黑风岭散修、噬灵兽、夺宝修士 等）",
  "nearby_threat_description": "威胁描述（一句话）",
  "world_hook": "世界钩子（一句话暗示当前世界的暗流或即将发生的大事，作为剧情推动力）"
}

══════════════════════════════════════════
叙事风格: "#;

pub const WORLDGEN_RULES_HEAD: &'static str = r#"性修士视角）
重要：
- 宗门必须与修士背景中的宗门类型（"#;

pub const WORLDGEN_RULES_TAIL: &'static str = r#"）完全一致
- 如果修士的入道机缘是"仙师路过"或"为报恩情，被恩人引入"，则key_npc_name不能为"无"，必须生成一位导师
- 如果修士是散修独行（无宗门），起始地点应当是野外或临时落脚点，而非宗门洞府
- JSON必须严格有效，不要添加注释或额外的文字说明
- 所有字段都必须填写，字符串字段不能为空（除非明确允许为空的描述）"#;

// ───────────────────────── world generation ─────────────────────────

/// The request that asks the model to create a world for these choices.
pub open spec fn world_generation_prompt(c: &CreationChoices) -> Seq<char> {
    WORLDGEN_INTRO@ + choices_text(c) + WORLDGEN_TASK_HEAD@ + c.sect_category@ + WORLDGEN_TASK_BODY@
        + c.sect_category@ + WORLDGEN_FORMAT_TAIL@ + style_word(c.narrative_style@) + "（"@
        + gender_word(c.narrative_style@) + WORLDGEN_RULES_HEAD@ + c.sect_category@
        + WORLDGEN_RULES_TAIL@
}

/// Builds the world-generation request from the creation choices.
pub fn build_world_generation_prompt(choices: &CreationChoices) -> (r: String)
    ensures
        r@ == world_generation_prompt(choices),
{
    let player_bg = choices.to_prompt_text();
    let female = crate::state::is_lit(&crate::text::chars_of(choices.narrative_style.as_str()), "female");
    let mut s = owned(WORLDGEN_INTRO);
    cat(&mut s, player_bg.as_str());
    cat(&mut s, WORLDGEN_TASK_HEAD);
    cat(&mut s, choices.sect_category.as_str());
    cat(&mut s, WORLDGEN_TASK_BODY);
    cat(&mut s, choices.sect_category.as_str());
    cat(&mut s, WORLDGEN_FORMAT_TAIL);
    cat(&mut s, if female { "女频" } else { "男频" });
    cat(&mut s, "（");
    cat(&mut s, if female { "女" } else { "男" });
    cat(&mut s, WORLDGEN_RULES_HEAD);
    cat(&mut s, choices.sect_category.as_str());
    cat(&mut s, WORLDGEN_RULES_TAIL);
    s
}

// ───────────────────────── opening ─────────────────────────

pub const OPENING_SCENE: &'static str = "\n请描写修士苏醒或开始行动的场景，引入关键NPC（如果有），给出当前环境的描写。这是游戏的第一回合，要引人入胜。\n";

pub const OPENING_FORMAT: &'static str = "\n（必须输出纯 JSON：{\"narrative\":\"...\",\"meta_text\":\"...\",\"options\":[\"...\",\"...\",\"...\",\"...\"]}）";

/// The request for the opening narrative of the game.
pub open spec fn opening_prompt(
    w: &WorldConfig,
    player_name: Seq<char>,
    dao_name: Seq<char>,
    family_bg: Seq<char>,
    entry_method: Seq<char>,
) -> Seq<char> {
    "修士姓名: "@ + player_name + "\n"@ + (if dao_name.len() == 0 {
        Seq::empty()
    } else {
        "道号: "@ + dao_name + "\n"@
    }) + "家世: "@ + family_bg + "\n"@ + "入道机缘: "@ + entry_method + "\n"@ + "\n你叫"@
        + player_name + "。请根据以下世界设定，生成第一轮叙事作为游戏的开始。\n\n"@
        + world_section(w) + OPENING_SCENE@ + OPENING_FORMAT@
}

/// Builds the request for the first game turn from the world and the player.
pub fn build_opening_prompt(
    world_config: &WorldConfig,
    player_name: &str,
    dao_name: &str,
    family_bg: &str,
    entry_method: &str,
) -> (r: String)
    ensures
        r@ == opening_prompt(world_config, player_name@, dao_name@, family_bg@, entry_method@),
{
    let mut prompt = owned("修士姓名: ");
    cat(&mut prompt, player_name);
    cat(&mut prompt, "\n");
    let ghost p0 = prompt@;
    if !dao_name.is_empty() {
        cat(&mut prompt, "道号: ");
        cat(&mut prompt, dao_name);
        cat(&mut prompt, "\n");
    }
    proof {
        if dao_name@.len() == 0 {
            assert(prompt@ =~= p0 + Seq::<char>::empty());
        } else {
            assert(prompt@ =~= p0 + ("道号: "@ + dao_name@ + "\n"@));
        }
    }
    cat(&mut prompt, "家世: ");
    cat(&mut prompt, family_bg);
    cat(&mut prompt, "\n");
    cat(&mut prompt, "入道机缘: ");
    cat(&mut prompt, entry_method);
    cat(&mut prompt, "\n");
    cat(&mut prompt, "\n你叫");
    cat(&mut prompt, player_name);
    cat(&mut prompt, "。请根据以下世界设定，生成第一轮叙事作为游戏的开始。\n\n");
    let section = world_config.to_system_prompt_section();
    cat(&mut prompt, section.as_str());
    cat(&mut prompt, OPENING_SCENE);
    cat(&mut prompt, OPENING_FORMAT);
    prompt
}

// ───────────────────────── state extraction ─────────────────────────

/// "name x{quantity}" for an inventory item.
pub open spec fn item_with_qty(i: ItemView) -> Seq<char> {
    i.name + " x"@ + dec_int(i.quantity as int)
}

/// The state block of the extraction request.
pub open spec fn extraction_state(g: GameView) -> Seq<char> {
    join(g.techniques.map_values(|t: TechniqueView| t.name), "、"@) + "\n- 物品（含数量）: "@
        + join(g.inventory.map_values(|i: ItemView| item_with_qty(i)), "、"@) + "\n- 已探索地点: "@
        + join(g.locations, "、"@) + "\n- 任务: "@ + join(
        g.quests.map_values(|q: QuestView| q.name),
        "、"@,
    ) + "\n- 人物关系: "@ + join(g.relationships.map_values(|r: RelationshipView| r.name), "、"@)
        + "\n- flag: "@ + join(g.flags, "、"@)
}

/// The realm and qi part of the numbers block.
pub open spec fn extraction_qi(g: GameView) -> Seq<char> {
    "\n- 境界: "@ + g.realm + "\n- 灵力: "@ + dec_int(g.qi as int) + "/"@ + dec_int(g.max_qi as int)
}

/// The stats part of the numbers block.
pub open spec fn extraction_stats(g: GameView) -> Seq<char> {
    "\n- 六维: 剑道"@ + dec_int(g.stats.sword_art as int) + " 术法"@ + dec_int(
        g.stats.spell_art as int,
    ) + " 气血"@ + dec_int(g.stats.blood_qi as int) + " 神魂"@ + dec_int(g.stats.spirit_soul as int)
        + " 神识"@ + dec_int(g.stats.divine_sense as int) + " 道心"@ + dec_int(
        g.stats.dao_heart as int,
    )
}

/// The numbers block of the extraction request.
pub open spec fn extraction_numbers(g: GameView) -> Seq<char> {
    extraction_qi(g) + extraction_stats(g) + "\n- 灵石: "@ + dec_int(g.spirit_stones as int)
        + "\n- 当前地点: "@ + g.current_location
}

/// The request that asks the model which state fields a turn changed.
pub open spec fn extraction_prompt(g: GameView, narrative: Seq<char>, recent: Seq<char>) -> Seq<
    char,
> {
    EXTRACTION_INTRO@ + recent + EXTRACTION_STATE_HEAD@ + extraction_state(g) + extraction_numbers(g)
        + EXTRACTION_NARRATIVE_HEAD@ + narrative + EXTRACTION_QUESTIONS@
}

fn technique_names(state: &GameState) -> (r: Vec<String>)
    ensures
        views(r@) == state@.techniques.map_values(|t: TechniqueView| t.name),
{
    let mut r: Vec<String> = Vec::new();
    let mut i: usize = 0;
    while i < state.techniques.len()
        invariant
            i <= state.techniques@.len(),
            r@.len() == i,
            forall|k: int| 0 <= k < i ==> #[trigger] r@[k]@ == state.techniques@[k].name@,
        decreases state.techniques@.len() - i,
    {
        r.push(state.techniques[i].name.clone());
        i = i + 1;
    }
    assert(views(r@) =~= state@.techniques.map_values(|t: TechniqueView| t.name));
    r
}

fn quest_names(state: &GameState) -> (r: Vec<String>)
    ensures
        views(r@) == state@.quests.map_values(|q: QuestView| q.name),
{
    let mut r: Vec<String> = Vec::new();
    let mut i: usize = 0;
    while i < state.quests.len()
        invariant
            i <= state.quests@.len(),
            r@.len() == i,
            forall|k: int| 0 <= k < i ==> #[trigger] r@[k]@ == state.quests@[k].name@,
        decreases state.quests@.len() - i,
    {
        r.push(state.quests[i].name.clone());
        i = i + 1;
    }
    assert(views(r@) =~= state@.quests.map_values(|q: QuestView| q.name));
    r
}

fn relationship_names(state: &GameState) -> (r: Vec<String>)
    ensures
        views(r@) == state@.relationships.map_values(|x: RelationshipView| x.name),
{
    let mut r: Vec<String> = Vec::new();
    let mut i: usize = 0;
    while i < state.relationships.len()
        invariant
            i <= state.relationships@.len(),
            r@.len() == i,
            forall|k: int| 0 <= k < i ==> #[trigger] r@[k]@ == state.relationships@[k].name@,
        decreases state.relationships@.len() - i,
    {
        r.push(state.relationships[i].name.clone());
        i = i + 1;
    }
    assert(views(r@) =~= state@.relationships.map_values(|x: RelationshipView| x.name));
    r
}

/// The inventory as "name xN" entries joined with "、".
fn format_items_with_qty(state: &GameState) -> (r: String)
    ensures
        r@ == join(state@.inventory.map_values(|i: ItemView| item_with_qty(i)), "、"@),
{
    let mut entries: Vec<String> = Vec::new();
    let mut i: usize = 0;
    while i < state.inventory.len()
        invariant
            i <= state.inventory@.len(),
            entries@.len() == i,
            forall|k: int| 0 <= k < i ==> #[trigger] entries@[k]@ == item_with_qty(
                state.inventory@[k]@,
            ),
        decreases state.inventory@.len() - i,
    {
        let mut e = state.inventory[i].name.clone();
        cat(&mut e, " x");
        push_i64(&mut e, state.inventory[i].quantity as i64);
        entries.push(e);
        i = i + 1;
    }
    assert(views(entries@) =~= state@.inventory.map_values(|i: ItemView| item_with_qty(i)));
    join_strings(&entries, "、")
}

fn push_extraction_state(s: &mut String, state: &GameState)
    ensures
        final(s)@ == old(s)@ + extraction_state(state@),
{
    let techs = join_strings(&technique_names(state), "、");
    let items = format_items_with_qty(state);
    let locs = join_strings(&state.locations, "、");
    let quests = join_strings(&quest_names(state), "、");
    let rels = join_strings(&relationship_names(state), "、");
    let flags = join_strings(&state.flags, "、");
    cat(s, techs.as_str());
    cat(s, "\n- 物品（含数量）: ");
    cat(s, items.as_str());
    cat(s, "\n- 已探索地点: ");
    cat(s, locs.as_str());
    cat(s, "\n- 任务: ");
    cat(s, quests.as_str());
    cat(s, "\n- 人物关系: ");
    cat(s, rels.as_str());
    cat(s, "\n- flag: ");
    cat(s, flags.as_str());
    assert(s@ =~= old(s)@ + extraction_state(state@));
}

fn push_extraction_qi(s: &mut String, state: &GameState)
    ensures
        final(s)@ == old(s)@ + extraction_qi(state@),
{
    cat(s, "\n- 境界: ");
    cat(s, state.realm.as_str());
    cat(s, "\n- 灵力: ");
    push_i64(s, state.qi as i64);
    cat(s, "/");
    push_i64(s, state.max_qi as i64);
    assert(s@ =~= old(s)@ + extraction_qi(state@));
}

fn push_extraction_stats(s: &mut String, state: &GameState)
    ensures
        final(s)@ == old(s)@ + extraction_stats(state@),
{
    cat(s, "\n- 六维: 剑道");
    push_i64(s, state.stats.sword_art as i64);
    cat(s, " 术法");
    push_i64(s, state.stats.spell_art as i64);
    cat(s, " 气血");
    push_i64(s, state.stats.blood_qi as i64);
    cat(s, " 神魂");
    push_i64(s, state.stats.spirit_soul as i64);
    cat(s, " 神识");
    push_i64(s, state.stats.divine_sense as i64);
    cat(s, " 道心");
    push_i64(s, state.stats.dao_heart as i64);
    assert(s@ =~= old(s)@ + extraction_stats(state@));
}

fn push_extraction_numbers(s: &mut String, state: &GameState)
    ensures
        final(s)@ == old(s)@ + extraction_numbers(state@),
{
    push_extraction_qi(s, state);
    push_extraction_stats(s, state);
    cat(s, "\n- 灵石: ");
    push_i64(s, state.spirit_stones as i64);
    cat(s, "\n- 当前地点: ");
    cat(s, state.current_location.as_str());
    assert(s@ =~= old(s)@ + extraction_numbers(state@));
}

/// Builds the request that asks the model for this turn's state changes.
/// `recent_context` is the log of the latest rounds.
pub fn build_state_extraction_prompt(state: &GameState, narrative: &str, recent_context: &str) -> (r:
    String)
    ensures
        r@ == extraction_prompt(state@, narrative@, recent_context@),
{
    let mut s = owned(EXTRACTION_INTRO);
    cat(&mut s, recent_context);
    cat(&mut s, EXTRACTION_STATE_HEAD);
    push_extraction_state(&mut s, state);
    push_extraction_numbers(&mut s, state);
    cat(&mut s, EXTRACTION_NARRATIVE_HEAD);
    cat(&mut s, narrative);
    cat(&mut s, EXTRACTION_QUESTIONS);
    s
}

// ───────────────────────── reply parsing ─────────────────────────

/// A parsed model reply.
pub struct StructuredResponse {
    pub narrative: String,
    pub meta_text: Option<String>,
    pub options: Vec<String>,
    pub scene_type: Option<String>,
}

pub struct ResponseView {
    pub narrative: Seq<char>,
    pub meta_text: Option<Seq<char>>,
    pub options: Seq<Seq<char>>,
    pub scene_type: Option<Seq<char>>,
}

impl View for StructuredResponse {
    type V = ResponseView;

    open spec fn view(&self) -> ResponseView {
        ResponseView {
            narrative: self.narrative@,
            meta_text: opt_str(self.meta_text),
            options: views(self.options@),
            scene_type: opt_str(self.scene_type),
        }
    }
}

/// The fields of the JSON object that the model is asked to reply with, as
/// decoded from it (`None` for a field that is absent or null).
pub struct JsonReply {
    pub narrative: Option<String>,
    pub meta_text: Option<String>,
    pub options: Option<Vec<String>>,
}

pub struct JsonReplyView {
    pub narrative: Option<Seq<char>>,
    pub meta_text: Option<Seq<char>>,
    pub options: Option<Seq<Seq<char>>>,
}

impl View for JsonReply {
    type V = JsonReplyView;

    open spec fn view(&self) -> JsonReplyView {
        JsonReplyView {
            narrative: opt_str(self.narrative),
            meta_text: opt_str(self.meta_text),
            options: opt_strs(self.options),
        }
    }
}

impl JsonReply {
    /// A copy of this reply.
    pub fn duplicate(&self) -> (r: JsonReply)
        ensures
            r@ == self@,
    {
        JsonReply {
            narrative: match &self.narrative {
                Some(n) => Some(n.clone()),
                None => None,
            },
            meta_text: match &self.meta_text {
                Some(m) => Some(m.clone()),
                None => None,
            },
            options: match &self.options {
                Some(o) => Some(copy_string_vec(o)),
                None => None,
            },
        }
    }
}

/// The scene type that a narrative suggests, by its first matching group of
/// keywords: cultivation, combat, debate, exploration, trade.
pub open spec fn scene_type(t: Seq<char>) -> Option<Seq<char>> {
    if contains(t, "闭关"@) || contains(t, "修炼"@) || contains(t, "吐纳"@) || contains(t, "突破"@)
        || contains(t, "丹田"@) {
        Some("cultivation"@)
    } else if contains(t, "出剑"@) || contains(t, "斩"@) || contains(t, "战斗"@) || contains(
        t,
        "交锋"@,
    ) || contains(t, "迎战"@) {
        Some("combat"@)
    } else if contains(t, "辩论"@) || contains(t, "论道"@) || contains(t, "说服"@) {
        Some("debate"@)
    } else if contains(t, "探索"@) || contains(t, "秘境"@) || contains(t, "遗迹"@) || contains(
        t,
        "陌生"@,
    ) {
        Some("exploration"@)
    } else if contains(t, "坊市"@) || contains(t, "交易"@) || contains(t, "丹药"@) || contains(
        t,
        "买卖"@,
    ) {
        Some("trade"@)
    } else {
        None
    }
}

fn has(v: &Vec<char>, pat: &str) -> (r: bool)
    ensures
        r == contains(v@, pat@),
{
    chars_contains(v, &chars_of(pat))
}

/// The scene type that a narrative suggests.
pub fn detect_scene_type(text: &str) -> (r: Option<String>)
    ensures
        opt_str(r) == scene_type(text@),
{
    let v = chars_of(text);
    if has(&v, "闭关") || has(&v, "修炼") || has(&v, "吐纳") || has(&v, "突破") || has(&v, "丹田") {
        Some(owned("cultivation"))
    } else if has(&v, "出剑") || has(&v, "斩") || has(&v, "战斗") || has(&v, "交锋") || has(
        &v,
        "迎战",
    ) {
        Some(owned("combat"))
    } else if has(&v, "辩论") || has(&v, "论道") || has(&v, "说服") {
        Some(owned("debate"))
    } else if has(&v, "探索") || has(&v, "秘境") || has(&v, "遗迹") || has(&v, "陌生") {
        Some(owned("exploration"))
    } else if has(&v, "坊市") || has(&v, "交易") || has(&v, "丹药") || has(&v, "买卖") {
        Some(owned("trade"))
    } else {
        None
    }
}

/// `s` with every trailing copy of `p` removed (`str::trim_end_matches`).
pub open spec fn strip_suffixes(s: Seq<char>, p: Seq<char>) -> Seq<char>
    decreases s.len(),
{
    if p.len() > 0 && ends_with(s, p) {
        strip_suffixes(s.subrange(0, s.len() - p.len()), p)
    } else {
        s
    }
}

/// `s` with every leading copy of `p` removed (`str::trim_start_matches`).
pub open spec fn strip_prefixes(s: Seq<char>, p: Seq<char>) -> Seq<char>
    decreases s.len(),
{
    if p.len() > 0 && starts_with(s, p) {
        strip_prefixes(s.subrange(p.len() as int, s.len() as int), p)
    } else {
        s
    }
}

/// The reply text without surrounding code fences: after trimming, a leading
/// fence line is dropped and trailing fences are removed.
pub open spec fn unfenced(raw: Seq<char>) -> Seq<char> {
    let c0 = trim(raw);
    let c1 = if starts_with(c0, "```"@) {
        match find(c0, "\n"@) {
            Some(k) => c0.subrange(k + 1, c0.len() as int),
            None => c0,
        }
    } else {
        c0
    };
    if ends_with(c1, "```"@) {
        trim_end(strip_suffixes(c1, "```"@))
    } else {
        c1
    }
}

/// The JSON object candidate of a reply: from its first `{` to its last `}`,
/// once code fences are removed.
pub open spec fn json_candidate_of(raw: Seq<char>) -> Option<Seq<char>> {
    let c = unfenced(raw);
    match (find(c, "{"@), rfind(c, "}"@)) {
        (Some(a), Some(b)) => if b <= a {
            None
        } else {
            Some(c.subrange(a, b + 1))
        },
        _ => None,
    }
}

fn strip_suffixes_of(s: String, p: &str) -> (r: String)
    requires
        p@.len() > 0,
    ensures
        r@ == strip_suffixes(s@, p@),
    decreases s@.len(),
{
    let v = chars_of(s.as_str());
    let w = chars_of(p);
    if chars_ends_with(&v, &w) {
        let shorter = slice_of(s.as_str(), &v, 0, v.len() - w.len());
        strip_suffixes_of(shorter, p)
    } else {
        s
    }
}

fn strip_prefixes_of(s: String, p: &str) -> (r: String)
    requires
        p@.len() > 0,
    ensures
        r@ == strip_prefixes(s@, p@),
    decreases s@.len(),
{
    let v = chars_of(s.as_str());
    let w = chars_of(p);
    if chars_starts_with(&v, &w) {
        let shorter = slice_of(s.as_str(), &v, w.len(), v.len());
        strip_prefixes_of(shorter, p)
    } else {
        s
    }
}

/// The reply text without surrounding code fences.
pub fn strip_fences(raw: &str) -> (r: String)
    ensures
        r@ == unfenced(raw@),
{
    let c0 = str_trim(raw);
    let v0 = chars_of(c0.as_str());
    proof {
        reveal_strlit("\n");
    }
    let c1 = if chars_starts_with(&v0, &chars_of("```")) {
        let nl = chars_of("\n");
        match chars_find(&v0, &nl) {
            Some(k) => {
                assert(nl@.len() == 1);
                let n = v0.len();
                assert(k + 1 <= n);
                slice_of(c0.as_str(), &v0, k + 1, n)
            },
            None => c0,
        }
    } else {
        c0
    };
    proof {
        reveal_strlit("```");
    }
    if str_ends_with(c1.as_str(), "```") {
        let stripped = strip_suffixes_of(c1, "```");
        str_trim_end(stripped.as_str())
    } else {
        c1
    }
}

/// The JSON object candidate of a reply, if it has one.
pub fn json_candidate(raw: &str) -> (r: Option<String>)
    ensures
        opt_str(r) == json_candidate_of(raw@),
{
    let cleaned = strip_fences(raw);
    let v = chars_of(cleaned.as_str());
    let start = match chars_find(&v, &chars_of("{")) {
        Some(a) => a,
        None => {
            return None;
        },
    };
    let close = chars_of("}");
    proof {
        reveal_strlit("}");
    }
    let end = match chars_rfind(&v, &close) {
        Some(b) => b,
        None => {
            return None;
        },
    };
    if end <= start {
        return None;
    }
    assert(close@.len() == 1);
    let n = v.len();
    assert(end + 1 <= n);
    Some(slice_of(cleaned.as_str(), &v, start, end + 1))
}

/// The non-empty strings of `s`, in order.
pub open spec fn nonempty_strs(s: Seq<Seq<char>>) -> Seq<Seq<char>>
    decreases s.len(),
{
    if s.len() == 0 {
        s
    } else {
        nonempty_strs(s.drop_last()) + (if s.last().len() > 0 {
            seq![s.last()]
        } else {
            Seq::empty()
        })
    }
}

/// The first four elements of `s` (all of them when there are fewer).
pub open spec fn first_four(s: Seq<Seq<char>>) -> Seq<Seq<char>> {
    if s.len() <= 4 {
        s
    } else {
        s.take(4)
    }
}

/// The response that a decoded JSON reply gives: `None` when its narrative
/// is missing or empty; otherwise the narrative, the meta text if non-empty,
/// the first four non-empty options, and the scene type of the narrative.
pub open spec fn reply_response(r: JsonReplyView) -> Option<ResponseView> {
    let n = match r.narrative {
        Some(x) => x,
        None => Seq::empty(),
    };
    if n.len() == 0 {
        None
    } else {
        Some(
            ResponseView {
                narrative: n,
                meta_text: match r.meta_text {
                    Some(m) => if m.len() == 0 {
                        None
                    } else {
                        Some(m)
                    },
                    None => None,
                },
                options: first_four(
                    nonempty_strs(
                        match r.options {
                            Some(o) => o,
                            None => Seq::empty(),
                        },
                    ),
                ),
                scene_type: scene_type(n),
            },
        )
    }
}

fn copy_string_vec(v: &Vec<String>) -> (r: Vec<String>)
    ensures
        views(r@) == views(v@),
{
    let mut r: Vec<String> = Vec::new();
    let mut i: usize = 0;
    while i < v.len()
        invariant
            i <= v@.len(),
            r@.len() == i,
            forall|k: int| 0 <= k < i ==> #[trigger] r@[k]@ == v@[k]@,
        decreases v@.len() - i,
    {
        r.push(v[i].clone());
        i = i + 1;
    }
    assert(views(r@) =~= views(v@));
    r
}

/// The first four non-empty strings of `v`.
fn first_four_nonempty(v: &Vec<String>) -> (r: Vec<String>)
    ensures
        views(r@) == first_four(nonempty_strs(views(v@))),
{
    let mut kept: Vec<String> = Vec::new();
    let mut i: usize = 0;
    while i < v.len()
        invariant
            i <= v@.len(),
            views(kept@) == nonempty_strs(views(v@).take(i as int)),
        decreases v@.len() - i,
    {
        proof {
            assert(views(v@).take(i + 1).drop_last() =~= views(v@).take(i as int));
        }
        if !v[i].as_str().is_empty() {
            let ghost before = views(kept@);
            kept.push(v[i].clone());
            assert(views(kept@) =~= before + seq![v@[i as int]@]);
        } else {
            assert(views(kept@) =~= views(kept@) + Seq::<Seq<char>>::empty());
        }
        i = i + 1;
    }
    assert(views(v@).take(v@.len() as int) =~= views(v@));
    let ghost all = views(kept@);
    if kept.len() > 4 {
        kept.truncate(4);
        assert(views(kept@) =~= all.take(4));
    }
    kept
}

/// The response that a decoded JSON reply gives, if its narrative is not
/// empty.
pub fn structured_from_reply(reply: &JsonReply) -> (r: Option<StructuredResponse>)
    ensures
        match r {
            Some(x) => reply_response(reply@) == Some(x@),
            None => reply_response(reply@) is None,
        },
{
    let narrative = match &reply.narrative {
        Some(n) => n.clone(),
        None => String::new(),
    };
    if narrative.as_str().is_empty() {
        return None;
    }
    let meta_text = match &reply.meta_text {
        Some(m) => if m.as_str().is_empty() {
            None
        } else {
            Some(m.clone())
        },
        None => None,
    };
    let options = match &reply.options {
        Some(o) => first_four_nonempty(o),
        None => {
            let empty: Vec<String> = Vec::new();
            assert(views(empty@) =~= Seq::<Seq<char>>::empty());
            assert(nonempty_strs(Seq::<Seq<char>>::empty()) =~= Seq::<Seq<char>>::empty());
            empty
        },
    };
    let scene_type = detect_scene_type(narrative.as_str());
    let r = StructuredResponse { narrative, meta_text, options, scene_type };
    assert(reply_response(reply@) == Some(r@));
    Some(r)
}

// ───────────────────────── the legacy text format ─────────────────────────

/// `s` split at the first occurrence of `sep`: the part before it, and the
/// part after it if there is one (`str::splitn(2, sep)`).
pub open spec fn split_once(s: Seq<char>, sep: Seq<char>) -> (Seq<char>, Option<Seq<char>>) {
    match find(s, sep) {
        Some(k) => (s.subrange(0, k), Some(s.subrange(k + sep.len(), s.len() as int))),
        None => (s, None),
    }
}

/// The text between `start_marker` and the following `end_marker` (or the
/// end), trimmed; `None` when the start marker is absent or the text is
/// empty.
pub open spec fn section(text: Seq<char>, start_marker: Seq<char>, end_marker: Seq<char>) -> Option<
    Seq<char>,
> {
    match find(text, start_marker) {
        None => None,
        Some(a) => {
            let cs = a + start_marker.len();
            let ce = match find(text.subrange(cs, text.len() as int), end_marker) {
                Some(k) => cs + k,
                None => text.len() as int,
            };
            let t = trim(text.subrange(cs, ce));
            if t.len() == 0 {
                None
            } else {
                Some(t)
            }
        },
    }
}

fn extract_section(text: &str, start_marker: &str, end_marker: &str) -> (r: Option<String>)
    ensures
        opt_str(r) == section(text@, start_marker@, end_marker@),
{
    let v = chars_of(text);
    let sm = chars_of(start_marker);
    let start = match chars_find(&v, &sm) {
        Some(a) => a,
        None => {
            return None;
        },
    };
    let n = v.len();
    let content_start = start + sm.len();
    let rest = slice_of(text, &v, content_start, n);
    let content_end = match chars_find(&chars_of(rest.as_str()), &chars_of(end_marker)) {
        Some(k) => content_start + k,
        None => n,
    };
    proof {
        let k = find(text@.subrange(content_start as int, n as int), end_marker@);
        if let Some(kk) = k {
            assert(crate::text::occurs_at(text@.subrange(content_start as int, n as int), end_marker@, kk)) by {
                let w = choose|i: int| crate::text::first_at(text@.subrange(content_start as int, n as int), end_marker@, i);
            }
        }
    }
    let raw = slice_of(text, &v, content_start, content_end);
    let trimmed = str_trim(raw.as_str());
    if trimmed.as_str().is_empty() {
        None
    } else {
        Some(trimmed)
    }
}

/// Line-splitting state after scanning `s`: the finished lines, and the line
/// in progress.
pub open spec fn lines_fold(s: Seq<char>) -> (Seq<Seq<char>>, Seq<char>)
    decreases s.len(),
{
    if s.len() == 0 {
        (Seq::empty(), Seq::empty())
    } else {
        let f = lines_fold(s.drop_last());
        if s.last() == '\n' {
            (f.0.push(f.1), Seq::empty())
        } else {
            (f.0, f.1.push(s.last()))
        }
    }
}

/// The lines of `s`, split at each `'\n'`.
pub open spec fn split_lines(s: Seq<char>) -> Seq<Seq<char>> {
    let f = lines_fold(s);
    f.0.push(f.1)
}

/// The lines of `text`, split at each `'\n'`.
pub fn split_lines_of(text: &str) -> (r: Vec<String>)
    ensures
        views(r@) == split_lines(text@),
{
    let v = chars_of(text);
    let mut lines: Vec<String> = Vec::new();
    let mut start: usize = 0;
    let mut i: usize = 0;
    while i < v.len()
        invariant
            start <= i <= v@.len(),
            v@ == text@,
            lines_fold(v@.take(i as int)) == (views(lines@), v@.subrange(start as int, i as int)),
        decreases v@.len() - i,
    {
        proof {
            assert(v@.take(i + 1).drop_last() =~= v@.take(i as int));
        }
        if v[i] == '\n' {
            let line = slice_of(text, &v, start, i);
            let ghost before = views(lines@);
            lines.push(line);
            assert(views(lines@) =~= before.push(v@.subrange(start as int, i as int)));
            start = i + 1;
            assert(v@.subrange(start as int, i + 1) =~= Seq::<char>::empty());
        } else {
            assert(v@.subrange(start as int, i + 1) =~= v@.subrange(start as int, i as int).push(
                v@[i as int],
            ));
        }
        i = i + 1;
    }
    assert(v@.take(v@.len() as int) =~= v@);
    let last = slice_of(text, &v, start, v.len());
    lines.push(last);
    assert(views(lines@) =~= split_lines(text@));
    lines
}

/// An option may be numbered with an ASCII digit or with 一..五.
pub open spec fn is_numeral(c: char) -> bool {
    is_ascii_digit(c) || c == '一' || c == '二' || c == '三' || c == '四' || c == '五'
}

/// A character that may follow an option number.
pub open spec fn is_option_sep(c: char) -> bool {
    c == '.' || c == '、' || c == '）' || c == ')' || c == ' '
}

/// The text after a "**1.**"-style bold number, trimmed, if non-empty.
pub open spec fn bold_rest(t: Seq<char>) -> Option<Seq<char>> {
    let rest = t.subrange("**"@.len() as int, t.len() as int);
    match find(rest, "**"@) {
        Some(k) => {
            let ab = rest.subrange(k + "**"@.len(), rest.len() as int);
            let cl = trim(
                if starts_with(ab, "."@) {
                    ab.subrange(1, ab.len() as int)
                } else {
                    ab
                },
            );
            if cl.len() > 0 {
                Some(cl)
            } else {
                None
            }
        },
        None => None,
    }
}

/// What follows the option marker of a trimmed line: "- ", a bold number,
/// a number with a separator, or a bare number.
pub open spec fn option_body(t: Seq<char>) -> Option<Seq<char>> {
    if starts_with(t, "- "@) {
        Some(t.subrange("- "@.len() as int, t.len() as int))
    } else if starts_with(t, "**"@) && bold_rest(t) is Some {
        bold_rest(t)
    } else if t.len() >= 2 && is_numeral(t[0]) && is_option_sep(t[1]) {
        Some(t.subrange(2, t.len() as int))
    } else if t.len() >= 1 && is_numeral(t[0]) {
        Some(t.subrange(1, t.len() as int))
    } else {
        None
    }
}

/// The option that a line of the options section gives, if any.
pub open spec fn option_text(line: Seq<char>) -> Option<Seq<char>> {
    let t = trim(line);
    if t.len() == 0 {
        None
    } else {
        match option_body(t) {
            Some(r) => if trim(r).len() > 0 {
                Some(trim(r))
            } else {
                None
            },
            None => None,
        }
    }
}

/// The text takes more than one byte in UTF-8.
pub open spec fn more_than_one_byte(t: Seq<char>) -> bool {
    t.len() >= 2 || (t.len() == 1 && (t[0] as u32) >= 0x80)
}

/// A line taken as a bare option when the numbered parse finds fewer than
/// two: any trimmed line longer than one byte that is not a "[..." marker or
/// a "---" separator.
pub open spec fn raw_option(line: Seq<char>) -> Option<Seq<char>> {
    let t = trim(line);
    if t.len() == 0 {
        None
    } else if starts_with(t, "["@) || t == "---"@ {
        None
    } else if more_than_one_byte(t) {
        Some(t)
    } else {
        None
    }
}

pub open spec fn collect_options(
    lines: Seq<Seq<char>>,
    f: spec_fn(Seq<char>) -> Option<Seq<char>>,
) -> Seq<Seq<char>>
    decreases lines.len(),
{
    if lines.len() == 0 {
        Seq::empty()
    } else {
        collect_options(lines.drop_last(), f) + match f(lines.last()) {
            Some(o) => seq![o],
            None => Seq::empty(),
        }
    }
}

/// The options listed after the "[选项]" marker: numbered or bulleted lines;
/// when fewer than two are found, every plausible line; at most four.
pub open spec fn options_of(text: Seq<char>) -> Seq<Seq<char>> {
    match find(text, "[选项]"@) {
        None => Seq::empty(),
        Some(i) => {
            let lines = split_lines(text.subrange(i + "[选项]"@.len(), text.len() as int));
            let st = collect_options(lines, |l: Seq<char>| option_text(l));
            first_four(
                if st.len() < 2 {
                    collect_options(lines, |l: Seq<char>| raw_option(l))
                } else {
                    st
                },
            )
        },
    }
}

fn char_is_numeral(c: char) -> (r: bool)
    ensures
        r == is_numeral(c),
{
    ('0' <= c && c <= '9') || c == '一' || c == '二' || c == '三' || c == '四' || c == '五'
}

fn char_is_option_sep(c: char) -> (r: bool)
    ensures
        r == is_option_sep(c),
{
    c == '.' || c == '、' || c == '）' || c == ')' || c == ' '
}

fn bold_rest_of(t: &str) -> (r: Option<String>)
    requires
        starts_with(t@, "**"@),
    ensures
        opt_str(r) == bold_rest(t@),
{
    let v = chars_of(t);
    let stars = chars_of("**");
    let rest = slice_of(t, &v, stars.len(), v.len());
    let rv = chars_of(rest.as_str());
    match chars_find(&rv, &stars) {
        Some(k) => {
            let ab = slice_of(rest.as_str(), &rv, k + stars.len(), rv.len());
            let abv = chars_of(ab.as_str());
            let inner = if chars_starts_with(&abv, &chars_of(".")) {
                proof {
                    reveal_strlit(".");
                }
                slice_of(ab.as_str(), &abv, 1, abv.len())
            } else {
                ab
            };
            let cl = str_trim(inner.as_str());
            if cl.as_str().is_empty() {
                None
            } else {
                Some(cl)
            }
        },
        None => None,
    }
}

fn option_body_of(t: &str) -> (r: Option<String>)
    ensures
        opt_str(r) == option_body(t@),
{
    let v = chars_of(t);
    let dash = chars_of("- ");
    if chars_starts_with(&v, &dash) {
        return Some(slice_of(t, &v, dash.len(), v.len()));
    }
    if chars_starts_with(&v, &chars_of("**")) {
        match bold_rest_of(t) {
            Some(b) => {
                return Some(b);
            },
            None => {},
        }
    }
    if v.len() >= 2 && char_is_numeral(v[0]) && char_is_option_sep(v[1]) {
        return Some(slice_of(t, &v, 2, v.len()));
    }
    if v.len() >= 1 && char_is_numeral(v[0]) {
        return Some(slice_of(t, &v, 1, v.len()));
    }
    None
}

fn option_text_of(line: &str) -> (r: Option<String>)
    ensures
        opt_str(r) == option_text(line@),
{
    let t = str_trim(line);
    if t.as_str().is_empty() {
        return None;
    }
    match option_body_of(t.as_str()) {
        Some(rest) => {
            let clean = str_trim(rest.as_str());
            if clean.as_str().is_empty() {
                None
            } else {
                Some(clean)
            }
        },
        None => None,
    }
}

fn raw_option_of(line: &str) -> (r: Option<String>)
    ensures
        opt_str(r) == raw_option(line@),
{
    let t = str_trim(line);
    let v = chars_of(t.as_str());
    if v.len() == 0 {
        return None;
    }
    if chars_starts_with(&v, &chars_of("[")) || crate::state::is_lit(&v, "---") {
        return None;
    }
    if v.len() >= 2 || (v.len() == 1 && (v[0] as u32) >= 0x80) {
        Some(t)
    } else {
        None
    }
}

fn collect_structured(lines: &Vec<String>) -> (r: Vec<String>)
    ensures
        views(r@) == collect_options(views(lines@), |l: Seq<char>| option_text(l)),
{
    let mut out: Vec<String> = Vec::new();
    let mut i: usize = 0;
    while i < lines.len()
        invariant
            i <= lines@.len(),
            views(out@) == collect_options(views(lines@).take(i as int), |l: Seq<char>| option_text(l)),
        decreases lines@.len() - i,
    {
        proof {
            assert(views(lines@).take(i + 1).drop_last() =~= views(lines@).take(i as int));
        }
        let ghost before = views(out@);
        match option_text_of(lines[i].as_str()) {
            Some(o) => {
                out.push(o);
            },
            None => {},
        }
        assert(views(out@) =~= collect_options(views(lines@).take(i + 1), |l: Seq<char>| option_text(l)));
        i = i + 1;
    }
    assert(views(lines@).take(lines@.len() as int) =~= views(lines@));
    out
}

fn collect_raw(lines: &Vec<String>) -> (r: Vec<String>)
    ensures
        views(r@) == collect_options(views(lines@), |l: Seq<char>| raw_option(l)),
{
    let mut out: Vec<String> = Vec::new();
    let mut i: usize = 0;
    while i < lines.len()
        invariant
            i <= lines@.len(),
            views(out@) == collect_options(views(lines@).take(i as int), |l: Seq<char>| raw_option(l)),
        decreases lines@.len() - i,
    {
        proof {
            assert(views(lines@).take(i + 1).drop_last() =~= views(lines@).take(i as int));
        }
        match raw_option_of(lines[i].as_str()) {
            Some(o) => {
                out.push(o);
            },
            None => {},
        }
        assert(views(out@) =~= collect_options(views(lines@).take(i + 1), |l: Seq<char>| raw_option(l)));
        i = i + 1;
    }
    assert(views(lines@).take(lines@.len() as int) =~= views(lines@));
    out
}

/// The options listed after the "[选项]" marker (at most four).
fn extract_options(text: &str) -> (r: Vec<String>)
    ensures
        views(r@) == options_of(text@),
{
    let v = chars_of(text);
    let marker = chars_of("[选项]");
    let found = chars_find(&v, &marker);
    if found.is_none() {
        let empty: Vec<String> = Vec::new();
        assert(views(empty@) =~= Seq::<Seq<char>>::empty());
        return empty;
    }
    let at = found.unwrap();
    assert(occurs_at(v@, marker@, at as int));
    assert(at + marker.len() <= v.len());
    let opt_start = at + marker.len();
    let opt_text = slice_of(text, &v, opt_start, v.len());
    let lines = split_lines_of(opt_text.as_str());
    let structured = collect_structured(&lines);
    let mut options = if structured.len() < 2 {
        collect_raw(&lines)
    } else {
        structured
    };
    let ghost all = views(options@);
    if options.len() > 4 {
        options.truncate(4);
        assert(views(options@) =~= all.take(4));
    }
    options
}


/// The separator between the narrative and the trailing sections: a line
/// of its own when there is one, else the first bare "---".
pub open spec fn legacy_separator(raw: Seq<char>) -> Seq<char> {
    if contains(raw, "\n---\n"@) {
        "\n---\n"@
    } else {
        "---"@
    }
}

/// The response that a reply in the older text format gives: the trimmed
/// narrative before the separator; after it, the "[元文本]" section, the
/// options and the scene type, all absent when nothing follows.
pub open spec fn legacy_response(raw: Seq<char>) -> ResponseView {
    let parts = split_once(raw, legacy_separator(raw));
    let narrative = trim(parts.0);
    let trailing = match parts.1 {
        Some(t) => trim(t),
        None => Seq::empty(),
    };
    if trailing.len() == 0 {
        ResponseView { narrative, meta_text: None, options: Seq::empty(), scene_type: None }
    } else {
        ResponseView {
            narrative,
            meta_text: section(trailing, "[元文本]"@, "[选项]"@),
            options: options_of(trailing),
            scene_type: scene_type(narrative),
        }
    }
}

/// `s` split at the first occurrence of `sep`.
fn split_once_of(s: &str, sep: &str) -> (r: (String, Option<String>))
    ensures
        r.0@ == split_once(s@, sep@).0,
        opt_str(r.1) == split_once(s@, sep@).1,
{
    let v = chars_of(s);
    let w = chars_of(sep);
    let found = chars_find(&v, &w);
    if found.is_none() {
        return (owned(s), None);
    }
    let at = found.unwrap();
    assert(occurs_at(v@, w@, at as int));
    assert(at + w.len() <= v.len());
    let head = slice_of(s, &v, 0, at);
    let tail = slice_of(s, &v, at + w.len(), v.len());
    (head, Some(tail))
}

/// Parses a reply written in the older text format.
fn parse_legacy_text_response(raw: &str) -> (r: StructuredResponse)
    ensures
        r@ == legacy_response(raw@),
{
    let sep = if str_contains(raw, "\n---\n") {
        "\n---\n"
    } else {
        "---"
    };
    let (head, tail) = split_once_of(raw, sep);
    let narrative = str_trim(head.as_str());
    let trailing = match tail {
        Some(t) => str_trim(t.as_str()),
        None => String::new(),
    };
    if trailing.as_str().is_empty() {
        let options: Vec<String> = Vec::new();
        assert(views(options@) =~= Seq::<Seq<char>>::empty());
        return StructuredResponse { narrative, meta_text: None, options, scene_type: None };
    }
    let meta_text = extract_section(trailing.as_str(), "[元文本]", "[选项]");
    let options = extract_options(trailing.as_str());
    let scene_type = detect_scene_type(narrative.as_str());
    StructuredResponse { narrative, meta_text, options, scene_type }
}

/// The response that a reply gives: the decoded JSON object when it has a
/// narrative, else the older text format read from the raw reply.
pub open spec fn structured_response(raw: Seq<char>, decoded: Option<JsonReplyView>) -> ResponseView {
    match decoded {
        Some(d) => match reply_response(d) {
            Some(x) => x,
            None => legacy_response(raw),
        },
        None => legacy_response(raw),
    }
}

/// Parses a model reply.  `decoded` is the JSON object decoded from
/// `json_candidate(raw)`, or `None` when there is none or it does not
/// decode; the JSON reply is used when it has a narrative, and the older
/// text format otherwise.
pub fn parse_structured_response(raw: &str, decoded: Option<JsonReply>) -> (r: StructuredResponse)
    ensures
        r@ == structured_response(raw@, match decoded {
            Some(d) => Some(d@),
            None => None,
        }),
{
    match decoded {
        Some(d) => match structured_from_reply(&d) {
            Some(x) => x,
            None => parse_legacy_text_response(raw),
        },
        None => parse_legacy_text_response(raw),
    }
}

// ───────────────────────── the system prompt and the messages ─────────────────────────

/// The bindings of the world-rules template: the state narrative.
pub open spec fn narrative_bindings(state_narrative: Seq<char>) -> Seq<(Seq<char>, Seq<char>)> {
    seq![("state-narrative"@, state_narrative)]
}

/// The system prompt of a game turn: the world section, the rendered world
/// rules, the guardrails and the reply-format instruction, separated by
/// blank lines.
pub open spec fn system_prompt(
    w: &WorldConfig,
    world_rules: Seq<char>,
    guardrails: Seq<char>,
    state_narrative: Seq<char>,
) -> Seq<char> {
    world_section(w) + "\n\n"@ + rendered(world_rules, narrative_bindings(state_narrative))
        + "\n\n"@ + guardrails + "\n\n"@ + FORMAT_INSTRUCTION@
}

/// The system prompt of a game turn, from the texts of the "world-rules"
/// and "guardrails" templates and the state narrative.
pub fn build_system_prompt(
    world_rules_raw: &str,
    guardrails_raw: &str,
    state_narrative: &str,
    world_config: &WorldConfig,
) -> (r: String)
    ensures
        r@ == system_prompt(world_config, world_rules_raw@, guardrails_raw@, state_narrative@),
{
    let bindings = [("state-narrative", state_narrative)];
    let world_rules = render_template(world_rules_raw, &bindings);
    assert(binding_views(bindings@) =~= narrative_bindings(state_narrative@));
    let mut s = world_config.to_system_prompt_section();
    cat(&mut s, "\n\n");
    cat(&mut s, world_rules.as_str());
    cat(&mut s, "\n\n");
    cat(&mut s, guardrails_raw);
    cat(&mut s, "\n\n");
    cat(&mut s, FORMAT_INSTRUCTION);
    s
}

/// The system prompt of the older fixed-world game: the rendered world
/// rules, the guardrails, the card of the NPC and the reply-format
/// instruction, separated by blank lines.
pub open spec fn system_prompt_legacy(
    world_rules: Seq<char>,
    guardrails: Seq<char>,
    npc_card: Seq<char>,
    state_narrative: Seq<char>,
) -> Seq<char> {
    rendered(world_rules, narrative_bindings(state_narrative)) + "\n\n"@ + guardrails + "\n\n"@
        + npc_card + "\n\n"@ + FORMAT_INSTRUCTION@
}

/// The system prompt of the older fixed-world game, from the texts of the
/// "world-rules", "guardrails" and "npc-<name>" templates and the state
/// narrative.
pub fn build_system_prompt_legacy(
    world_rules_raw: &str,
    guardrails_raw: &str,
    npc_card: &str,
    state_narrative: &str,
) -> (r: String)
    ensures
        r@ == system_prompt_legacy(world_rules_raw@, guardrails_raw@, npc_card@, state_narrative@),
{
    let bindings = [("state-narrative", state_narrative)];
    let mut s = render_template(world_rules_raw, &bindings);
    assert(binding_views(bindings@) =~= narrative_bindings(state_narrative@));
    cat(&mut s, "\n\n");
    cat(&mut s, guardrails_raw);
    cat(&mut s, "\n\n");
    cat(&mut s, npc_card);
    cat(&mut s, "\n\n");
    cat(&mut s, FORMAT_INSTRUCTION);
    s
}

/// The messages of a turn: the system prompt, the conversation context, and
/// the player's input.
pub open spec fn turn_messages(
    system_prompt: Seq<char>,
    w: crate::memory::WindowView,
    user_input: Seq<char>,
) -> Seq<MessageView> {
    seq![msg("system"@, system_prompt)] + context_of(w) + seq![msg("user"@, user_input)]
}

/// The full message list for a game turn.
pub fn build_messages(system_prompt: &str, window: &ConversationWindow, user_input: &str) -> (r: Vec<
    Message,
>)
    ensures
        message_views(r@) == turn_messages(system_prompt@, window@, user_input@),
{
    let mut messages: Vec<Message> = Vec::new();
    messages.push(Message::new("system", system_prompt));
    let ghost head = message_views(messages@);
    let mut context = window.get_context_messages();
    messages.append(&mut context);
    messages.push(Message::new("user", user_input));
    assert(message_views(messages@) =~= turn_messages(system_prompt@, window@, user_input@));
    messages
}

// ───────────────────────── laws ─────────────────────────

/// Every string of `s` is non-empty.
pub open spec fn all_nonempty(s: Seq<Seq<char>>) -> bool {
    forall|i: int| 0 <= i < s.len() ==> (#[trigger] s[i]).len() > 0
}

proof fn lemma_nonempty_strs(s: Seq<Seq<char>>)
    ensures
        all_nonempty(nonempty_strs(s)),
    decreases s.len(),
{
    if s.len() > 0 {
        lemma_nonempty_strs(s.drop_last());
    }
}

proof fn lemma_first_four(s: Seq<Seq<char>>)
    requires
        all_nonempty(s),
    ensures
        all_nonempty(first_four(s)),
        first_four(s).len() <= 4,
{
}

proof fn lemma_collect_nonempty(lines: Seq<Seq<char>>, f: spec_fn(Seq<char>) -> Option<Seq<char>>)
    requires
        forall|l: Seq<char>| (#[trigger] f(l)) is Some ==> f(l)->0.len() > 0,
    ensures
        all_nonempty(collect_options(lines, f)),
    decreases lines.len(),
{
    if lines.len() > 0 {
        lemma_collect_nonempty(lines.drop_last(), f);
        let last = f(lines.last());
    }
}

proof fn lemma_options_of(text: Seq<char>)
    ensures
        all_nonempty(options_of(text)),
        options_of(text).len() <= 4,
{
    match find(text, "[选项]"@) {
        None => {},
        Some(i) => {
            let lines = split_lines(text.subrange(i + "[选项]"@.len(), text.len() as int));
            let fs = |l: Seq<char>| option_text(l);
            let fr = |l: Seq<char>| raw_option(l);
            assert forall|l: Seq<char>| (#[trigger] fs(l)) is Some implies fs(l)->0.len() > 0 by {}
            assert forall|l: Seq<char>| (#[trigger] fr(l)) is Some implies fr(l)->0.len() > 0 by {}
            lemma_collect_nonempty(lines, fs);
            lemma_collect_nonempty(lines, fr);
            let st = collect_options(lines, fs);
            if st.len() < 2 {
                lemma_first_four(collect_options(lines, fr));
            } else {
                lemma_first_four(st);
            }
        },
    }
}

/// A parsed reply never offers more than four options, and none of them is
/// empty, whether it came as JSON or in the older text format.
pub proof fn lemma_parsed_options(raw: Seq<char>, decoded: Option<JsonReplyView>)
    ensures
        structured_response(raw, decoded).options.len() <= 4,
        all_nonempty(structured_response(raw, decoded).options),
{
    match split_once(raw, legacy_separator(raw)).1 {
        Some(x) => lemma_options_of(trim(x)),
        None => {},
    }
    match decoded {
        Some(d) => {
            let o = match d.options {
                Some(o) => o,
                None => Seq::empty(),
            };
            lemma_nonempty_strs(o);
            lemma_first_four(nonempty_strs(o));
        },
        None => {},
    }
}

} // verus!
