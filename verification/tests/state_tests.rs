use xgamengine::state::{CreationChoices, WorldConfig};


// ── helpers ──

fn sample_choices() -> CreationChoices {
    CreationChoices {
        family_background: "寒门之后".into(),
        childhood_experience: "静心读书".into(),
        sect_category: "仙门正宗".into(),
        join_reason: "仰慕其名，主动拜入".into(),
        entry_method: "宗门大开山门，通过考核入外门".into(),
        demonic_stance: "势不两立，见之必除".into(),
        personality_archetype: "韩立".into(),
        core_value: "长生久视，寿与天齐".into(),
        altruism: "先救人，再取丹。人命关天。".into(),
        dao_quest: "超脱生死，得证长生".into(),
        player_name: "孙若虚".into(),
        dao_name: "".into(),
        narrative_style: "male".into(),
    }
}

fn alt_choices() -> CreationChoices {
    CreationChoices {
        family_background: "将门虎子".into(),
        childhood_experience: "习武强身".into(),
        sect_category: "魔道宗门".into(),
        join_reason: "被胁迫加入，身不由己".into(),
        entry_method: "被仇家追杀，误入仙门".into(),
        demonic_stance: "魔道亦有可取之处，手段不重要，结果才重要".into(),
        personality_archetype: "王林".into(),
        core_value: "快意恩仇，不负此生".into(),
        altruism: "取走丹药和令牌，放任其自生自灭。".into(),
        dao_quest: "复仇雪恨，手刃仇敌".into(),
        player_name: "铁剑心".into(),
        dao_name: "杀生".into(),
        narrative_style: "male".into(),
    }
}

// ═══════════════════════════════════════════════════════════════
// CreationChoices — calculate_initial_stats
// ═══════════════════════════════════════════════════════════════

#[test]
fn test_stats_humble_scholar_path() {
    // 寒门之后 + 静心读书 + 仙门正宗 + 仰慕 + 宗门考核 + 超脱生死 + 先救人
    // Full trace done in test_stats_humble_scholar_detailed below
    let stats = sample_choices().calculate_initial_stats();
    assert_eq!(stats.sword_art, 10);
    assert_eq!(stats.spell_art, 7);
    assert_eq!(stats.blood_qi, 6);
    assert_eq!(stats.spirit_soul, 5);
    assert_eq!(stats.divine_sense, 8);
    assert_eq!(stats.dao_heart, 19);
}

#[test]
fn test_stats_general_demonic_path() {
    let stats = alt_choices().calculate_initial_stats();
    // Q1 将门: sword=12, spell=5, blood=8, soul=4, sense=3, heart=5
    // Q2 习武: sword+1, blood+2 → s=13, sp=5, b=10, so=4, se=3, h=5
    // Q3a 魔道: sword+2, soul+1 → s=15, sp=5, b=10, so=5, se=3, h=5
    // Q3b 被胁迫: blood+2, heart+1 → s=15, sp=5, b=12, so=5, se=3, h=6
    // Q4 被追杀: sword+3, soul+1 → s=18, sp=5, b=12, so=6, se=3, h=6
    // Q6 复仇: sword+3, soul+2 → s=21, sp=5, b=12, so=8, se=3, h=6
    // Q5d: no stat effect for "取走丹药和令牌"
    assert_eq!(stats.sword_art, 21);
    assert_eq!(stats.spell_art, 5);
    assert_eq!(stats.blood_qi, 12);
    assert_eq!(stats.spirit_soul, 8);
    assert_eq!(stats.divine_sense, 3);
    assert_eq!(stats.dao_heart, 6);
}

#[test]
fn test_stats_healer_buddhist_path() {
    let choices = CreationChoices {
        family_background: "医道传家".into(),
        childhood_experience: "拜入道观".into(),
        sect_category: "佛门禅院".into(),
        join_reason: "为报恩情，被恩人引入".into(),
        entry_method: "散修收留，入门为杂役".into(),
        demonic_stance: "道不同不相为谋，但尊重其选择".into(),
        personality_archetype: "李长寿".into(),
        core_value: "守护所爱，庇护一方".into(),
        altruism: "救醒他，然后让他拿身上的东西作为报答。".into(),
        dao_quest: "探寻真理，穷究天道".into(),
        player_name: "柳青鸾".into(),
        dao_name: "慈心".into(),
        narrative_style: "female".into(),
    };
    let stats = choices.calculate_initial_stats();
    // Q1 医道: s=5, sp=9, b=5, so=6, se=7, h=7
    // Q2 道观: sp+2, h+2 → s=5, sp=11, b=5, so=6, se=7, h=9
    // Q3a 佛门: h+3, b+1 → s=5, sp=11, b=6, so=6, se=7, h=12
    // Q3b 报恩: h+2 → s=5, sp=11, b=6, so=6, se=7, h=14
    // Q4 散修收留: h+3, se+1 → s=5, sp=11, b=6, so=6, se=8, h=17
    // Q6 探寻真理: se+3, sp+2 → s=5, sp=13, b=6, so=6, se=11, h=17
    // Q5d 救醒报酬: h+1 → s=5, sp=13, b=6, so=6, se=11, h=18
    assert_eq!(stats.sword_art, 5);
    assert_eq!(stats.spell_art, 13);
    assert_eq!(stats.blood_qi, 6);
    assert_eq!(stats.spirit_soul, 6);
    assert_eq!(stats.divine_sense, 11);
    assert_eq!(stats.dao_heart, 18);
}

#[test]
fn test_stats_orphan_explorer_rogue() {
    let choices = CreationChoices {
        family_background: "山野遗孤".into(),
        childhood_experience: "山林探险".into(),
        sect_category: "散修独行".into(),
        join_reason: "机缘巧合，误打误撞".into(),
        entry_method: "落崖奇遇，得遇洞府".into(),
        demonic_stance: "正道虚伪，魔道直率。更欣赏魔道".into(),
        personality_archetype: "白小纯".into(),
        core_value: "逍遥自在，不受束缚".into(),
        altruism: "取丹离去，心中默念抱歉。筑基丹太珍贵了。".into(),
        dao_quest: "只为自由，不受束缚".into(),
        player_name: "云无痕".into(),
        dao_name: "".into(),
        narrative_style: "male".into(),
    };
    let stats = choices.calculate_initial_stats();
    // Q1 山野: s=7, sp=5, b=10, so=6, se=5, h=7
    // Q2 山林: se+1, b+1, sp+1 → s=7, sp=6, b=11, so=6, se=6, h=7
    // Q3a 独行: b+2, so+2 → s=7, sp=6, b=13, so=8, se=6, h=7
    // Q3b 机缘: se+1 → s=7, sp=6, b=13, so=8, se=7, h=7
    // Q4 落崖: b+3 → s=7, sp=6, b=16, so=8, se=7, h=7
    // Q6 自由: b+3, s+2 → s=9, sp=6, b=19, so=8, se=7, h=7
    // Q5d 取丹: se+1 → s=9, sp=6, b=19, so=8, se=8, h=7
    assert_eq!(stats.sword_art, 9);
    assert_eq!(stats.blood_qi, 19);
    assert_eq!(stats.divine_sense, 8);
    assert_eq!(stats.dao_heart, 7);
}

// ═══════════════════════════════════════════════════════════════
// CreationChoices — calculate_initial_spirit_stones
// ═══════════════════════════════════════════════════════════════

#[test]
fn test_spirit_stones_merchant_path() {
    let choices = CreationChoices {
        family_background: "商贾之家".into(),     // +80
        childhood_experience: "市井谋生".into(),   // +15
        sect_category: "旁门左道".into(),           // +20
        join_reason: "家族安排，身不由己".into(),   // +10
        entry_method: "仙师路过，被收为记名弟子".into(),
        demonic_stance: "势不两立，见之必除".into(),
        personality_archetype: "韩立".into(),
        core_value: "长生久视，寿与天齐".into(),
        altruism: "先救人，再取丹。人命关天。".into(), // +0
        dao_quest: "重振家声，光耀门楣".into(),   // +20
        player_name: "陆书白".into(),
        dao_name: "".into(),
        narrative_style: "male".into(),
    };
    let stones = choices.calculate_initial_spirit_stones();
    assert_eq!(stones, 145, "80+15+20+10+20 = 145");
}

#[test]
fn test_spirit_stones_clan_path() {
    let choices = CreationChoices {
        family_background: "修真世家".into(),       // +30
        childhood_experience: "静心读书".into(),     // +0
        sect_category: "散修联盟".into(),             // +30
        join_reason: "仰慕其名，主动拜入".into(),   // +0
        entry_method: "宗门大开山门，通过考核入外门".into(),
        demonic_stance: "势不两立，见之必除".into(),
        personality_archetype: "韩立".into(),
        core_value: "长生久视，寿与天齐".into(),
        altruism: "救醒他，然后让他拿身上的东西作为报答。".into(), // +50
        dao_quest: "超脱生死，得证长生".into(),     // +0
        player_name: "赵明远".into(),
        dao_name: "".into(),
        narrative_style: "male".into(),
    };
    let stones = choices.calculate_initial_spirit_stones();
    assert_eq!(stones, 110, "30+30+50 = 110");
}

#[test]
fn test_spirit_stones_humble_zero() {
    let stones = sample_choices().calculate_initial_spirit_stones();
    // 寒门: 0, 静心: 0, 仙门: 0, 仰慕: 0, 宗门考核: 0, 先救人: 0, 超脱: 0
    assert_eq!(stones, 0);
}

// ═══════════════════════════════════════════════════════════════
// CreationChoices — calculate_initial_items
// ═══════════════════════════════════════════════════════════════

#[test]
fn test_items_general_path() {
    let items = alt_choices().calculate_initial_items();
    // 将门: 铁剑
    // Q5d 取走丹药和令牌: 筑基丹 + 内门令牌
    assert_eq!(items.len(), 3);
    assert!(items.iter().any(|i| i.name == "铁剑"));
    assert!(items.iter().any(|i| i.name == "筑基丹"));
    assert!(items.iter().any(|i| i.name == "内门令牌"));
}

#[test]
fn test_items_healer_path() {
    let choices = CreationChoices {
        family_background: "医道传家".into(),
        childhood_experience: "静心读书".into(),
        sect_category: "仙门正宗".into(),
        join_reason: "仰慕其名，主动拜入".into(),
        entry_method: "误入上古遗迹，获得传承玉简".into(),
        demonic_stance: "势不两立，见之必除".into(),
        personality_archetype: "韩立".into(),
        core_value: "长生久视，寿与天齐".into(),
        altruism: "先救人，再取丹。人命关天。".into(),
        dao_quest: "超脱生死，得证长生".into(),
        player_name: "孙若虚".into(),
        dao_name: "".into(),
        narrative_style: "male".into(),
    };
    let items = choices.calculate_initial_items();
    // 医道传家: 疗伤丹x3
    // 上古遗迹: 残破玉简
    assert_eq!(items.len(), 2);
    let healer_dan = items.iter().find(|i| i.name == "疗伤丹").unwrap();
    assert_eq!(healer_dan.quantity, 3);
    assert!(items.iter().any(|i| i.name == "残破玉简"));
}

#[test]
fn test_items_orphan_cliff_path() {
    let choices = CreationChoices {
        family_background: "山野遗孤".into(),
        childhood_experience: "山林探险".into(),
        sect_category: "散修独行".into(),
        join_reason: "机缘巧合，误打误撞".into(),
        entry_method: "落崖奇遇，得遇洞府".into(),
        demonic_stance: "道不同不相为谋，但尊重其选择".into(),
        personality_archetype: "白小纯".into(),
        core_value: "逍遥自在，不受束缚".into(),
        altruism: "取丹离去，心中默念抱歉。筑基丹太珍贵了。".into(),
        dao_quest: "只为自由，不受束缚".into(),
        player_name: "云无痕".into(),
        dao_name: "".into(),
        narrative_style: "male".into(),
    };
    let items = choices.calculate_initial_items();
    // 山野: 疗伤丹x1
    // 机缘巧合: 机缘信物
    // 落崖: 未知丹药x2
    // 取丹: 筑基丹x1
    assert_eq!(items.len(), 4);
    assert!(items.iter().any(|i| i.name == "疗伤丹" && i.quantity == 1));
    assert!(items.iter().any(|i| i.name == "机缘信物"));
    assert!(items.iter().any(|i| i.name == "未知丹药" && i.quantity == 2));
    assert!(items.iter().any(|i| i.name == "筑基丹"));
}

// ═══════════════════════════════════════════════════════════════
// CreationChoices — collect_background_flags
// ═══════════════════════════════════════════════════════════════

#[test]
fn test_flags_basic() {
    let flags = sample_choices().collect_background_flags();
    assert!(flags.contains(&"humble-origin".into()));
    assert!(flags.contains(&"studious-youth".into()));
    assert!(flags.contains(&"orthodox-sect".into()));
    assert!(flags.contains(&"cautious".into()));
    assert!(flags.contains(&"value-immortality".into()));
    assert!(flags.contains(&"altruistic".into()));
}

#[test]
fn test_flags_demonic() {
    let flags = alt_choices().collect_background_flags();
    assert!(flags.contains(&"general-descendant".into()));
    assert!(flags.contains(&"martial-youth".into()));
    assert!(flags.contains(&"demonic-sect".into()));
    assert!(flags.contains(&"ruthless".into()));
    assert!(flags.contains(&"value-justice".into()));
}

#[test]
fn test_flags_all_q5_archetypes() {
    let archetypes = [
        ("韩立", "cautious"),
        ("王林", "ruthless"),
        ("徐缺", "witty"),
        ("萧炎", "loyal"),
        ("白小纯", "lucky"),
        ("方平", "strategic"),
        ("李长寿", "hidden"),
    ];
    for (name, expected) in &archetypes {
        let mut c = sample_choices();
        c.personality_archetype = name.to_string();
        let flags = c.collect_background_flags();
        assert!(flags.contains(&expected.to_string()),
            "archetype '{}' should give flag '{}'", name, expected);
    }
}

#[test]
fn test_flags_all_core_values() {
    let values = [
        ("长生久视，寿与天齐", "value-immortality"),
        ("逍遥自在，不受束缚", "value-freedom"),
        ("登临绝顶，俯瞰众生", "value-power"),
        ("守护所爱，庇护一方", "value-protection"),
        ("探寻真理，穷究天道", "value-knowledge"),
        ("快意恩仇，不负此生", "value-justice"),
    ];
    for (label, expected) in &values {
        let mut c = sample_choices();
        c.core_value = label.to_string();
        let flags = c.collect_background_flags();
        assert!(flags.contains(&expected.to_string()),
            "core value '{}' should give flag '{}'", label, expected);
    }
}

// ═══════════════════════════════════════════════════════════════
// CreationChoices — to_prompt_text
// ═══════════════════════════════════════════════════════════════

#[test]
fn test_to_prompt_text_contains_all_fields() {
    let text = sample_choices().to_prompt_text();
    assert!(text.contains("孙若虚"));
    assert!(text.contains("寒门之后"));
    assert!(text.contains("静心读书"));
    assert!(text.contains("仙门正宗"));
    assert!(text.contains("仰慕其名"));
    assert!(text.contains("宗门大开山门"));
    assert!(text.contains("韩立式"));
    assert!(text.contains("超脱生死"));
}

#[test]
fn test_to_prompt_text_female_style() {
    let mut c = sample_choices();
    c.narrative_style = "female".into();
    c.dao_name = "青鸾".into();
    let text = c.to_prompt_text();
    assert!(text.contains("女频"));
    assert!(text.contains("青鸾"));
}

// ═══════════════════════════════════════════════════════════════
// WorldConfig — default / serialization / prompt section
// ═══════════════════════════════════════════════════════════════

#[test]
fn test_world_config_default_values() {
    let wc = WorldConfig::default();
    assert_eq!(wc.narrative_style, "male");
    assert_eq!(wc.era_name, "太虚历");
    assert_eq!(wc.continent_name, "东荒");
    assert_eq!(wc.sect_name, "青云宗");
    assert_eq!(wc.key_npc_name, "清虚道人");
    assert_eq!(wc.key_npc_role, "师尊");
    assert_eq!(wc.key_npc_realm, "元婴后期");
}

#[test]
fn test_world_config_prompt_section_male_style() {
    let wc = WorldConfig::default();
    let section = wc.to_system_prompt_section();
    assert!(section.contains("男频"));
    assert!(section.contains("侧重力量成长"));
    assert!(section.contains("青云宗"));
    assert!(section.contains("清虚道人"));
    assert!(section.contains("师尊"));
    assert!(section.contains("元婴后期"));
    assert!(section.contains("黑风岭散修"));
    assert!(!section.contains("女频"));
}

#[test]
fn test_world_config_prompt_section_female_style() {
    let mut wc = WorldConfig::default();
    wc.narrative_style = "female".into();
    let section = wc.to_system_prompt_section();
    assert!(section.contains("女频"));
    assert!(section.contains("侧重人物关系"));
}

#[test]
fn test_world_config_prompt_section_no_npc() {
    let mut wc = WorldConfig::default();
    wc.key_npc_name = "无".into();
    let section = wc.to_system_prompt_section();
    assert!(!section.contains("清虚道人"));
    assert!(!section.contains("师尊"));
    assert!(section.contains("独自一人"));
    assert!(section.contains("靠自己去结识他人"));
}

#[test]
fn test_world_config_prompt_section_no_threat() {
    let mut wc = WorldConfig::default();
    wc.nearby_threat_name = "".into();
    wc.nearby_threat_description = "".into();
    let section = wc.to_system_prompt_section();
    assert!(!section.contains("附近威胁"));
}

#[test]
fn test_world_config_prompt_section_rogue_cultivator() {
    let mut wc = WorldConfig::default();
    wc.sect_name = "无".into();
    wc.sect_type = "散修".into();
    wc.sect_scale = "无门无派".into();
    wc.player_title = "散修".into();
    wc.player_title_description = "一名漂泊无依的散修，无门无派，四海为家。".into();
    wc.starting_location_name = "黑风岭·废弃矿洞".into();
    wc.key_npc_name = "无".into();
    let section = wc.to_system_prompt_section();
    assert!(section.contains("散修"));
    assert!(section.contains("黑风岭"));
    assert!(section.contains("独自一人"));
}
