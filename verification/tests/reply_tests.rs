use xgamengine::game_state::{GameState, Quest, QuestStatus, QuestUpdate, StateChange, Technique};
use xgamengine::memory::ConversationWindow;
use xgamengine::prompt::builder::{
    build_messages, build_system_prompt, build_system_prompt_legacy, detect_scene_type,
    json_candidate, parse_structured_response, structured_from_reply, JsonReply,
    FORMAT_INSTRUCTION,
};
use xgamengine::prompt::loader::render_template;
use xgamengine::prompt::vetting::{
    item_of_entry, strip_json_fences, technique_of_entry, vet_state_change, world_config_from_decoded,
    ItemEntry, TechniqueEntry,
};
use xgamengine::scenes::protocol::{scene_prompt_suffix, SCENE_TYPES};
use xgamengine::state::{CreationChoices, InventoryItem, WorldConfig};

fn reply(narrative: Option<&str>, meta: Option<&str>, options: Option<Vec<&str>>) -> JsonReply {
    JsonReply {
        narrative: narrative.map(|s| s.to_string()),
        meta_text: meta.map(|s| s.to_string()),
        options: options.map(|v| v.into_iter().map(|s| s.to_string()).collect()),
    }
}

#[test]
fn json_reply_keeps_first_four_nonempty_options() {
    let r = reply(Some("你在洞府中闭关修炼。"), Some(""), Some(vec!["打坐", "", "出关", "拜访师尊", "查看储物袋", "离开"]));
    let parsed = parse_structured_response("ignored", Some(r));
    assert_eq!(parsed.narrative, "你在洞府中闭关修炼。");
    assert_eq!(parsed.meta_text, None);
    assert_eq!(parsed.options, vec!["打坐", "出关", "拜访师尊", "查看储物袋"]);
    assert_eq!(parsed.scene_type.as_deref(), Some("cultivation"));
}

#[test]
fn json_reply_without_narrative_is_refused() {
    assert!(structured_from_reply(&reply(None, Some("x"), None)).is_none());
    assert!(structured_from_reply(&reply(Some(""), None, None)).is_none());
    let r = structured_from_reply(&reply(Some("山风呼啸"), Some("你要如何？"), None)).unwrap();
    assert_eq!(r.meta_text.as_deref(), Some("你要如何？"));
    assert!(r.options.is_empty());
    assert_eq!(r.scene_type, None);
}

#[test]
fn empty_json_narrative_falls_back_to_text_format() {
    let raw = "师尊缓缓睁眼。\n---\n[元文本]\n你要如何回应？\n[选项]\n1. 行礼\n2. 沉默";
    let parsed = parse_structured_response(raw, Some(reply(Some(""), None, Some(vec!["a"]))));
    assert_eq!(parsed.narrative, "师尊缓缓睁眼。");
    assert_eq!(parsed.meta_text.as_deref(), Some("你要如何回应？"));
    assert_eq!(parsed.options, vec!["行礼", "沉默"]);
}

#[test]
fn legacy_text_format_sections() {
    let raw = "你来到坊市，四处都在交易丹药。\n---\n[元文本]\n接下来做什么？\n[选项]\n1. 买丹药\n2、卖灵草\n三、打听消息\n- 离开坊市\n**5.** 闲逛";
    let parsed = parse_structured_response(raw, None);
    assert_eq!(parsed.narrative, "你来到坊市，四处都在交易丹药。");
    assert_eq!(parsed.meta_text.as_deref(), Some("接下来做什么？"));
    assert_eq!(parsed.options, vec!["买丹药", "卖灵草", "打听消息", "离开坊市"]);
    assert_eq!(parsed.scene_type.as_deref(), Some("trade"));
}

#[test]
fn legacy_bold_options_and_bare_separator() {
    let raw = "剑光一闪，你出剑迎战。---[选项]\n**1.** 乘胜追击\n**2** 收剑后退";
    let parsed = parse_structured_response(raw, None);
    assert_eq!(parsed.narrative, "剑光一闪，你出剑迎战。");
    assert_eq!(parsed.meta_text, None);
    assert_eq!(parsed.options, vec!["乘胜追击", "收剑后退"]);
    assert_eq!(parsed.scene_type.as_deref(), Some("combat"));
}

#[test]
fn legacy_unnumbered_lines_become_options() {
    let raw = "你走进一处陌生的秘境。\n---\n[选项]\n继续深入\n[提示]\n---\n原路返回\nx";
    let parsed = parse_structured_response(raw, None);
    assert_eq!(parsed.options, vec!["继续深入", "原路返回"]);
    assert_eq!(parsed.scene_type.as_deref(), Some("exploration"));
}

#[test]
fn legacy_without_separator_is_all_narrative() {
    let parsed = parse_structured_response("  只有叙事  ", None);
    assert_eq!(parsed.narrative, "只有叙事");
    assert!(parsed.options.is_empty());
    assert_eq!(parsed.meta_text, None);
    assert_eq!(parsed.scene_type, None);
}

#[test]
fn scene_detection_order() {
    assert_eq!(detect_scene_type("他在辩论中说服了长老").as_deref(), Some("debate"));
    assert_eq!(detect_scene_type("突破之际有人出剑").as_deref(), Some("cultivation"));
    assert_eq!(detect_scene_type("平静的一天"), None);
    for t in SCENE_TYPES.iter() {
        assert!(!scene_prompt_suffix(t).is_empty());
    }
    assert_eq!(scene_prompt_suffix("combat"), "当前为战斗场景。请侧重招式描述、攻防转换、灵力消耗与胜负判定。");
    assert_eq!(scene_prompt_suffix("unknown"), "");
}

#[test]
fn json_candidate_boundaries() {
    assert_eq!(json_candidate("```json\n{\"narrative\":\"x\"}\n```").as_deref(), Some("{\"narrative\":\"x\"}"));
    assert_eq!(json_candidate("前言 {\"a\":{\"b\":1}} 后记").as_deref(), Some("{\"a\":{\"b\":1}}"));
    assert_eq!(json_candidate("没有对象"), None);
    assert_eq!(json_candidate("} {"), None);
}

#[test]
fn json_fences_are_removed() {
    assert_eq!(strip_json_fences("  ```json\n{\"era_name\":\"太虚历\"}\n```  "), "{\"era_name\":\"太虚历\"}");
    assert_eq!(strip_json_fences("```\n{}\n``````"), "{}");
    assert_eq!(strip_json_fences("{\"a\":1}"), "{\"a\":1}");
}

fn technique(name: &str) -> Technique {
    Technique { name: name.into(), tier: "黄阶".into(), tech_type: "心法".into(), proficiency_bits: 0.1f32.to_bits() }
}

fn item(name: &str) -> InventoryItem {
    InventoryItem { name: name.into(), item_type: "杂物".into(), quality: "普通".into(), quantity: 1, effect: "".into() }
}

#[test]
fn vetting_drops_what_is_known_and_clamps_deltas() {
    let mut state = GameState::new_game(0);
    state.inventory.push(item("疗伤丹"));
    let change = StateChange {
        add_techniques: Some(vec![technique("青云吐纳术"), technique("清心诀")]),
        add_items: Some(vec![item("疗伤丹")]),
        new_locations: Some(vec!["青云宗·外门洞府".into(), "后山".into()]),
        add_flag: Some("game-started".into()),
        sword_art_delta: Some(12),
        dao_heart_delta: Some(-9),
        spell_art_delta: Some(3),
        qi_delta: Some(-40),
        ..Default::default()
    };
    let r = vet_state_change(Some(change), &state);
    let techs: Vec<String> = r.add_techniques.unwrap().into_iter().map(|t| t.name).collect();
    assert_eq!(techs, vec!["清心诀"]);
    assert!(r.add_items.is_none());
    assert_eq!(r.new_locations, Some(vec!["后山".to_string()]));
    assert_eq!(r.add_flag, None);
    assert_eq!(r.sword_art_delta, Some(5));
    assert_eq!(r.dao_heart_delta, Some(-5));
    assert_eq!(r.spell_art_delta, Some(3));
    assert_eq!(r.qi_delta, Some(-40));
}

#[test]
fn vetting_nothing_gives_no_change() {
    let state = GameState::new_game(0);
    let r = vet_state_change(None, &state);
    assert!(r.add_techniques.is_none() && r.add_event.is_none() && r.qi_delta.is_none());
}

fn test_creation() -> CreationChoices {
    CreationChoices {
        family_background: "寒门之后".into(),
        childhood_experience: "静心读书".into(),
        sect_category: "仙门正宗".into(),
        join_reason: "仰慕其名，主动拜入".into(),
        entry_method: "宗门大开山门，通过考核入外门".into(),
        demonic_stance: "势不两立，见之必除".into(),
        personality_archetype: "韩立".into(),
        core_value: "长生久视，寿与天齐".into(),
        altruism: "先救人，再取丹。人命关天。".into(),
        dao_quest: "超脱生死，得证长生".into(),
        player_name: "孙若虚".into(),
        dao_name: "".into(),
        narrative_style: "male".into(),
    }
}

#[test]
fn generated_world_keeps_the_answers() {
    let mut generated = WorldConfig::default();
    generated.era_name = "洪荒纪".into();
    generated.narrative_style = "female".into();
    generated.sect_category = "魔道宗门".into();
    let wc = world_config_from_decoded(Some(generated), &test_creation()).expect("decoded");
    assert_eq!(wc.era_name, "洪荒纪");
    assert_eq!(wc.narrative_style, "male");
    assert_eq!(wc.sect_category, "仙门正宗");
    assert_eq!(wc.demonic_stance, "势不两立，见之必除");
    assert_eq!(wc.personality_archetype, "韩立");
    assert!(wc.background_flags.contains(&"humble-origin".to_string()));
    assert!(world_config_from_decoded(None, &test_creation()).is_none());
}

#[test]
fn template_placeholders_are_rendered() {
    let out = render_template("你好{{ name }}，{{unknown}}与{{ other }}", &[("name", "孙若虚")]);
    assert_eq!(out, "你好孙若虚，{{unknown}}与{{other}}");
    assert_eq!(render_template("无占位符 {x}", &[("x", "y")]), "无占位符 {x}");
    assert_eq!(render_template("{{a}}{{a}}", &[("a", "1"), ("a", "2")]), "11");
}

#[test]
fn system_prompt_is_assembled_in_order() {
    let wc = WorldConfig::default();
    let prompt = build_system_prompt("规则:\n{{state-narrative}}", "守则", "【角色状态】", &wc);
    let section = wc.to_system_prompt_section();
    let expected = format!("{}\n\n规则:\n【角色状态】\n\n守则\n\n{}", section, FORMAT_INSTRUCTION);
    assert_eq!(prompt, expected);
    let legacy = build_system_prompt_legacy("{{ state-narrative }}", "守则", "清虚道人", "状态");
    assert_eq!(legacy, format!("状态\n\n守则\n\n清虚道人\n\n{}", FORMAT_INSTRUCTION));
}

#[test]
fn messages_wrap_the_context() {
    let mut w = ConversationWindow::new();
    w.append_turn("打坐", "你开始打坐。");
    let msgs = build_messages("系统", &w, "出关");
    let roles: Vec<&str> = msgs.iter().map(|m| m.role.as_str()).collect();
    assert_eq!(roles, vec!["system", "user", "assistant", "user"]);
    assert_eq!(msgs[0].content, "系统");
    assert_eq!(msgs[3].content, "出关");
}

#[test]
fn names_stand_for_default_techniques_and_items() {
    let t = technique_of_entry(TechniqueEntry::Name("清心诀".into()));
    assert_eq!((t.name.as_str(), t.tier.as_str(), t.tech_type.as_str()), ("清心诀", "黄阶", "心法"));
    assert_eq!(t.proficiency_bits, 0.1f32.to_bits());
    let i = item_of_entry(ItemEntry::Name("灵草".into()));
    assert_eq!((i.item_type.as_str(), i.quality.as_str(), i.quantity, i.effect.as_str()), ("杂物", "普通", 1, ""));
    let full = item_of_entry(ItemEntry::Full(item("铁剑")));
    assert_eq!(full.item_type, "杂物");
    assert_eq!(full.name, "铁剑");
}

#[test]
fn vetting_skips_updates_of_known_quests() {
    let mut state = GameState::new_game(0);
    state.quests.push(Quest { name: "q1".into(), status: QuestStatus::Active, description: "".into() });
    let change = StateChange {
        quest_updates: Some(vec![
            QuestUpdate { name: "q1".into(), status: Some("completed".into()), description: None },
            QuestUpdate { name: "q2".into(), status: None, description: Some("新任务".into()) },
        ]),
        ..Default::default()
    };
    let r = vet_state_change(Some(change), &state);
    let names: Vec<String> = r.quest_updates.unwrap().into_iter().map(|q| q.name).collect();
    assert_eq!(names, vec!["q2"]);
    let only_known = StateChange {
        quest_updates: Some(vec![QuestUpdate { name: "q1".into(), status: Some("completed".into()), description: None }]),
        ..Default::default()
    };
    let r2 = vet_state_change(Some(only_known), &state);
    assert!(r2.quest_updates.map_or(true, |v| v.iter().all(|q| q.name != "q1")));
}

#[test]
fn single_placeholder_is_replaced_by_its_value() {
    assert_eq!(render_template("{{ state-narrative }}", &[("state-narrative", "状态")]), "状态");
    assert_eq!(render_template("{{x}}", &[]), "{{x}}");
}
