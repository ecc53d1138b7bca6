use xgamengine::engine::{Engine, EngineOutput, CUSTOM_OPTION};
use xgamengine::game_state::{QuestStatus, Quest, Relationship, StateChange};
use xgamengine::llm::client::{LlmClient, TokenUsage};
use xgamengine::prompt::builder::{parse_structured_response, JsonReply, StructuredResponse};
use xgamengine::state::{CreationChoices, InventoryItem, WorldConfig};

fn engine() -> Engine {
    Engine::new("templates".into(), LlmClient::new("SECRET-REDACTED".into()), 1_700_000_000)
}

fn output(options: Vec<&str>) -> EngineOutput {
    EngineOutput {
        narrative: "n".into(),
        meta_text: None,
        options: options.into_iter().map(|s| s.to_string()).collect(),
        scene_type: None,
        state_changes: None,
        round: 3,
        had_fallback: false,
        tokens_this_turn: 7,
    }
}

#[test]
fn custom_option_is_appended_last() {
    let o = output(vec!["a", "b", "c", "d"]).with_custom_option();
    assert_eq!(o.options.len(), 5);
    assert_eq!(o.options[4], CUSTOM_OPTION);
    assert_eq!(o.options[4], "✍ 自由输入");
    assert_eq!(o.round, 3);
    let e = output(vec![]).with_custom_option();
    assert_eq!(e.options, vec!["✍ 自由输入"]);
}

#[test]
fn new_engine_starts_in_the_default_world() {
    let e = engine();
    assert_eq!(e.state.id, "qingyun-1700000000");
    assert_eq!(e.state.sect, "青云宗");
    assert_eq!(e.state.current_location, "青云宗·外门洞府");
    assert_eq!(e.state.locations, vec!["青云宗·外门洞府"]);
    assert_eq!(e.state.relationships.len(), 1);
    assert_eq!(e.state.relationships[0].name, "清虚道人");
    assert_eq!(e.state.relationships[0].affinity, 20);
    assert_eq!(e.state.character_notes.len(), 1);
    assert_eq!(e.state.flags, vec!["game-started", "player-name-无名"]);
    assert_eq!(e.npc, "qingxu");
    assert_eq!(e.window.round_count(), 0);
    assert_eq!(e.client.api_key(), "SECRET-REDACTED");
}

fn rogue_choices() -> CreationChoices {
    CreationChoices {
        family_background: "乞儿流浪".into(),
        childhood_experience: "市井谋生".into(),
        sect_category: "散修独行".into(),
        join_reason: "机缘巧合，误打误撞".into(),
        entry_method: "落崖奇遇，得遇洞府".into(),
        demonic_stance: "魔道亦有可取之处，手段不重要，结果才重要".into(),
        personality_archetype: "白小纯".into(),
        core_value: "逍遥自在，不受束缚".into(),
        altruism: "救醒他，了解情况后再决定。".into(),
        dao_quest: "只为自由，不受束缚".into(),
        player_name: "云无痕".into(),
        dao_name: "".into(),
        narrative_style: "male".into(),
    }
}

#[test]
fn creation_without_mentor_has_no_relationships() {
    let mut e = engine();
    let mut wc = WorldConfig::default();
    wc.key_npc_name = "无".into();
    wc.sect_name = "无".into();
    wc.starting_location_name = "黑风岭·废弃矿洞".into();
    let choices = rogue_choices();
    e.init_from_creation(&choices, wc, 42);
    assert!(e.state.relationships.is_empty());
    assert!(e.state.character_notes.is_empty());
    assert!(e.state.techniques.is_empty());
    assert_eq!(e.state.current_location, "黑风岭·废弃矿洞");
    assert_eq!(e.state.stats, choices.calculate_initial_stats());
    assert_eq!(e.state.spirit_stones, choices.calculate_initial_spirit_stones());
    assert_eq!(e.state.flags[0], "game-started");
    assert_eq!(e.state.flags[1], "player-name-云无痕");
    let bg = choices.collect_background_flags();
    assert_eq!(e.state.flags.len(), 2 + bg.len());
    assert_eq!(e.npc, "无");
    assert_eq!(e.state.id, "qingyun-42");
}

#[test]
fn creation_with_mentor_records_the_note() {
    let mut e = engine();
    let wc = WorldConfig::default();
    e.init_from_creation(&rogue_choices(), wc, 1);
    assert_eq!(e.state.relationships.len(), 1);
    assert_eq!(e.state.relationships[0].role, "师尊");
    assert_eq!(e.state.character_notes[0].name, "清虚道人");
    assert_eq!(e.npc, "清虚道人");
}

#[test]
fn fallback_options_follow_the_state() {
    let mut e = engine();
    assert_eq!(
        e.generate_fallback_options(),
        vec!["潜心修炼功法", "出关探索外界", "寻找可用资源", "拜访清虚道人"]
    );
    e.state.qi = 10;
    e.state.current_location = "坊市".into();
    e.state.inventory.push(InventoryItem {
        name: "回气丹".into(),
        item_type: "丹药".into(),
        quality: "普通".into(),
        quantity: 1,
        effect: "".into(),
    });
    e.state.relationships[0].affinity = 80;
    assert_eq!(
        e.generate_fallback_options(),
        vec!["打坐恢复灵力", "浏览坊市摊位", "服用回气丹", "与清虚道人深谈"]
    );
    e.state.current_location = "传功殿".into();
    e.state.inventory[0].item_type = "法宝".into();
    e.state.relationships = vec![Relationship { name: "赵四".into(), role: "对手".into(), affinity: -3 }];
    assert_eq!(
        e.generate_fallback_options(),
        vec!["打坐恢复灵力", "向师尊请教", "整理随身物品", "尝试缓和与赵四的关系"]
    );
    e.state.relationships.clear();
    e.state.current_location = "荒野".into();
    let opts = e.generate_fallback_options();
    assert_eq!(opts[1], "继续探索此处");
    assert_eq!(opts[3], "结识新的道友");
}

fn parsed(options: Vec<&str>, meta: Option<&str>) -> StructuredResponse {
    StructuredResponse {
        narrative: "你醒来了。".into(),
        meta_text: meta.map(|s| s.to_string()),
        options: options.into_iter().map(|s| s.to_string()).collect(),
        scene_type: None,
    }
}

#[test]
fn opening_output_falls_back_when_reply_has_no_options() {
    let o = Engine::opening_output(parsed(vec![], None), 99);
    assert!(o.had_fallback);
    assert_eq!(o.options, vec!["开始修炼", "探索周围环境", "寻找师尊", "检查自身状态", "✍ 自由输入"]);
    assert_eq!(o.meta_text.as_deref(), Some("你准备如何开始你的修仙之旅？"));
    assert_eq!(o.round, 0);
    assert_eq!(o.tokens_this_turn, 99);
    let o2 = Engine::opening_output(parsed(vec!["a"], Some("m")), 1);
    assert!(!o2.had_fallback);
    assert_eq!(o2.options, vec!["a", "✍ 自由输入"]);
    assert_eq!(o2.meta_text.as_deref(), Some("m"));
}

#[test]
fn legacy_opening_names_the_sect() {
    let e = engine();
    let s = e.legacy_opening_input();
    assert!(s.contains("刚刚拜入青云宗。"));
    assert!(s.ends_with("并引入我的师尊清虚道人。"));
}

#[test]
fn turn_inputs_carry_the_format_reminders() {
    assert!(Engine::turn_input("打坐").starts_with("打坐\n\n（每次回复必须输出纯 JSON"));
    assert!(Engine::turn_input("打坐").contains("{\"narrative\":\"...\""));
    assert!(Engine::retry_input("打坐").contains("【重要：你上次回复格式错误。"));
}

#[test]
fn retry_reply_is_used_only_when_it_helps() {
    let first = Engine::prefer_retry(parsed(vec![], None), Some(parsed(vec!["x"], None)));
    assert_eq!(first.options, vec!["x"]);
    let kept = Engine::prefer_retry(parsed(vec!["a"], None), Some(parsed(vec!["x"], None)));
    assert_eq!(kept.options, vec!["a"]);
    let none = Engine::prefer_retry(parsed(vec![], None), Some(parsed(vec![], None)));
    assert!(none.options.is_empty());
    assert!(Engine::missing_narrative(&StructuredResponse {
        narrative: "".into(),
        meta_text: None,
        options: vec![],
        scene_type: None
    })
    .is_some());
}

#[test]
fn a_turn_updates_state_chronicle_and_window() {
    let mut e = engine();
    e.begin_turn();
    assert_eq!(e.state.round, 1);
    let changes = StateChange {
        qi_delta: Some(-30),
        add_event: Some("初入洞府".into()),
        add_flag: Some("entered-inner-sect".into()),
        ..Default::default()
    };
    assert!(e.can_finish_turn(&changes));
    let out = e.finish_turn("打坐", "{raw}", parsed(vec!["继续"], None), changes, 120);
    assert_eq!(e.state.qi, 70);
    assert_eq!(e.state.last_narrative, "你醒来了。");
    assert_eq!(e.window.round_count(), 1);
    assert_eq!(e.chronicle.volumes.len(), 1);
    assert_eq!(e.chronicle.volumes[0].end_round, 1);
    assert_eq!(out.round, 1);
    assert_eq!(out.options, vec!["继续", "✍ 自由输入"]);
    assert!(!out.had_fallback);
    assert_eq!(out.tokens_this_turn, 120);
    assert!(out.state_changes.is_some());
}

#[test]
fn a_streamed_turn_only_records_the_exchange() {
    let mut e = engine();
    e.begin_turn();
    let out = e.finish_streaming_turn("出关", "raw", parsed(vec![], None), 5);
    assert!(!out.had_fallback);
    assert_eq!(out.options, vec!["✍ 自由输入"]);
    assert_eq!(e.state.qi, 100);
    assert_eq!(e.window.round_count(), 1);
    assert_eq!(e.chronicle.volumes.len(), 0);
}

#[test]
fn recent_turn_log_lists_the_last_exchanges() {
    let mut e = engine();
    e.state.round = 3;
    e.window.append_turn("打坐", "{\"narrative\":\"灵气入体\"}");
    e.window.append_turn("出关", "外面阳光正好。");
    let decoded = vec![
        None,
        Some(JsonReply { narrative: Some("灵气入体".into()), meta_text: None, options: None }),
        None,
        None,
    ];
    let log = e.recent_turn_log(&decoded);
    assert_eq!(
        log,
        "- 回合1: 玩家选择 \"打坐\" → 天道叙事: \"灵气入体\"\n- 回合2: 玩家选择 \"出关\" → 天道叙事: \"外面阳光正好。\"\n"
    );
}

#[test]
fn exported_document_has_every_part() {
    let mut e = engine();
    e.state.quests.push(Quest { name: "采药".into(), status: QuestStatus::Active, description: "后山采药".into() });
    e.window.append_turn("打坐", "灵气入体。\n---\n[选项]\n1. 继续");
    e.window.append_turn("无回应", "");
    let decoded = vec![None, None, None, None];
    let raw = e.window.get_context_messages();
    let parsed_first = parse_structured_response(&raw[1].content, None);
    assert_eq!(parsed_first.narrative, "灵气入体。");
    let doc = e.export_full_document(&decoded, "0", &vec!["30".to_string()]);
    assert!(doc.starts_with("# 修仙录\n\n**修士**: 无名  |  **境界**: 练气期初期  |  **回合**: 0  |  **灵力**: 100/100\n\n"));
    assert!(doc.contains("*史书尚未着墨，仙途方才启程。*"));
    assert!(doc.contains("## 修仙录\n\n> 打坐\n\n灵气入体。\n\n---\n\n> 无回应\n\n\n\n---\n\n## 当前状态\n\n"));
    assert!(doc.contains("  - 青云吐纳术 (黄阶 心法, 熟练:30%)\n"));
    assert!(doc.contains("  - [进行中] 采药: 后山采药\n"));
    assert!(doc.ends_with("  - 清虚道人 (师尊) 好感: 20\n"));
}

#[test]
fn every_fifth_round_is_saved() {
    let mut e = engine();
    assert!(e.autosave_due());
    e.state.round = 4;
    assert!(!e.autosave_due());
    e.state.round = 10;
    assert!(e.autosave_due());
}

#[test]
fn scholar_creation_sets_flags_and_dao_heart() {
    let choices = CreationChoices {
        family_background: "书香门第".into(),
        childhood_experience: "拜入道观".into(),
        sect_category: "佛门禅院".into(),
        join_reason: "为报恩情，被恩人引入".into(),
        entry_method: "散修收留，入门为杂役".into(),
        demonic_stance: "道不同不相为谋，但尊重其选择".into(),
        personality_archetype: "李长寿".into(),
        core_value: "守护所爱，庇护一方".into(),
        altruism: "先救人，再取丹。人命关天。".into(),
        dao_quest: "探寻真理，穷究天道".into(),
        player_name: "柳青鸾".into(),
        dao_name: "慈心".into(),
        narrative_style: "female".into(),
    };
    let mut e = engine();
    e.init_from_creation(&choices, WorldConfig::default(), 0);
    assert!(!e.state.sect.is_empty());
    assert!(!e.state.current_location.is_empty());
    assert_eq!(e.state.round, 0);
    assert!(e.state.stats.dao_heart > 10);
    assert!(e.state.flags.iter().any(|f| f == "scholar-born"));
    let opening = Engine::opening_output(
        StructuredResponse { narrative: "n".into(), meta_text: None, options: vec![], scene_type: None },
        0,
    );
    assert!(opening.options.len() >= 4);
}

#[test]
fn streamed_reply_is_recorded_without_the_chronicle() {
    let mut e = engine();
    let changes = StateChange { qi_delta: Some(-20), add_event: Some("出关".into()), ..Default::default() };
    assert!(e.can_record_streamed_reply(&changes));
    e.record_streamed_reply("出关", "你走出洞府。", &changes);
    assert_eq!(e.state.qi, 80);
    assert_eq!(e.state.last_narrative, "你走出洞府。");
    assert_eq!(e.state.recent_events, vec!["出关"]);
    let msgs = e.window.get_context_messages();
    assert_eq!(msgs.len(), 2);
    assert_eq!(msgs[1].content, "你走出洞府。");
    assert_eq!(e.chronicle.current_events().len(), 0);
    let bad = StateChange { qi_delta: Some(i32::MAX), ..Default::default() };
    assert!(!e.can_record_streamed_reply(&bad));
}

#[test]
fn retries_and_token_counts() {
    assert!(Engine::wants_retry(&parsed(vec![], None)));
    assert!(!Engine::wants_retry(&parsed(vec!["a"], None)));
    let u = TokenUsage { prompt_tokens: 1, completion_tokens: 2, total_tokens: 30 };
    assert_eq!(Engine::count_tokens(12, &u), 42);
}
