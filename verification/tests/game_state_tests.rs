use xgamengine::game_state::{
    CharacterNote, ConsumeItem, GameState, QuestStatus, QuestUpdate, RelationshipChange,
    RenameRelationship, StateChange, Technique,
};
use xgamengine::state::InventoryItem;

fn item(name: &str, item_type: &str, quantity: i32) -> InventoryItem {
    InventoryItem {
        name: name.into(),
        item_type: item_type.into(),
        quality: "普通".into(),
        quantity,
        effect: "".into(),
    }
}

fn apply(state: &mut GameState, change: StateChange) {
    assert!(state.can_apply_state_change(&change));
    state.apply_state_change(&change);
}

#[test]
fn realm_change_restores_qi_and_resets_progress() {
    let mut g = GameState::new_game(0);
    g.qi = 40;
    g.realm_progress_bits = 0.5f32.to_bits();
    apply(&mut g, StateChange { set_realm: Some("筑基期初期".into()), ..Default::default() });
    assert_eq!(g.realm, "筑基期初期");
    assert_eq!(g.qi, 100);
    assert_eq!(g.realm_progress_bits, 0);
    apply(&mut g, StateChange { set_realm: Some("仙人".into()), ..Default::default() });
    assert_eq!(g.realm, "筑基期初期");
}

#[test]
fn qi_stays_between_zero_and_maximum() {
    let mut g = GameState::new_game(0);
    apply(&mut g, StateChange { qi_delta: Some(-250), ..Default::default() });
    assert_eq!(g.qi, 0);
    apply(&mut g, StateChange { qi_delta: Some(30), ..Default::default() });
    assert_eq!(g.qi, 30);
    apply(&mut g, StateChange { qi_set: Some(500), ..Default::default() });
    assert_eq!(g.qi, 100);
    apply(&mut g, StateChange { max_qi_delta: Some(-200), ..Default::default() });
    assert_eq!(g.max_qi, 10);
    assert_eq!(g.qi, 10);
    apply(&mut g, StateChange { max_qi_delta: Some(50), qi_delta: Some(5), ..Default::default() });
    assert_eq!(g.max_qi, 60);
    assert_eq!(g.qi, 10);
}

#[test]
fn stones_and_stats_never_go_negative() {
    let mut g = GameState::new_game(0);
    apply(
        &mut g,
        StateChange {
            spirit_stones_delta: Some(-5),
            sword_art_delta: Some(-100),
            spell_art_delta: Some(2),
            dao_heart_delta: Some(-1),
            ..Default::default()
        },
    );
    assert_eq!(g.spirit_stones, 0);
    assert_eq!(g.stats.sword_art, 0);
    assert_eq!(g.stats.spell_art, 7);
    assert_eq!(g.stats.dao_heart, 5);
}

#[test]
fn items_merge_by_name_and_type() {
    let mut g = GameState::new_game(0);
    apply(
        &mut g,
        StateChange {
            add_items: Some(vec![item("疗伤丹", "丹药", 2), item("铁剑", "法器", 1), item("疗伤丹", "丹药", 3)]),
            add_techniques: Some(vec![Technique {
                name: "清心诀".into(),
                tier: "黄阶".into(),
                tech_type: "心法".into(),
                proficiency_bits: 0.1f32.to_bits(),
            }]),
            ..Default::default()
        },
    );
    assert_eq!(g.inventory.len(), 2);
    assert_eq!(g.inventory[0].quantity, 5);
    assert_eq!(g.techniques.len(), 2);
    apply(&mut g, StateChange { add_items: Some(vec![item("疗伤丹", "灵药", 1)]), ..Default::default() });
    assert_eq!(g.inventory.len(), 3);
    apply(&mut g, StateChange { remove_items: Some(vec!["疗伤丹".into()]), ..Default::default() });
    assert_eq!(g.inventory.len(), 1);
    assert_eq!(g.inventory[0].name, "铁剑");
}

#[test]
fn consumption_drops_exhausted_items() {
    let mut g = GameState::new_game(0);
    g.inventory = vec![item("回气丹", "丹药", 2), item("灵草", "材料", 1)];
    apply(
        &mut g,
        StateChange {
            consume_items: Some(vec![
                ConsumeItem { name: "回气丹".into(), quantity: 1 },
                ConsumeItem { name: "灵草".into(), quantity: 5 },
                ConsumeItem { name: "".into(), quantity: 1 },
            ]),
            ..Default::default()
        },
    );
    assert_eq!(g.inventory.len(), 1);
    assert_eq!(g.inventory[0].name, "回气丹");
    assert_eq!(g.inventory[0].quantity, 1);
}

#[test]
fn relationships_change_and_appear() {
    let mut g = GameState::new_game(0);
    apply(
        &mut g,
        StateChange {
            relationship_changes: Some(vec![
                RelationshipChange { name: "清虚道人".into(), affinity_delta: 500, new_role: Some("恩师".into()) },
                RelationshipChange { name: "赵四".into(), affinity_delta: -150, new_role: None },
                RelationshipChange { name: "".into(), affinity_delta: 5, new_role: None },
            ]),
            ..Default::default()
        },
    );
    assert_eq!(g.relationships.len(), 2);
    assert_eq!(g.relationships[0].affinity, 100);
    assert_eq!(g.relationships[0].role, "恩师");
    assert_eq!(g.relationships[1].name, "赵四");
    assert_eq!(g.relationships[1].role, "未知");
    assert_eq!(g.relationships[1].affinity, -100);
}

#[test]
fn renames_move_the_note_too() {
    let mut g = GameState::new_game(0);
    g.character_notes.push(CharacterNote { name: "张三".into(), note: "路人".into() });
    apply(
        &mut g,
        StateChange {
            rename_relationships: Some(vec![RenameRelationship {
                old_name: "清虚道人".into(),
                new_name: "清虚真人".into(),
            }]),
            ..Default::default()
        },
    );
    assert_eq!(g.relationships[0].name, "清虚真人");
    let names: Vec<&str> = g.character_notes.iter().map(|n| n.name.as_str()).collect();
    assert!(names.contains(&"清虚真人"));
    assert!(!names.contains(&"清虚道人"));
    assert!(names.contains(&"张三"));
    assert_eq!(g.character_notes.len(), 2);
}

#[test]
fn places_quests_flags_and_events() {
    let mut g = GameState::new_game(0);
    apply(
        &mut g,
        StateChange {
            new_locations: Some(vec!["后山".into(), "青云宗·传功殿".into(), "后山".into()]),
            set_current_location: Some("藏经阁".into()),
            quest_updates: Some(vec![QuestUpdate { name: "采药".into(), status: None, description: None }]),
            add_flag: Some("game-started".into()),
            ..Default::default()
        },
    );
    assert_eq!(g.locations, vec!["青云宗·外门洞府", "青云宗·传功殿", "后山", "藏经阁"]);
    assert_eq!(g.current_location, "藏经阁");
    assert_eq!(g.quests.len(), 1);
    assert!(g.quests[0].status == QuestStatus::Active);
    assert_eq!(g.quests[0].description, "");
    assert_eq!(g.flags, vec!["game-started"]);
    apply(
        &mut g,
        StateChange {
            quest_updates: Some(vec![QuestUpdate {
                name: "采药".into(),
                status: Some("completed".into()),
                description: Some("采得灵草".into()),
            }]),
            ..Default::default()
        },
    );
    assert!(g.quests[0].status == QuestStatus::Completed);
    assert_eq!(g.quests[0].description, "采得灵草");
    for i in 0..12 {
        apply(&mut g, StateChange { add_event: Some(format!("事件{}", i)), ..Default::default() });
    }
    assert_eq!(g.recent_events.len(), 10);
    assert_eq!(g.recent_events[0], "事件2");
    assert_eq!(g.recent_events[9], "事件11");
}

#[test]
fn changes_that_would_overflow_are_refused() {
    let g = GameState::new_game(0);
    let c = StateChange { qi_delta: Some(i32::MAX), ..Default::default() };
    assert!(!g.can_apply_state_change(&c));
    let ok = StateChange { qi_delta: Some(1), ..Default::default() };
    assert!(g.can_apply_state_change(&ok));
}

#[test]
fn empty_change_keeps_the_state() {
    let mut g = GameState::new_game(3);
    let before = format!("{:?}{:?}{}{}", g.stats, g.flags, g.qi, g.locations.len());
    apply(&mut g, StateChange::default());
    let after = format!("{:?}{:?}{}{}", g.stats, g.flags, g.qi, g.locations.len());
    assert_eq!(before, after);
}
