use xgamengine::chronicle::Chronicle;
use xgamengine::game_state::StateChange;

#[test]
fn test_chronicle_empty() {
    let c = Chronicle::new();
    assert_eq!(c.volumes.len(), 0);
    assert!(c.to_markdown().contains("尚未着墨"));
}

#[test]
fn test_record_and_close() {
    let mut c = Chronicle::new();
    let changes = StateChange {
        add_event: Some("发现灵石矿脉".into()),
        add_flag: Some("breakthrough-baset".into()),
        ..Default::default()
    };
    let flags = vec!["breakthrough-baset".to_string()];
    c.record_round(20, "筑基期初期", &changes, &flags);
    assert_eq!(c.volumes.len(), 1);
    assert_eq!(c.volumes[0].end_round, 20);
    assert_eq!(c.volumes[0].realm_at_end, "筑基期初期");
}

#[test]
fn record_without_trigger_keeps_volume_open() {
    let mut c = Chronicle::new();
    let changes = StateChange { add_event: Some("拜见师尊".into()), ..Default::default() };
    c.record_round(1, "练气期初期", &changes, &[]);
    assert_eq!(c.volume_count(), 0);
    assert_eq!(c.current_events().len(), 1);
    assert_eq!(c.current_events()[0], "拜见师尊");
    assert_eq!(c.rounds_since_last_volume(), 1);
}

#[test]
fn volume_closes_after_thirty_rounds() {
    let mut c = Chronicle::new();
    let changes = StateChange { add_event: Some("修炼".into()), ..Default::default() };
    for round in 1..=29 {
        c.record_round(round, "练气期初期", &changes, &[]);
        assert_eq!(c.volume_count(), 0);
    }
    c.record_round(30, "练气期中期", &changes, &[]);
    assert_eq!(c.volume_count(), 1);
    assert_eq!(c.volumes[0].title, "第1卷");
    assert_eq!(c.volumes[0].start_round, 1);
    assert_eq!(c.volumes[0].end_round, 30);
    assert_eq!(c.volumes[0].key_events.len(), 30);
    assert_eq!(c.current_start_round(), 31);
}

#[test]
fn summary_prompt_only_for_existing_volume() {
    let mut c = Chronicle::new();
    assert!(c.build_summary_prompt(0).is_none());
    let changes = StateChange { add_event: Some("发现灵石矿脉".into()), ..Default::default() };
    let flags = vec!["entered-inner-sect".to_string()];
    c.record_round(5, "练气期后期", &changes, &flags);
    let prompt = c.build_summary_prompt(0).expect("volume 0 exists");
    assert!(prompt.contains("第1卷"));
    assert!(prompt.contains("发现灵石矿脉"));
    assert!(c.build_summary_prompt(1).is_none());
    c.set_volume_summary(0, "初入仙门");
    assert_eq!(c.volumes[0].summary, "初入仙门");
    assert!(c.to_markdown().contains("初入仙门"));
}
