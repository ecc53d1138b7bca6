use xgamengine::prompt::builder::{build_opening_prompt, build_world_generation_prompt};
use xgamengine::state::{CreationChoices, WorldConfig};


fn test_choices() -> CreationChoices {
    CreationChoices {
        family_background: "寒门之后".into(),
        childhood_experience: "静心读书".into(),
        sect_category: "仙门正宗".into(),
        join_reason: "仰慕其名，主动拜入".into(),
        entry_method: "宗门大开山门，通过考核入外门".into(),
        demonic_stance: "势不两立，见之必除".into(),
        personality_archetype: "韩立".into(),
        core_value: "长生久视，寿与天齐".into(),
        altruism: "先救人，再取丹。人命关天。".into(),
        dao_quest: "超脱生死，得证长生".into(),
        player_name: "孙若虚".into(),
        dao_name: "".into(),
        narrative_style: "male".into(),
    }
}

// ═══════════════════════════════════════════════════════════════
// build_world_generation_prompt
// ═══════════════════════════════════════════════════════════════

#[test]
fn test_world_gen_prompt_contains_choices() {
    let prompt = build_world_generation_prompt(&test_choices());
    assert!(prompt.contains("孙若虚"));
    assert!(prompt.contains("寒门之后"));
    assert!(prompt.contains("静心读书"));
    assert!(prompt.contains("仙门正宗"));
    assert!(prompt.contains("仰慕其名"));
    assert!(prompt.contains("宗门大开山门"));
    assert!(prompt.contains("韩立式"));
    assert!(prompt.contains("超脱生死"));
}

#[test]
fn test_world_gen_prompt_contains_json_template() {
    let prompt = build_world_generation_prompt(&test_choices());
    assert!(prompt.contains("era_name"));
    assert!(prompt.contains("continent_name"));
    assert!(prompt.contains("sect_name"));
    assert!(prompt.contains("key_npc_name"));
    assert!(prompt.contains("nearby_threat_name"));
    assert!(prompt.contains("world_hook"));
}

#[test]
fn test_world_gen_prompt_has_sect_constraint() {
    let prompt = build_world_generation_prompt(&test_choices());
    // Should tell LLM not to change sect type
    assert!(prompt.contains("仙门正宗"));
}

#[test]
fn test_world_gen_prompt_female_style() {
    let mut c = test_choices();
    c.narrative_style = "female".into();
    let prompt = build_world_generation_prompt(&c);
    assert!(prompt.contains("女频"));
}

#[test]
fn test_world_gen_prompt_rogue_sect() {
    let mut c = test_choices();
    c.sect_category = "散修独行".into();
    let prompt = build_world_generation_prompt(&c);
    assert!(prompt.contains("散修独行"));
}

// ═══════════════════════════════════════════════════════════════
// build_opening_prompt
// ═══════════════════════════════════════════════════════════════

#[test]
fn test_opening_prompt_contains_player_info() {
    let wc = WorldConfig::default();
    let prompt = build_opening_prompt(
        &wc, "孙若虚", "", "寒门之后",
        "宗门大开山门，通过考核入外门",
    );
    assert!(prompt.contains("孙若虚"));
    assert!(prompt.contains("寒门之后"));
    assert!(prompt.contains("宗门"));
    assert!(prompt.contains("纯 JSON"));
    assert!(prompt.contains("\"narrative\""));
    assert!(prompt.contains("\"options\""));
}

#[test]
fn test_opening_prompt_has_dao_name() {
    let wc = WorldConfig::default();
    let prompt = build_opening_prompt(
        &wc, "柳青鸾", "慈心", "医道传家",
        "仙师路过，被收为记名弟子",
    );
    assert!(prompt.contains("柳青鸾"));
    assert!(prompt.contains("慈心"));
}
