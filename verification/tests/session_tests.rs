use xgamengine::engine::EngineOutput;
use xgamengine::game_state::GameState;
use xgamengine::llm::client::{
    classify_sse_line, LlmClient, SseChunk, SseDecoder, SseEvent, SseLine, TokenUsage,
};
use xgamengine::memory::{estimate_tokens, ConversationWindow, Message, COMPACTION_THRESHOLD};
use xgamengine::prompt::builder::StructuredResponse;
use xgamengine::tui::app::{
    MenuChoice, option_label, prompt_text, spinner_glyph, spinner_text, tick_spinner, AppMode, AppState,
};

#[test]
fn token_estimate_examples() {
    assert_eq!(estimate_tokens(""), 0);
    assert_eq!(estimate_tokens("修仙"), 1);
    assert_eq!(estimate_tokens("hello world"), 1);
    assert_eq!(estimate_tokens("abc, 你好!"), 2);
    assert_eq!(COMPACTION_THRESHOLD, 900_000);
}

#[test]
fn window_context_and_compaction() {
    let mut w = ConversationWindow::new();
    for i in 0..40 {
        w.append_turn(&format!("行动{}", i), &format!("叙事{}", i));
    }
    assert_eq!(w.round_count(), 40);
    assert_eq!(w.get_context_messages().len(), 80);
    assert!(!w.needs_compaction());
    let request = w.prepare_compaction().expect("enough history");
    assert!(request.starts_with("请将以下修仙游戏对话历史压缩"));
    assert!(request.contains("[user]: 行动0\n[assistant]: 叙事0\n"));
    assert!(request.contains("[assistant]: 叙事9\n"));
    assert!(!request.contains("行动10"));
    w.apply_compaction("前情提要");
    let ctx = w.get_context_messages();
    assert_eq!(ctx.len(), 61);
    assert_eq!(ctx[0].role, "system");
    assert_eq!(ctx[0].content, "【剧情回顾】\n前情提要");
    assert_eq!(ctx[1].content, "行动10");
    assert_eq!(w.round_count(), 40);
}

#[test]
fn short_window_is_not_compacted() {
    let mut w = ConversationWindow::new();
    w.append_turn("a", "b");
    assert!(w.prepare_compaction().is_none());
    w.apply_compaction("x");
    assert!(w.summary().is_none());
    assert_eq!(w.messages().len(), 2);
    let m = Message::new("user", "hi");
    assert_eq!(m.content, "hi");
}

#[test]
fn token_usage_sums() {
    let a = TokenUsage { prompt_tokens: 1, completion_tokens: 2, total_tokens: 3 };
    let b = TokenUsage { prompt_tokens: 10, completion_tokens: 20, total_tokens: 30 };
    let c = a.add(b);
    assert_eq!(c.total(), 33);
    let mut d = TokenUsage::default();
    d.add_assign(c);
    assert_eq!((d.prompt_tokens, d.completion_tokens, d.total_tokens), (11, 22, 33));
    let client = LlmClient::new("k".into());
    assert_eq!(client.api_key(), "k");
}

#[test]
fn sse_lines_are_classified() {
    assert!(matches!(classify_sse_line(""), SseLine::Skip));
    assert!(matches!(classify_sse_line(": keep-alive"), SseLine::Skip));
    assert!(matches!(classify_sse_line("event: x"), SseLine::Skip));
    assert!(matches!(classify_sse_line("data: [DONE]"), SseLine::Finished));
    match classify_sse_line("data: {\"a\":1}") {
        SseLine::Data(d) => assert_eq!(d, "{\"a\":1}"),
        _ => panic!("expected data"),
    }
}

#[test]
fn sse_decoder_splits_lines_and_tracks_usage() {
    let mut dec = SseDecoder::new();
    dec.push_text("data: {\"x\"");
    assert!(dec.next_line().is_none());
    dec.push_text(":1}\r\n\ndata: [DONE]\n");
    match dec.next_line() {
        Some(SseLine::Data(d)) => assert_eq!(d, "{\"x\":1}"),
        _ => panic!("expected data"),
    }
    assert!(matches!(dec.next_line(), Some(SseLine::Skip)));
    assert!(matches!(dec.next_line(), Some(SseLine::Finished)));
    assert!(dec.next_line().is_none());
    let step = dec.on_data(&SseChunk {
        content: Some("你好".into()),
        prompt_tokens: Some(5),
        completion_tokens: None,
        total_tokens: Some(9),
        finish_reason: Some("".into()),
    });
    assert_eq!(step.content.as_deref(), Some("你好"));
    assert!(!step.finished);
    let step2 = dec.on_data(&SseChunk {
        content: None,
        prompt_tokens: None,
        completion_tokens: None,
        total_tokens: None,
        finish_reason: Some("stop".into()),
    });
    assert!(step2.finished);
    match dec.done_event() {
        SseEvent::Done { usage: Some(u) } => {
            assert_eq!((u.prompt_tokens, u.completion_tokens, u.total_tokens), (5, 0, 9))
        },
        _ => panic!("expected usage"),
    }
}

fn shown(options: Vec<&str>) -> EngineOutput {
    EngineOutput {
        narrative: "叙事".into(),
        meta_text: Some("元".into()),
        options: options.into_iter().map(|s| s.to_string()).collect(),
        scene_type: None,
        state_changes: None,
        round: 1,
        had_fallback: false,
        tokens_this_turn: 0,
    }
}

#[test]
fn selection_wraps_within_the_first_four() {
    let mut app = AppState::new(GameState::new_game(0));
    assert!(app.mode == AppMode::Loading);
    assert_eq!(app.status_message, "正在推演天机...");
    app.set_output(shown(vec!["a", "b", "c", "d", "✍ 自由输入"]));
    assert!(app.mode == AppMode::Selecting);
    assert_eq!(app.narrative.as_deref(), Some("叙事"));
    app.select_prev();
    assert_eq!(app.selected, 3);
    app.select_next();
    assert_eq!(app.selected, 0);
    app.select_next();
    app.select_next();
    assert_eq!(app.selected_option().as_deref(), Some("c"));
    app.set_output(shown(vec!["x", "y"]));
    app.select_next();
    app.select_next();
    assert_eq!(app.selected, 0);
    app.options.clear();
    app.select_next();
    assert_eq!(app.selected, 0);
    assert_eq!(app.selected_option(), None);
}

#[test]
fn screen_texts() {
    assert_eq!(option_label(0, "打坐", 0), " ▶ 1. 打坐");
    assert_eq!(option_label(2, "出关", 0), "   3. 出关");
    assert_eq!(prompt_text(AppMode::CustomInput), "输入模式: Enter 提交  Esc 取消");
    assert!(prompt_text(AppMode::Selecting).starts_with("1-4 选择"));
    assert_eq!(spinner_glyph(0), '⠋');
    assert_eq!(spinner_glyph(11), '⠙');
    assert_eq!(spinner_text(0), "推演天机...");
    assert_eq!(spinner_text(8), "感应天道...");
    assert_eq!(spinner_text(32), "推演天机...");
    let mut app = AppState::new(GameState::new_game(0));
    app.spinner_frame = usize::MAX;
    tick_spinner(&mut app);
    assert_eq!(app.spinner_frame, 0);
}

#[test]
fn starting_state_and_snapshot() {
    let g = GameState::new_game(5);
    assert_eq!(g.id, "qingyun-5");
    assert_eq!(g.qi, 100);
    assert_eq!(g.techniques[0].proficiency_bits, 0.3f32.to_bits());
    let text = g.to_narrative("0", &vec!["30".to_string()]);
    let expected = "【角色状态】\n修炼境界: 练气期初期\n修炼进度: 0%\n灵力: 100/100\n六维: 剑道10 术法5 气血8 神魂4 神识3 道心6\n灵石: 0\n宗门: 青云宗\n当前地点: 青云宗·外门洞府\n功法:\n  - 青云吐纳术 (黄阶 心法, 熟练:30%)\n已探索地点: 青云宗·外门洞府、青云宗·传功殿\n人物关系:\n  - 清虚道人 (师尊) 好感: 20\n";
    assert_eq!(text, expected);
}

#[test]
fn menu_keys_choose_options_or_free_input() {
    let mut app = AppState::new(GameState::new_game(0));
    app.show_streamed_reply(
        StructuredResponse { narrative: "n".into(), meta_text: None, options: vec![], scene_type: None },
        vec!["甲".into(), "乙".into()],
    );
    assert_eq!(app.options, vec!["甲", "乙", "✍ 自由输入"]);
    assert!(app.mode == AppMode::Selecting);
    assert!(matches!(app.choice_for_enter(), Some(MenuChoice::Pick(ref s)) if s == "甲"));
    assert!(matches!(app.choice_for_digit(2), Some(MenuChoice::Pick(ref s)) if s == "乙"));
    assert!(matches!(app.choice_for_digit(3), Some(MenuChoice::Custom)));
    assert!(app.choice_for_digit(4).is_none());
    assert!(app.choice_for_digit(0).is_none());
    app.selected = 2;
    assert!(matches!(app.choice_for_enter(), Some(MenuChoice::Custom)));
    app.show_streamed_reply(
        StructuredResponse {
            narrative: "m".into(),
            meta_text: Some("元".into()),
            options: vec!["1".into(), "2".into(), "3".into(), "4".into()],
            scene_type: None,
        },
        vec!["x".into()],
    );
    assert_eq!(app.options.len(), 5);
    assert!(matches!(app.choice_for_digit(5), Some(MenuChoice::Custom)));
    assert!(matches!(app.choice_for_digit(4), Some(MenuChoice::Pick(ref s)) if s == "4"));
}

#[test]
fn estimate_never_drops_when_text_is_appended() {
    let parts = ["", "abc", " ", "修仙", "x,y", "hello world", "!"];
    for a in parts.iter() {
        for b in parts.iter() {
            let joined = format!("{}{}", a, b);
            assert!(estimate_tokens(a) <= estimate_tokens(&joined));
        }
    }
    assert_eq!(estimate_tokens(""), 0);
}
