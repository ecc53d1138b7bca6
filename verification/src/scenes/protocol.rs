//! The scene types that a narrative can be classified into.
use vstd::prelude::*;
use crate::prompt::builder::scene_type;
use crate::text::str_eq;

verus! {

/// Scene type keywords.
pub const SCENE_TYPES: [&'static str; 5] = ["cultivation", "combat", "debate", "exploration", "trade"];

pub const CULTIVATION_SUFFIX: &'static str = "当前为修炼场景。请侧重描写灵气运转、境界感悟与瓶颈突破。";

pub const COMBAT_SUFFIX: &'static str = "当前为战斗场景。请侧重招式描述、攻防转换、灵力消耗与胜负判定。";

pub const DEBATE_SUFFIX: &'static str = "当前为辩论场景。请侧重话术交锋、道心碰撞、逻辑辩证。";

pub const EXPLORATION_SUFFIX: &'static str = "当前为探索场景。请侧重环境描写、未知发现、机缘与陷阱。";

pub const TRADE_SUFFIX: &'static str = "当前为交易场景。请侧重价格博弈、物品鉴定、机缘巧合。";

/// The guidance added to a prompt for a scene type; empty for a type that
/// is not one of the five.
pub open spec fn scene_suffix(scene_type: Seq<char>) -> Seq<char> {
    if scene_type == "cultivation"@ {
        CULTIVATION_SUFFIX@
    } else if scene_type == "combat"@ {
        COMBAT_SUFFIX@
    } else if scene_type == "debate"@ {
        DEBATE_SUFFIX@
    } else if scene_type == "exploration"@ {
        EXPLORATION_SUFFIX@
    } else if scene_type == "trade"@ {
        TRADE_SUFFIX@
    } else {
        ""@
    }
}

/// The scene-specific prompt suffix.
pub fn scene_prompt_suffix(scene_type: &str) -> (r: &'static str)
    ensures
        r@ == scene_suffix(scene_type@),
{
    if str_eq(scene_type, "cultivation") {
        CULTIVATION_SUFFIX
    } else if str_eq(scene_type, "combat") {
        COMBAT_SUFFIX
    } else if str_eq(scene_type, "debate") {
        DEBATE_SUFFIX
    } else if str_eq(scene_type, "exploration") {
        EXPLORATION_SUFFIX
    } else if str_eq(scene_type, "trade") {
        TRADE_SUFFIX
    } else {
        ""
    }
}

/// The scene type names, in order.
pub open spec fn scene_names() -> Seq<Seq<char>> {
    seq!["cultivation"@, "combat"@, "debate"@, "exploration"@, "trade"@]
}

/// Every scene type that a narrative can be classified into is one of the
/// five names and comes with its own prompt guidance.
pub proof fn lemma_detected_scene_has_guidance(t: Seq<char>)
    ensures
        scene_type(t) matches Some(s) ==> scene_names().contains(s) && scene_suffix(s).len() > 0,
{
    reveal_strlit("cultivation");
    reveal_strlit("combat");
    reveal_strlit("debate");
    reveal_strlit("exploration");
    reveal_strlit("trade");
    reveal_strlit("当前为修炼场景。请侧重描写灵气运转、境界感悟与瓶颈突破。");
    reveal_strlit("当前为战斗场景。请侧重招式描述、攻防转换、灵力消耗与胜负判定。");
    reveal_strlit("当前为辩论场景。请侧重话术交锋、道心碰撞、逻辑辩证。");
    reveal_strlit("当前为探索场景。请侧重环境描写、未知发现、机缘与陷阱。");
    reveal_strlit("当前为交易场景。请侧重价格博弈、物品鉴定、机缘巧合。");
    if let Some(s) = scene_type(t) {
        assert(scene_names()[0] == "cultivation"@);
        assert(scene_names()[1] == "combat"@);
        assert(scene_names()[2] == "debate"@);
        assert(scene_names()[3] == "exploration"@);
        assert(scene_names()[4] == "trade"@);
    }
}

} // verus!
