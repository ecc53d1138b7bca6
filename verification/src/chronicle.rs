//! The 岁月史书 — a growing record of the player's journey, split into volumes.
use vstd::prelude::*;
use crate::game_state::{ChangeView, StateChange, TechniqueView};
use crate::state::ItemView;
use crate::text::{cat, chars_eq, chars_of, dec_int, dec_nat, join, join_strings, owned, push_i64, push_u64, views};

verus! {

broadcast use vstd::string::group_string_axioms;

/// A single volume of the chronicle — one story arc.
pub struct ChronicleVolume {
    pub title: String,
    pub summary: String,
    pub start_round: i32,
    pub end_round: i32,
    pub key_events: Vec<String>,
    pub realm_at_end: String,
}

pub struct VolumeView {
    pub title: Seq<char>,
    pub summary: Seq<char>,
    pub start_round: i32,
    pub end_round: i32,
    pub key_events: Seq<Seq<char>>,
    pub realm_at_end: Seq<char>,
}

impl View for ChronicleVolume {
    type V = VolumeView;

    open spec fn view(&self) -> VolumeView {
        VolumeView {
            title: self.title@,
            summary: self.summary@,
            start_round: self.start_round,
            end_round: self.end_round,
            key_events: views(self.key_events@),
            realm_at_end: self.realm_at_end@,
        }
    }
}

pub open spec fn volume_views(v: Seq<ChronicleVolume>) -> Seq<VolumeView> {
    v.map_values(|x: ChronicleVolume| x@)
}

/// The chronicle: closed volumes, and the events of the volume in progress.
pub struct Chronicle {
    pub volumes: Vec<ChronicleVolume>,
    /// Events accumulated for the current (in-progress) volume.
    current_events: Vec<String>,
    current_start_round: i32,
    /// How many rounds since the last volume was closed.
    rounds_since_last_volume: i32,
}

#[verifier::ext_equal]
pub struct ChronicleView {
    pub volumes: Seq<VolumeView>,
    pub current_events: Seq<Seq<char>>,
    pub current_start_round: i32,
    pub rounds_since_last_volume: i32,
}

impl View for Chronicle {
    type V = ChronicleView;

    closed spec fn view(&self) -> ChronicleView {
        ChronicleView {
            volumes: volume_views(self.volumes@),
            current_events: views(self.current_events@),
            current_start_round: self.current_start_round,
            rounds_since_last_volume: self.rounds_since_last_volume,
        }
    }
}

/// Story flags that close the current volume.
pub open spec fn volume_trigger_flags() -> Seq<Seq<char>> {
    seq![
        "breakthrough-baset"@,
        "breakthrough-golden-core"@,
        "breakthrough-nascent"@,
        "entered-inner-sect"@,
        "entered-secret-realm"@,
        "sect-tournament"@,
        "defeated-major-foe"@,
        "found-ancient-legacy"@,
        "master-departed"@,
    ]
}

/// A volume is closed after this many rounds even without a trigger flag.
pub const AUTO_SPLIT_ROUNDS: i32 = 30;

/// "习得功法: name".
pub open spec fn technique_event(t: TechniqueView) -> Seq<char> {
    "习得功法: "@ + t.name
}

/// "获得物品: name (quality type)".
pub open spec fn item_event(i: ItemView) -> Seq<char> {
    "获得物品: "@ + i.name + " ("@ + i.quality + " "@ + i.item_type + ")"@
}

pub open spec fn event_part(c: ChangeView) -> Seq<Seq<char>> {
    match c.add_event {
        Some(e) => seq![e],
        None => Seq::empty(),
    }
}

pub open spec fn flag_part(c: ChangeView) -> Seq<Seq<char>> {
    match c.add_flag {
        Some(f) => seq!["获得标记: "@ + f],
        None => Seq::empty(),
    }
}

pub open spec fn technique_part(c: ChangeView) -> Seq<Seq<char>> {
    match c.add_techniques {
        Some(ts) => ts.map_values(|t: TechniqueView| technique_event(t)),
        None => Seq::empty(),
    }
}

pub open spec fn item_part(c: ChangeView) -> Seq<Seq<char>> {
    match c.add_items {
        Some(items) => items.map_values(|i: ItemView| item_event(i)),
        None => Seq::empty(),
    }
}

pub open spec fn realm_part(c: ChangeView) -> Seq<Seq<char>> {
    match c.set_realm {
        Some(r) => seq!["境界突破: "@ + r],
        None => Seq::empty(),
    }
}

pub open spec fn location_part(c: ChangeView) -> Seq<Seq<char>> {
    match c.set_current_location {
        Some(l) => seq!["前往: "@ + l],
        None => Seq::empty(),
    }
}

/// The notable events of one round's changes, in this order: the event, the
/// flag, each technique, each item, the realm, the destination.
pub open spec fn round_events(c: ChangeView) -> Seq<Seq<char>> {
    event_part(c) + flag_part(c) + technique_part(c) + item_part(c) + realm_part(c)
        + location_part(c)
}

/// Whether the round closes the current volume: a trigger flag is set, or
/// the volume has run for `AUTO_SPLIT_ROUNDS` rounds; and the volume has
/// at least one event.
pub open spec fn closes_volume(
    ch: ChronicleView,
    c: ChangeView,
    flags: Seq<Seq<char>>,
) -> bool {
    &&& (exists|i: int| 0 <= i < flags.len() && volume_trigger_flags().contains(flags[i]))
        || ch.rounds_since_last_volume + 1 >= AUTO_SPLIT_ROUNDS
    &&& (ch.current_events + round_events(c)).len() > 0
}

/// "第n卷".
pub open spec fn volume_title(n: nat) -> Seq<char> {
    "第"@ + dec_nat(n) + "卷"@
}

/// The chronicle after recording a round.
pub open spec fn record(
    ch: ChronicleView,
    round: i32,
    realm: Seq<char>,
    c: ChangeView,
    flags: Seq<Seq<char>>,
) -> ChronicleView {
    let events = ch.current_events + round_events(c);
    if closes_volume(ch, c, flags) {
        ChronicleView {
            volumes: ch.volumes.push(
                VolumeView {
                    title: volume_title(ch.volumes.len() + 1),
                    summary: Seq::empty(),
                    start_round: ch.current_start_round,
                    end_round: round,
                    key_events: events,
                    realm_at_end: realm,
                },
            ),
            current_events: Seq::empty(),
            current_start_round: (round + 1) as i32,
            rounds_since_last_volume: 0,
        }
    } else {
        ChronicleView {
            current_events: events,
            rounds_since_last_volume: (ch.rounds_since_last_volume + 1) as i32,
            ..ch
        }
    }
}

/// Consecutive volumes cover consecutive rounds, and the volume in progress
/// starts right after the last closed one.
pub open spec fn volumes_contiguous(ch: ChronicleView) -> bool {
    &&& forall|i: int|
        0 <= i < ch.volumes.len() - 1 ==> #[trigger] ch.volumes[i + 1].start_round
            == ch.volumes[i].end_round + 1
    &&& ch.volumes.len() > 0 ==> ch.current_start_round == ch.volumes.last().end_round + 1
}

/// Every closed volume holds at least one event.
pub open spec fn volumes_nonempty(ch: ChronicleView) -> bool {
    forall|i: int| 0 <= i < ch.volumes.len() ==> #[trigger] ch.volumes[i].key_events.len() > 0
}

pub const CHRONICLE_HEADER: &'static str = "# 岁月史书\n\n";

pub const CHRONICLE_EPIGRAPH: &'static str = "> 天道无情，岁月留痕。此卷记录修仙者自踏入仙途以来的每一步脚印。\n\n";

pub const CHRONICLE_EMPTY: &'static str = "*史书尚未着墨，仙途方才启程。*\n";

/// "- event\n" for each event.
pub open spec fn event_lines(events: Seq<Seq<char>>) -> Seq<char>
    decreases events.len(),
{
    if events.len() == 0 {
        Seq::empty()
    } else {
        event_lines(events.drop_last()) + "- "@ + events.last() + "\n"@
    }
}

/// The markdown of the volume numbered `n`.
pub open spec fn volume_markdown(n: nat, v: VolumeView) -> Seq<char> {
    "## 第"@ + dec_nat(n) + "卷: "@ + v.title + "\n\n"@ + "**第"@ + dec_int(v.start_round as int)
        + "回合 — 第"@ + dec_int(v.end_round as int) + "回合**  |  终境: "@ + v.realm_at_end
        + "\n\n"@ + (if v.summary.len() == 0 {
        Seq::empty()
    } else {
        v.summary + "\n\n"@
    }) + "### 关键事件\n\n"@ + event_lines(v.key_events) + "\n"@
}

/// The markdown of all volumes, numbered from 1.
pub open spec fn volumes_markdown(vols: Seq<VolumeView>) -> Seq<char>
    decreases vols.len(),
{
    if vols.len() == 0 {
        Seq::empty()
    } else {
        volumes_markdown(vols.drop_last()) + volume_markdown(vols.len(), vols.last())
    }
}

/// The whole chronicle as markdown.
pub open spec fn chronicle_markdown(vols: Seq<VolumeView>) -> Seq<char> {
    CHRONICLE_HEADER@ + CHRONICLE_EPIGRAPH@ + volumes_markdown(vols) + (if vols.len() == 0 {
        CHRONICLE_EMPTY@
    } else {
        Seq::empty()
    })
}

pub const SUMMARY_PROMPT_HEAD: &'static str = "你是修仙世界的岁月史官。请为以下修仙者的\"第";

pub const SUMMARY_PROMPT_ASK: &'static str = "卷\"撰写一段简洁的卷首摘要（150字以内），以古风史书笔法，记录此卷的关键事件与境界变化。\n\n起始回合: ";

pub const SUMMARY_PROMPT_TAIL: &'static str = "\n\n卷首摘要（150字以内）：";

/// The request for a summary of the volume at `index`.
pub open spec fn summary_prompt(index: nat, v: VolumeView) -> Seq<char> {
    SUMMARY_PROMPT_HEAD@ + dec_nat(index + 1) + SUMMARY_PROMPT_ASK@ + dec_int(v.start_round as int)
        + "  →  结束回合: "@ + dec_int(v.end_round as int) + "\n结束境界: "@ + v.realm_at_end
        + "\n关键事件:\n  - "@ + join(v.key_events, "\n  - "@) + SUMMARY_PROMPT_TAIL@
}

fn is_trigger_flag(f: &String) -> (r: bool)
    ensures
        r == volume_trigger_flags().contains(f@),
{
    let names = vec![
        "breakthrough-baset",
        "breakthrough-golden-core",
        "breakthrough-nascent",
        "entered-inner-sect",
        "entered-secret-realm",
        "sect-tournament",
        "defeated-major-foe",
        "found-ancient-legacy",
        "master-departed",
    ];
    assert(names@.map_values(|s: &str| s@) =~= volume_trigger_flags());
    let v = chars_of(f.as_str());
    let mut i: usize = 0;
    while i < names.len()
        invariant
            i <= names@.len(),
            names@.map_values(|s: &str| s@) == volume_trigger_flags(),
            v@ == f@,
            forall|j: int| 0 <= j < i ==> volume_trigger_flags()[j] != f@,
        decreases names@.len() - i,
    {
        let w = chars_of(names[i]);
        if chars_eq(&v, &w) {
            assert(volume_trigger_flags()[i as int] == f@);
            return true;
        }
        i = i + 1;
    }
    false
}

fn any_trigger_flag(flags: &[String]) -> (r: bool)
    ensures
        r == exists|i: int| 0 <= i < flags@.len() && volume_trigger_flags().contains(views(flags@)[i]),
{
    let mut i: usize = 0;
    while i < flags.len()
        invariant
            i <= flags@.len(),
            forall|j: int| 0 <= j < i ==> !volume_trigger_flags().contains(#[trigger] views(flags@)[j]),
        decreases flags@.len() - i,
    {
        if is_trigger_flag(&flags[i]) {
            assert(volume_trigger_flags().contains(views(flags@)[i as int]));
            return true;
        }
        i = i + 1;
    }
    false
}

fn push_technique_events(ev: &mut Vec<String>, techs: &Vec<crate::game_state::Technique>)
    ensures
        views(final(ev)@) == views(old(ev)@) + crate::game_state::technique_views(techs@).map_values(
            |t: TechniqueView| technique_event(t),
        ),
{
    let ghost base = views(ev@);
    let ghost target = crate::game_state::technique_views(techs@).map_values(
        |t: TechniqueView| technique_event(t),
    );
    let mut i: usize = 0;
    while i < techs.len()
        invariant
            i <= techs@.len(),
            base == views(old(ev)@),
            target == crate::game_state::technique_views(techs@).map_values(
                |t: TechniqueView| technique_event(t),
            ),
            ev@.len() == base.len() + i,
            forall|k: int| 0 <= k < base.len() ==> views(ev@)[k] == base[k],
            forall|k: int| 0 <= k < i ==> #[trigger] views(ev@)[base.len() + k] == target[k],
        decreases techs@.len() - i,
    {
        let mut t = owned("习得功法: ");
        cat(&mut t, techs[i].name.as_str());
        let ghost prev = views(ev@);
        ev.push(t);
        proof {
            assert(views(ev@) =~= prev.push(t@));
            assert(views(ev@)[base.len() + i] == target[i as int]);
            assert forall|k: int| 0 <= k < i + 1 implies #[trigger] views(ev@)[base.len() + k]
                == target[k] by {
                if k < i {
                    assert(views(ev@)[base.len() + k] == prev[base.len() + k]);
                }
            }
        }
        i = i + 1;
    }
    assert forall|k: int| 0 <= k < views(ev@).len() implies #[trigger] views(ev@)[k] == (base
        + target)[k] by {
        if k >= base.len() {
            assert(views(ev@)[base.len() + (k - base.len())] == target[k - base.len()]);
        }
    }
    assert(views(ev@) =~= base + target);
}

fn push_item_events(ev: &mut Vec<String>, items: &Vec<crate::state::InventoryItem>)
    ensures
        views(final(ev)@) == views(old(ev)@) + crate::state::item_views(items@).map_values(
            |i: ItemView| item_event(i),
        ),
{
    let ghost base = views(ev@);
    let ghost target = crate::state::item_views(items@).map_values(|i: ItemView| item_event(i));
    let mut i: usize = 0;
    while i < items.len()
        invariant
            i <= items@.len(),
            base == views(old(ev)@),
            target == crate::state::item_views(items@).map_values(|i: ItemView| item_event(i)),
            ev@.len() == base.len() + i,
            forall|k: int| 0 <= k < base.len() ==> views(ev@)[k] == base[k],
            forall|k: int| 0 <= k < i ==> #[trigger] views(ev@)[base.len() + k] == target[k],
        decreases items@.len() - i,
    {
        let mut t = owned("获得物品: ");
        cat(&mut t, items[i].name.as_str());
        cat(&mut t, " (");
        cat(&mut t, items[i].quality.as_str());
        cat(&mut t, " ");
        cat(&mut t, items[i].item_type.as_str());
        cat(&mut t, ")");
        let ghost prev = views(ev@);
        ev.push(t);
        proof {
            assert(views(ev@) =~= prev.push(t@));
            assert(views(ev@)[base.len() + i] == target[i as int]);
            assert forall|k: int| 0 <= k < i + 1 implies #[trigger] views(ev@)[base.len() + k]
                == target[k] by {
                if k < i {
                    assert(views(ev@)[base.len() + k] == prev[base.len() + k]);
                }
            }
        }
        i = i + 1;
    }
    assert forall|k: int| 0 <= k < views(ev@).len() implies #[trigger] views(ev@)[k] == (base
        + target)[k] by {
        if k >= base.len() {
            assert(views(ev@)[base.len() + (k - base.len())] == target[k - base.len()]);
        }
    }
    assert(views(ev@) =~= base + target);
}

fn push_event_lines(md: &mut String, events: &Vec<String>)
    ensures
        final(md)@ == old(md)@ + event_lines(views(events@)),
{
    let mut j: usize = 0;
    while j < events.len()
        invariant
            j <= events@.len(),
            md@ == old(md)@ + event_lines(views(events@).take(j as int)),
        decreases events@.len() - j,
    {
        proof {
            assert(views(events@).take(j + 1).drop_last() =~= views(events@).take(j as int));
        }
        cat(md, "- ");
        cat(md, events[j].as_str());
        cat(md, "\n");
        j = j + 1;
        assert(md@ =~= old(md)@ + event_lines(views(events@).take(j as int)));
    }
    assert(views(events@).take(events@.len() as int) =~= views(events@));
}

fn push_volume_markdown(md: &mut String, n: usize, vol: &ChronicleVolume)
    ensures
        final(md)@ == old(md)@ + volume_markdown(n as nat, vol@),
{
    cat(md, "## 第");
    push_u64(md, n as u64);
    cat(md, "卷: ");
    cat(md, vol.title.as_str());
    cat(md, "\n\n");
    cat(md, "**第");
    push_i64(md, vol.start_round as i64);
    cat(md, "回合 — 第");
    push_i64(md, vol.end_round as i64);
    cat(md, "回合**  |  终境: ");
    cat(md, vol.realm_at_end.as_str());
    cat(md, "\n\n");
    let ghost mid = md@;
    if !vol.summary.as_str().is_empty() {
        cat(md, vol.summary.as_str());
        cat(md, "\n\n");
    }
    proof {
        if vol.summary@.len() == 0 {
            assert(md@ =~= mid + Seq::<char>::empty());
        } else {
            assert(md@ =~= mid + (vol.summary@ + "\n\n"@));
        }
    }
    cat(md, "### 关键事件\n\n");
    push_event_lines(md, &vol.key_events);
    cat(md, "\n");
    assert(md@ =~= old(md)@ + volume_markdown(n as nat, vol@));
}

fn push_single_parts(ev: &mut Vec<String>, changes: &StateChange)
    ensures
        views(final(ev)@) == views(old(ev)@) + event_part(changes@) + flag_part(changes@),
{
    let ghost start = views(ev@);
    match &changes.add_event {
        Some(e) => {
            ev.push(e.clone());
        },
        None => {},
    }
    assert(views(ev@) =~= start + event_part(changes@));
    let ghost s1 = views(ev@);
    match &changes.add_flag {
        Some(f) => {
            let mut t = owned("获得标记: ");
            cat(&mut t, f.as_str());
            ev.push(t);
        },
        None => {},
    }
    assert(views(ev@) =~= s1 + flag_part(changes@));
}

fn push_list_parts(ev: &mut Vec<String>, changes: &StateChange)
    ensures
        views(final(ev)@) == views(old(ev)@) + technique_part(changes@) + item_part(changes@),
{
    let ghost start = views(ev@);
    match &changes.add_techniques {
        Some(techs) => {
            push_technique_events(ev, techs);
            assert(crate::game_state::technique_views(techs@) =~= techs@.map_values(
                |x: crate::game_state::Technique| x@,
            ));
        },
        None => {},
    }
    assert(views(ev@) =~= start + technique_part(changes@));
    let ghost s1 = views(ev@);
    match &changes.add_items {
        Some(items) => {
            push_item_events(ev, items);
            assert(crate::state::item_views(items@) =~= items@.map_values(
                |x: crate::state::InventoryItem| x@,
            ));
        },
        None => {},
    }
    assert(views(ev@) =~= s1 + item_part(changes@));
}

fn push_place_parts(ev: &mut Vec<String>, changes: &StateChange)
    ensures
        views(final(ev)@) == views(old(ev)@) + realm_part(changes@) + location_part(changes@),
{
    let ghost start = views(ev@);
    match &changes.set_realm {
        Some(r) => {
            let mut t = owned("境界突破: ");
            cat(&mut t, r.as_str());
            ev.push(t);
        },
        None => {},
    }
    assert(views(ev@) =~= start + realm_part(changes@));
    let ghost s1 = views(ev@);
    match &changes.set_current_location {
        Some(l) => {
            let mut t = owned("前往: ");
            cat(&mut t, l.as_str());
            ev.push(t);
        },
        None => {},
    }
    assert(views(ev@) =~= s1 + location_part(changes@));
}

fn push_round_events(ev: &mut Vec<String>, changes: &StateChange)
    ensures
        views(final(ev)@) == views(old(ev)@) + round_events(changes@),
{
    let ghost start = views(ev@);
    push_single_parts(ev, changes);
    push_list_parts(ev, changes);
    push_place_parts(ev, changes);
    assert(views(ev@) =~= start + round_events(changes@));
}

impl Chronicle {
    /// An empty chronicle whose first volume starts at round 1.
    pub fn new() -> (c: Self)
        ensures
            c@.volumes == Seq::<VolumeView>::empty(),
            c@.current_events == Seq::<Seq<char>>::empty(),
            c@.current_start_round == 1,
            c@.rounds_since_last_volume == 0,
    {
        let c = Chronicle {
            volumes: Vec::new(),
            current_events: Vec::new(),
            current_start_round: 1,
            rounds_since_last_volume: 0,
        };
        assert(c@.volumes =~= Seq::<VolumeView>::empty());
        assert(c@.current_events =~= Seq::<Seq<char>>::empty());
        c
    }

    /// A chronicle rebuilt from stored parts.
    pub fn from_parts(
        volumes: Vec<ChronicleVolume>,
        current_events: Vec<String>,
        current_start_round: i32,
        rounds_since_last_volume: i32,
    ) -> (c: Self)
        ensures
            c@.volumes == volume_views(volumes@),
            c@.current_events == views(current_events@),
            c@.current_start_round == current_start_round,
            c@.rounds_since_last_volume == rounds_since_last_volume,
    {
        Chronicle { volumes, current_events, current_start_round, rounds_since_last_volume }
    }

    /// The events of the volume in progress.
    pub fn current_events(&self) -> (r: &Vec<String>)
        ensures
            views(r@) == self@.current_events,
    {
        &self.current_events
    }

    /// The first round of the volume in progress.
    pub fn current_start_round(&self) -> (r: i32)
        ensures
            r == self@.current_start_round,
    {
        self.current_start_round
    }

    /// Rounds since the last volume was closed.
    pub fn rounds_since_last_volume(&self) -> (r: i32)
        ensures
            r == self@.rounds_since_last_volume,
    {
        self.rounds_since_last_volume
    }

    /// The closed volumes.
    pub fn volume_count(&self) -> (r: usize)
        ensures
            r == self@.volumes.len(),
    {
        self.volumes.len()
    }

    /// Records a round's events; called every turn after the state changes
    /// are applied.  A trigger flag among `flags`, or `AUTO_SPLIT_ROUNDS`
    /// rounds without one, closes the current volume if it holds any event.
    pub fn record_round(&mut self, round: i32, realm: &str, changes: &StateChange, flags: &[String])
        requires
            old(self)@.rounds_since_last_volume < i32::MAX,
            closes_volume(old(self)@, changes@, views(flags@)) ==> round < i32::MAX
                && old(self)@.volumes.len() < usize::MAX,
        ensures
            final(self)@ == record(old(self)@, round, realm@, changes@, views(flags@)),
    {
        self.rounds_since_last_volume += 1;
        push_round_events(&mut self.current_events, changes);
        let should_close = any_trigger_flag(flags)
            || self.rounds_since_last_volume >= AUTO_SPLIT_ROUNDS;
        if should_close && self.current_events.len() > 0 {
            self.close_volume(round, realm);
        }
        proof {
            let o = old(self)@;
            assert(views(self.current_events@).len() == self.current_events@.len());
        }
        assert(self@ =~= record(old(self)@, round, realm@, changes@, views(flags@)));
    }

    /// Whether `record_round` can record this round: the counters stay in
    /// range.
    pub fn can_record_round(&self, round: i32, changes: &StateChange, flags: &[String]) -> (r: bool)
        ensures
            r == (self@.rounds_since_last_volume < i32::MAX && (closes_volume(
                self@,
                changes@,
                views(flags@),
            ) ==> round < i32::MAX && self@.volumes.len() < usize::MAX)),
    {
        if self.rounds_since_last_volume == i32::MAX {
            return false;
        }
        let mut events: Vec<String> = Vec::new();
        push_round_events(&mut events, changes);
        let closes = (any_trigger_flag(flags) || self.rounds_since_last_volume + 1 >= AUTO_SPLIT_ROUNDS)
            && (self.current_events.len() > 0 || events.len() > 0);
        proof {
            assert(views(self.current_events@).len() == self.current_events@.len());
            assert(views(events@).len() == events@.len());
            assert(views(Seq::<String>::empty()) =~= Seq::<Seq<char>>::empty());
        }
        !closes || (round < i32::MAX && self.volumes.len() < usize::MAX)
    }

    /// Closes the current volume at `round` and starts a new one.
    fn close_volume(&mut self, round: i32, realm: &str)
        requires
            round < i32::MAX,
            old(self)@.volumes.len() < usize::MAX,
        ensures
            final(self)@ == (ChronicleView {
                volumes: old(self)@.volumes.push(
                    VolumeView {
                        title: volume_title(old(self)@.volumes.len() + 1),
                        summary: Seq::empty(),
                        start_round: old(self)@.current_start_round,
                        end_round: round,
                        key_events: old(self)@.current_events,
                        realm_at_end: realm@,
                    },
                ),
                current_events: Seq::empty(),
                current_start_round: (round + 1) as i32,
                rounds_since_last_volume: 0,
            }),
    {
        let mut title = owned("第");
        push_u64(&mut title, (self.volumes.len() + 1) as u64);
        cat(&mut title, "卷");
        let mut events: Vec<String> = Vec::new();
        std::mem::swap(&mut events, &mut self.current_events);
        let volume = ChronicleVolume {
            title,
            summary: String::new(),
            start_round: self.current_start_round,
            end_round: round,
            key_events: events,
            realm_at_end: owned(realm),
        };
        self.volumes.push(volume);
        self.current_start_round = round + 1;
        self.rounds_since_last_volume = 0;
        assert(self@.current_events =~= Seq::<Seq<char>>::empty());
        assert(self@.volumes =~= old(self)@.volumes.push(
            VolumeView {
                title: volume_title(old(self)@.volumes.len() + 1),
                summary: Seq::empty(),
                start_round: old(self)@.current_start_round,
                end_round: round,
                key_events: old(self)@.current_events,
                realm_at_end: realm@,
            },
        ));
    }

    /// The request for a summary of the volume at `volume_index`, or `None`
    /// when there is no such volume.
    pub fn build_summary_prompt(&self, volume_index: usize) -> (r: Option<String>)
        ensures
            match r {
                Some(p) => volume_index < self@.volumes.len() && p@ == summary_prompt(
                    volume_index as nat,
                    self@.volumes[volume_index as int],
                ),
                None => volume_index >= self@.volumes.len(),
            },
    {
        if volume_index >= self.volumes.len() || volume_index == usize::MAX {
            proof {
                if volume_index < self@.volumes.len() {
                    assert(self@.volumes.len() <= usize::MAX);
                }
            }
            return None;
        }
        let vol = &self.volumes[volume_index];
        assert(vol@ == self@.volumes[volume_index as int]);
        let events_text = join_strings(&vol.key_events, "\n  - ");
        let mut p = owned(SUMMARY_PROMPT_HEAD);
        push_u64(&mut p, (volume_index + 1) as u64);
        cat(&mut p, SUMMARY_PROMPT_ASK);
        push_i64(&mut p, vol.start_round as i64);
        cat(&mut p, "  →  结束回合: ");
        push_i64(&mut p, vol.end_round as i64);
        cat(&mut p, "\n结束境界: ");
        cat(&mut p, vol.realm_at_end.as_str());
        cat(&mut p, "\n关键事件:\n  - ");
        cat(&mut p, events_text.as_str());
        cat(&mut p, SUMMARY_PROMPT_TAIL);
        Some(p)
    }

    /// Stores a summary on the volume at `volume_index`; does nothing when
    /// there is no such volume.
    pub fn set_volume_summary(&mut self, volume_index: usize, summary: &str)
        ensures
            volume_index < old(self)@.volumes.len() ==> final(self)@ == (ChronicleView {
                volumes: old(self)@.volumes.update(
                    volume_index as int,
                    VolumeView { summary: summary@, ..old(self)@.volumes[volume_index as int] },
                ),
                ..old(self)@
            }),
            volume_index >= old(self)@.volumes.len() ==> final(self)@ == old(self)@,
    {
        if volume_index < self.volumes.len() {
            let mut vol = ChronicleVolume {
                title: String::new(),
                summary: String::new(),
                start_round: 0,
                end_round: 0,
                key_events: Vec::new(),
                realm_at_end: String::new(),
            };
            std::mem::swap(&mut vol, &mut self.volumes[volume_index]);
            vol.summary = owned(summary);
            self.volumes.set(volume_index, vol);
            assert(self@ =~= (ChronicleView {
                volumes: old(self)@.volumes.update(
                    volume_index as int,
                    VolumeView { summary: summary@, ..old(self)@.volumes[volume_index as int] },
                ),
                ..old(self)@
            }));
        }
    }

    /// The whole chronicle as markdown.
    pub fn to_markdown(&self) -> (r: String)
        ensures
            r@ == chronicle_markdown(self@.volumes),
    {
        let mut md = owned(CHRONICLE_HEADER);
        cat(&mut md, CHRONICLE_EPIGRAPH);
        let ghost head = md@;
        let ghost vols = volume_views(self.volumes@);
        let mut i: usize = 0;
        while i < self.volumes.len()
            invariant
                i <= self.volumes@.len(),
                vols == volume_views(self.volumes@),
                md@ == head + volumes_markdown(vols.take(i as int)),
            decreases self.volumes@.len() - i,
        {
            proof {
                assert(vols.take(i + 1).drop_last() =~= vols.take(i as int));
            }
            let vol = &self.volumes[i];
            let ghost before = md@;
            push_volume_markdown(&mut md, i + 1, vol);
            i = i + 1;
            proof {
                assert(vols.take(i as int).last() == vol@);
                assert(md@ =~= before + volume_markdown(i as nat, vol@));
                assert(md@ =~= head + volumes_markdown(vols.take(i as int)));
            }
        }
        assert(vols.take(self.volumes@.len() as int) =~= vols);
        if self.volumes.len() == 0 {
            cat(&mut md, CHRONICLE_EMPTY);
        } else {
            assert(md@ =~= md@ + Seq::<char>::empty());
        }
        md
    }
}

impl Default for Chronicle {
    /// An empty chronicle with every counter at zero.
    fn default() -> (c: Self)
        ensures
            c@.volumes == Seq::<VolumeView>::empty(),
            c@.current_events == Seq::<Seq<char>>::empty(),
            c@.current_start_round == 0,
            c@.rounds_since_last_volume == 0,
    {
        let c = Chronicle {
            volumes: Vec::new(),
            current_events: Vec::new(),
            current_start_round: 0,
            rounds_since_last_volume: 0,
        };
        assert(c@.volumes =~= Seq::<VolumeView>::empty());
        assert(c@.current_events =~= Seq::<Seq<char>>::empty());
        c
    }
}

/// Law: recording a round keeps consecutive volumes contiguous in rounds,
/// and every closed volume non-empty.
pub proof fn lemma_record_keeps_volumes(
    ch: ChronicleView,
    round: i32,
    realm: Seq<char>,
    c: ChangeView,
    flags: Seq<Seq<char>>,
)
    requires
        volumes_contiguous(ch),
        volumes_nonempty(ch),
        closes_volume(ch, c, flags) ==> round < i32::MAX,
    ensures
        volumes_contiguous(record(ch, round, realm, c, flags)),
        volumes_nonempty(record(ch, round, realm, c, flags)),
{
    let r = record(ch, round, realm, c, flags);
    if closes_volume(ch, c, flags) {
        assert forall|i: int| 0 <= i < r.volumes.len() - 1 implies #[trigger] r.volumes[i
            + 1].start_round == r.volumes[i].end_round + 1 by {
            if i + 1 < ch.volumes.len() {
                assert(r.volumes[i + 1] == ch.volumes[i + 1]);
                assert(r.volumes[i] == ch.volumes[i]);
            } else {
                assert(r.volumes[i] == ch.volumes.last());
            }
        }
        assert forall|i: int| 0 <= i < r.volumes.len() implies #[trigger] r.volumes[i].key_events.len()
            > 0 by {
            if i < ch.volumes.len() {
                assert(r.volumes[i] == ch.volumes[i]);
            }
        }
    }
}

/// Law: a fresh chronicle satisfies the volume invariants.
pub proof fn lemma_new_chronicle_volumes(ch: ChronicleView)
    requires
        ch.volumes.len() == 0,
    ensures
        volumes_contiguous(ch),
        volumes_nonempty(ch),
{
}

/// Law: recording a round closes at most one volume.  The earlier volumes
/// stay as they were; a closing round appends one volume, titled with the
/// next number, holding the events since the last close, ending at this
/// round with the given realm and starting where the volume in progress
/// started, that is right after the previous volume ended when the volumes
/// are contiguous; otherwise the round's events join the volume in progress.
pub proof fn lemma_record_closes_at_most_one(
    ch: ChronicleView,
    round: i32,
    realm: Seq<char>,
    c: ChangeView,
    flags: Seq<Seq<char>>,
)
    ensures
        record(ch, round, realm, c, flags).volumes.take(ch.volumes.len() as int) == ch.volumes,
        record(ch, round, realm, c, flags).volumes.len() == ch.volumes.len() + (if closes_volume(
            ch,
            c,
            flags,
        ) {
            1int
        } else {
            0int
        }),
        closes_volume(ch, c, flags) ==> record(ch, round, realm, c, flags).volumes.last() == (
        VolumeView {
            title: volume_title(ch.volumes.len() + 1),
            summary: Seq::empty(),
            start_round: ch.current_start_round,
            end_round: round,
            key_events: ch.current_events + round_events(c),
            realm_at_end: realm,
        }),
        closes_volume(ch, c, flags) && volumes_contiguous(ch) && ch.volumes.len() > 0 ==> record(
            ch,
            round,
            realm,
            c,
            flags,
        ).volumes.last().start_round == ch.volumes.last().end_round + 1,
        !closes_volume(ch, c, flags) ==> record(ch, round, realm, c, flags).current_events
            == ch.current_events + round_events(c),
{
    let r = record(ch, round, realm, c, flags);
    if closes_volume(ch, c, flags) {
        assert(r.volumes.take(ch.volumes.len() as int) =~= ch.volumes);
    } else {
        assert(r.volumes.take(ch.volumes.len() as int) =~= ch.volumes);
    }
}


/// Law: the events of a round name every notable part of its changes, one
/// event each and nothing else: the event itself, "获得标记: " and the flag,
/// "习得功法: " and each technique's name, "获得物品: " and each item, "境界突破: "
/// and the new realm, "前往: " and the destination.
pub proof fn lemma_round_events_name_each_change(c: ChangeView)
    ensures
        c.add_event matches Some(e) ==> round_events(c).contains(e),
        c.add_flag matches Some(f) ==> round_events(c).contains("获得标记: "@ + f),
        c.add_techniques matches Some(ts) ==> forall|i: int|
            0 <= i < ts.len() ==> round_events(c).contains("习得功法: "@ + (#[trigger] ts[i]).name),
        c.add_items matches Some(items) ==> forall|i: int|
            0 <= i < items.len() ==> round_events(c).contains(
                "获得物品: "@ + (#[trigger] items[i]).name + " ("@ + items[i].quality + " "@
                    + items[i].item_type + ")"@,
            ),
        c.set_realm matches Some(r) ==> round_events(c).contains("境界突破: "@ + r),
        c.set_current_location matches Some(l) ==> round_events(c).contains("前往: "@ + l),
        round_events(c).len() == (if c.add_event is Some {
            1int
        } else {
            0int
        }) + (if c.add_flag is Some {
            1int
        } else {
            0int
        }) + (match c.add_techniques {
            Some(ts) => ts.len() as int,
            None => 0int,
        }) + (match c.add_items {
            Some(items) => items.len() as int,
            None => 0int,
        }) + (if c.set_realm is Some {
            1int
        } else {
            0int
        }) + (if c.set_current_location is Some {
            1int
        } else {
            0int
        }),
{
    let e = event_part(c);
    let f = flag_part(c);
    let t = technique_part(c);
    let it = item_part(c);
    let r = realm_part(c);
    let l = location_part(c);
    let all = round_events(c);
    assert(all == e + f + t + it + r + l);
    if let Some(x) = c.add_event {
        assert(all[0] == x);
    }
    if let Some(x) = c.add_flag {
        assert(all[e.len() as int] == "获得标记: "@ + x);
    }
    if let Some(ts) = c.add_techniques {
        assert forall|i: int| 0 <= i < ts.len() implies all.contains(
            "习得功法: "@ + (#[trigger] ts[i]).name,
        ) by {
            assert(all[e.len() + f.len() + i] == t[i]);
        }
    }
    if let Some(items) = c.add_items {
        assert forall|i: int| 0 <= i < items.len() implies all.contains(
            "获得物品: "@ + (#[trigger] items[i]).name + " ("@ + items[i].quality + " "@
                + items[i].item_type + ")"@,
        ) by {
            assert(all[e.len() + f.len() + t.len() + i] == it[i]);
        }
    }
    if let Some(x) = c.set_realm {
        assert(all[(e.len() + f.len() + t.len() + it.len()) as int] == "境界突破: "@ + x);
    }
    if let Some(x) = c.set_current_location {
        assert(all[(e.len() + f.len() + t.len() + it.len() + r.len()) as int] == "前往: "@ + x);
    }
}

/// Law: nothing a round brings is lost when it is recorded: each of its
/// events stands afterwards among the events of the volume in progress, or
/// among the key events of the volume the round closed.
pub proof fn lemma_record_keeps_round_events(
    ch: ChronicleView,
    round: i32,
    realm: Seq<char>,
    c: ChangeView,
    flags: Seq<Seq<char>>,
)
    ensures
        forall|x: Seq<char>|
            #[trigger] round_events(c).contains(x) ==> record(
                ch,
                round,
                realm,
                c,
                flags,
            ).current_events.contains(x) || (record(ch, round, realm, c, flags).volumes.len() > 0
                && record(ch, round, realm, c, flags).volumes.last().key_events.contains(x)),
        c.set_realm matches Some(r) ==> record(ch, round, realm, c, flags).current_events.contains(
            "境界突破: "@ + r,
        ) || (record(ch, round, realm, c, flags).volumes.len() > 0 && record(
            ch,
            round,
            realm,
            c,
            flags,
        ).volumes.last().key_events.contains("境界突破: "@ + r)),
{
    lemma_round_events_name_each_change(c);
    let rec = record(ch, round, realm, c, flags);
    let events = ch.current_events + round_events(c);
    assert forall|x: Seq<char>| #[trigger] round_events(c).contains(x) implies rec.current_events.contains(
        x,
    ) || (rec.volumes.len() > 0 && rec.volumes.last().key_events.contains(x)) by {
        let j = choose|j: int| 0 <= j < round_events(c).len() && round_events(c)[j] == x;
        assert(events[ch.current_events.len() + j] == x);
    }
}

} // verus!
