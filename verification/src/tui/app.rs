//! The state of the terminal interface: the reply on screen, the option
//! menu and its selection, and the texts the screen shows.
use vstd::prelude::*;
use crate::engine::EngineOutput;
use crate::prompt::builder::StructuredResponse;
use crate::game_state::{opt_str, GameState};
use crate::text::{cat, owned, push_u64, views};

verus! {

broadcast use vstd::string::group_string_axioms;

/// What the interface is doing.
#[derive(Debug, Clone, Copy, PartialEq, Eq, Structural)]
pub enum AppMode {
    Loading,
    Displaying,
    Selecting,
    CustomInput,
    Chronicle,
    Quit,
}

/// Application state (the text input box lives beside it, in the terminal
/// front end).
pub struct AppState {
    pub state: GameState,
    pub narrative: Option<String>,
    pub meta_text: Option<String>,
    pub options: Vec<String>,
    pub selected: usize,
    pub scene_type: Option<String>,
    pub status_message: String,
    pub mode: AppMode,
    pub spinner_frame: usize,
    pub chronicle_text: String,
}

pub const LOADING_STATUS: &'static str = "正在推演天机...";

/// The number of options the selection cycles through: the first four.
pub open spec fn menu_size(n: nat) -> nat {
    if n < 4 {
        n
    } else {
        4
    }
}

/// The selection after moving down: wraps from the last of the first four
/// options to the first.
pub open spec fn next_index(selected: int, n: nat) -> int {
    if n == 0 {
        selected
    } else {
        (selected + 1) % (menu_size(n) as int)
    }
}

/// The selection after moving up: wraps from the first option to the last
/// of the first four.
pub open spec fn prev_index(selected: int, n: nat) -> int {
    if n == 0 {
        selected
    } else {
        (selected + menu_size(n) - 1) % (menu_size(n) as int)
    }
}

impl AppState {
    /// The interface's state while the first reply is awaited.
    pub fn new(state: GameState) -> (r: AppState)
        ensures
            r.state@ == state@,
            r.narrative is None,
            r.meta_text is None,
            r.options@.len() == 0,
            r.selected == 0,
            r.scene_type is None,
            r.status_message@ == LOADING_STATUS@,
            r.mode == AppMode::Loading,
            r.spinner_frame == 0,
            r.chronicle_text@ == Seq::<char>::empty(),
    {
        AppState {
            state,
            narrative: None,
            meta_text: None,
            options: Vec::new(),
            selected: 0,
            scene_type: None,
            status_message: owned(LOADING_STATUS),
            mode: AppMode::Loading,
            spinner_frame: 0,
            chronicle_text: String::new(),
        }
    }

    /// Shows an engine output: its narrative, meta text, options and scene
    /// type, the first option selected, ready for a choice.
    pub fn set_output(&mut self, output: EngineOutput)
        ensures
            opt_str(final(self).narrative) == Some(output@.narrative),
            opt_str(final(self).meta_text) == output@.meta_text,
            views(final(self).options@) == output@.options,
            opt_str(final(self).scene_type) == output@.scene_type,
            final(self).selected == 0,
            final(self).mode == AppMode::Selecting,
            final(self).state@ == old(self).state@,
            final(self).status_message@ == old(self).status_message@,
            final(self).spinner_frame == old(self).spinner_frame,
            final(self).chronicle_text@ == old(self).chronicle_text@,
    {
        self.narrative = Some(output.narrative);
        self.meta_text = output.meta_text;
        self.options = output.options;
        self.scene_type = output.scene_type;
        self.selected = 0;
        self.mode = AppMode::Selecting;
    }

    /// Moves the selection down among the first four options, wrapping.
    pub fn select_next(&mut self)
        requires
            old(self).selected < usize::MAX,
        ensures
            final(self).selected == next_index(old(self).selected as int, old(self).options@.len()),
            final(self).options@ == old(self).options@,
            final(self).mode == old(self).mode,
    {
        if self.options.len() > 0 {
            let m = if self.options.len() < 4 {
                self.options.len()
            } else {
                4
            };
            self.selected = (self.selected + 1) % m;
        }
    }

    /// Moves the selection up among the first four options, wrapping.
    pub fn select_prev(&mut self)
        requires
            old(self).selected + menu_size(old(self).options@.len()) <= usize::MAX,
        ensures
            final(self).selected == prev_index(old(self).selected as int, old(self).options@.len()),
            final(self).options@ == old(self).options@,
            final(self).mode == old(self).mode,
    {
        if self.options.len() > 0 {
            let m = if self.options.len() < 4 {
                self.options.len()
            } else {
                4
            };
            self.selected = (self.selected + m - 1) % m;
        }
    }

    /// The selected option, if the selection points at one.
    pub fn selected_option(&self) -> (r: Option<String>)
        ensures
            opt_str(r) == (if self.selected < self.options@.len() {
                Some(self.options@[self.selected as int]@)
            } else {
                None
            }),
    {
        if self.selected < self.options.len() {
            Some(self.options[self.selected].clone())
        } else {
            None
        }
    }
}

/// What a key press on the menu asks for.
pub enum MenuChoice {
    /// Open the free-input box.
    Custom,
    /// Play this option.
    Pick(String),
}

pub enum MenuChoiceView {
    Custom,
    Pick(Seq<char>),
}

impl View for MenuChoice {
    type V = MenuChoiceView;

    open spec fn view(&self) -> MenuChoiceView {
        match self {
            MenuChoice::Custom => MenuChoiceView::Custom,
            MenuChoice::Pick(s) => MenuChoiceView::Pick(s@),
        }
    }
}

/// The marker of the free-input option.
pub const CUSTOM_MARKER: &'static str = "自由输入";

/// The choice an option stands for: the free-input box for the free-input
/// option, else the option itself.
pub open spec fn choice_of(option: Seq<char>) -> MenuChoiceView {
    if crate::text::contains(option, CUSTOM_MARKER@) {
        MenuChoiceView::Custom
    } else {
        MenuChoiceView::Pick(option)
    }
}

/// The choice of digit key `n`: option `n` (1 to 5) when there is one, the
/// fifth always opening the free-input box.
pub open spec fn digit_choice(options: Seq<Seq<char>>, n: nat) -> Option<MenuChoiceView> {
    if 1 <= n <= 5 && n <= options.len() {
        if n == 5 {
            Some(MenuChoiceView::Custom)
        } else {
            Some(choice_of(options[n - 1]))
        }
    } else {
        None
    }
}

fn choice_for(option: &String) -> (r: MenuChoice)
    ensures
        r@ == choice_of(option@),
{
    if crate::text::str_contains(option.as_str(), CUSTOM_MARKER) {
        MenuChoice::Custom
    } else {
        MenuChoice::Pick(option.clone())
    }
}

impl AppState {
    /// The choice of the Enter key: the selected option's, if the selection
    /// points at one.
    pub fn choice_for_enter(&self) -> (r: Option<MenuChoice>)
        ensures
            match r {
                Some(c) => self.selected < self.options@.len() && c@ == choice_of(
                    self.options@[self.selected as int]@,
                ),
                None => self.selected >= self.options@.len(),
            },
    {
        if self.selected < self.options.len() {
            Some(choice_for(&self.options[self.selected]))
        } else {
            None
        }
    }

    /// The choice of digit key `n`.
    pub fn choice_for_digit(&self, n: usize) -> (r: Option<MenuChoice>)
        ensures
            match r {
                Some(c) => digit_choice(views(self.options@), n as nat) == Some(c@),
                None => digit_choice(views(self.options@), n as nat) is None,
            },
    {
        if n >= 1 && n <= 5 && n <= self.options.len() {
            if n == 5 {
                Some(MenuChoice::Custom)
            } else {
                Some(choice_for(&self.options[n - 1]))
            }
        } else {
            None
        }
    }

    /// Shows a streamed reply: its narrative, meta text and scene type, its
    /// options (or `fallback` when it has none) followed by the free-input
    /// option, the first selected, ready for a choice.
    pub fn show_streamed_reply(&mut self, reply: StructuredResponse, fallback: Vec<String>)
        ensures
            opt_str(final(self).narrative) == Some(reply@.narrative),
            opt_str(final(self).meta_text) == reply@.meta_text,
            views(final(self).options@) == (if reply@.options.len() == 0 {
                views(fallback@)
            } else {
                reply@.options
            }).push(crate::engine::CUSTOM_OPTION@),
            opt_str(final(self).scene_type) == reply@.scene_type,
            final(self).selected == 0,
            final(self).mode == AppMode::Selecting,
            final(self).state@ == old(self).state@,
    {
        self.narrative = Some(reply.narrative);
        self.meta_text = reply.meta_text;
        let mut options = if reply.options.len() == 0 {
            fallback
        } else {
            reply.options
        };
        let ghost before = views(options@);
        options.push(owned(crate::engine::CUSTOM_OPTION));
        assert(views(options@) =~= before.push(crate::engine::CUSTOM_OPTION@));
        self.options = options;
        self.scene_type = reply.scene_type;
        self.selected = 0;
        self.mode = AppMode::Selecting;
    }
}

/// Moves the spinner forward one frame (wrapping at the end of `usize`).
pub fn tick_spinner(app: &mut AppState)
    ensures
        final(app).spinner_frame == (if old(app).spinner_frame == usize::MAX {
            0
        } else {
            old(app).spinner_frame + 1
        }),
        final(app).selected == old(app).selected,
        final(app).mode == old(app).mode,
{
    if app.spinner_frame == usize::MAX {
        app.spinner_frame = 0;
    } else {
        app.spinner_frame = app.spinner_frame + 1;
    }
}

/// The key help shown under the menu for a mode.
pub open spec fn prompt_hint(mode: AppMode) -> Seq<char> {
    match mode {
        AppMode::CustomInput => "输入模式: Enter 提交  Esc 取消"@,
        AppMode::Chronicle => "c/Enter 返回   ↑↓ 滚动"@,
        _ => "1-4 选择  5/`:` 自由输入  j/k 上下  Enter 确认  s 存档  c 史书  e 导出  q 退出"@,
    }
}

/// The key help shown under the menu.
pub fn prompt_text(mode: AppMode) -> (r: &'static str)
    ensures
        r@ == prompt_hint(mode),
{
    match mode {
        AppMode::CustomInput => "输入模式: Enter 提交  Esc 取消",
        AppMode::Chronicle => "c/Enter 返回   ↑↓ 滚动",
        _ => "1-4 选择  5/`:` 自由输入  j/k 上下  Enter 确认  s 存档  c 史书  e 导出  q 退出",
    }
}

/// The menu line of option `i` (numbered from 1), marked when selected.
pub open spec fn option_line(i: nat, option: Seq<char>, selected: bool) -> Seq<char> {
    (if selected {
        " ▶ "@
    } else {
        "   "@
    }) + crate::text::dec_nat(i + 1) + ". "@ + option
}

/// The menu line of option `i` (numbered from 1), marked when selected.
pub fn option_label(i: usize, option: &str, selected: usize) -> (r: String)
    requires
        i < usize::MAX,
    ensures
        r@ == option_line(i as nat, option@, i == selected),
{
    let mut s = if i == selected {
        owned(" ▶ ")
    } else {
        owned("   ")
    };
    push_u64(&mut s, (i + 1) as u64);
    cat(&mut s, ". ");
    cat(&mut s, option);
    s
}

/// The spinner glyphs, in order.
pub open spec fn spinner_glyphs() -> Seq<char> {
    seq!['⠋', '⠙', '⠹', '⠸', '⠼', '⠴', '⠦', '⠧', '⠇', '⠏']
}

/// The spinner texts, in order; each shows for eight frames.
pub open spec fn spinner_texts() -> Seq<Seq<char>> {
    seq!["推演天机..."@, "感应天道..."@, "窥探命数..."@, "运转周天..."@]
}

/// The glyph of a spinner frame.
pub fn spinner_glyph(frame: usize) -> (r: char)
    ensures
        r == spinner_glyphs()[(frame % 10) as int],
{
    let glyphs = ['⠋', '⠙', '⠹', '⠸', '⠼', '⠴', '⠦', '⠧', '⠇', '⠏'];
    assert(glyphs@ =~= spinner_glyphs());
    glyphs[frame % 10]
}

/// The text of a spinner frame.
pub fn spinner_text(frame: usize) -> (r: &'static str)
    ensures
        r@ == spinner_texts()[((frame / 8) % 4) as int],
{
    let k = (frame / 8) % 4;
    if k == 0 {
        "推演天机..."
    } else if k == 1 {
        "感应天道..."
    } else if k == 2 {
        "窥探命数..."
    } else {
        "运转周天..."
    }
}

/// Moving the selection down and then up (or up and then down) returns to
/// where it was, for any selection among the first four options.
pub proof fn lemma_selection_round_trip(selected: int, n: nat)
    requires
        0 <= selected < menu_size(n),
    ensures
        prev_index(next_index(selected, n), n) == selected,
        next_index(prev_index(selected, n), n) == selected,
        0 <= next_index(selected, n) < menu_size(n),
        0 <= prev_index(selected, n) < menu_size(n),
{
    let m = menu_size(n) as int;
    lemma_step_mod(selected, m);
    let nx = next_index(selected, n);
    let pv = prev_index(selected, n);
    lemma_step_mod(nx, m);
    lemma_step_mod(pv, m);
}

/// One step forward or back modulo `m`, from within `0..m`.
proof fn lemma_step_mod(x: int, m: int)
    requires
        0 <= x < m,
    ensures
        (x + 1) % m == (if x + 1 < m {
            x + 1
        } else {
            0
        }),
        (x + m - 1) % m == (if x >= 1 {
            x - 1
        } else {
            m - 1
        }),
{
    if x + 1 < m {
        vstd::arithmetic::div_mod::lemma_small_mod((x + 1) as nat, m as nat);
    } else {
        vstd::arithmetic::div_mod::lemma_mod_self_0(m);
    }
    if x >= 1 {
        vstd::arithmetic::div_mod::lemma_mod_add_multiples_vanish(x - 1, m);
        vstd::arithmetic::div_mod::lemma_small_mod((x - 1) as nat, m as nat);
    } else {
        vstd::arithmetic::div_mod::lemma_small_mod((m - 1) as nat, m as nat);
    }
}

} // verus!
