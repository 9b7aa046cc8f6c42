//! The menu panel: a title, a list of choices of which one is selected,
//! an optional line of input, and the keys that move the selection or
//! resolve the menu.

use crate::keys::{
    is_confirm, is_confirm_spec, KEY_DOWN, KEY_ESCAPE, KEY_S, KEY_UP, KEY_W, NO_KEY,
};
use crate::text::{width, width_spec};
use crate::utils::{centered, centered_spec, half_gap, half_spec, Glyph, Position, Style};
use vstd::prelude::*;

verus! {

/// The row of a panel in which its title stands.
pub const TITLE_ROW: i32 = 1;

/// The row of a panel in which its first line below the title stands.
pub const FIRST_ROW: i32 = 2;

/// How many choices a panel can hold.
pub const MAX_CHOICES: usize = 0x7fff_fff0;

/// What a menu resolves to.
#[derive(Clone, Copy, Debug, PartialEq, Eq, Structural)]
pub enum Action {
    QUIT,
    RESUME,
    RESTART,
    START,
}

/// One line of a menu, and what choosing it means.
pub struct Choice {
    pub text: String,
    pub handler: Action,
}

pub struct Component {
    height: i32,
    width: i32,
    origin: Position,
    cur_y: i32,
    options: Vec<Choice>,
    option_selected: usize,
    inputs: String,
    input_len: usize,
    title: String,
    title_pos: Position,
    released: bool,
}

/// What a panel holds, as plain values.
pub struct ComponentView {
    /// Rows and columns of the panel.
    pub height: i32,
    pub width: i32,
    /// The screen cell of the panel's upper left corner.
    pub origin: Position,
    /// The row below the last line drawn.
    pub cur_y: i32,
    /// The choices, top to bottom.
    pub options: Seq<Choice>,
    /// The index of the selected choice; zero while there is none.
    pub selected: int,
    /// The text of the input line.
    pub inputs: Seq<char>,
    /// How many input boxes were asked for.
    pub input_len: int,
    pub title: Seq<char>,
    /// Where in the panel the title starts.
    pub title_pos: Position,
    /// The panel's screen resources have been given back.
    pub released: bool,
}

/// The selection after "next" among `n` choices: one further down, from
/// the last back to the first.
pub open spec fn next_index(i: int, n: int) -> int {
    (i + 1) % n
}

/// The selection after "previous" among `n` choices: one further up, from
/// the first on to the last.
pub open spec fn previous_index(i: int, n: int) -> int {
    (i - 1 + n) % n
}

/// The selection after `k` presses of "next".
pub open spec fn next_times(i: int, n: int, k: nat) -> int
    decreases k,
{
    if k == 0 {
        i
    } else {
        next_index(next_times(i, n, (k - 1) as nat), n)
    }
}

/// The selection after `k` presses of "previous".
pub open spec fn previous_times(i: int, n: int, k: nat) -> int
    decreases k,
{
    if k == 0 {
        i
    } else {
        previous_index(previous_times(i, n, (k - 1) as nat), n)
    }
}

/// Pressing "next" `k` times moves the selection `k` places down, modulo
/// the number of choices.
pub proof fn lemma_next_times(i: int, n: int, k: nat)
    requires
        0 <= i < n,
    ensures
        next_times(i, n, k) == (i + k) % n,
    decreases k,
{
    if k == 0 {
        vstd::arithmetic::div_mod::lemma_small_mod(i as nat, n as nat);
    } else {
        lemma_next_times(i, n, (k - 1) as nat);
        vstd::arithmetic::div_mod::lemma_add_mod_noop(i + k - 1, 1, n);
        vstd::arithmetic::div_mod::lemma_mod_twice(i + k - 1, n);
        vstd::arithmetic::div_mod::lemma_add_mod_noop((i + k - 1) % n, 1, n);
    }
}

/// Pressing "previous" `k` times moves the selection `k` places up, modulo
/// the number of choices.
pub proof fn lemma_previous_times(i: int, n: int, k: nat)
    requires
        0 <= i < n,
    ensures
        previous_times(i, n, k) == (i - k) % n,
    decreases k,
{
    if k == 0 {
        vstd::arithmetic::div_mod::lemma_small_mod(i as nat, n as nat);
    } else {
        lemma_previous_times(i, n, (k - 1) as nat);
        let j = i - k + 1;
        vstd::arithmetic::div_mod::lemma_add_mod_noop(j, n - 1, n);
        vstd::arithmetic::div_mod::lemma_mod_twice(j, n);
        vstd::arithmetic::div_mod::lemma_add_mod_noop(j % n, n - 1, n);
        vstd::arithmetic::div_mod::lemma_mod_add_multiples_vanish(j - 1, n);
    }
}

/// The panel after the key `x` was pressed while the menu is open:
/// "next" and "previous" move the selection round the choices, a
/// confirming key gives the panel's resources back, and any other key,
/// or any key on a panel without choices, changes nothing.
pub open spec fn key_effect(v: ComponentView, x: i32) -> ComponentView {
    let n = v.options.len() as int;
    if n == 0 {
        v
    } else if x == KEY_S || x == KEY_DOWN {
        ComponentView { selected: next_index(v.selected, n), ..v }
    } else if x == KEY_W || x == KEY_UP {
        ComponentView { selected: previous_index(v.selected, n), ..v }
    } else if is_confirm_spec(x) {
        ComponentView { released: true, ..v }
    } else {
        v
    }
}

/// The panel after the key `x` was pressed `k` times.
pub open spec fn key_effect_times(v: ComponentView, x: i32, k: nat) -> ComponentView
    decreases k,
{
    if k == 0 {
        v
    } else {
        key_effect(key_effect_times(v, x, (k - 1) as nat), x)
    }
}

/// Pressing a "next" key `k` times moves the selection `k` places down
/// and changes nothing else; a "previous" key moves it `k` places up.
pub proof fn lemma_key_effect_times(v: ComponentView, x: i32, k: nat)
    requires
        0 <= v.selected < v.options.len(),
        x == KEY_S || x == KEY_DOWN || x == KEY_W || x == KEY_UP,
    ensures
        key_effect_times(v, x, k) == (ComponentView {
            selected: if x == KEY_S || x == KEY_DOWN {
                next_times(v.selected, v.options.len() as int, k)
            } else {
                previous_times(v.selected, v.options.len() as int, k)
            },
            ..v
        }),
    decreases k,
{
    if k > 0 {
        lemma_key_effect_times(v, x, (k - 1) as nat);
    }
}

/// On a menu of `n` choices, `n` presses of a "next" key bring the
/// selection back to where it was and leave the panel as it was, and so do
/// `n` presses of a "previous" key.
pub proof fn lemma_full_cycle(v: ComponentView, x: i32)
    requires
        v.options.len() == 0 || 0 <= v.selected < v.options.len(),
        x == KEY_S || x == KEY_DOWN || x == KEY_W || x == KEY_UP,
    ensures
        key_effect_times(v, x, v.options.len()) == v,
{
    let n = v.options.len();
    if n > 0 {
        let i = v.selected;
        lemma_key_effect_times(v, x, n);
        lemma_next_times(i, n as int, n);
        lemma_previous_times(i, n as int, n);
        vstd::arithmetic::div_mod::lemma_mod_add_multiples_vanish(i, n as int);
        vstd::arithmetic::div_mod::lemma_mod_sub_multiples_vanish(i, n as int);
        vstd::arithmetic::div_mod::lemma_small_mod(i as nat, n);
    }
}

/// The panel after one poll with `key`: a released panel and a poll
/// without a key change nothing, escape gives the panel's resources back,
/// and any other key acts as [`key_effect`] says.
pub open spec fn poll_effect(v: ComponentView, key: i32) -> ComponentView {
    if v.released || key == NO_KEY {
        v
    } else if key == KEY_ESCAPE {
        ComponentView { released: true, ..v }
    } else {
        key_effect(v, key)
    }
}

/// What one poll with `key` hands back: the action the menu resolves to,
/// if this poll resolves it.
pub open spec fn poll_result(v: ComponentView, key: i32) -> Option<Action> {
    if v.released || key == NO_KEY {
        None
    } else if key == KEY_ESCAPE {
        Some(Action::QUIT)
    } else if is_confirm_spec(key) && v.options.len() > 0 {
        Some(v.options[v.selected].handler)
    } else {
        None
    }
}

/// The panel after it was polled with each key of `keys` in turn.
pub open spec fn polled(v: ComponentView, keys: Seq<i32>) -> ComponentView
    decreases keys.len(),
{
    if keys.len() == 0 {
        v
    } else {
        poll_effect(polled(v, keys.drop_last()), keys.last())
    }
}

/// How many of the polls with `keys` gave the panel's resources back.
pub open spec fn releases(v: ComponentView, keys: Seq<i32>) -> nat
    decreases keys.len(),
{
    if keys.len() == 0 {
        0
    } else {
        let before = polled(v, keys.drop_last());
        releases(v, keys.drop_last()) + if !before.released && poll_effect(
            before,
            keys.last(),
        ).released {
            1nat
        } else {
            0nat
        }
    }
}

/// How many of the polls with `keys` handed an action back.
pub open spec fn resolutions(v: ComponentView, keys: Seq<i32>) -> nat
    decreases keys.len(),
{
    if keys.len() == 0 {
        0
    } else {
        resolutions(v, keys.drop_last()) + if poll_result(
            polled(v, keys.drop_last()),
            keys.last(),
        ) is Some {
            1nat
        } else {
            0nat
        }
    }
}

/// Whatever keys an open menu is polled with, its panel is released at
/// most once, namely by the one poll that hands an action back: a menu
/// that has resolved was released exactly once, one that has not was not
/// released at all, and a released panel stays as it is.
pub proof fn lemma_released_once(v: ComponentView, keys: Seq<i32>)
    requires
        !v.released,
    ensures
        releases(v, keys) == if polled(v, keys).released {
            1nat
        } else {
            0nat
        },
        resolutions(v, keys) == releases(v, keys),
        forall|key: i32|
            polled(v, keys).released ==> #[trigger] poll_effect(polled(v, keys), key) == polled(
                v,
                keys,
            ) && poll_result(polled(v, keys), key) is None,
    decreases keys.len(),
{
    if keys.len() > 0 {
        lemma_released_once(v, keys.drop_last());
    }
}

impl Choice {
    pub fn new(text: String, handler: Action) -> (c: Self)
        ensures
            c.text == text,
            c.handler == handler,
    {
        Choice { text, handler }
    }
}

impl View for Component {
    type V = ComponentView;

    closed spec fn view(&self) -> ComponentView {
        ComponentView {
            height: self.height,
            width: self.width,
            origin: self.origin,
            cur_y: self.cur_y,
            options: self.options@,
            selected: self.option_selected as int,
            inputs: self.inputs@,
            input_len: self.input_len as int,
            title: self.title@,
            title_pos: self.title_pos,
            released: self.released,
        }
    }
}

impl Component {
    /// What every panel satisfies: the selection points at a choice, or is
    /// zero while there is none, and the choices are not too many to count
    /// their rows in `i32`.
    pub open spec fn wf(&self) -> bool {
        &&& self@.options.len() <= MAX_CHOICES
        &&& 0 <= self@.selected
        &&& self@.selected < self@.options.len() || self@.selected == 0
        &&& 0 <= self@.input_len
    }

    /// An empty panel of `height` rows and `width` columns, centred in a
    /// window of `window_height` rows and `window_width` columns.
    pub fn new(height: i32, width: i32, window_height: i32, window_width: i32) -> (c: Self)
        ensures
            c.wf(),
            c@ == (ComponentView {
                height,
                width,
                origin: Position {
                    posx: half_spec(window_width - width) as i32,
                    posy: half_spec(window_height - height) as i32,
                },
                cur_y: 1,
                options: Seq::empty(),
                selected: 0,
                inputs: Seq::empty(),
                input_len: 0,
                title: Seq::empty(),
                title_pos: Position { posx: 0, posy: 0 },
                released: false,
            }),
    {
        let posy = half_gap(window_height, height);
        let posx = half_gap(window_width, width);
        Component {
            height,
            width,
            origin: Position::new(posx, posy),
            cur_y: 1,
            options: Vec::new(),
            option_selected: 0,
            title: String::new(),
            title_pos: Position::new(0, 0),
            input_len: 0,
            inputs: String::new(),
            released: false,
        }
    }

    /// Sets the title, centred in the title row.
    pub fn set_title(&mut self, title: String)
        ensures
            final(self)@ == (ComponentView {
                title: title@,
                title_pos: Position {
                    posx: centered_spec(old(self)@.width as int, width_spec(title@) as int) as i32,
                    posy: TITLE_ROW,
                },
                ..old(self)@
            }),
    {
        let p = centered(self.width, width(&title));
        self.title = title;
        self.title_pos.posx = p;
        self.title_pos.posy = TITLE_ROW;
    }

    /// Appends a choice. A panel that has as many choices as rows grows by
    /// two rows. The selection stays where it is; the first choice added
    /// is the one selected.
    pub fn add_choice(&mut self, choice: Choice)
        requires
            old(self).wf(),
            old(self)@.options.len() < MAX_CHOICES,
        ensures
            final(self).wf(),
            final(self)@ == (ComponentView {
                options: old(self)@.options.push(choice),
                height: if old(self)@.options.len() + 1 == old(self)@.height {
                    (old(self)@.height + 2) as i32
                } else {
                    old(self)@.height
                },
                ..old(self)@
            }),
    {
        self.options.push(choice);
        if self.options.len() as i64 == self.height as i64 {
            self.height += 2;
        }
        if self.options.len() == 1 {
            self.option_selected = 0;
        }
    }

    /// The row in which the first choice is drawn: the first row below
    /// the title, or the one after it when the panel has an input line.
    pub open spec fn first_choice_row(&self) -> int {
        if self@.input_len > 0 {
            FIRST_ROW + 1
        } else {
            FIRST_ROW as int
        }
    }

    /// How many glyphs are drawn before the first choice: the title, and
    /// the input line where there is one.
    pub open spec fn lines_before_choices(&self) -> int {
        if self@.input_len > 0 {
            2
        } else {
            1
        }
    }

    /// What is to be drawn, in this order: the title at its place, in the
    /// accent colour; the input line, where the panel has one, centred in
    /// the row below the first; and the choices, each centred in a row of
    /// its own from [`Component::first_choice_row`] down, the selected one
    /// in bold. Columns and rows count from the panel's corner. The panel
    /// remembers the row below the last choice.
    pub fn display(&mut self) -> (out: Vec<Glyph>)
        requires
            old(self).wf(),
        ensures
            final(self)@ == (ComponentView {
                cur_y: (old(self).first_choice_row() + old(self)@.options.len()) as i32,
                ..old(self)@
            }),
            out.len() == old(self).lines_before_choices() + old(self)@.options.len(),
            out[0].pos == old(self)@.title_pos,
            out[0].text@ == old(self)@.title,
            out[0].style == Style::ACCENT,
            old(self)@.input_len > 0 ==> {
                &&& out[1].pos == (Position {
                    posx: centered_spec(
                        old(self)@.width as int,
                        width_spec(old(self)@.inputs) as int,
                    ) as i32,
                    posy: (FIRST_ROW + 1) as i32,
                })
                &&& out[1].text@ == old(self)@.inputs
                &&& out[1].style == Style::PLAIN
            },
            forall|i: int|
                0 <= i < old(self)@.options.len() ==> {
                    &&& (#[trigger] out[old(self).lines_before_choices() + i]).pos == (Position {
                        posx: centered_spec(
                            old(self)@.width as int,
                            width_spec(old(self)@.options[i].text@) as int,
                        ) as i32,
                        posy: (old(self).first_choice_row() + i) as i32,
                    })
                    &&& out[old(self).lines_before_choices() + i].text@
                        == old(self)@.options[i].text@
                    &&& out[old(self).lines_before_choices() + i].style
                        == if i == old(self)@.selected {
                        Style::BOLD
                    } else {
                        Style::PLAIN
                    }
                },
    {
        let mut out: Vec<Glyph> = Vec::new();
        out.push(Glyph { pos: self.title_pos, text: self.title.clone(), style: Style::ACCENT });
        self.cur_y = FIRST_ROW;
        if self.input_len > 0 {
            self.cur_y += 1;
            let p = centered(self.width, width(&self.inputs));
            out.push(
                Glyph {
                    pos: Position::new(p, self.cur_y),
                    text: self.inputs.clone(),
                    style: Style::PLAIN,
                },
            );
        }
        let ghost before = out.len() as int;
        let n = self.options.len();
        let mut i: usize = 0;
        while i < n
            invariant
                self.wf(),
                n == self@.options.len(),
                i <= n,
                before == old(self).lines_before_choices(),
                out.len() == before + i,
                self@ == (ComponentView {
                    cur_y: (old(self).first_choice_row() + i) as i32,
                    ..old(self)@
                }),
                out[0].pos == old(self)@.title_pos,
                out[0].text@ == old(self)@.title,
                out[0].style == Style::ACCENT,
                old(self)@.input_len > 0 ==> {
                    &&& out[1].pos == (Position {
                        posx: centered_spec(
                            old(self)@.width as int,
                            width_spec(old(self)@.inputs) as int,
                        ) as i32,
                        posy: (FIRST_ROW + 1) as i32,
                    })
                    &&& out[1].text@ == old(self)@.inputs
                    &&& out[1].style == Style::PLAIN
                },
                forall|j: int|
                    0 <= j < i ==> {
                        &&& (#[trigger] out[before + j]).pos == (Position {
                            posx: centered_spec(
                                old(self)@.width as int,
                                width_spec(old(self)@.options[j].text@) as int,
                            ) as i32,
                            posy: (old(self).first_choice_row() + j) as i32,
                        })
                        &&& out[before + j].text@ == old(self)@.options[j].text@
                        &&& out[before + j].style == if j == old(self)@.selected {
                            Style::BOLD
                        } else {
                            Style::PLAIN
                        }
                    },
            decreases n - i,
        {
            let p = centered(self.width, width(&self.options[i].text));
            let style = if i == self.option_selected {
                Style::BOLD
            } else {
                Style::PLAIN
            };
            let ghost shown = out@;
            out.push(
                Glyph {
                    pos: Position::new(p, self.cur_y),
                    text: self.options[i].text.clone(),
                    style,
                },
            );
            self.cur_y += 1;
            proof {
                assert forall|j: int| 0 <= j < i implies out[before + j] == #[trigger] shown[before + j] by {}
            }
            i += 1;
        }
        out
    }

    /// The panel after the key `x` was handled: see [`key_effect`].
    pub open spec fn after_key(&self, x: i32) -> ComponentView {
        key_effect(self@, x)
    }

    /// Acts on a key pressed in a menu. `s` or the down arrow selects the
    /// next choice, `w` or the up arrow the previous one, both wrapping
    /// round; return or enter resolves the menu to the selected choice's
    /// action, which is handed back as `Err` after the panel's resources
    /// were given back. Everything else is `Ok` and leaves the menu open.
    pub fn handle_input(&mut self, x: i32) -> (r: Result<(), Action>)
        requires
            old(self).wf(),
        ensures
            final(self).wf(),
            final(self)@ == old(self).after_key(x),
            r == if is_confirm_spec(x) && old(self)@.options.len() > 0 {
                Err::<(), Action>(old(self)@.options[old(self)@.selected].handler)
            } else {
                Ok::<(), Action>(())
            },
    {
        let n = self.options.len();
        if n == 0 {
            return Ok(());
        }
        if x == KEY_S || x == KEY_DOWN {
            self.option_selected = (self.option_selected + 1) % n;
        } else if x == KEY_W || x == KEY_UP {
            proof {
                let i = self.option_selected as int;
                if i == 0 {
                    vstd::arithmetic::div_mod::lemma_small_mod((n - 1) as nat, n as nat);
                } else {
                    vstd::arithmetic::div_mod::lemma_mod_add_multiples_vanish(i - 1, n as int);
                    vstd::arithmetic::div_mod::lemma_small_mod((i - 1) as nat, n as nat);
                }
            }
            if self.option_selected == 0 {
                self.option_selected = n - 1;
            } else {
                self.option_selected = self.option_selected - 1;
            }
        } else if is_confirm(x) {
            let action = self.options[self.option_selected].handler;
            return self.option_handler(action);
        }
        Ok(())
    }

    /// Asks for one more input box and returns how many there are now.
    pub fn set_inputbox(&mut self) -> (index: i32)
        requires
            0 <= old(self)@.input_len < i32::MAX,
        ensures
            index == old(self)@.input_len + 1,
            final(self)@ == (ComponentView { input_len: old(self)@.input_len + 1, ..old(self)@ }),
    {
        self.input_len += 1;
        self.input_len as i32
    }

    /// Replaces the text of the input line. The panel has one line of
    /// input, whatever `index` is.
    pub fn update_input(&mut self, input: String, index: i32)
        ensures
            final(self)@ == (ComponentView { inputs: input@, ..old(self)@ }),
    {
        self.inputs = input;
    }

    /// Resolves the menu to `action`: the panel's resources are given
    /// back and the action is handed to the caller as `Err`, the signal
    /// that ends the menu.
    pub fn option_handler(&mut self, action: Action) -> (r: Result<(), Action>)
        ensures
            r == Err::<(), Action>(action),
            final(self)@ == (ComponentView { released: true, ..old(self)@ }),
    {
        self.del();
        Err(action)
    }

    /// Gives the panel's screen resources back. The result tells whether
    /// this call did so: it is `true` once, and `false` on a panel that was
    /// released before.
    pub fn del(&mut self) -> (first: bool)
        ensures
            first == !old(self)@.released,
            final(self)@ == (ComponentView { released: true, ..old(self)@ }),
    {
        let first = !self.released;
        self.released = true;
        first
    }

    /// One poll of an open menu. No key changes nothing; escape gives the
    /// panel's resources back and resolves the menu to `QUIT`, whatever is
    /// selected; any other key is handled as [`Component::handle_input`]
    /// does. The result is the action the menu resolved to, if it did. On
    /// a panel that was already released nothing happens. See
    /// [`poll_effect`] and [`poll_result`].
    pub fn poll(&mut self, key: i32) -> (r: Option<Action>)
        requires
            old(self).wf(),
        ensures
            final(self).wf(),
            final(self)@ == poll_effect(old(self)@, key),
            r == poll_result(old(self)@, key),
            !old(self)@.released ==> (r is Some <==> final(self)@.released),
    {
        if self.released || key == NO_KEY {
            return None;
        }
        if key == KEY_ESCAPE {
            self.del();
            return Some(Action::QUIT);
        }
        match self.handle_input(key) {
            Err(action) => Some(action),
            Ok(()) => None,
        }
    }

    /// The number of choices.
    pub fn option_count(&self) -> (n: usize)
        ensures
            n == self@.options.len(),
    {
        self.options.len()
    }

    /// The index of the selected choice.
    pub fn selected(&self) -> (i: usize)
        ensures
            i == self@.selected,
    {
        self.option_selected
    }

    /// Whether the panel's screen resources were given back.
    pub fn is_released(&self) -> (b: bool)
        ensures
            b == self@.released,
    {
        self.released
    }

    /// Rows of the panel.
    pub fn height(&self) -> (h: i32)
        ensures
            h == self@.height,
    {
        self.height
    }

    /// Columns of the panel.
    pub fn width(&self) -> (w: i32)
        ensures
            w == self@.width,
    {
        self.width
    }

    /// The screen cell of the panel's upper left corner.
    pub fn origin(&self) -> (p: Position)
        ensures
            p == self@.origin,
    {
        self.origin
    }

    /// Where in the panel the title starts.
    pub fn title_pos(&self) -> (p: Position)
        ensures
            p == self@.title_pos,
    {
        self.title_pos
    }

    /// The row below the last line drawn.
    pub fn cur_y(&self) -> (y: i32)
        ensures
            y == self@.cur_y,
    {
        self.cur_y
    }

    /// How many input boxes were asked for.
    pub fn input_count(&self) -> (n: usize)
        ensures
            n == self@.input_len,
    {
        self.input_len
    }

    /// The text of the input line.
    pub fn input(&self) -> (s: String)
        ensures
            s@ == self@.inputs,
    {
        self.inputs.clone()
    }

    /// The title.
    pub fn title(&self) -> (s: String)
        ensures
            s@ == self@.title,
    {
        self.title.clone()
    }
}

} // verus!
