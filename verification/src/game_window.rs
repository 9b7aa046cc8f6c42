//! The menus of the game, built for a window of a given size: the start
//! menu, the pause and game-over menu, and the panel that asks for the
//! player's name. Each is handed out ready to be drawn and polled.

use crate::keys::{is_alphanumeric, is_alphanumeric_spec, KEY_BACKSPACE, KEY_ESCAPE, KEY_RETURN};
use vstd::string::StrSliceExecFns;
use crate::text::{pop_char, push_char, push_decimal, decimal_spec, width_spec};
use crate::utils::{centered_spec, half_spec, Position};
use crate::window_component::{Action, Choice, Component, ComponentView, TITLE_ROW};
use vstd::prelude::*;
use vstd::string::StringExecFns;

verus! {

/// The size of the screen, in character cells.
#[derive(Clone, Copy, Debug, PartialEq, Eq, Structural)]
pub struct GameWindow {
    pub window_width: i32,
    pub window_height: i32,
}

/// The height of a panel of `height` rows once it holds its `count`-th
/// choice: a panel with as many choices as rows grows by two rows.
pub open spec fn height_with(height: int, count: int) -> int {
    if count == height {
        height + 2
    } else {
        height
    }
}

/// The name after a key was pressed in the name panel: backspace removes
/// the last character of a name that has one, a digit or letter is
/// appended, and every other key leaves the name as it is.
pub open spec fn name_after(name: Seq<char>, key: i32) -> Seq<char> {
    if key == KEY_BACKSPACE && name.len() > 0 {
        name.drop_last()
    } else if is_alphanumeric_spec(key) {
        name.push((key as u8) as char)
    } else {
        name
    }
}

/// The key ends the entry of the name: return or escape.
pub open spec fn ends_name(key: i32) -> bool {
    key == KEY_RETURN || key == KEY_ESCAPE
}

/// The title of the pause and game-over menu for a score.
pub open spec fn score_title_spec(score: int) -> Seq<char> {
    "Score : "@ + decimal_spec(score)
}

/// See [`score_title_spec`].
pub fn score_title(score: i32) -> (title: String)
    ensures
        title@ == score_title_spec(score as int),
{
    let mut title = String::from_str("Score : ");
    push_decimal(&mut title, score);
    title
}

/// Acts on a key pressed in the name panel and tells whether the entry
/// is over. See [`name_after`] and [`ends_name`].
pub fn edit_name(name: &mut String, key: i32) -> (done: bool)
    ensures
        done == ends_name(key),
        final(name)@ == name_after(old(name)@, key),
{
    if key == KEY_RETURN || key == KEY_ESCAPE {
        return true;
    }
    if key == KEY_BACKSPACE && name.as_str().unicode_len() > 0 {
        pop_char(name);
    } else if is_alphanumeric(key) {
        push_char(name, (key as u8) as char);
    }
    false
}

impl GameWindow {
    /// The window of `window_width` columns and `window_height` rows.
    pub fn new(window_width: i32, window_height: i32) -> (w: Self)
        ensures
            w.window_width == window_width,
            w.window_height == window_height,
    {
        GameWindow { window_width, window_height }
    }

    /// What every panel made for this window has: the width asked for,
    /// a place that centres a panel of the size asked for in the window, a
    /// centred title, the first choice selected if there is one, and
    /// nothing typed, drawn or released yet.
    pub open spec fn frames(&self, c: &Component, height: i32, width: i32, title: Seq<char>) -> bool {
        &&& c.wf()
        &&& c@.width == width
        &&& c@.origin == (Position {
            posx: half_spec(self.window_width - width) as i32,
            posy: half_spec(self.window_height - height) as i32,
        })
        &&& c@.cur_y == 1
        &&& c@.selected == 0
        &&& c@.inputs == Seq::<char>::empty()
        &&& c@.title == title
        &&& c@.title_pos == (Position {
            posx: centered_spec(width as int, width_spec(title) as int) as i32,
            posy: TITLE_ROW,
        })
        &&& !c@.released
    }

    /// The menu shown when the game is paused or over, under the given
    /// title. A paused game can be resumed, restarted or quit; a game that
    /// is over offers only the last two.
    pub fn pause_menu(&self, height: i32, width: i32, title: String, is_gameover: bool) -> (c:
        Component)
        ensures
            self.frames(&c, height, width, title@),
            c@.input_len == 0,
            is_gameover ==> {
                &&& c@.options.len() == 2
                &&& c@.options[0].text@ == "Restart"@
                &&& c@.options[0].handler == Action::RESTART
                &&& c@.options[1].text@ == "Quit"@
                &&& c@.options[1].handler == Action::QUIT
                &&& c@.height == height_with(height_with(height as int, 1), 2)
            },
            !is_gameover ==> {
                &&& c@.options.len() == 3
                &&& c@.options[0].text@ == "Resume"@
                &&& c@.options[0].handler == Action::RESUME
                &&& c@.options[1].text@ == "Restart"@
                &&& c@.options[1].handler == Action::RESTART
                &&& c@.options[2].text@ == "Quit"@
                &&& c@.options[2].handler == Action::QUIT
                &&& c@.height == height_with(
                    height_with(height_with(height as int, 1), 2),
                    3,
                )
            },
    {
        let mut component: Component = Component::new(
            height,
            width,
            self.window_height,
            self.window_width,
        );
        component.set_title(title);
        if !is_gameover {
            let choice1: Choice = Choice::new(String::from_str("Resume"), Action::RESUME);
            component.add_choice(choice1);
        }
        let choice2: Choice = Choice::new(String::from_str("Restart"), Action::RESTART);
        let choice3: Choice = Choice::new(String::from_str("Quit"), Action::QUIT);
        component.add_choice(choice2);
        component.add_choice(choice3);
        component
    }

    /// The menu shown before a game: start or quit.
    pub fn start_menu(&self, height: i32, width: i32) -> (c: Component)
        ensures
            self.frames(&c, height, width, "VIPER"@),
            c@.input_len == 0,
            c@.options.len() == 2,
            c@.options[0].text@ == "Start"@,
            c@.options[0].handler == Action::START,
            c@.options[1].text@ == "Quit"@,
            c@.options[1].handler == Action::QUIT,
            c@.height == height_with(height_with(height as int, 1), 2),
    {
        let mut component: Component = Component::new(
            height,
            width,
            self.window_height,
            self.window_width,
        );
        component.set_title(String::from_str("VIPER"));
        let choice1: Choice = Choice::new(String::from_str("Start"), Action::START);
        let choice2: Choice = Choice::new(String::from_str("Quit"), Action::QUIT);
        component.add_choice(choice1);
        component.add_choice(choice2);
        component
    }

    /// The panel that asks for the player's name: a title, one input
    /// line and no choices.
    pub fn get_name(&self, height: i32, width: i32) -> (c: Component)
        ensures
            self.frames(&c, height, width, "You Name?"@),
            c@.input_len == 1,
            c@.options.len() == 0,
            c@.height == height,
    {
        let title: String = String::from_str("You Name?");
        let mut component: Component = Component::new(
            height,
            width,
            self.window_height,
            self.window_width,
        );
        component.set_title(title);
        component.set_inputbox();
        component
    }

    /// One poll of the name panel. Return or escape ends the entry: the
    /// panel's resources are given back and the name stays as typed,
    /// possibly empty. Any other key edits the name as [`name_after`]
    /// says, and the panel's input line shows the result. The result
    /// tells whether the entry is over; on a panel that was already
    /// released it is, and nothing changes.
    pub fn name_poll(component: &mut Component, name: &mut String, key: i32) -> (done: bool)
        ensures
            done == (old(component)@.released || ends_name(key)),
            final(name)@ == if old(component)@.released {
                old(name)@
            } else {
                name_after(old(name)@, key)
            },
            final(component)@ == if old(component)@.released {
                old(component)@
            } else if ends_name(key) {
                ComponentView { released: true, ..old(component)@ }
            } else {
                ComponentView { inputs: name_after(old(name)@, key), ..old(component)@ }
            },
            old(component).wf() ==> final(component).wf(),
    {
        if component.is_released() {
            return true;
        }
        if edit_name(name, key) {
            component.del();
            return true;
        }
        component.update_input(name.clone(), 1);
        false
    }
}

} // verus!
