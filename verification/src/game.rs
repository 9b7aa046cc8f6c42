//! One play session: the player's name and score, the snake and the food.

use crate::keys::{direction_of, direction_of_spec, KEY_ESCAPE, NO_KEY};
use crate::snake::{Snake, BASE_DELAY, IDLE_SPEED, TURN_SPEED};
use crate::text::{decimal_spec, push_decimal};
use crate::utils::{half_gap, half_spec, Direction, Glyph, Position, Style};
use rand::Rng;
use vstd::prelude::*;
use vstd::string::StringExecFns;

verus! {

/// The score that one piece of food is worth.
pub const FOOD_VALUE: i32 = 5;

/// Column and row at which the first piece of food lies.
pub const FIRST_FOOD_X: i32 = 12;

pub const FIRST_FOOD_Y: i32 = 10;

pub struct Food {
    pub value: i32,
    pub icon: String,
    pub pos: Position,
}

pub struct Game {
    pub username: String,
    pub score: i32,
    pub snake: Snake,
    pub food: Food,
}

/// `p` lies inside the border of a field of `width` columns and `height`
/// rows: not in the first or last column, nor in the first or last row.
pub open spec fn inside_border(p: Position, width: int, height: int) -> bool {
    &&& 1 <= p.posx <= width - 2
    &&& 1 <= p.posy <= height - 2
}

/// The middle of a field of `width` columns and `height` rows.
pub open spec fn center_spec(width: i32, height: i32) -> Position {
    Position { posx: half_spec(width as int) as i32, posy: half_spec(height as int) as i32 }
}

/// A number drawn from `low..=high`.
///
/// Trusted: calls `rand::thread_rng()` and `Rng::gen_range` with an
/// inclusive range. `gen_range` panics on an empty range, which `requires`
/// excludes, and samples a value of the range; which one is not
/// determined, so nothing more is claimed. Seeding the generator can fail
/// where the system offers no entropy.
#[verifier::external_body]
fn random_in_range(low: i32, high: i32) -> (r: i32)
    requires
        low <= high,
    ensures
        low <= r <= high,
{
    rand::thread_rng().gen_range(low..=high)
}

impl Food {
    /// A piece of food worth `value`, drawn as `$`, at its first place.
    pub fn new(value: i32) -> (f: Self)
        ensures
            f.value == value,
            f.icon@ == "$"@,
            f.pos == (Position { posx: FIRST_FOOD_X, posy: FIRST_FOOD_Y }),
    {
        Food { value, icon: String::from_str("$"), pos: Position::new(FIRST_FOOD_X, FIRST_FOOD_Y) }
    }

    /// What is to be drawn: the icon at the food's cell, in the accent
    /// colour.
    pub fn display(&self) -> (g: Glyph)
        ensures
            g.pos == self.pos,
            g.text@ == self.icon@,
            g.style == Style::ACCENT,
    {
        Glyph { pos: self.pos, text: self.icon.clone(), style: Style::ACCENT }
    }

    /// Moves the food to column `x`, row `y`.
    pub fn place(&mut self, x: i32, y: i32)
        ensures
            final(self).pos == (Position { posx: x, posy: y }),
            final(self).value == old(self).value,
            final(self).icon == old(self).icon,
    {
        self.pos.posy = y;
        self.pos.posx = x;
    }

    /// Moves the food to a random cell inside the border of a field of
    /// `width` columns and `height` rows. A field under three cells wide or
    /// high has no such cell, and the food then stays where it is. The
    /// cell may be one of the snake's: the snake then simply runs over it.
    pub fn relocate(&mut self, width: i32, height: i32)
        ensures
            final(self).value == old(self).value,
            final(self).icon == old(self).icon,
            width >= 3 && height >= 3 ==> inside_border(
                final(self).pos,
                width as int,
                height as int,
            ),
            !(width >= 3 && height >= 3) ==> final(self).pos == old(self).pos,
    {
        if width >= 3 && height >= 3 {
            let y = random_in_range(1, height - 2);
            let x = random_in_range(1, width - 2);
            self.place(x, y);
        }
    }
}

impl Game {
    /// The text of the status line for a player and a score.
    pub open spec fn status_spec(username: Seq<char>, score: int) -> Seq<char> {
        "USER : "@ + username + " | SCORE : "@ + decimal_spec(score)
    }

    /// A field of `width` columns and `height` rows has room for a new
    /// snake around its middle.
    pub open spec fn fits_spec(width: i32, height: i32) -> bool {
        Snake::can_start_at(center_spec(width, height))
    }

    /// When the head lies on the food, the new score fits in `i32` and the
    /// cell behind the tail can be computed.
    pub open spec fn can_update_score(&self) -> bool {
        self.snake@[0].pos == self.food.pos ==> {
            &&& i32::MIN <= self.score + self.food.value <= i32::MAX
            &&& self.snake.can_grow()
        }
    }

    /// `self` is what the key `ch` makes of `before`: where the key asks
    /// for a direction other than the reverse of the direction of travel,
    /// the snake heads that way at the turning rate; otherwise nothing has
    /// changed. Name, score, food and the snake's cells are as they were.
    pub open spec fn steered_from(&self, before: &Game, ch: i32) -> bool {
        &&& self.username == before.username
        &&& self.score == before.score
        &&& self.food == before.food
        &&& self.snake@ == before.snake@
        &&& self.snake.occupied() == before.snake.occupied()
        &&& self.snake.glyphs() == before.snake.glyphs()
        &&& before.snake.wf() ==> self.snake.wf()
        &&& match direction_of_spec(ch) {
            Some(d) if d != before.snake.heading().opposite_spec() => {
                &&& self.snake.heading() == d
                &&& self.snake.pace() == TURN_SPEED
            },
            _ => *self == *before,
        }
    }

    /// See [`Game::fits_spec`].
    #[verifier::when_used_as_spec(fits_spec)]
    pub fn fits(width: i32, height: i32) -> (b: bool)
        ensures
            b == Self::fits_spec(width, height),
    {
        let c = Position::new(half_gap(width, 0), half_gap(height, 0));
        if c.posx < i32::MIN + 2 {
            return false;
        }
        let b = Position::new(c.posx - 1, c.posy);
        let t = Position::new(c.posx - 2, c.posy);
        c.checked_hash().is_some() && b.checked_hash().is_some() && t.checked_hash().is_some()
    }

    /// See [`Game::can_update_score`].
    pub fn may_update_score(&self) -> (b: bool)
        requires
            self.snake.wf(),
        ensures
            b == self.can_update_score(),
    {
        if self.snake.head() == self.food.pos {
            self.score.checked_add(self.food.value).is_some() && self.snake.may_grow()
        } else {
            true
        }
    }

    /// A new session: the score at zero, a snake of three segments with
    /// its head in the middle of the field, heading right, and the first
    /// piece of food.
    pub fn new(name: String, width: i32, height: i32) -> (g: Self)
        requires
            Self::fits_spec(width, height),
        ensures
            g.username == name,
            g.score == 0,
            g.snake.wf(),
            g.snake.cells() == seq![
                center_spec(width, height),
                center_spec(width, height).next_spec(Direction::LEFT),
                center_spec(width, height).next_spec(Direction::LEFT).next_spec(
                    Direction::LEFT,
                ),
            ],
            g.snake.heading() == Direction::RIGHT,
            g.snake.pace() == IDLE_SPEED,
            g.snake.glyphs() == ("@"@, "O"@, "o"@),
            g.food.value == FOOD_VALUE,
            g.food.icon@ == "$"@,
            g.food.pos == (Position { posx: FIRST_FOOD_X, posy: FIRST_FOOD_Y }),
    {
        let textures = (String::from_str("@"), String::from_str("O"), String::from_str("o"));
        let position = Position::new(half_gap(width, 0), half_gap(height, 0));
        Game {
            username: name,
            score: 0,
            snake: Snake::new(position, textures),
            food: Food::new(FOOD_VALUE),
        }
    }

    /// Checks whether the head has reached the food. If so the food's
    /// value is added to the score, the food moves to a new place and the
    /// snake grows at its tail; if not, nothing changes.
    pub fn update_score(&mut self, width: i32, height: i32)
        requires
            old(self).snake.wf(),
            old(self).can_update_score(),
        ensures
            final(self).username == old(self).username,
            if old(self).snake@[0].pos == old(self).food.pos {
                &&& final(self).score == old(self).score + old(self).food.value
                &&& final(self).snake.grew_from(&old(self).snake)
                &&& final(self).food.value == old(self).food.value
                &&& final(self).food.icon == old(self).food.icon
                &&& width >= 3 && height >= 3 ==> inside_border(
                    final(self).food.pos,
                    width as int,
                    height as int,
                )
                &&& !(width >= 3 && height >= 3) ==> final(self).food.pos == old(self).food.pos
            } else {
                *final(self) == *old(self)
            },
    {
        if self.snake.head() == self.food.pos {
            self.score += self.food.value;
            self.food.relocate(width, height);
            self.snake.extend_back();
        }
    }

    /// Steers the snake by a key. A key that asks for a direction turns
    /// the snake unless it asks for the reverse of the direction of travel;
    /// every other key is ignored.
    pub fn control_snake(&mut self, ch: i32)
        ensures
            final(self).steered_from(old(self), ch),
    {
        match direction_of(ch) {
            Some(d) => {
                self.snake.turn(d);
            },
            None => {},
        }
    }

    /// What is to be drawn: the status line with the player's name and
    /// score at the origin, then the snake, head first, then the food.
    pub fn display(&self) -> (out: Vec<Glyph>)
        ensures
            out.len() == self.snake@.len() + 2,
            out[0].pos == (Position { posx: 0, posy: 0 }),
            out[0].text@ == Self::status_spec(self.username@, self.score as int),
            out[0].style == Style::PLAIN,
            forall|i: int|
                0 <= i < self.snake@.len() ==> {
                    &&& (#[trigger] out[i + 1]).pos == self.snake@[i].pos
                    &&& out[i + 1].text@ == self.snake.glyph_of(self.snake@[i].part)
                    &&& out[i + 1].style == Style::BOLD
                },
            out[out.len() - 1].pos == self.food.pos,
            out[out.len() - 1].text@ == self.food.icon@,
            out[out.len() - 1].style == Style::ACCENT,
    {
        let mut data = String::from_str("USER : ");
        data.append(self.username.as_str());
        data.append(" | SCORE : ");
        push_decimal(&mut data, self.score);
        let mut out: Vec<Glyph> = Vec::new();
        out.push(Glyph { pos: Position::new(0, 0), text: data, style: Style::PLAIN });
        let mut body = self.snake.display();
        let ghost drawn = body@;
        out.append(&mut body);
        out.push(self.food.display());
        proof {
            assert forall|i: int| 0 <= i < self.snake@.len() implies {
                &&& (#[trigger] out[i + 1]).pos == self.snake@[i].pos
                &&& out[i + 1].text@ == self.snake.glyph_of(self.snake@[i].part)
                &&& out[i + 1].style == Style::BOLD
            } by {
                assert(out[i + 1] == drawn[i]);
            }
        }
        out
    }

    /// Acts on what the keyboard poll of a tick gave. Without a key the
    /// speed falls back to idle; escape asks for the pause menu and changes
    /// nothing; any other key steers as [`Game::control_snake`] does. The
    /// result says whether the pause menu was asked for.
    pub fn handle_key(&mut self, key: i32) -> (pause: bool)
        ensures
            pause == (key == KEY_ESCAPE),
            final(self).username == old(self).username,
            final(self).score == old(self).score,
            final(self).food == old(self).food,
            final(self).snake@ == old(self).snake@,
            final(self).snake.occupied() == old(self).snake.occupied(),
            final(self).snake.glyphs() == old(self).snake.glyphs(),
            old(self).snake.wf() ==> final(self).snake.wf(),
            key == NO_KEY ==> final(self).snake.pace() == IDLE_SPEED,
            key == NO_KEY ==> final(self).snake.heading() == old(self).snake.heading(),
            key == KEY_ESCAPE ==> *final(self) == *old(self),
            key != NO_KEY && key != KEY_ESCAPE ==> final(self).steered_from(old(self), key),
    {
        if key == NO_KEY {
            self.snake.slow_down();
            false
        } else if key == KEY_ESCAPE {
            true
        } else {
            self.control_snake(key);
            false
        }
    }

    /// The milliseconds to wait before the next tick.
    pub fn delay(&self) -> (ms: i32)
        requires
            self.snake.wf(),
        ensures
            ms == BASE_DELAY / self.snake.pace(),
            0 <= ms <= BASE_DELAY,
    {
        self.snake.tick_delay()
    }
}

} // verus!
