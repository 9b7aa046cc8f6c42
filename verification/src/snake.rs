//! The snake: an ordered body of cells, the set of cells it occupies, and
//! the rules by which it advances, grows and turns.

use crate::text::{decimal_spec, push_decimal};
use crate::utils::{Direction, Glyph, Position, Style};
use std::collections::HashSet;
use std::collections::VecDeque;
use vstd::prelude::*;
use vstd::string::StringExecFns;

verus! {

/// The speed factor right after a turn.
pub const TURN_SPEED: i32 = 4;

/// The speed factor the snake falls back to when no key is pressed.
pub const IDLE_SPEED: i32 = 1;

/// The length a snake starts with.
pub const INITIAL_LENGTH: usize = 3;

/// The delay between two ticks, in milliseconds, at speed factor one.
pub const BASE_DELAY: i32 = 100;

/// The role a segment plays, which decides how it is drawn.
#[derive(Clone, Copy, Debug, PartialEq, Eq, Structural)]
pub enum Part {
    HEAD,
    BODY,
    TAIL,
}

#[derive(Clone, Copy, Debug, PartialEq, Eq, Structural)]
pub struct SnakeBodyPart {
    pub pos: Position,
    pub part: Part,
}

/// The move was refused: the cell in front of the head, whose hash is
/// `hash`, already belongs to the snake.
#[derive(Clone, Copy, Debug, PartialEq, Eq, Structural)]
pub struct SelfCollision {
    pub hash: i32,
}

pub struct Snake {
    snake: VecDeque<SnakeBodyPart>,
    direction: Direction,
    speed: i32,
    texture: (String, String, String),
    snake_hash: HashSet<i32>,
}

/// The role of the segment at index `i` of a body of `len` segments: the
/// front is the head, the back the tail.
pub open spec fn role_at(i: int, len: int) -> Part {
    if i == 0 {
        Part::HEAD
    } else if i == len - 1 {
        Part::TAIL
    } else {
        Part::BODY
    }
}

/// The hash under which a cell is kept in the occupied set.
pub open spec fn cell_hash(p: Position) -> i32 {
    p.hash_spec() as i32
}

/// The hashes of a body's cells, front to back.
pub open spec fn hashes(body: Seq<SnakeBodyPart>) -> Seq<i32> {
    Seq::new(body.len(), |i: int| cell_hash(body[i].pos))
}

/// The body whose cells are `cells`, each segment with the role of its place.
pub open spec fn with_roles(cells: Seq<Position>) -> Seq<SnakeBodyPart> {
    Seq::new(
        cells.len(),
        |i: int| SnakeBodyPart { pos: cells[i], part: role_at(i, cells.len() as int) },
    )
}

/// The cells of a body, front to back.
pub open spec fn cells_of(body: Seq<SnakeBodyPart>) -> Seq<Position> {
    Seq::new(body.len(), |i: int| body[i].pos)
}

impl SnakeBodyPart {
    pub fn new(position: Position, part: Part) -> (s: Self)
        ensures
            s.pos == position,
            s.part == part,
    {
        SnakeBodyPart { pos: position, part }
    }

    /// What is to be drawn for this segment: at its cell, in bold, the
    /// glyph that `texture` holds for its role, in the order head, body,
    /// tail.
    pub fn display(&self, texture: &(String, String, String)) -> (g: Glyph)
        ensures
            g.pos == self.pos,
            g.text@ == match self.part {
                Part::HEAD => texture.0@,
                Part::BODY => texture.1@,
                Part::TAIL => texture.2@,
            },
            g.style == Style::BOLD,
    {
        let text = match self.part {
            Part::HEAD => texture.0.clone(),
            Part::BODY => texture.1.clone(),
            Part::TAIL => texture.2.clone(),
        };
        Glyph { pos: self.pos, text, style: Style::BOLD }
    }
}

impl SelfCollision {
    /// The text of the refusal.
    pub open spec fn message_spec(&self) -> Seq<char> {
        "hash = "@ + decimal_spec(self.hash as int)
    }

    /// The refusal in words: `hash = ` and the hash of the cell that was
    /// taken.
    pub fn message(&self) -> (text: String)
        ensures
            text@ == self.message_spec(),
    {
        let mut text = String::from_str("hash = ");
        push_decimal(&mut text, self.hash);
        text
    }
}

impl View for Snake {
    type V = Seq<SnakeBodyPart>;

    /// The segments, head first.
    closed spec fn view(&self) -> Seq<SnakeBodyPart> {
        self.snake@
    }
}

impl Snake {
    /// The hashes of the cells the snake occupies.
    pub closed spec fn occupied(&self) -> Set<i32> {
        self.snake_hash@
    }

    /// The direction of travel.
    pub closed spec fn heading(&self) -> Direction {
        self.direction
    }

    /// The speed factor.
    pub closed spec fn pace(&self) -> i32 {
        self.speed
    }

    /// The glyphs for head, body and tail.
    pub closed spec fn glyphs(&self) -> (Seq<char>, Seq<char>, Seq<char>) {
        (self.texture.0@, self.texture.1@, self.texture.2@)
    }

    /// The cells of the snake, head first.
    pub open spec fn cells(&self) -> Seq<Position> {
        cells_of(self@)
    }

    /// What every snake satisfies: at least three segments, the head in
    /// front and the tail at the back, every cell with a hash that fits,
    /// and the occupied set holding exactly the hashes of the segments'
    /// cells.
    pub open spec fn wf(&self) -> bool {
        &&& self@.len() >= INITIAL_LENGTH
        &&& self@ == with_roles(self.cells())
        &&& forall|i: int| 0 <= i < self@.len() ==> (#[trigger] self@[i]).pos.hashable()
        &&& self.occupied() == hashes(self@).to_set()
        &&& self.pace() >= 1
    }

    /// No two segments lie under one hash. A snake starts so and stays so
    /// until it grows into a cell of its own.
    pub open spec fn distinct(&self) -> bool {
        hashes(self@).no_duplicates()
    }

    /// The hash of the tail's cell is also that of another segment's.
    pub open spec fn tail_shared(&self) -> bool {
        hashes(self@).drop_last().contains(cell_hash(self@[self@.len() - 1].pos))
    }

    /// The cell in front of the head.
    pub open spec fn ahead(&self) -> Position {
        self@[0].pos.next_spec(self.heading())
    }

    /// The cell behind the tail, away from the direction of travel.
    pub open spec fn behind(&self) -> Position {
        self@[self@.len() - 1].pos.next_spec(self.heading().opposite_spec())
    }

    /// The cell in front of the head can be computed and hashed in `i32`.
    pub open spec fn can_advance(&self) -> bool {
        &&& self@[0].pos.can_step(self.heading())
        &&& self.ahead().hashable()
    }

    /// The cell behind the tail can be computed and hashed in `i32`.
    pub open spec fn can_grow(&self) -> bool {
        &&& self@[self@.len() - 1].pos.can_step(self.heading().opposite_spec())
        &&& self.behind().hashable()
    }

    /// A snake can be laid out with its head at `position`: the two cells
    /// to its left exist and all three can be hashed.
    pub open spec fn can_start_at(position: Position) -> bool {
        &&& position.posx - 2 >= i32::MIN
        &&& position.hashable()
        &&& (Position { posx: (position.posx - 1) as i32, posy: position.posy }).hashable()
        &&& (Position { posx: (position.posx - 2) as i32, posy: position.posy }).hashable()
    }

    /// `self` is what growing makes of `before`: the same snake with one
    /// segment more, a new tail in the cell behind the old one. Direction,
    /// speed and texture are as they were. The hash of the new cell joins
    /// the occupied set, which gains a member unless it held that hash
    /// already; in that case two segments now lie under one hash.
    pub open spec fn grew_from(&self, before: &Snake) -> bool {
        &&& self.wf()
        &&& self.heading() == before.heading()
        &&& self.pace() == before.pace()
        &&& self.glyphs() == before.glyphs()
        &&& self.cells() == before.cells().push(before.behind())
        &&& self@ == with_roles(before.cells().push(before.behind()))
        &&& self@.len() == before@.len() + 1
        &&& self.occupied() == before.occupied().insert(cell_hash(before.behind()))
        &&& self.occupied().len() == before.occupied().len()
            + if before.occupied().contains(cell_hash(before.behind())) {
            0int
        } else {
            1int
        }
        &&& self.distinct() == (before.distinct()
            && !before.occupied().contains(cell_hash(before.behind())))
    }

    /// The occupied set is finite and has at most as many members as the
    /// snake has segments; it has exactly as many if and only if no two
    /// segments lie under one hash.
    pub proof fn lemma_occupied_len(&self)
        requires
            self.wf(),
        ensures
            self.occupied().finite(),
            self.occupied().len() <= self@.len(),
            self.distinct() <==> self.occupied().len() == self@.len(),
    {
        let hs = hashes(self@);
        hs.lemma_cardinality_of_set();
        if hs.no_duplicates() {
            hs.unique_seq_to_set();
        }
        if hs.to_set().len() == hs.len() {
            hs.lemma_no_dup_set_cardinality();
        }
    }

    /// A hash is occupied exactly when some segment's cell has it.
    pub proof fn lemma_occupied_iff(&self, h: i32)
        requires
            self.wf(),
        ensures
            self.occupied().contains(h) <==> exists|i: int|
                0 <= i < self@.len() && cell_hash(#[trigger] self@[i].pos) == h,
    {
        let hs = hashes(self@);
        if self.occupied().contains(h) {
            let i = choose|i: int| 0 <= i < hs.len() && hs[i] == h;
            assert(cell_hash(self@[i].pos) == h);
        }
        if exists|i: int| 0 <= i < self@.len() && cell_hash(#[trigger] self@[i].pos) == h {
            let i = choose|i: int| 0 <= i < self@.len() && cell_hash(#[trigger] self@[i].pos) == h;
            assert(hs[i] == h);
        }
    }

    /// A snake of three segments heading right: the head at `position`,
    /// body and tail in the two cells to its left.
    pub fn new(position: Position, texture: (String, String, String)) -> (s: Self)
        requires
            Self::can_start_at(position),
        ensures
            s.wf(),
            s.distinct(),
            s.cells() == seq![
                position,
                position.next_spec(Direction::LEFT),
                position.next_spec(Direction::LEFT).next_spec(Direction::LEFT),
            ],
            s.heading() == Direction::RIGHT,
            s.pace() == IDLE_SPEED,
            s.glyphs() == (texture.0@, texture.1@, texture.2@),
    {
        let p1 = SnakeBodyPart::new(position, Part::HEAD);
        let p2 = SnakeBodyPart::new(position.next(Direction::LEFT), Part::BODY);
        let p3 = SnakeBodyPart::new(p2.pos.next(Direction::LEFT), Part::TAIL);
        let mut hash_set: HashSet<i32> = HashSet::new();
        hash_set.insert(p1.pos.hash());
        hash_set.insert(p2.pos.hash());
        hash_set.insert(p3.pos.hash());
        let mut snake: VecDeque<SnakeBodyPart> = VecDeque::new();
        snake.push_back(p1);
        snake.push_back(p2);
        snake.push_back(p3);
        let s = Snake {
            snake,
            direction: Direction::RIGHT,
            texture,
            snake_hash: hash_set,
            speed: IDLE_SPEED,
        };
        proof {
            assert(s@ =~= with_roles(s.cells()));
            let hs = hashes(s@);
            assert(hs[0] == cell_hash(p1.pos) && hs[1] == cell_hash(p2.pos) && hs[2]
                == cell_hash(p3.pos));
            assert(s.occupied() =~= hs.to_set());
        }
        s
    }

    /// Pushes a new head onto the cell in front of the old one, which
    /// becomes a body segment. When that cell is already occupied nothing
    /// is changed and the collision is handed back.
    pub fn extend_front(&mut self) -> (r: Result<(), SelfCollision>)
        requires
            old(self).wf(),
            old(self).can_advance(),
        ensures
            r is Ok <==> !old(self).occupied().contains(cell_hash(old(self).ahead())),
            match r {
                Ok(()) => {
                    &&& final(self).wf()
                    &&& final(self).cells() == seq![old(self).ahead()] + old(self).cells()
                    &&& final(self)@ == with_roles(seq![old(self).ahead()] + old(self).cells())
                    &&& final(self)@.len() == old(self)@.len() + 1
                    &&& final(self).occupied() == old(self).occupied().insert(
                        cell_hash(old(self).ahead()),
                    )
                    &&& final(self).occupied().len() == old(self).occupied().len() + 1
                    &&& final(self).distinct() == old(self).distinct()
                    &&& final(self).heading() == old(self).heading()
                    &&& final(self).pace() == old(self).pace()
                    &&& final(self).glyphs() == old(self).glyphs()
                },
                Err(e) => {
                    &&& e.hash == cell_hash(old(self).ahead())
                    &&& *final(self) == *old(self)
                },
            },
    {
        let head = self.snake[0];
        let p = SnakeBodyPart::new(head.pos.next(self.direction), Part::HEAD);
        let h = p.pos.hash();
        if self.snake_hash.contains(&h) {
            return Err(SelfCollision { hash: h });
        }
        self.snake_hash.insert(h);
        self.snake.pop_front();
        self.snake.push_front(SnakeBodyPart::new(head.pos, Part::BODY));
        self.snake.push_front(p);
        proof {
            let before = old(self)@;
            let after = self@;
            assert forall|i: int| 1 <= i < after.len() implies (#[trigger] after[i]).pos
                == before[i - 1].pos by {}
            assert(self.cells() =~= seq![old(self).ahead()] + old(self).cells());
            assert(after =~= with_roles(self.cells()));
            lemma_hashes_push_front(before, after, p.pos);
            old(self).lemma_occupied_len();
            assert(!hashes(before).contains(h));
        }
        Ok(())
    }

    /// Appends a new tail in the cell behind the old one, away from the
    /// direction of travel; the old tail becomes a body segment. Nothing
    /// is removed and growing never fails: where the cell behind the tail
    /// already belongs to the snake, two segments share it from then on.
    pub fn extend_back(&mut self)
        requires
            old(self).wf(),
            old(self).can_grow(),
        ensures
            final(self).grew_from(old(self)),
    {
        let n = self.snake.len();
        let tail = self.snake[n - 1];
        let p = SnakeBodyPart::new(tail.pos.next(self.direction.opposite()), Part::TAIL);
        self.snake_hash.insert(p.pos.hash());
        self.snake.pop_back();
        self.snake.push_back(SnakeBodyPart::new(tail.pos, Part::BODY));
        self.snake.push_back(p);
        proof {
            let before = old(self)@;
            let after = self@;
            assert forall|i: int| 0 <= i < before.len() implies (#[trigger] after[i]).pos
                == before[i].pos by {}
            assert(self.cells() =~= old(self).cells().push(old(self).behind()));
            assert(after =~= with_roles(self.cells()));
            lemma_hashes_push_back(before, after, p.pos);
            old(self).lemma_occupied_len();
        }
    }

    /// Whether some segment's cell has the hash `hash`, found by going
    /// through the segments.
    fn holds(&self, hash: i32) -> (b: bool)
        requires
            forall|i: int| 0 <= i < self@.len() ==> (#[trigger] self@[i]).pos.hashable(),
        ensures
            b == hashes(self@).contains(hash),
    {
        let n = self.snake.len();
        let mut k: usize = 0;
        while k < n
            invariant
                n == self@.len(),
                k <= n,
                forall|i: int| 0 <= i < self@.len() ==> (#[trigger] self@[i]).pos.hashable(),
                forall|i: int| 0 <= i < k ==> (#[trigger] hashes(self@)[i]) != hash,
            decreases n - k,
        {
            if self.snake[k].pos.hash() == hash {
                assert(hashes(self@)[k as int] == hash);
                return true;
            }
            k += 1;
        }
        false
    }

    /// One tick: the head advances one cell in the direction of travel
    /// and the tail leaves its cell, so the length stays what it was. The
    /// tail's hash leaves the occupied set with it, unless another segment
    /// lies under the same hash. When the cell in front of the head
    /// belongs to the snake, tail included, the move is refused and the
    /// snake stays exactly as it was.
    pub fn propagate(&mut self) -> (r: Result<(), SelfCollision>)
        requires
            old(self).wf(),
            old(self).can_advance(),
        ensures
            r is Ok <==> !old(self).occupied().contains(cell_hash(old(self).ahead())),
            match r {
                Ok(()) => {
                    &&& final(self).wf()
                    &&& final(self).cells() == seq![old(self).ahead()]
                        + old(self).cells().drop_last()
                    &&& final(self)@ == with_roles(
                        seq![old(self).ahead()] + old(self).cells().drop_last(),
                    )
                    &&& final(self)@.len() == old(self)@.len()
                    &&& final(self).occupied() == if old(self).tail_shared() {
                        old(self).occupied().insert(cell_hash(old(self).ahead()))
                    } else {
                        old(self).occupied().insert(cell_hash(old(self).ahead())).remove(
                            cell_hash(old(self)@[old(self)@.len() - 1].pos),
                        )
                    }
                    &&& final(self).occupied().len() == old(self).occupied().len()
                        + if old(self).tail_shared() {
                        1int
                    } else {
                        0int
                    }
                    &&& old(self).distinct() ==> final(self).distinct() && !old(self).tail_shared()
                    &&& final(self).heading() == old(self).heading()
                    &&& final(self).pace() == old(self).pace()
                    &&& final(self).glyphs() == old(self).glyphs()
                },
                Err(e) => {
                    &&& e.hash == cell_hash(old(self).ahead())
                    &&& *final(self) == *old(self)
                },
            },
    {
        match self.extend_front() {
            Ok(()) => {},
            Err(error) => {
                return Err(error);
            },
        };
        let ghost grown = self@;
        let ghost grown_set = self.occupied();
        let n = self.snake.len();
        let tail = self.snake[n - 1];
        let t = tail.pos.hash();
        // Where the set is as large as the body no hash is shared, and the
        // body need not be searched for the tail's.
        let all_apart = self.snake_hash.len() == n;
        proof {
            self.lemma_occupied_len();
            old(self).lemma_occupied_len();
            lemma_hashes_push_front(old(self)@, grown, old(self).ahead());
            assert(!hashes(old(self)@).contains(cell_hash(old(self).ahead())));
            assert(grown[grown.len() - 1].pos == old(self)@[old(self)@.len() - 1].pos);
        }
        self.snake.pop_back();
        let last = self.snake[n - 2];
        self.snake.pop_back();
        self.snake.push_back(SnakeBodyPart::new(last.pos, Part::TAIL));
        proof {
            let after = self@;
            assert forall|i: int| 0 <= i < after.len() implies (#[trigger] after[i]).pos
                == grown[i].pos by {}
            assert(cells_of(after) =~= cells_of(grown).drop_last());
            assert(self.cells() =~= seq![old(self).ahead()] + old(self).cells().drop_last());
            assert(after =~= with_roles(self.cells()));
            lemma_hashes_drop_last(grown, after);
            lemma_tail_shared(old(self)@, grown, after, old(self).ahead());
        }
        if all_apart || !self.holds(t) {
            self.snake_hash.remove(&t);
        }
        proof {
            assert(hashes(grown)[grown.len() - 1] == t);
            assert(grown_set.contains(t));
            if !old(self).tail_shared() {
                assert(self.occupied() == grown_set.remove(t));
            }
        }
        Ok(())
    }

    /// Asks for a change of direction. Reversing on the spot is refused
    /// and changes nothing; any other direction is taken and the speed is
    /// set to the turning rate.
    pub fn turn(&mut self, direction: Direction) -> (accepted: bool)
        ensures
            accepted == (direction != old(self).heading().opposite_spec()),
            accepted ==> final(self).heading() == direction && final(self).pace() == TURN_SPEED,
            !accepted ==> *final(self) == *old(self),
            final(self)@ == old(self)@,
            final(self).occupied() == old(self).occupied(),
            final(self).glyphs() == old(self).glyphs(),
            old(self).wf() ==> final(self).wf(),
    {
        if direction == self.direction.opposite() {
            return false;
        }
        self.direction = direction;
        self.speed = TURN_SPEED;
        true
    }

    /// A tick without a key press: the speed falls back to the idle rate,
    /// which makes the next delay the longest there is.
    pub fn slow_down(&mut self)
        ensures
            final(self).pace() == IDLE_SPEED,
            final(self).heading() == old(self).heading(),
            final(self)@ == old(self)@,
            final(self).occupied() == old(self).occupied(),
            final(self).glyphs() == old(self).glyphs(),
            old(self).wf() ==> final(self).wf(),
    {
        self.speed = IDLE_SPEED;
    }

    /// The number of segments.
    pub fn len(&self) -> (n: usize)
        ensures
            n == self@.len(),
    {
        self.snake.len()
    }

    /// The number of occupied cells.
    pub fn occupied_len(&self) -> (n: usize)
        ensures
            n == self.occupied().len(),
    {
        self.snake_hash.len()
    }

    /// The segment at `index`, counted from the head, if there is one.
    pub fn segment(&self, index: usize) -> (r: Option<SnakeBodyPart>)
        ensures
            r == if index < self@.len() {
                Some(self@[index as int])
            } else {
                None
            },
    {
        if index < self.snake.len() {
            Some(self.snake[index])
        } else {
            None
        }
    }

    /// The cell of the head.
    pub fn head(&self) -> (p: Position)
        requires
            self.wf(),
        ensures
            p == self@[0].pos,
    {
        self.snake[0].pos
    }

    /// The cell of the tail.
    pub fn tail(&self) -> (p: Position)
        requires
            self.wf(),
        ensures
            p == self@[self@.len() - 1].pos,
    {
        self.snake[self.snake.len() - 1].pos
    }

    /// The direction of travel.
    pub fn direction(&self) -> (d: Direction)
        ensures
            d == self.heading(),
    {
        self.direction
    }

    /// The speed factor.
    pub fn speed(&self) -> (v: i32)
        ensures
            v == self.pace(),
    {
        self.speed
    }

    /// Whether a cell with the hash `hash` belongs to the snake.
    pub fn occupies(&self, hash: i32) -> (b: bool)
        ensures
            b == self.occupied().contains(hash),
    {
        self.snake_hash.contains(&hash)
    }

    /// Whether the next tick can be computed: see [`Snake::can_advance`].
    pub fn may_advance(&self) -> (b: bool)
        requires
            self.wf(),
        ensures
            b == self.can_advance(),
    {
        match self.snake[0].pos.checked_next(self.direction) {
            Some(p) => p.checked_hash().is_some(),
            None => false,
        }
    }

    /// Whether growing can be computed: see [`Snake::can_grow`].
    pub fn may_grow(&self) -> (b: bool)
        requires
            self.wf(),
        ensures
            b == self.can_grow(),
    {
        match self.snake[self.snake.len() - 1].pos.checked_next(self.direction.opposite()) {
            Some(p) => p.checked_hash().is_some(),
            None => false,
        }
    }

    /// The milliseconds to wait before the next tick: the base delay
    /// divided by the speed factor, so a higher speed waits less.
    pub fn tick_delay(&self) -> (ms: i32)
        requires
            self.wf(),
        ensures
            ms == BASE_DELAY / self.pace(),
            0 <= ms <= BASE_DELAY,
    {
        assert(0 <= BASE_DELAY / self.pace() <= BASE_DELAY) by (nonlinear_arith)
            requires
                self.pace() >= 1,
        ;
        BASE_DELAY / self.speed
    }

    /// The glyph that draws a segment of the given role.
    pub open spec fn glyph_of(&self, part: Part) -> Seq<char> {
        match part {
            Part::HEAD => self.glyphs().0,
            Part::BODY => self.glyphs().1,
            Part::TAIL => self.glyphs().2,
        }
    }

    /// What is to be drawn: one bold glyph for each segment, head first,
    /// at the segment's cell and with the texture of its role.
    pub fn display(&self) -> (out: Vec<Glyph>)
        ensures
            out.len() == self@.len(),
            forall|i: int|
                0 <= i < out.len() ==> {
                    &&& (#[trigger] out[i]).pos == self@[i].pos
                    &&& out[i].text@ == self.glyph_of(self@[i].part)
                    &&& out[i].style == Style::BOLD
                },
    {
        let mut out: Vec<Glyph> = Vec::new();
        let n = self.snake.len();
        let mut k: usize = 0;
        while k < n
            invariant
                n == self@.len(),
                k <= n,
                out.len() == k,
                forall|i: int|
                    0 <= i < k ==> {
                        &&& (#[trigger] out[i]).pos == self@[i].pos
                        &&& out[i].text@ == self.glyph_of(self@[i].part)
                        &&& out[i].style == Style::BOLD
                    },
            decreases n - k,
        {
            let part = self.snake[k];
            out.push(part.display(&self.texture));
            k += 1;
        }
        out
    }

    /// Among cells of the grid's rows the hash tells cells apart, so the
    /// cell in front of the head is refused exactly when one of the
    /// snake's segments lies in it.
    pub proof fn lemma_collision_is_overlap(&self)
        requires
            self.wf(),
            self.can_advance(),
            self.ahead().in_grid(),
            forall|i: int| 0 <= i < self@.len() ==> (#[trigger] self@[i]).pos.in_grid(),
        ensures
            self.occupied().contains(cell_hash(self.ahead())) <==> self.cells().contains(
                self.ahead(),
            ),
    {
        let c = self.ahead();
        self.lemma_occupied_iff(cell_hash(c));
        if self.occupied().contains(cell_hash(c)) {
            let i = choose|i: int|
                0 <= i < self@.len() && cell_hash(#[trigger] self@[i].pos) == cell_hash(c);
            Position::lemma_hash_injective(self@[i].pos, c);
            assert(self.cells()[i] == c);
        }
        if self.cells().contains(c) {
            let i = choose|i: int| 0 <= i < self.cells().len() && self.cells()[i] == c;
            assert(self@[i].pos == c);
        }
    }
}

/// When `after` holds the cell `c` in front of the cells of `before`, its
/// hashes are those of `before` with that of `c` in front, and no hash
/// occurs twice in them exactly when none does in those of `before` and
/// that of `c` is new.
proof fn lemma_hashes_push_front(
    before: Seq<SnakeBodyPart>,
    after: Seq<SnakeBodyPart>,
    c: Position,
)
    requires
        cells_of(after) == seq![c] + cells_of(before),
    ensures
        hashes(after) == seq![cell_hash(c)] + hashes(before),
        hashes(after).to_set() == hashes(before).to_set().insert(cell_hash(c)),
        hashes(after).no_duplicates() <==> hashes(before).no_duplicates() && !hashes(
            before,
        ).contains(cell_hash(c)),
{
    let hb = hashes(before);
    let ha = hashes(after);
    assert(cells_of(after).len() == cells_of(before).len() + 1);
    assert forall|i: int| 0 <= i < ha.len() implies ha[i] == (seq![cell_hash(c)] + hb)[i] by {
        assert(after[i].pos == cells_of(after)[i]);
    }
    assert(ha =~= seq![cell_hash(c)] + hb);
    assert forall|h: i32| hb.to_set().insert(cell_hash(c)).contains(h) implies ha.to_set().contains(
        h,
    ) by {
        if h == cell_hash(c) {
            assert(ha[0] == h);
        } else {
            let i = choose|i: int| 0 <= i < hb.len() && hb[i] == h;
            assert(ha[i + 1] == h);
        }
    }
    assert(ha.to_set() =~= hb.to_set().insert(cell_hash(c)));
    if ha.no_duplicates() {
        assert forall|i: int, j: int| 0 <= i < hb.len() && 0 <= j < hb.len() && i != j implies hb[i]
            != hb[j] by {
            assert(ha[i + 1] == hb[i] && ha[j + 1] == hb[j]);
        }
        if hb.contains(cell_hash(c)) {
            let i = choose|i: int| 0 <= i < hb.len() && hb[i] == cell_hash(c);
            assert(ha[i + 1] == ha[0]);
        }
    }
    if hb.no_duplicates() && !hb.contains(cell_hash(c)) {
        assert forall|i: int, j: int| 0 <= i < ha.len() && 0 <= j < ha.len() && i != j implies ha[i]
            != ha[j] by {
            if i > 0 {
                assert(hb[i - 1] == ha[i]);
            }
            if j > 0 {
                assert(hb[j - 1] == ha[j]);
            }
        }
    }
}

/// When `after` holds the cell `c` behind the cells of `before`, its
/// hashes are those of `before` followed by that of `c`, and no hash
/// occurs twice in them exactly when none does in those of `before` and
/// that of `c` is new.
proof fn lemma_hashes_push_back(
    before: Seq<SnakeBodyPart>,
    after: Seq<SnakeBodyPart>,
    c: Position,
)
    requires
        cells_of(after) == cells_of(before).push(c),
    ensures
        hashes(after) == hashes(before).push(cell_hash(c)),
        hashes(after).to_set() == hashes(before).to_set().insert(cell_hash(c)),
        hashes(after).no_duplicates() <==> hashes(before).no_duplicates() && !hashes(
            before,
        ).contains(cell_hash(c)),
{
    let hb = hashes(before);
    let ha = hashes(after);
    assert(cells_of(after).len() == cells_of(before).len() + 1);
    assert forall|i: int| 0 <= i < ha.len() implies ha[i] == hb.push(cell_hash(c))[i] by {
        assert(after[i].pos == cells_of(after)[i]);
    }
    assert(ha =~= hb.push(cell_hash(c)));
    assert forall|h: i32| hb.to_set().insert(cell_hash(c)).contains(h) implies ha.to_set().contains(
        h,
    ) by {
        if h == cell_hash(c) {
            assert(ha[ha.len() - 1] == h);
        } else {
            let i = choose|i: int| 0 <= i < hb.len() && hb[i] == h;
            assert(ha[i] == h);
        }
    }
    assert(ha.to_set() =~= hb.to_set().insert(cell_hash(c)));
    if ha.no_duplicates() {
        assert forall|i: int, j: int| 0 <= i < hb.len() && 0 <= j < hb.len() && i != j implies hb[i]
            != hb[j] by {
            assert(ha[i] == hb[i] && ha[j] == hb[j]);
        }
        if hb.contains(cell_hash(c)) {
            let i = choose|i: int| 0 <= i < hb.len() && hb[i] == cell_hash(c);
            assert(ha[i] == ha[ha.len() - 1]);
        }
    }
    if hb.no_duplicates() && !hb.contains(cell_hash(c)) {
        assert forall|i: int, j: int| 0 <= i < ha.len() && 0 <= j < ha.len() && i != j implies ha[i]
            != ha[j] by {
            if i < hb.len() {
                assert(hb[i] == ha[i]);
            }
            if j < hb.len() {
                assert(hb[j] == ha[j]);
            }
        }
    }
}

/// When `after` has the cells of `before` but the last, its hashes are
/// those of `before` but the last. The last hash of `before` is missing
/// from the hashes of `after` unless another cell has it too, which cannot
/// be where no hash of `before` occurs twice.
proof fn lemma_hashes_drop_last(before: Seq<SnakeBodyPart>, after: Seq<SnakeBodyPart>)
    requires
        before.len() > 0,
        cells_of(after) == cells_of(before).drop_last(),
    ensures
        hashes(after) == hashes(before).drop_last(),
        hashes(after).to_set() == if hashes(after).contains(
            cell_hash(before[before.len() - 1].pos),
        ) {
            hashes(before).to_set()
        } else {
            hashes(before).to_set().remove(cell_hash(before[before.len() - 1].pos))
        },
        hashes(before).no_duplicates() ==> hashes(after).no_duplicates() && !hashes(
            after,
        ).contains(cell_hash(before[before.len() - 1].pos)),
{
    let hb = hashes(before);
    let ha = hashes(after);
    let last = cell_hash(before[before.len() - 1].pos);
    assert(cells_of(after).len() == cells_of(before).len() - 1);
    assert forall|i: int| 0 <= i < ha.len() implies ha[i] == hb[i] by {
        assert(after[i].pos == cells_of(after)[i]);
    }
    assert(ha =~= hb.drop_last());
    assert(hb[hb.len() - 1] == last);
    assert forall|h: i32| hb.to_set().contains(h) && h != last implies ha.to_set().contains(h) by {
        let i = choose|i: int| 0 <= i < hb.len() && hb[i] == h;
        assert(ha[i] == h);
    }
    if ha.contains(last) {
        assert(ha.to_set() =~= hb.to_set());
    } else {
        assert(ha.to_set() =~= hb.to_set().remove(last));
    }
}

/// A tick first puts the cell `c` in front of `start`, which gives
/// `grown`, and then drops the last cell, which gives `after`. If the hash
/// of `c` is none of `start`, the tail of `start` shares its hash with
/// another of its segments exactly when `after` still has that hash.
proof fn lemma_tail_shared(
    start: Seq<SnakeBodyPart>,
    grown: Seq<SnakeBodyPart>,
    after: Seq<SnakeBodyPart>,
    c: Position,
)
    requires
        start.len() > 0,
        hashes(grown) == seq![cell_hash(c)] + hashes(start),
        hashes(after) == hashes(grown).drop_last(),
        !hashes(start).contains(cell_hash(c)),
    ensures
        hashes(after).contains(cell_hash(start[start.len() - 1].pos)) <==> hashes(
            start,
        ).drop_last().contains(cell_hash(start[start.len() - 1].pos)),
{
    let hs = hashes(start);
    let ha = hashes(after);
    let t = cell_hash(start[start.len() - 1].pos);
    assert(hs[hs.len() - 1] == t);
    assert(hs.contains(t));
    assert(ha =~= seq![cell_hash(c)] + hs.drop_last());
    if ha.contains(t) {
        let i = choose|i: int| 0 <= i < ha.len() && ha[i] == t;
        assert(i > 0);
        assert(hs.drop_last()[i - 1] == t);
    }
    if hs.drop_last().contains(t) {
        let i = choose|i: int| 0 <= i < hs.drop_last().len() && hs.drop_last()[i] == t;
        assert(ha[i + 1] == t);
    }
}

} // verus!
