//! Grid positions, the four directions of travel, and the glyphs that the
//! game hands to whoever draws it.

use vstd::prelude::*;

verus! {

/// The factor by which a column is weighted in a position's hash. Two
/// positions whose rows lie in `0..HASH_STRIDE` never share a hash.
pub const HASH_STRIDE: i32 = 1000;

/// A cell of the grid: `posx` is the column, `posy` the row. Rows grow
/// downwards, as on a screen.
#[derive(Clone, Copy, Debug, PartialEq, Eq, Structural)]
pub struct Position {
    pub posx: i32,
    pub posy: i32,
}

/// A direction of travel on the screen: `TOP` is up, towards row zero.
#[derive(Clone, Copy, Debug, PartialEq, Eq, Structural)]
pub enum Direction {
    TOP,
    BOTTOM,
    LEFT,
    RIGHT,
}

/// How a piece of text is to be drawn.
#[derive(Clone, Copy, Debug, PartialEq, Eq, Structural)]
pub enum Style {
    /// No attribute.
    PLAIN,
    /// Bold.
    BOLD,
    /// Bold, in the accent colour.
    ACCENT,
}

/// A piece of text to be drawn with its first character at `pos`.
#[derive(Debug)]
pub struct Glyph {
    pub pos: Position,
    pub text: String,
    pub style: Style,
}

/// Half of `n`, rounded towards zero.
pub open spec fn half_spec(n: int) -> int {
    if n >= 0 {
        n / 2
    } else {
        -((-n) / 2)
    }
}

/// The column at which a text of `len` cells starts when it is centred
/// in a field of `width` cells. Lengths beyond `i32::MAX` count as
/// `i32::MAX`; a text wider than the field starts left of it.
pub open spec fn centered_spec(width: int, len: int) -> int {
    half_spec(width - if len > i32::MAX { i32::MAX as int } else { len })
}

/// Half of `a - b`, rounded towards zero, whatever the two are.
pub fn half_gap(a: i32, b: i32) -> (r: i32)
    ensures
        r == half_spec(a - b),
{
    let gap: i64 = a as i64 - b as i64;
    (gap / 2) as i32
}

/// See [`centered_spec`].
pub fn centered(width: i32, len: usize) -> (r: i32)
    ensures
        r == centered_spec(width as int, len as int),
{
    let l: i32 = if len > i32::MAX as usize {
        i32::MAX
    } else {
        len as i32
    };
    half_gap(width, l)
}

impl Direction {
    /// The direction pointing the other way.
    pub open spec fn opposite_spec(self) -> Direction {
        match self {
            Direction::TOP => Direction::BOTTOM,
            Direction::BOTTOM => Direction::TOP,
            Direction::RIGHT => Direction::LEFT,
            Direction::LEFT => Direction::RIGHT,
        }
    }

    /// The change of column made by one step in this direction.
    pub open spec fn dx(self) -> int {
        match self {
            Direction::LEFT => -1,
            Direction::RIGHT => 1,
            _ => 0,
        }
    }

    /// The change of row made by one step in this direction. `TOP` leads
    /// to smaller rows.
    pub open spec fn dy(self) -> int {
        match self {
            Direction::TOP => -1,
            Direction::BOTTOM => 1,
            _ => 0,
        }
    }

    #[verifier::when_used_as_spec(opposite_spec)]
    pub fn opposite(self) -> (r: Direction)
        ensures
            r == self.opposite_spec(),
    {
        match self {
            Direction::TOP => Direction::BOTTOM,
            Direction::BOTTOM => Direction::TOP,
            Direction::RIGHT => Direction::LEFT,
            Direction::LEFT => Direction::RIGHT,
        }
    }

    /// Turning round twice gives the direction one started with.
    pub proof fn lemma_opposite_involution(d: Direction)
        ensures
            d.opposite_spec().opposite_spec() == d,
    {
    }
}

impl Position {
    /// `posx * HASH_STRIDE + posy`, as a mathematical integer.
    pub open spec fn hash_spec(self) -> int {
        self.posx * HASH_STRIDE + self.posy
    }

    /// The hash can be computed in `i32`: neither the weighted column nor
    /// the sum leaves the type's range.
    pub open spec fn hashable(self) -> bool {
        &&& i32::MIN <= self.posx * HASH_STRIDE <= i32::MAX
        &&& i32::MIN <= self.hash_spec() <= i32::MAX
    }

    /// The row lies in `0..HASH_STRIDE`: among such positions the hash
    /// tells cells apart.
    pub open spec fn in_grid(self) -> bool {
        0 <= self.posy < HASH_STRIDE
    }

    /// One step in `direction` stays within `i32`.
    pub open spec fn can_step(self, direction: Direction) -> bool {
        &&& i32::MIN <= self.posx + direction.dx() <= i32::MAX
        &&& i32::MIN <= self.posy + direction.dy() <= i32::MAX
    }

    /// The neighbouring cell one step away in `direction`.
    pub open spec fn next_spec(self, direction: Direction) -> Position
        recommends
            self.can_step(direction),
    {
        Position {
            posx: (self.posx + direction.dx()) as i32,
            posy: (self.posy + direction.dy()) as i32,
        }
    }

    #[inline]
    pub fn new(x: i32, y: i32) -> (p: Self)
        ensures
            p.posx == x,
            p.posy == y,
    {
        Position { posx: x, posy: y }
    }

    /// The cell one unit away in `direction`; `self` is left as it is.
    pub fn next(&self, direction: Direction) -> (p: Position)
        requires
            self.can_step(direction),
        ensures
            p == self.next_spec(direction),
            p.posx == self.posx + direction.dx(),
            p.posy == self.posy + direction.dy(),
    {
        match direction {
            Direction::BOTTOM => Position { posx: self.posx, posy: self.posy + 1 },
            Direction::LEFT => Position { posx: self.posx - 1, posy: self.posy },
            Direction::RIGHT => Position { posx: self.posx + 1, posy: self.posy },
            Direction::TOP => Position { posx: self.posx, posy: self.posy - 1 },
        }
    }

    /// The scalar under which the cell is kept in a set of occupied cells.
    #[inline]
    pub fn hash(&self) -> (h: i32)
        requires
            self.hashable(),
        ensures
            h == self.hash_spec(),
    {
        self.posx * HASH_STRIDE + self.posy
    }

    /// The neighbouring cell, where it can be told in `i32`.
    pub fn checked_next(&self, direction: Direction) -> (r: Option<Position>)
        ensures
            match r {
                Some(p) => self.can_step(direction) && p == self.next_spec(direction),
                None => !self.can_step(direction),
            },
    {
        let x: i64 = match direction {
            Direction::LEFT => self.posx as i64 - 1,
            Direction::RIGHT => self.posx as i64 + 1,
            _ => self.posx as i64,
        };
        let y: i64 = match direction {
            Direction::TOP => self.posy as i64 - 1,
            Direction::BOTTOM => self.posy as i64 + 1,
            _ => self.posy as i64,
        };
        if x < i32::MIN as i64 || x > i32::MAX as i64 || y < i32::MIN as i64 || y > i32::MAX as i64 {
            None
        } else {
            Some(Position { posx: x as i32, posy: y as i32 })
        }
    }

    /// The hash, where it can be computed in `i32`.
    pub fn checked_hash(&self) -> (r: Option<i32>)
        ensures
            match r {
                Some(h) => self.hashable() && h == self.hash_spec(),
                None => !self.hashable(),
            },
    {
        let col: i64 = self.posx as i64 * HASH_STRIDE as i64;
        assert(-2147483648000 <= col <= 2147483647000) by (nonlinear_arith)
            requires
                col == self.posx * 1000,
                -2147483648 <= self.posx <= 2147483647,
        ;
        let sum: i64 = col + self.posy as i64;
        if col < i32::MIN as i64 || col > i32::MAX as i64 || sum < i32::MIN as i64 || sum
            > i32::MAX as i64 {
            None
        } else {
            Some(sum as i32)
        }
    }

    /// Positions inside the grid's rows have different hashes unless they
    /// are the same cell.
    pub proof fn lemma_hash_injective(p: Position, q: Position)
        requires
            p.in_grid(),
            q.in_grid(),
            p.hash_spec() == q.hash_spec(),
        ensures
            p == q,
    {
        assert(p.posx == q.posx) by (nonlinear_arith)
            requires
                p.posx * 1000 + p.posy == q.posx * 1000 + q.posy,
                0 <= p.posy < 1000,
                0 <= q.posy < 1000,
        ;
    }
}

} // verus!
