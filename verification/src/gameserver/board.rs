use rand::seq::SliceRandom;
use vstd::prelude::*;

use crate::Coordinate;

verus! {

/// A letter tile and the points it is worth. The blank square of the board
/// is the tile with letter `' '` and no points.
#[derive(Copy, Clone, Debug, PartialEq, Eq, Structural)]
pub struct ScrabTile {
    pub point: u16,
    pub letter: char,
}

/// The tile that fills an empty square.
pub open spec fn empty_tile() -> ScrabTile {
    ScrabTile { point: 0, letter: ' ' }
}

impl ScrabTile {
    /// The empty square: letter `' '`, no points.
    pub fn default() -> (t: Self)
        ensures
            t == empty_tile(),
    {
        ScrabTile { point: 0, letter: ' ' }
    }

    pub fn new(l: char, p: u16) -> (t: Self)
        ensures
            t.letter == l,
            t.point == p,
    {
        ScrabTile { point: p, letter: l }
    }
}

/// The 15 by 15 board; `grid[x][y]` is the square at column `x`, row `y`.
pub type Grid = [[ScrabTile; 15]; 15];

/// The tiles that are still to be drawn.
pub type SackTiles = Vec<ScrabTile>;

/// The square of `grid` at `coords`.
pub open spec fn square_at(grid: Grid, coords: Coordinate) -> ScrabTile {
    grid@[coords.x as int]@[coords.y as int]
}

/// No tile has been placed on `coords`.
pub open spec fn is_empty_square(grid: Grid, coords: Coordinate) -> bool {
    square_at(grid, coords).letter == ' '
}

/// A coordinate on the board.
pub open spec fn on_board(coords: Coordinate) -> bool {
    coords.x < 15 && coords.y < 15
}

/// `grid` with tile `t` placed on the square at `coords`.
pub open spec fn with_tile(grid: Grid, coords: Coordinate, t: ScrabTile) -> Grid {
    vstd::array::spec_array_update(
        grid,
        coords.x as int,
        vstd::array::spec_array_update(grid@[coords.x as int], coords.y as int, t),
    )
}

/// Placing a tile changes that square alone: it then holds the tile, and
/// every other square holds what it held before.
pub proof fn lemma_with_tile(grid: Grid, coords: Coordinate, t: ScrabTile)
    requires
        on_board(coords),
    ensures
        square_at(with_tile(grid, coords, t), coords) == t,
        forall|c: Coordinate|
            on_board(c) && c != coords ==> #[trigger] square_at(with_tile(grid, coords, t), c)
                == square_at(grid, c),
{
    broadcast use vstd::array::group_array_axioms;

    assert forall|c: Coordinate| on_board(c) && c != coords implies #[trigger] square_at(
        with_tile(grid, coords, t),
        c,
    ) == square_at(grid, c) by {
        if c.x != coords.x {
        } else {
            assert(c.y != coords.y);
        }
    }
}

/// A grid of empty tiles has no tile placed on any square of the board.
pub proof fn lemma_empty_grid(grid: Grid)
    requires
        forall|x: int, y: int| 0 <= x < 15 && 0 <= y < 15 ==> grid@[x]@[y] == empty_tile(),
    ensures
        forall|c: Coordinate| on_board(c) ==> #[trigger] is_empty_square(grid, c),
{
    assert forall|c: Coordinate| on_board(c) implies #[trigger] is_empty_square(grid, c) by {
        assert(grid@[c.x as int]@[c.y as int] == empty_tile());
    }
}

pub trait Grids {
    fn new() -> Box<Self>;

    fn if_empty(&self, coords: &Coordinate) -> bool
        requires
            coords.x < 15,
            coords.y < 15,
    ;
}

impl Grids for Grid {
    /// A board of empty squares.
    fn new() -> (g: Box<Grid>)
        ensures
            forall|x: int, y: int|
                0 <= x < 15 && 0 <= y < 15 ==> (*g)@[x]@[y] == empty_tile(),
    {
        let row: [ScrabTile; 15] = [ScrabTile::default();15];
        let g: Grid = [row;15];
        assert forall|x: int, y: int| 0 <= x < 15 && 0 <= y < 15 implies g@[x]@[y] == empty_tile() by {
            assert(g@[x] == row);
            assert(row@[y] == empty_tile());
        }
        Box::new(g)
    }

    fn if_empty(&self, coords: &Coordinate) -> (b: bool)
        ensures
            b == is_empty_square(*self, *coords),
    {
        self[coords.x as usize][coords.y as usize].letter == ' '
    }
}


/// `num` copies of the tile with letter `ch` worth `point`.
pub open spec fn tile_run(num: nat, ch: char, point: u16) -> Seq<ScrabTile> {
    Seq::new(num, |i: int| ScrabTile { point: point, letter: ch })
}

/// The tiles of a full sack, in the order in which `new_sack` puts them in.
pub open spec fn standard_sack() -> Seq<ScrabTile> {
    tile_run(12, 'e', 1) + tile_run(9, 'a', 1) + tile_run(9, 'i', 1) + tile_run(8, 'o', 1)
        + tile_run(6, 'n', 1) + tile_run(6, 'r', 1) + tile_run(6, 't', 1) + tile_run(4, 'l', 1)
        + tile_run(4, 's', 1) + tile_run(4, 'u', 1) + tile_run(4, 'd', 2) + tile_run(3, 'g', 2)
        + tile_run(2, 'b', 3) + tile_run(2, 'c', 3) + tile_run(2, 'm', 3) + tile_run(2, 'p', 3)
        + tile_run(2, 'f', 4) + tile_run(2, 'h', 4) + tile_run(2, 'v', 4) + tile_run(2, 'w', 4)
        + tile_run(2, 'y', 4) + tile_run(1, 'k', 5) + tile_run(1, 'j', 8) + tile_run(1, 'x', 8)
        + tile_run(1, 'q', 10) + tile_run(1, 'z', 10) + tile_run(2, '_', 0)
}

/// How many tiles of each letter a full sack holds; `'_'` is the blank.
pub open spec fn letter_count(c: char) -> nat {
    if c == 'e' {
        12
    } else if c == 'a' || c == 'i' {
        9
    } else if c == 'o' {
        8
    } else if c == 'n' || c == 'r' || c == 't' {
        6
    } else if c == 'l' || c == 's' || c == 'u' || c == 'd' {
        4
    } else if c == 'g' {
        3
    } else if c == 'b' || c == 'c' || c == 'm' || c == 'p' || c == 'f' || c == 'h' || c == 'v'
        || c == 'w' || c == 'y' || c == '_' {
        2
    } else if c == 'k' || c == 'j' || c == 'x' || c == 'q' || c == 'z' {
        1
    } else {
        0
    }
}

/// The points a tile of each letter is worth.
pub open spec fn letter_points(c: char) -> u16 {
    if c == 'd' || c == 'g' {
        2
    } else if c == 'b' || c == 'c' || c == 'm' || c == 'p' {
        3
    } else if c == 'f' || c == 'h' || c == 'v' || c == 'w' || c == 'y' {
        4
    } else if c == 'k' {
        5
    } else if c == 'j' || c == 'x' {
        8
    } else if c == 'q' || c == 'z' {
        10
    } else if c == '_' {
        0
    } else {
        1
    }
}

/// The number of tiles of `s` with letter `c`.
pub open spec fn count_letter(s: Seq<ScrabTile>, c: char) -> nat
    decreases s.len(),
{
    if s.len() == 0 {
        0
    } else {
        count_letter(s.drop_last(), c) + if s.last().letter == c { 1nat } else { 0nat }
    }
}

pub broadcast proof fn lemma_count_letter_add(a: Seq<ScrabTile>, b: Seq<ScrabTile>, c: char)
    ensures
        #[trigger] count_letter(a + b, c) == count_letter(a, c) + count_letter(b, c),
    decreases b.len(),
{
    if b.len() == 0 {
        assert(a + b =~= a);
    } else {
        lemma_count_letter_add(a, b.drop_last(), c);
        assert((a + b).drop_last() =~= a + b.drop_last());
    }
}

pub proof fn lemma_count_letter_run(num: nat, ch: char, point: u16, c: char)
    ensures
        count_letter(tile_run(num, ch, point), c) == if ch == c { num } else { 0 },
    decreases num,
{
    if num > 0 {
        lemma_count_letter_run((num - 1) as nat, ch, point, c);
        assert(tile_run(num, ch, point).drop_last() =~= tile_run((num - 1) as nat, ch, point));
    }
}

/// Every tile of `s` is worth the points of its letter.
pub open spec fn points_by_letter(s: Seq<ScrabTile>) -> bool {
    forall|i: int| 0 <= i < s.len() ==> #[trigger] s[i].point == letter_points(s[i].letter)
}

pub broadcast proof fn lemma_points_by_letter_add(a: Seq<ScrabTile>, b: Seq<ScrabTile>)
    requires
        points_by_letter(a),
        points_by_letter(b),
    ensures
        #[trigger] points_by_letter(a + b),
{
    assert forall|i: int| 0 <= i < (a + b).len() implies #[trigger] (a + b)[i].point
        == letter_points((a + b)[i].letter) by {
        if i >= a.len() {
            assert((a + b)[i] == b[i - a.len()]);
        }
    }
}

/// A full sack holds 100 tiles: of each letter as many as `letter_count`
/// gives, each worth the points that `letter_points` gives.
pub proof fn lemma_standard_sack()
    ensures
        standard_sack().len() == 100,
        forall|c: char| #[trigger] count_letter(standard_sack(), c) == letter_count(c),
        points_by_letter(standard_sack()),
{
    broadcast use lemma_count_letter_add, lemma_points_by_letter_add;

    assert forall|c: char| #[trigger] count_letter(standard_sack(), c) == letter_count(c) by {
            lemma_count_letter_run(12, 'e', 1, c);
            lemma_count_letter_run(9, 'a', 1, c);
            lemma_count_letter_run(9, 'i', 1, c);
            lemma_count_letter_run(8, 'o', 1, c);
            lemma_count_letter_run(6, 'n', 1, c);
            lemma_count_letter_run(6, 'r', 1, c);
            lemma_count_letter_run(6, 't', 1, c);
            lemma_count_letter_run(4, 'l', 1, c);
            lemma_count_letter_run(4, 's', 1, c);
            lemma_count_letter_run(4, 'u', 1, c);
            lemma_count_letter_run(4, 'd', 2, c);
            lemma_count_letter_run(3, 'g', 2, c);
            lemma_count_letter_run(2, 'b', 3, c);
            lemma_count_letter_run(2, 'c', 3, c);
            lemma_count_letter_run(2, 'm', 3, c);
            lemma_count_letter_run(2, 'p', 3, c);
            lemma_count_letter_run(2, 'f', 4, c);
            lemma_count_letter_run(2, 'h', 4, c);
            lemma_count_letter_run(2, 'v', 4, c);
            lemma_count_letter_run(2, 'w', 4, c);
            lemma_count_letter_run(2, 'y', 4, c);
            lemma_count_letter_run(1, 'k', 5, c);
            lemma_count_letter_run(1, 'j', 8, c);
            lemma_count_letter_run(1, 'x', 8, c);
            lemma_count_letter_run(1, 'q', 10, c);
            lemma_count_letter_run(1, 'z', 10, c);
            lemma_count_letter_run(2, '_', 0, c);
    }
}

pub trait Sack<T>: Sized {
    fn new_sack() -> Self;

    fn shuffle_sack(&mut self);

    fn populate(&mut self, num: u16, ch: char, point: u16);

    fn get_tile(&mut self) -> Option<T>;
}

/// Calls `rand::seq::SliceRandom::shuffle` on the tiles with the thread's
/// random number generator (`rand::thread_rng`). That shuffle only swaps
/// elements, so the result holds the same tiles; which order comes out
/// depends on chance and is left unsaid. `rand::thread_rng` panics where the
/// operating system's random source cannot seed it; no clause covers that.
#[verifier::external_body]
fn shuffle_tiles(tiles: &mut Vec<ScrabTile>)
    ensures
        final(tiles)@.len() == old(tiles)@.len(),
        final(tiles)@.to_multiset() == old(tiles)@.to_multiset(),
{
    let mut rng = rand::thread_rng();
    tiles.as_mut_slice().shuffle(&mut rng);
}

impl Sack<ScrabTile> for SackTiles {
    /// A full sack: the standard distribution of letters, in a fixed order.
    fn new_sack() -> (sack: SackTiles)
        ensures
            sack@ == standard_sack(),
    {
        let mut sack = SackTiles::new();
        sack.populate(12, 'e', 1);
        sack.populate(9, 'a', 1);
        sack.populate(9, 'i', 1);
        sack.populate(8, 'o', 1);
        sack.populate(6, 'n', 1);
        sack.populate(6, 'r', 1);
        sack.populate(6, 't', 1);
        sack.populate(4, 'l', 1);
        sack.populate(4, 's', 1);
        sack.populate(4, 'u', 1);

        sack.populate(4, 'd', 2);
        sack.populate(3, 'g', 2);

        sack.populate(2, 'b', 3);
        sack.populate(2, 'c', 3);
        sack.populate(2, 'm', 3);
        sack.populate(2, 'p', 3);

        sack.populate(2, 'f', 4);
        sack.populate(2, 'h', 4);
        sack.populate(2, 'v', 4);
        sack.populate(2, 'w', 4);
        sack.populate(2, 'y', 4);

        sack.populate(1, 'k', 5);

        sack.populate(1, 'j', 8);
        sack.populate(1, 'x', 8);

        sack.populate(1, 'q', 10);
        sack.populate(1, 'z', 10);

        sack.populate(2, '_', 0);
        assert(sack@ =~= standard_sack());
        sack
    }

    /// Draws the last tile of the sack, if there is one.
    fn get_tile(&mut self) -> (t: Option<ScrabTile>)
        ensures
            old(self)@.len() == 0 ==> t is None && final(self)@ == old(self)@,
            old(self)@.len() > 0 ==> t == Some(old(self)@.last()) && final(self)@
                == old(self)@.drop_last(),
    {
        self.pop()
    }

    /// Puts the same tiles in a random order.
    fn shuffle_sack(&mut self)
        ensures
            final(self)@.len() == old(self)@.len(),
            final(self)@.to_multiset() == old(self)@.to_multiset(),
    {
        shuffle_tiles(self);
    }

    /// Appends `num` tiles with letter `ch`, each worth `point_awared`.
    fn populate(&mut self, num: u16, ch: char, point_awared: u16)
        ensures
            final(self)@ == old(self)@ + tile_run(num as nat, ch, point_awared),
    {
        push_run(self, num, ch, point_awared);
    }
}

/// Appends `num` copies of the tile with letter `ch` worth `point`.
fn push_run(tiles: &mut Vec<ScrabTile>, num: u16, ch: char, point: u16)
    ensures
        final(tiles)@ == old(tiles)@ + tile_run(num as nat, ch, point),
{
    let ghost start = tiles@;
    assert(start + tile_run(0, ch, point) =~= start);
    for i in 0..num
        invariant
            tiles@ == start + tile_run(i as nat, ch, point),
    {
        tiles.push(ScrabTile { point: point, letter: ch });
        assert(tiles@ =~= start + tile_run((i + 1) as nat, ch, point));
    }
}

} // verus!
