//! The playing field: four columns of four rows, walled in on the left, the
//! right and the bottom. Pieces drop to the lowest free row of a column.
//!
//! Coordinates are `(x, y)` with `x` in `0..6` (columns 0 and 5 are walls)
//! and `y` in `0..5` (row 0 is the top, row 4 the bottom wall). The board is
//! held as a flat vector with cell `(x, y)` at index `y * 6 + x`.

use vstd::prelude::*;
use crate::rng::{seeded_bool, Stream};

verus! {

/// Number of columns, walls included.
pub const WIDTH: usize = 6;

/// Number of rows, the bottom wall included.
pub const HEIGHT: usize = 5;

/// The seed the random stream is reset to.
pub const SEED: u64 = 2024;

/// What a cell holds.
#[derive(Clone, Copy, Debug, PartialEq, Eq, Structural)]
pub enum Item {
    Empty,
    Cookie,
    Milk,
    Wall,
}

/// Why a placement was refused.
#[derive(Clone, Copy, Debug, PartialEq, Eq, Structural)]
pub enum GameError {
    /// The column is not one of 1 to 4.
    InvalidColumn,
    /// The column has no empty cell.
    ColumnFull,
    /// The team name is neither `cookie` nor `milk`.
    InvalidTeam,
}

/// The board and the random stream used to fill it.
pub struct Game {
    cells: Vec<Item>,
    rng: Stream,
}

/// The content of cell `(x, y)` of board `b`.
pub open spec fn cell(b: Seq<Item>, x: int, y: int) -> Item {
    b[y * 6 + x]
}

/// `(x, y)` lies on the board.
pub open spec fn on_board(x: int, y: int) -> bool {
    0 <= x < 6 && 0 <= y < 5
}

/// `(x, y)` is one of the sixteen playable cells.
pub open spec fn interior(x: int, y: int) -> bool {
    1 <= x <= 4 && 0 <= y <= 3
}

/// `(x, y)` is a wall cell: the two side columns and the bottom row.
pub open spec fn border(x: int, y: int) -> bool {
    on_board(x, y) && !interior(x, y)
}

/// A piece of one of the two teams.
pub open spec fn is_filler(i: Item) -> bool {
    i == Item::Cookie || i == Item::Milk
}

/// The board has its thirty cells, walls exactly on the border.
pub open spec fn well_formed(b: Seq<Item>) -> bool {
    &&& b.len() == 30
    &&& forall|x: int, y: int| #[trigger] on_board(x, y) ==> (cell(b, x, y) == Item::Wall <==> border(x, y))
}

/// What a reset board holds at `(x, y)`.
pub open spec fn fresh_cell(x: int, y: int) -> Item {
    if border(x, y) {
        Item::Wall
    } else {
        Item::Empty
    }
}

/// The board is as a reset leaves it: walls on the border, the rest empty.
pub open spec fn is_fresh(b: Seq<Item>) -> bool {
    &&& b.len() == 30
    &&& forall|x: int, y: int| on_board(x, y) ==> #[trigger] cell(b, x, y) == fresh_cell(x, y)
}

/// The piece a team name stands for.
pub open spec fn team_of(name: Seq<char>) -> Option<Item> {
    if name == seq!['c', 'o', 'o', 'k', 'i', 'e'] {
        Some(Item::Cookie)
    } else if name == seq!['m', 'i', 'l', 'k'] {
        Some(Item::Milk)
    } else {
        None
    }
}

/// The lowest empty row of column `x` at or above row `y`, or -1.
pub open spec fn drop_row_from(b: Seq<Item>, x: int, y: int) -> int
    decreases y + 1,
{
    if y < 0 {
        -1
    } else if cell(b, x, y) == Item::Empty {
        y
    } else {
        drop_row_from(b, x, y - 1)
    }
}

/// The row a piece dropped into column `x` comes to rest in.
pub open spec fn drop_row(b: Seq<Item>, x: int) -> int {
    drop_row_from(b, x, 3)
}

/// The board after `item` is dropped into column `x`.
pub open spec fn dropped(b: Seq<Item>, x: int, item: Item) -> Seq<Item> {
    b.update(drop_row(b, x) * 6 + x, item)
}

/// The outcome of a placement of team `name` in column `x`: the column is
/// checked first, then whether its top cell is free, then the team.
pub open spec fn place_outcome(b: Seq<Item>, name: Seq<char>, x: int) -> Result<(), GameError> {
    if !(1 <= x <= 4) {
        Err(GameError::InvalidColumn)
    } else if cell(b, x, 0) != Item::Empty {
        Err(GameError::ColumnFull)
    } else if team_of(name) is None {
        Err(GameError::InvalidTeam)
    } else {
        Ok(())
    }
}

/// The piece that holds all four cells of a line, if one does.
pub open spec fn line_winner(a: Item, b: Item, c: Item, d: Item) -> Option<Item> {
    if a != Item::Empty && a == b && a == c && a == d {
        Some(a)
    } else {
        None
    }
}

/// The winner of playable row `y`, read left to right.
pub open spec fn row_line(b: Seq<Item>, y: int) -> Option<Item> {
    line_winner(cell(b, 1, y), cell(b, 2, y), cell(b, 3, y), cell(b, 4, y))
}

/// The winner of column `x`, read top to bottom.
pub open spec fn column_line(b: Seq<Item>, x: int) -> Option<Item> {
    line_winner(cell(b, x, 0), cell(b, x, 1), cell(b, x, 2), cell(b, x, 3))
}

/// The winner of the diagonal from the top left to the bottom right.
pub open spec fn falling_diagonal(b: Seq<Item>) -> Option<Item> {
    line_winner(cell(b, 1, 0), cell(b, 2, 1), cell(b, 3, 2), cell(b, 4, 3))
}

/// The winner of the diagonal from the bottom left to the top right.
pub open spec fn rising_diagonal(b: Seq<Item>) -> Option<Item> {
    line_winner(cell(b, 1, 3), cell(b, 2, 2), cell(b, 3, 1), cell(b, 4, 0))
}

/// The first winning row at or below index `y`, from the top.
pub open spec fn first_row(b: Seq<Item>, y: int) -> Option<Item>
    decreases 4 - y,
{
    if y > 3 {
        None
    } else if row_line(b, y) is Some {
        row_line(b, y)
    } else {
        first_row(b, y + 1)
    }
}

/// The first winning column at or right of `x`.
pub open spec fn first_column(b: Seq<Item>, x: int) -> Option<Item>
    decreases 5 - x,
{
    if x > 4 {
        None
    } else if column_line(b, x) is Some {
        column_line(b, x)
    } else {
        first_column(b, x + 1)
    }
}

/// `a` if it holds a value, else `b`.
pub open spec fn either(a: Option<Item>, b: Option<Item>) -> Option<Item> {
    if a is Some {
        a
    } else {
        b
    }
}

/// The winner of the board: the rows are read first, then the columns,
/// then the two diagonals; the first complete line decides.
pub open spec fn winner(b: Seq<Item>) -> Option<Item> {
    either(first_row(b, 0), either(first_column(b, 1), either(falling_diagonal(b), rising_diagonal(b))))
}

/// No playable cell is empty.
pub open spec fn full(b: Seq<Item>) -> bool {
    forall|x: int, y: int| interior(x, y) ==> #[trigger] cell(b, x, y) != Item::Empty
}

/// The piece that a random draw puts down.
pub open spec fn fill_item(d: bool) -> Item {
    if d {
        Item::Cookie
    } else {
        Item::Milk
    }
}

/// `after` is `before` with every playable cell overwritten from the draws
/// `d`, taken row by row from the top and left to right within a row.
pub open spec fn filled_from(before: Seq<Item>, after: Seq<Item>, d: Seq<bool>) -> bool {
    &&& after.len() == 30
    &&& forall|x: int, y: int|
        #[trigger] on_board(x, y) ==> cell(after, x, y) == if interior(x, y) {
            fill_item(d[y * 4 + x - 1])
        } else {
            cell(before, x, y)
        }
}

/// The sixteen booleans a stream seeded with `seed` yields after `drawn`
/// draws, in order.
pub open spec fn next_draws(seed: u64, drawn: nat) -> Seq<bool> {
    Seq::new(16, |i: int| seeded_bool(seed, (drawn + i) as nat))
}

/// The character a cell is drawn with.
pub open spec fn glyph(i: Item) -> char {
    match i {
        Item::Empty => '\u{2B1B}',
        Item::Cookie => '\u{1F36A}',
        Item::Milk => '\u{1F95B}',
        Item::Wall => '\u{2B1C}',
    }
}

/// Row `y` as text: six glyphs and a line break.
pub open spec fn render_row(b: Seq<Item>, y: int) -> Seq<char> {
    Seq::new(6, |x: int| glyph(cell(b, x, y))).push('\n')
}

/// The first `n` rows as text.
pub open spec fn render_rows(b: Seq<Item>, n: int) -> Seq<char>
    decreases n,
{
    if n <= 0 {
        Seq::empty()
    } else {
        render_rows(b, n - 1) + render_row(b, n - 1)
    }
}

/// The whole board as text, walls included, one line per row.
pub open spec fn rendered(b: Seq<Item>) -> Seq<char> {
    render_rows(b, 5)
}

/// Dropping pieces of one team into an empty column fills it from the
/// bottom row upwards: four placements succeed, landing in rows 3, 2, 1 and
/// 0, and a fifth is refused as `ColumnFull`.
pub proof fn lemma_column_fills_bottom_up(b: Seq<Item>, name: Seq<char>, c: int)
    requires
        well_formed(b),
        1 <= c <= 4,
        team_of(name) is Some,
        forall|y: int| 0 <= y <= 3 ==> #[trigger] cell(b, c, y) == Item::Empty,
    ensures
        ({
            let it = team_of(name)->0;
            let b1 = dropped(b, c, it);
            let b2 = dropped(b1, c, it);
            let b3 = dropped(b2, c, it);
            let b4 = dropped(b3, c, it);
            &&& place_outcome(b, name, c) is Ok && drop_row(b, c) == 3
            &&& place_outcome(b1, name, c) is Ok && drop_row(b1, c) == 2
            &&& place_outcome(b2, name, c) is Ok && drop_row(b2, c) == 1
            &&& place_outcome(b3, name, c) is Ok && drop_row(b3, c) == 0
            &&& place_outcome(b4, name, c) == Err::<(), GameError>(GameError::ColumnFull)
            &&& forall|y: int| 0 <= y <= 3 ==> #[trigger] cell(b4, c, y) == it
        }),
{
    reveal_with_fuel(drop_row_from, 5);
    let it = team_of(name)->0;
    let b1 = dropped(b, c, it);
    let b2 = dropped(b1, c, it);
    let b3 = dropped(b2, c, it);
    let b4 = dropped(b3, c, it);
    assert(cell(b, c, 0) == Item::Empty && cell(b, c, 1) == Item::Empty && cell(b, c, 2) == Item::Empty
        && cell(b, c, 3) == Item::Empty);
    assert(drop_row(b, c) == 3);
    assert(cell(b1, c, 3) == it && cell(b1, c, 2) == Item::Empty && cell(b1, c, 1) == Item::Empty
        && cell(b1, c, 0) == Item::Empty);
    assert(drop_row(b1, c) == 2);
    assert(cell(b2, c, 3) == it && cell(b2, c, 2) == it && cell(b2, c, 1) == Item::Empty
        && cell(b2, c, 0) == Item::Empty);
    assert(drop_row(b2, c) == 1);
    assert(cell(b3, c, 3) == it && cell(b3, c, 2) == it && cell(b3, c, 1) == it
        && cell(b3, c, 0) == Item::Empty);
    assert(drop_row(b3, c) == 0);
    assert(cell(b4, c, 3) == it && cell(b4, c, 2) == it && cell(b4, c, 1) == it && cell(b4, c, 0) == it);
}

/// On a reset board, one team dropping a piece into each of the columns 1,
/// 2, 3 and 4 in turn fills the bottom row and wins.
pub proof fn lemma_bottom_row_wins(b: Seq<Item>, name: Seq<char>)
    requires
        is_fresh(b),
        team_of(name) is Some,
    ensures
        ({
            let it = team_of(name)->0;
            let b1 = dropped(b, 1, it);
            let b2 = dropped(b1, 2, it);
            let b3 = dropped(b2, 3, it);
            let b4 = dropped(b3, 4, it);
            &&& place_outcome(b, name, 1) is Ok
            &&& place_outcome(b1, name, 2) is Ok
            &&& place_outcome(b2, name, 3) is Ok
            &&& place_outcome(b3, name, 4) is Ok
            &&& winner(b4) == Some(it)
        }),
{
    reveal_with_fuel(drop_row_from, 2);
    reveal_with_fuel(first_row, 5);
    let it = team_of(name)->0;
    let b1 = dropped(b, 1, it);
    let b2 = dropped(b1, 2, it);
    let b3 = dropped(b2, 3, it);
    let b4 = dropped(b3, 4, it);
    assert(cell(b, 1, 3) == Item::Empty && cell(b, 2, 3) == Item::Empty && cell(b, 3, 3) == Item::Empty
        && cell(b, 4, 3) == Item::Empty);
    assert(cell(b, 1, 0) == Item::Empty && cell(b, 2, 0) == Item::Empty && cell(b, 3, 0) == Item::Empty
        && cell(b, 4, 0) == Item::Empty);
    assert(cell(b, 1, 1) == Item::Empty && cell(b, 1, 2) == Item::Empty);
    assert(drop_row(b, 1) == 3);
    assert(cell(b1, 2, 3) == Item::Empty && cell(b1, 2, 0) == Item::Empty);
    assert(drop_row(b1, 2) == 3);
    assert(cell(b2, 3, 3) == Item::Empty && cell(b2, 3, 0) == Item::Empty);
    assert(drop_row(b2, 3) == 3);
    assert(cell(b3, 4, 3) == Item::Empty && cell(b3, 4, 0) == Item::Empty);
    assert(drop_row(b3, 4) == 3);
    assert(cell(b4, 1, 0) == Item::Empty && cell(b4, 1, 1) == Item::Empty && cell(b4, 1, 2) == Item::Empty);
    assert(row_line(b4, 0) is None && row_line(b4, 1) is None && row_line(b4, 2) is None);
    assert(cell(b4, 1, 3) == it && cell(b4, 2, 3) == it && cell(b4, 3, 3) == it && cell(b4, 4, 3) == it);
    assert(row_line(b4, 3) == Some(it));
}

/// The text of the first `n` rows has seven characters per row, and row `y`
/// stands at offset `7 * y`.
proof fn lemma_render_rows_layout(b: Seq<Item>, n: int)
    requires
        0 <= n,
    ensures
        render_rows(b, n).len() == 7 * n,
        forall|y: int, k: int| 0 <= y < n && 0 <= k < 7 ==> #[trigger] render_rows(b, n)[y * 7 + k] == render_row(b, y)[k],
    decreases n,
{
    if n > 0 {
        lemma_render_rows_layout(b, n - 1);
        assert forall|y: int, k: int| 0 <= y < n && 0 <= k < 7 implies #[trigger] render_rows(b, n)[y * 7 + k]
            == render_row(b, y)[k] by {
            if y < n - 1 {
                assert(render_rows(b, n)[y * 7 + k] == render_rows(b, n - 1)[y * 7 + k]);
            }
        }
    }
}

/// A reset board has no winner and is not full, and its text shows walls on
/// the border and empty cells everywhere else, each row ending in a line
/// break.
pub proof fn lemma_fresh_board(b: Seq<Item>)
    requires
        is_fresh(b),
    ensures
        winner(b) is None,
        !full(b),
        rendered(b).len() == 35,
        forall|x: int, y: int| #[trigger] on_board(x, y) ==> rendered(b)[y * 7 + x] == glyph(fresh_cell(x, y)),
        forall|y: int| 0 <= y < 5 ==> #[trigger] rendered(b)[y * 7 + 6] == '\n',
{
    reveal_with_fuel(first_row, 5);
    reveal_with_fuel(first_column, 5);
    assert(cell(b, 1, 0) == Item::Empty && cell(b, 1, 1) == Item::Empty && cell(b, 1, 2) == Item::Empty
        && cell(b, 1, 3) == Item::Empty);
    assert(cell(b, 2, 0) == Item::Empty && cell(b, 3, 0) == Item::Empty && cell(b, 4, 0) == Item::Empty);
    assert(interior(1, 0) && cell(b, 1, 0) == Item::Empty);
    lemma_render_rows_layout(b, 5);
    assert forall|x: int, y: int| #[trigger] on_board(x, y) implies rendered(b)[y * 7 + x] == glyph(
        fresh_cell(x, y),
    ) by {
        assert(rendered(b)[y * 7 + x] == render_row(b, y)[x]);
        assert(cell(b, x, y) == fresh_cell(x, y));
    }
    assert forall|y: int| 0 <= y < 5 implies #[trigger] rendered(b)[y * 7 + 6] == '\n' by {
        assert(rendered(b)[y * 7 + 6] == render_row(b, y)[6]);
    }
}

/// Filling two well-formed boards from the same sixteen draws gives the
/// same board, whatever they held before: so two games reset (which seeds
/// their streams alike) and then filled the same number of times agree.
pub proof fn lemma_fill_reproducible(b1: Seq<Item>, b2: Seq<Item>, a1: Seq<Item>, a2: Seq<Item>, d: Seq<bool>)
    requires
        well_formed(b1),
        well_formed(b2),
        d.len() == 16,
        filled_from(b1, a1, d),
        filled_from(b2, a2, d),
    ensures
        a1 == a2,
{
    assert forall|i: int| 0 <= i < 30 implies a1[i] == a2[i] by {
        let x = i % 6;
        let y = i / 6;
        assert(i == y * 6 + x);
        assert(on_board(x, y));
        assert(cell(a1, x, y) == cell(a2, x, y));
    }
    assert(a1 =~= a2);
}

/// The piece for a team name, if it names one.
pub fn parse_team(name: &str) -> (r: Option<Item>)
    ensures
        r == team_of(name@),
{
    let given = name.to_owned();
    let cookie = "cookie".to_owned();
    let milk = "milk".to_owned();
    proof {
        reveal_strlit("cookie");
        reveal_strlit("milk");
        assert("cookie"@ =~= seq!['c', 'o', 'o', 'k', 'i', 'e']);
        assert("milk"@ =~= seq!['m', 'i', 'l', 'k']);
    }
    if given == cookie {
        Some(Item::Cookie)
    } else if given == milk {
        Some(Item::Milk)
    } else {
        None
    }
}

/// A fresh board: walls on the border, every playable cell empty.
fn fresh_cells() -> (r: Vec<Item>)
    ensures
        is_fresh(r@),
        well_formed(r@),
{
    let mut cells: Vec<Item> = Vec::new();
    let mut y: usize = 0;
    while y < HEIGHT
        invariant
            y <= 5,
            cells@.len() == y * 6,
            forall|xx: int, yy: int| 0 <= xx < 6 && 0 <= yy < y ==> #[trigger] cell(cells@, xx, yy) == fresh_cell(xx, yy),
        decreases 5 - y,
    {
        let mut x: usize = 0;
        while x < WIDTH
            invariant
                y < 5,
                x <= 6,
                cells@.len() == y * 6 + x,
                forall|xx: int, yy: int| 0 <= xx < 6 && 0 <= yy < y ==> #[trigger] cell(cells@, xx, yy) == fresh_cell(xx, yy),
                forall|xx: int| 0 <= xx < x ==> #[trigger] cell(cells@, xx, y as int) == fresh_cell(xx, y as int),
            decreases 6 - x,
        {
            let wall = x == 0 || x == WIDTH - 1 || y == HEIGHT - 1;
            let ghost prev = cells@;
            cells.push(if wall { Item::Wall } else { Item::Empty });
            assert forall|xx: int, yy: int| 0 <= xx < 6 && 0 <= yy < y implies #[trigger] cell(cells@, xx, yy)
                == fresh_cell(xx, yy) by {
                assert(cell(cells@, xx, yy) == cell(prev, xx, yy));
            }
            assert forall|xx: int| 0 <= xx < x + 1 implies #[trigger] cell(cells@, xx, y as int) == fresh_cell(
                xx,
                y as int,
            ) by {
                if xx < x {
                    assert(cell(cells@, xx, y as int) == cell(prev, xx, y as int));
                }
            }
            x = x + 1;
        }
        y = y + 1;
    }
    cells
}

/// The text a cell is drawn with.
fn glyph_text(i: Item) -> (r: &'static str)
    ensures
        r@ == seq![glyph(i)],
{
    match i {
        Item::Empty => {
            proof {
                reveal_strlit("\u{2B1B}");
            }
            "\u{2B1B}"
        },
        Item::Cookie => {
            proof {
                reveal_strlit("\u{1F36A}");
            }
            "\u{1F36A}"
        },
        Item::Milk => {
            proof {
                reveal_strlit("\u{1F95B}");
            }
            "\u{1F95B}"
        },
        Item::Wall => {
            proof {
                reveal_strlit("\u{2B1C}");
            }
            "\u{2B1C}"
        },
    }
}

impl View for Game {
    type V = Seq<Item>;

    /// The cells, row by row from the top.
    closed spec fn view(&self) -> Seq<Item> {
        self.cells@
    }
}

impl Game {
    /// The random stream the board is filled from.
    pub closed spec fn stream(&self) -> Stream {
        self.rng
    }

    /// A reset board with a stream freshly seeded with `SEED`.
    pub fn new() -> (g: Game)
        ensures
            is_fresh(g@),
            well_formed(g@),
            g.stream().seed() == SEED,
            g.stream().drawn() == 0,
    {
        Game { cells: fresh_cells(), rng: Stream::seeded(SEED) }
    }

    /// Empties every playable cell, restores the walls and reseeds the
    /// random stream with `SEED`.
    pub fn reset(&mut self)
        ensures
            is_fresh(final(self)@),
            well_formed(final(self)@),
            final(self).stream().seed() == SEED,
            final(self).stream().drawn() == 0,
    {
        self.cells = fresh_cells();
        self.rng = Stream::seeded(SEED);
    }

    /// The content of cell `(x, y)`.
    pub fn get(&self, x: usize, y: usize) -> (r: Item)
        requires
            well_formed(self@),
            on_board(x as int, y as int),
        ensures
            r == cell(self@, x as int, y as int),
    {
        self.cells[y * WIDTH + x]
    }

    /// The lowest empty row of column `x`, whose top cell is empty.
    fn drop_row(&self, x: usize) -> (r: usize)
        requires
            well_formed(self@),
            1 <= x <= 4,
            cell(self@, x as int, 0) == Item::Empty,
        ensures
            r as int == drop_row(self@, x as int),
            r <= 3,
    {
        let mut y: usize = 3;
        while self.cells[y * WIDTH + x] != Item::Empty
            invariant
                well_formed(self@),
                1 <= x <= 4,
                y <= 3,
                cell(self@, x as int, 0) == Item::Empty,
                drop_row(self@, x as int) == drop_row_from(self@, x as int, y as int),
            decreases y,
        {
            y = y - 1;
        }
        y
    }

    /// Drops a piece of team `team` into column `column` (1 to 4): it lands
    /// in the lowest empty row. Refused, with the board unchanged, for a
    /// column out of range, a full column or an unknown team.
    pub fn place(&mut self, team: &str, column: u32) -> (r: Result<(), GameError>)
        requires
            well_formed(old(self)@),
        ensures
            well_formed(final(self)@),
            r == place_outcome(old(self)@, team@, column as int),
            r is Ok ==> final(self)@ == dropped(old(self)@, column as int, team_of(team@)->0),
            r is Err ==> final(self)@ == old(self)@,
            r is Err ==> *final(self) == *old(self),
            final(self).stream() == old(self).stream(),
    {
        if column < 1 || column > 4 {
            return Err(GameError::InvalidColumn);
        }
        let x = column as usize;
        if self.cells[x] != Item::Empty {
            return Err(GameError::ColumnFull);
        }
        let item = match parse_team(team) {
            Some(item) => item,
            None => return Err(GameError::InvalidTeam),
        };
        let y = self.drop_row(x);
        let ghost before = self@;
        self.cells.set(y * WIDTH + x, item);
        assert forall|xx: int, yy: int| #[trigger] on_board(xx, yy) implies (cell(self@, xx, yy) == Item::Wall
            <==> border(xx, yy)) by {
            if xx != x || yy != y {
                assert(cell(self@, xx, yy) == cell(before, xx, yy));
            }
        }
        Ok(())
    }


    /// The winner of the four cells at the given indices, if one piece
    /// holds them all.
    fn line_at(&self, i0: usize, i1: usize, i2: usize, i3: usize) -> (r: Option<Item>)
        requires
            well_formed(self@),
            i0 < 30,
            i1 < 30,
            i2 < 30,
            i3 < 30,
        ensures
            r == line_winner(self@[i0 as int], self@[i1 as int], self@[i2 as int], self@[i3 as int]),
    {
        let a = self.cells[i0];
        if a != Item::Empty && a == self.cells[i1] && a == self.cells[i2] && a == self.cells[i3] {
            Some(a)
        } else {
            None
        }
    }

    /// The winner, if a row, a column or a diagonal is held by one piece.
    pub fn is_winner(&self) -> (r: Option<Item>)
        requires
            well_formed(self@),
        ensures
            r == winner(self@),
    {
        let mut y: usize = 0;
        while y <= 3
            invariant
                well_formed(self@),
                y <= 4,
                first_row(self@, 0) == first_row(self@, y as int),
            decreases 4 - y,
        {
            let w = self.line_at(y * WIDTH + 1, y * WIDTH + 2, y * WIDTH + 3, y * WIDTH + 4);
            if w.is_some() {
                return w;
            }
            y = y + 1;
        }
        let mut x: usize = 1;
        while x <= 4
            invariant
                well_formed(self@),
                1 <= x <= 5,
                first_row(self@, 0) is None,
                first_column(self@, 1) == first_column(self@, x as int),
            decreases 5 - x,
        {
            let w = self.line_at(x, WIDTH + x, 2 * WIDTH + x, 3 * WIDTH + x);
            if w.is_some() {
                return w;
            }
            x = x + 1;
        }
        let w = self.line_at(1, WIDTH + 2, 2 * WIDTH + 3, 3 * WIDTH + 4);
        if w.is_some() {
            return w;
        }
        self.line_at(3 * WIDTH + 1, 2 * WIDTH + 2, WIDTH + 3, 4)
    }

    /// Whether every playable cell holds a piece.
    pub fn is_full(&self) -> (r: bool)
        requires
            well_formed(self@),
        ensures
            r == full(self@),
    {
        let mut y: usize = 0;
        while y <= 3
            invariant
                well_formed(self@),
                y <= 4,
                forall|xx: int, yy: int| interior(xx, yy) && yy < y ==> #[trigger] cell(self@, xx, yy) != Item::Empty,
            decreases 4 - y,
        {
            let mut x: usize = 1;
            while x <= 4
                invariant
                    well_formed(self@),
                    y <= 3,
                    1 <= x <= 5,
                    forall|xx: int, yy: int| interior(xx, yy) && yy < y ==> #[trigger] cell(self@, xx, yy) != Item::Empty,
                    forall|xx: int| 1 <= xx < x ==> #[trigger] cell(self@, xx, y as int) != Item::Empty,
                decreases 5 - x,
            {
                if self.cells[y * WIDTH + x] == Item::Empty {
                    assert(interior(x as int, y as int) && cell(self@, x as int, y as int) == Item::Empty);
                    return false;
                }
                x = x + 1;
            }
            y = y + 1;
        }
        true
    }

    /// Overwrites every playable cell from sixteen draws, row by row from the
    /// top: a `true` draw puts down a cookie, a `false` one milk.
    pub fn fill_from(&mut self, draws: &Vec<bool>)
        requires
            well_formed(old(self)@),
            draws@.len() == 16,
        ensures
            filled_from(old(self)@, final(self)@, draws@),
            well_formed(final(self)@),
            full(final(self)@),
            final(self).stream() == old(self).stream(),
    {
        let ghost before = self@;
        let mut y: usize = 0;
        while y <= 3
            invariant
                y <= 4,
                draws@.len() == 16,
                well_formed(before),
                self@.len() == 30,
                self.stream() == old(self).stream(),
                forall|xx: int, yy: int|
                    #[trigger] on_board(xx, yy) ==> cell(self@, xx, yy) == if interior(xx, yy) && yy < y {
                        fill_item(draws@[yy * 4 + xx - 1])
                    } else {
                        cell(before, xx, yy)
                    },
            decreases 4 - y,
        {
            let mut x: usize = 1;
            while x <= 4
                invariant
                    y <= 3,
                    1 <= x <= 5,
                    draws@.len() == 16,
                    well_formed(before),
                    self@.len() == 30,
                    self.stream() == old(self).stream(),
                    forall|xx: int, yy: int|
                        #[trigger] on_board(xx, yy) ==> cell(self@, xx, yy) == if interior(xx, yy) && (yy < y
                            || (yy == y && xx < x)) {
                            fill_item(draws@[yy * 4 + xx - 1])
                        } else {
                            cell(before, xx, yy)
                        },
                decreases 5 - x,
            {
                let item = if draws[y * 4 + x - 1] {
                    Item::Cookie
                } else {
                    Item::Milk
                };
                let ghost prev = self@;
                self.cells.set(y * WIDTH + x, item);
                assert forall|xx: int, yy: int| #[trigger] on_board(xx, yy) implies cell(self@, xx, yy) == if interior(
                    xx,
                    yy,
                ) && (yy < y || (yy == y && xx < x + 1)) {
                    fill_item(draws@[yy * 4 + xx - 1])
                } else {
                    cell(before, xx, yy)
                } by {
                    if xx != x || yy != y {
                        assert(cell(self@, xx, yy) == cell(prev, xx, yy));
                        assert(on_board(xx, yy));
                    }
                }
                x = x + 1;
            }
            assert forall|xx: int, yy: int| #[trigger] on_board(xx, yy) implies cell(self@, xx, yy) == if interior(
                xx,
                yy,
            ) && yy < y + 1 {
                fill_item(draws@[yy * 4 + xx - 1])
            } else {
                cell(before, xx, yy)
            } by {
                assert(on_board(xx, yy));
            }
            y = y + 1;
        }
        assert forall|xx: int, yy: int| #[trigger] on_board(xx, yy) implies (cell(self@, xx, yy) == Item::Wall
            <==> border(xx, yy)) by {
            assert(on_board(xx, yy));
        }
        assert forall|xx: int, yy: int| interior(xx, yy) implies #[trigger] cell(self@, xx, yy) != Item::Empty by {
            assert(on_board(xx, yy));
        }
    }

    /// Overwrites every playable cell with the next sixteen booleans of the
    /// random stream, row by row from the top (`true` a cookie, `false`
    /// milk); the stream moves on by sixteen.
    pub fn make_rand(&mut self)
        requires
            well_formed(old(self)@),
        ensures
            filled_from(old(self)@, final(self)@, next_draws(old(self).stream().seed(), old(self).stream().drawn())),
            final(self).stream().seed() == old(self).stream().seed(),
            final(self).stream().drawn() == old(self).stream().drawn() + 16,
            well_formed(final(self)@),
            full(final(self)@),
    {
        let ghost seed = self.stream().seed();
        let ghost drawn0 = self.stream().drawn();
        let mut draws: Vec<bool> = Vec::new();
        let mut k: usize = 0;
        while k < 16
            invariant
                k <= 16,
                draws@ == Seq::new(k as nat, |i: int| seeded_bool(seed, (drawn0 + i) as nat)),
                self@ == old(self)@,
                self.stream().seed() == seed,
                self.stream().drawn() == drawn0 + k,
            decreases 16 - k,
        {
            let b = self.rng.next_bool();
            draws.push(b);
            assert(draws@ =~= Seq::new((k + 1) as nat, |i: int| seeded_bool(seed, (drawn0 + i) as nat)));
            k = k + 1;
        }
        assert(draws@ =~= next_draws(seed, drawn0));
        self.fill_from(&draws);
    }

    /// The board as text: one line per row, walls included.
    pub fn render(&self) -> (r: String)
        requires
            well_formed(self@),
        ensures
            r@ == rendered(self@),
    {
        let mut s = String::new();
        let mut y: usize = 0;
        while y < HEIGHT
            invariant
                well_formed(self@),
                y <= 5,
                s@ == render_rows(self@, y as int),
            decreases 5 - y,
        {
            let mut x: usize = 0;
            while x < WIDTH
                invariant
                    well_formed(self@),
                    y < 5,
                    x <= 6,
                    s@ == render_rows(self@, y as int) + Seq::new(x as nat, |xx: int| glyph(cell(self@, xx, y as int))),
                decreases 6 - x,
            {
                let ghost prev = s@;
                s.append(glyph_text(self.cells[y * WIDTH + x]));
                assert(Seq::new((x + 1) as nat, |xx: int| glyph(cell(self@, xx, y as int))) =~= Seq::new(
                    x as nat,
                    |xx: int| glyph(cell(self@, xx, y as int)),
                ).push(glyph(cell(self@, x as int, y as int))));
                assert(s@ =~= render_rows(self@, y as int) + Seq::new((x + 1) as nat, |xx: int| glyph(cell(self@, xx, y as int))));
                x = x + 1;
            }
            s.append("\n");
            proof {
                reveal_strlit("\n");
            }
            assert(s@ =~= render_rows(self@, y as int + 1));
            y = y + 1;
        }
        s
    }
}

} // verus!
