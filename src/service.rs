//! The requests the service answers, as transitions of its shared state.
//! Each takes the state while its lock is held and returns what is sent
//! back; the HTTP plumbing and the lock live with the caller.

use vstd::prelude::*;
use crate::grid::{
    cell, dropped, full, parse_team, rendered, team_of, well_formed, winner, Game, Item,
};
use crate::limiter::{consumed, RateLimiter, CAPACITY};
use crate::reply::Reply;
use crate::text::same_text;

verus! {

/// The state every request shares: the milk bucket and the game.
pub struct AppState {
    pub bucket: RateLimiter,
    pub game: Game,
}

impl AppState {
    /// The bucket holds at most its capacity and the board is well formed.
    pub open spec fn wf(&self) -> bool {
        self.bucket.wf() && well_formed(self.game@)
    }

    /// A full bucket and a reset board.
    pub fn new() -> (r: AppState)
        ensures
            r.wf(),
            r.bucket@ == CAPACITY,
            crate::grid::is_fresh(r.game@),
            r.game.stream().seed() == crate::grid::SEED,
            r.game.stream().drawn() == 0,
    {
        AppState { bucket: RateLimiter::new(), game: Game::new() }
    }
}

/// The line added under the board: who won, or that a full board has no
/// winner, or nothing while the game goes on.
pub open spec fn verdict(b: Seq<Item>) -> Seq<char> {
    match winner(b) {
        Some(Item::Milk) => "\u{1F95B} wins!\n"@,
        Some(Item::Cookie) => "\u{1F36A} wins!\n"@,
        Some(_) => "draw wins!\n"@,
        None => if full(b) {
            "No winner.\n"@
        } else {
            Seq::empty()
        },
    }
}

/// The board as text followed by its verdict.
pub open spec fn board_text(b: Seq<Item>) -> Seq<char> {
    rendered(b) + verdict(b)
}

/// The board as text followed by its verdict.
pub fn game_board(game: &Game) -> (r: String)
    requires
        well_formed(game@),
    ensures
        r@ == board_text(game@),
{
    let mut response = game.render();
    match game.is_winner() {
        Some(w) => {
            match w {
                Item::Milk => response.append("\u{1F95B} wins!\n"),
                Item::Cookie => response.append("\u{1F36A} wins!\n"),
                _ => response.append("draw wins!\n"),
            }
        },
        None => {
            if game.is_full() {
                response.append("No winner.\n");
            }
        },
    }
    response
}

/// Shows the board.
pub fn board(state: &AppState) -> (r: Reply)
    requires
        state.wf(),
    ensures
        r.status == 200,
        r.body@ == board_text(state.game@),
{
    Reply { status: 200, body: game_board(&state.game) }
}

/// Resets the board and its random stream, and shows the board.
pub fn reset(state: &mut AppState) -> (r: String)
    requires
        old(state).wf(),
    ensures
        final(state).wf(),
        final(state).bucket == old(state).bucket,
        crate::grid::is_fresh(final(state).game@),
        final(state).game.stream().seed() == crate::grid::SEED,
        final(state).game.stream().drawn() == 0,
        r@ == rendered(final(state).game@),
{
    state.game.reset();
    state.game.render()
}

/// A move of team `team` in column `column`: 400 for an unknown team or a
/// column outside 1 to 4; 503, with the board unchanged, once the game is
/// won or when the column is full; else the piece drops and 200. The board
/// is shown with each answer but the 400s.
pub fn place(state: &mut AppState, team: &str, column: u32) -> (r: Reply)
    requires
        old(state).wf(),
    ensures
        final(state).wf(),
        final(state).bucket == old(state).bucket,
        ({
            let b = old(state).game@;
            let c = column as int;
            if team_of(team@) is None {
                r.status == 400 && r.body@ == "invalid team"@ && *final(state) == *old(state)
            } else if !(1 <= c <= 4) {
                r.status == 400 && r.body@ == "invalid column"@ && *final(state) == *old(state)
            } else if winner(b) is Some || cell(b, c, 0) != Item::Empty {
                r.status == 503 && r.body@ == board_text(b) && *final(state) == *old(state)
            } else {
                &&& r.status == 200
                &&& final(state).game.stream() == old(state).game.stream()
                &&& final(state).game@ == dropped(b, c, team_of(team@)->0)
                &&& r.body@ == board_text(final(state).game@)
            }
        }),
{
    if parse_team(team).is_none() {
        return Reply { status: 400, body: "invalid team".to_owned() };
    }
    if column < 1 || column > 4 {
        return Reply { status: 400, body: "invalid column".to_owned() };
    }
    if state.game.is_winner().is_some() {
        return Reply { status: 503, body: game_board(&state.game) };
    }
    if state.game.place(team, column).is_err() {
        return Reply { status: 503, body: game_board(&state.game) };
    }
    Reply { status: 200, body: game_board(&state.game) }
}

/// Fills every playable cell from the random stream and shows the board.
pub fn random_board(state: &mut AppState) -> (r: String)
    requires
        old(state).wf(),
    ensures
        final(state).wf(),
        final(state).bucket == old(state).bucket,
        crate::grid::filled_from(
            old(state).game@,
            final(state).game@,
            crate::grid::next_draws(old(state).game.stream().seed(), old(state).game.stream().drawn()),
        ),
        final(state).game.stream().seed() == old(state).game.stream().seed(),
        final(state).game.stream().drawn() == old(state).game.stream().drawn() + 16,
        full(final(state).game@),
        r@ == rendered(final(state).game@),
{
    state.game.make_rand();
    state.game.render()
}

/// Fills the milk bucket to capacity.
pub fn refill(state: &mut AppState)
    requires
        old(state).wf(),
    ensures
        final(state).wf(),
        final(state).bucket@ == CAPACITY,
        final(state).game == old(state).game,
{
    state.bucket.force_refill();
}

/// A milk withdrawal: 429 when the bucket is empty, with nothing taken.
/// Otherwise one unit is taken; a JSON request is left to be converted
/// (`None`), any other gets 200.
pub fn milk(state: &mut AppState, content_type: &str) -> (r: Option<Reply>)
    requires
        old(state).wf(),
    ensures
        final(state).wf(),
        final(state).game == old(state).game,
        final(state).bucket@ == consumed(old(state).bucket@),
        old(state).bucket@ == 0 ==> r is Some && r->0.status == 429 && r->0.body@ == "No milk available\n"@,
        old(state).bucket@ > 0 ==> if content_type@ == "application/json"@ {
            r is None
        } else {
            r is Some && r->0.status == 200 && r->0.body@ == "Milk withdrawn\n"@
        },
{
    if !state.bucket.try_consume() {
        return Some(Reply { status: 429, body: "No milk available\n".to_owned() });
    }
    if same_text(content_type, "application/json") {
        None
    } else {
        Some(Reply { status: 200, body: "Milk withdrawn\n".to_owned() })
    }
}

/// The unit a milk conversion request is written in.
#[derive(Clone, Copy, Debug, PartialEq, Eq, Structural)]
pub enum Unit {
    Liters,
    Litres,
    Gallons,
    Pints,
}

/// The unit a key names, if it names one.
pub open spec fn unit_of(key: Seq<char>) -> Option<Unit> {
    if key == "liters"@ {
        Some(Unit::Liters)
    } else if key == "litres"@ {
        Some(Unit::Litres)
    } else if key == "gallons"@ {
        Some(Unit::Gallons)
    } else if key == "pints"@ {
        Some(Unit::Pints)
    } else {
        None
    }
}

/// The unit of a conversion request, given the keys of its JSON object: a
/// request holds exactly one key, and that key names a unit.
pub fn request_unit(keys: &Vec<String>) -> (r: Option<Unit>)
    ensures
        keys@.len() != 1 ==> r is None,
        keys@.len() == 1 ==> r == unit_of(keys@[0]@),
{
    if keys.len() != 1 {
        return None;
    }
    let key = keys[0].as_str();
    if same_text(key, "liters") {
        Some(Unit::Liters)
    } else if same_text(key, "litres") {
        Some(Unit::Litres)
    } else if same_text(key, "gallons") {
        Some(Unit::Gallons)
    } else if same_text(key, "pints") {
        Some(Unit::Pints)
    } else {
        None
    }
}

} // verus!
