use vstd::prelude::*;

use super::board::{is_empty_square, on_board, Grids};
use super::gamestate::{lemma_turn_after, next_turn, turn_after, BoardModel, BoardState};
use super::server_player::{holds_letter, ServerPlayer};
use crate::{Action, ClientEvent, Coordinate, Response, MOVEMENT};

verus! {

/// What the server does after a client event: answer, or shut down.
#[derive(Debug, Clone, Copy, PartialEq, Eq)]
pub enum Outcome {
    Reply(Response),
    Quit,
}

/// The cursor moved one square, staying on the 15 by 15 board.
pub open spec fn moved(c: Coordinate, mov: MOVEMENT) -> Coordinate {
    match mov {
        MOVEMENT::UP => if c.y > 0 { Coordinate { y: (c.y - 1) as u32, ..c } } else { c },
        MOVEMENT::DOWN => if c.y < 14 { Coordinate { y: (c.y + 1) as u32, ..c } } else { c },
        MOVEMENT::RIGHT => if c.x < 14 { Coordinate { x: (c.x + 1) as u32, ..c } } else { c },
        MOVEMENT::LEFT => if c.x > 0 { Coordinate { x: (c.x - 1) as u32, ..c } } else { c },
    }
}

/// The move in the other direction.
pub open spec fn opposite(mov: MOVEMENT) -> MOVEMENT {
    match mov {
        MOVEMENT::UP => MOVEMENT::DOWN,
        MOVEMENT::DOWN => MOVEMENT::UP,
        MOVEMENT::RIGHT => MOVEMENT::LEFT,
        MOVEMENT::LEFT => MOVEMENT::RIGHT,
    }
}

/// The cursor never leaves the board: a move from a square of the board ends
/// on a square of the board.
pub proof fn lemma_moves_stay_on_board(c: Coordinate, mov: MOVEMENT)
    requires
        on_board(c),
    ensures
        on_board(moved(c, mov)),
{
}

/// A move that the edge of the board did not stop is undone by the move in
/// the other direction.
pub proof fn lemma_move_back(c: Coordinate, mov: MOVEMENT)
    requires
        on_board(c),
        moved(c, mov) != c,
    ensures
        moved(moved(c, mov), opposite(mov)) == c,
{
}

/// The answer to a move of the cursor to `c`.
pub open spec fn movement_response(c: Coordinate) -> Response {
    Response { player_turn: 0, box_coordinate: Some(c), write_char: None, win_score: None }
}

/// The answer to an event that asks for nothing.
pub open spec fn idle_response() -> Response {
    Response { player_turn: 0, box_coordinate: None, write_char: None, win_score: None }
}

/// The event can only be handled while some player is seated.
pub open spec fn needs_player(a: Action) -> bool {
    a is WRITE || a is END
}

/// A tile can be written on the current square: there is a grid and the
/// square is empty.
pub open spec fn square_free(m: BoardModel) -> bool {
    m.grid matches Some(g) && is_empty_square(g, m.coord)
}

/// `after` and `r` are what writing `ch` makes of `before`: where the current
/// square is free, the player in turn gives up its first tile with that
/// letter; the answer names the square, the turn and the tile, or no tile
/// where the square is taken or the player holds no such tile.
pub open spec fn wrote(before: BoardModel, after: BoardModel, ch: char, r: Response) -> bool {
    let t = before.turn as int;
    &&& after == (BoardModel { players: after.players, ..before })
    &&& after.players.len() == before.players.len()
    &&& forall|j: int| 0 <= j < before.players.len() && j != t ==> after.players[j] == before.players[j]
    &&& if square_free(before) {
        ServerPlayer::took_tile(before.players[t], after.players[t], ch, r.write_char)
    } else {
        after.players[t] == before.players[t] && r.write_char is None
    }
    &&& r.player_turn == before.turn
    &&& r.box_coordinate == Some(before.coord)
    &&& r.win_score is None
}

/// `after` and `r` are what ending the round makes of `before`.
pub open spec fn ended_round(before: BoardModel, after: BoardModel, r: Response) -> bool {
    &&& after == (BoardModel { turn: next_turn(before.turn, before.players.len()), ..before })
    &&& r == (Response {
        box_coordinate: Some(before.coord),
        player_turn: after.turn,
        write_char: None,
        win_score: Some(0),
    })
}

/// `after` and `out` are what handling the stored event makes of `before`.
pub open spec fn handled(before: BoardModel, after: BoardModel, out: Outcome) -> bool {
    match before.action() {
        Action::DIRECTION(mov) => {
            let c = moved(before.coord, mov);
            &&& after == (BoardModel { coord: c, ..before })
            &&& out == Outcome::Reply(movement_response(c))
        },
        Action::QUIT => after == before && out == Outcome::Quit,
        Action::WRITE(ch) => out matches Outcome::Reply(r) && wrote(before, after, ch, r),
        Action::END => out matches Outcome::Reply(r) && ended_round(before, after, r),
        _ => after == before && out == Outcome::Reply(idle_response()),
    }
}

/// The model once `event` has been received: an event that asks for nothing
/// leaves the stored event as it was.
pub open spec fn with_event(m: BoardModel, event: ClientEvent) -> BoardModel {
    if event.action == Action::NONE {
        m
    } else {
        BoardModel { event: Some(event), ..m }
    }
}

/// Passing the turn moves it on by one, round the table: from turn `t` of
/// `n` players to `(t + 1) % n`.
pub proof fn lemma_next_turn(t: u32, n: nat)
    requires
        t < n,
        n <= u32::MAX,
    ensures
        next_turn(t, n) == (t + 1) % (n as int),
{
    lemma_turn_after(t, n, 1);
    assert(turn_after(t, n, 1) == next_turn(turn_after(t, n, 0), n));
}

/// Ending the round hands the turn to the next player round the table, and
/// the answer names that player, on the square of the cursor, with no tile
/// and a score of 0; nothing but the turn changes.
pub proof fn lemma_end_round(before: BoardModel, after: BoardModel, r: Response)
    requires
        before.wf(),
        before.players.len() > 0,
        ended_round(before, after, r),
    ensures
        after.turn == (before.turn + 1) % (before.players.len() as int),
        after.turn < before.players.len(),
        after.coord == before.coord && after.players == before.players && after.sack == before.sack
            && after.grid == before.grid && after.event == before.event,
        r.player_turn == after.turn,
        r.box_coordinate == Some(before.coord),
        r.write_char is None,
        r.win_score == Some(0u32),
{
    lemma_next_turn(before.turn, before.players.len());
    lemma_turn_after(before.turn, before.players.len(), 1);
}

/// A write hands out a tile exactly when the square under the cursor holds
/// no tile and the player in turn holds the letter; the tile then has that
/// letter, and the player's hand loses that tile alone.
pub proof fn lemma_write_needs_free_square(before: BoardModel, after: BoardModel, ch: char, r: Response)
    requires
        before.wf(),
        before.players.len() > 0,
        wrote(before, after, ch, r),
    ensures
        r.write_char is Some <==> {
            &&& before.grid is Some
            &&& before.grid.unwrap()@[before.coord.x as int]@[before.coord.y as int].letter == ' '
            &&& holds_letter(before.players[before.turn as int]@, ch)
        },
        r.write_char matches Some(x) ==> {
            &&& x.letter == ch
            &&& after.players[before.turn as int]@.len() == before.players[before.turn as int]@.len() - 1
        },
        r.write_char is None ==> after == before,
        r.box_coordinate == Some(before.coord),
        r.player_turn == before.turn,
{
    let t = before.turn as int;
    if square_free(before) {
        ServerPlayer::lemma_took_tile(before.players[t], after.players[t], ch, r.write_char);
    }
    if r.write_char is None {
        assert(after.players =~= before.players);
    }
}

/// An event that asks for something becomes the stored event and is the one
/// carried out, whatever was stored before; an event of nothing leaves the
/// stored one.
pub proof fn lemma_new_event_is_carried_out(m: BoardModel, event: ClientEvent)
    ensures
        event.action != Action::NONE ==> with_event(m, event).event == Some(event)
            && with_event(m, event).action() == event.action && with_event(m, event) == (BoardModel {
            event: Some(event),
            ..m
        }),
        event.action == Action::NONE ==> with_event(m, event) == m,
{
}

/// Moves the cursor one square, not past the edge of the board.
pub fn handle_movement(mov: MOVEMENT, cur_coords: &mut Coordinate) -> (r: Response)
    ensures
        *final(cur_coords) == moved(*old(cur_coords), mov),
        r == movement_response(*final(cur_coords)),
{
    match mov {
        MOVEMENT::UP => {
            if cur_coords.y > 0 {
                cur_coords.y = cur_coords.y - 1;
            }
        },
        MOVEMENT::DOWN => {
            if cur_coords.y < 14 {
                cur_coords.y = cur_coords.y + 1;
            }
        },
        MOVEMENT::RIGHT => {
            if cur_coords.x < 14 {
                cur_coords.x = cur_coords.x + 1;
            }
        },
        MOVEMENT::LEFT => {
            if cur_coords.x > 0 {
                cur_coords.x = cur_coords.x - 1;
            }
        },
    }
    Response { player_turn: 0, box_coordinate: Some(*cur_coords), write_char: None, win_score: None }
}

/// Where the current square is empty, takes the tile with letter `ch` from
/// the player in turn, where it holds one, and tells the client which tile
/// goes on that square.
pub fn handle_write(board_state: &mut BoardState, ch: char) -> (r: Response)
    requires
        old(board_state)@.wf(),
        old(board_state)@.players.len() > 0,
    ensures
        final(board_state)@.wf(),
        wrote(old(board_state)@, final(board_state)@, ch, r),
        r.write_char is Some <==> ({
            let m = old(board_state)@;
            &&& m.grid is Some
            &&& m.grid.unwrap()@[m.coord.x as int]@[m.coord.y as int].letter == ' '
            &&& holds_letter(m.players[m.turn as int]@, ch)
        }),
{
    let c = *board_state.get_current_coord();
    let turn = board_state.get_current_turn();
    let empty = match board_state.get_scrab_grid() {
        Some(g) => g.if_empty(&c),
        None => false,
    };
    let t = if empty {
        board_state.get_current_player_mut().find_tile(ch)
    } else {
        None
    };
    Response { player_turn: turn, box_coordinate: Some(c), write_char: t, win_score: None }
}

/// Passes the turn on and tells the client whose turn it is.
pub fn handle_turns(board_state: &mut BoardState) -> (r: Response)
    requires
        old(board_state)@.wf(),
        old(board_state)@.players.len() > 0,
    ensures
        final(board_state)@.wf(),
        ended_round(old(board_state)@, final(board_state)@, r),
        final(board_state)@.turn == (old(board_state)@.turn + 1) % (old(board_state)@.players.len() as int),
        r.player_turn == final(board_state)@.turn,
{
    proof {
        lemma_next_turn(old(board_state)@.turn, old(board_state)@.players.len());
    }
    board_state.set_next_turn();
    Response {
        box_coordinate: Some(*board_state.get_current_coord()),
        player_turn: board_state.get_current_turn(),
        write_char: None,
        win_score: Some(0),
    }
}

/// Carries out the stored client event.
pub fn request_handler(board_state: &mut BoardState) -> (out: Outcome)
    requires
        old(board_state)@.wf(),
        needs_player(old(board_state)@.action()) ==> old(board_state)@.players.len() > 0,
    ensures
        final(board_state)@.wf(),
        handled(old(board_state)@, final(board_state)@, out),
{
    match board_state.get_action() {
        Action::DIRECTION(mov) => Outcome::Reply(
            handle_movement(mov, board_state.get_current_coord_mut()),
        ),
        Action::QUIT => Outcome::Quit,
        Action::WRITE(ch) => Outcome::Reply(handle_write(board_state, ch)),
        Action::END => Outcome::Reply(handle_turns(board_state)),
        _ => Outcome::Reply(
            Response { player_turn: 0, box_coordinate: None, write_char: None, win_score: None },
        ),
    }
}

/// Takes in an event that a client sent, then carries out the stored event.
pub fn handle_client_event(board_state: &mut BoardState, c_event: ClientEvent) -> (out: Outcome)
    requires
        old(board_state)@.wf(),
        needs_player(with_event(old(board_state)@, c_event).action()) ==> old(
            board_state,
        )@.players.len() > 0,
    ensures
        final(board_state)@.wf(),
        handled(with_event(old(board_state)@, c_event), final(board_state)@, out),
        c_event.action != Action::NONE ==> handled(
            BoardModel { event: Some(c_event), ..old(board_state)@ },
            final(board_state)@,
            out,
        ),
        c_event.action == Action::NONE ==> handled(old(board_state)@, final(board_state)@, out),
{
    if c_event != ClientEvent::default() {
        board_state.set_client_event(Some(c_event));
    }
    request_handler(board_state)
}

} // verus!
