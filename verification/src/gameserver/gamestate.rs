use vstd::prelude::*;

use super::board::{on_board, with_tile, Grid, SackTiles, ScrabTile};
use super::server_player::{ServerPlayer, MAX_SACK};
use crate::{Action, ClientEvent, Coordinate, PlayerNo, Response};

verus! {

/// What a board state holds, as values.
pub struct BoardModel {
    pub coord: Coordinate,
    pub turn: PlayerNo,
    pub event: Option<ClientEvent>,
    pub sack: Option<Seq<ScrabTile>>,
    pub grid: Option<Grid>,
    pub players: Seq<ServerPlayer>,
}

/// The state of a game on the server. Whoever starts the server is player 0.
#[derive(Debug, Clone)]
pub struct BoardState {
    current_coord: Coordinate,
    player_turn: PlayerNo,
    client_event: Option<ClientEvent>,
    scrab_sack: Option<SackTiles>,
    scrab_grid: Option<Grid>,
    players: Vec<ServerPlayer>,
}

impl View for BoardState {
    type V = BoardModel;

    closed spec fn view(&self) -> BoardModel {
        BoardModel {
            coord: self.current_coord,
            turn: self.player_turn,
            event: self.client_event,
            sack: match self.scrab_sack {
                Some(s) => Some(s@),
                None => None,
            },
            grid: self.scrab_grid,
            players: self.players@,
        }
    }
}

impl BoardModel {
    /// The cursor is on the board; the turn points at a player, or is 0 while
    /// there is none; the players can be numbered by a `PlayerNo`.
    pub open spec fn wf(self) -> bool {
        &&& on_board(self.coord)
        &&& self.players.len() <= u32::MAX
        &&& (self.players.len() == 0 ==> self.turn == 0)
        &&& (self.players.len() > 0 ==> self.turn < self.players.len())
    }

    /// The action of the last client event, `NONE` where there is none.
    pub open spec fn action(self) -> Action {
        match self.event {
            Some(e) => e.action,
            None => Action::NONE,
        }
    }
}

/// The turn that follows `turn` among `n` players: the next one, and after the
/// last one the first one again.
pub open spec fn next_turn(turn: PlayerNo, n: nat) -> PlayerNo {
    if turn + 1 == n {
        0
    } else {
        (turn + 1) as PlayerNo
    }
}

/// The tiles that a draw of `k` tiles from the back of `sack` hands out, in
/// the order in which they are drawn.
pub open spec fn drawn_tiles(sack: Seq<ScrabTile>, k: nat) -> Seq<ScrabTile> {
    sack.skip(sack.len() - k).reverse()
}

/// What is left of `sack` after a draw of `k` tiles from its back.
pub open spec fn left_after_draw(sack: Seq<ScrabTile>, k: nat) -> Seq<ScrabTile> {
    sack.take(sack.len() - k)
}

/// The turn after `k` passes, starting at `turn` among `n` players.
pub open spec fn turn_after(turn: PlayerNo, n: nat, k: nat) -> PlayerNo
    decreases k,
{
    if k == 0 {
        turn
    } else {
        next_turn(turn_after(turn, n, (k - 1) as nat), n)
    }
}

/// Passing the turn moves it on by one, round the table: from turn `t` among
/// `n` players, `k` passes lead to turn `(t + k) % n`.
pub proof fn lemma_turn_after(turn: PlayerNo, n: nat, k: nat)
    requires
        turn < n,
        n <= u32::MAX,
    ensures
        turn_after(turn, n, k) == (turn + k) % (n as int),
        turn_after(turn, n, k) < n,
    decreases k,
{
    if k == 0 {
        vstd::arithmetic::div_mod::lemma_small_mod(turn as nat, n);
    } else {
        let k1 = (k - 1) as nat;
        lemma_turn_after(turn, n, k1);
        let prev = turn_after(turn, n, k1);
        vstd::arithmetic::div_mod::lemma_add_mod_noop(turn + k1, 1, n as int);
        if n == 1 {
            assert((turn + k) % (n as int) == 0) by (nonlinear_arith)
                requires
                    n == 1,
            ;
        } else {
            vstd::arithmetic::div_mod::lemma_small_mod(1, n);
            if prev + 1 == n {
                vstd::arithmetic::div_mod::lemma_mod_self_0(n as int);
            } else {
                vstd::arithmetic::div_mod::lemma_small_mod((prev + 1) as nat, n);
            }
        }
    }
}

/// After as many passes as there are players, the turn is back where it was.
pub proof fn lemma_turns_come_round(turn: PlayerNo, n: nat)
    requires
        turn < n,
        n <= u32::MAX,
    ensures
        turn_after(turn, n, n) == turn,
{
    lemma_turn_after(turn, n, n);
    vstd::arithmetic::div_mod::lemma_mod_add_multiples_vanish(turn as int, n as int);
    vstd::arithmetic::div_mod::lemma_small_mod(turn as nat, n);
}

pub proof fn lemma_reverse_to_multiset(s: Seq<ScrabTile>)
    ensures
        s.reverse().to_multiset() == s.to_multiset(),
    decreases s.len(),
{
    broadcast use vstd::seq_lib::group_to_multiset_ensures;

    if s.len() > 0 {
        let d = s.drop_last();
        lemma_reverse_to_multiset(d);
        assert(s.reverse() =~= seq![s.last()] + d.reverse());
        assert(s =~= d + seq![s.last()]);
        vstd::seq_lib::lemma_multiset_commutative(seq![s.last()], d.reverse());
        vstd::seq_lib::lemma_multiset_commutative(d, seq![s.last()]);
        assert(s.reverse().to_multiset() =~= s.to_multiset());
    }
}

/// Drawing tiles loses none and makes none: what is left in the sack and what
/// the hand holds afterwards are, together, the tiles of the sack and the hand
/// before.
pub proof fn lemma_draw_keeps_tiles(sack: Seq<ScrabTile>, hand: Seq<ScrabTile>, k: nat)
    requires
        k <= sack.len(),
    ensures
        left_after_draw(sack, k).to_multiset().add((hand + drawn_tiles(sack, k)).to_multiset())
            == sack.to_multiset().add(hand.to_multiset()),
{
    let m = sack.len() - k;
    let left = sack.take(m);
    let tail = sack.skip(m);
    lemma_reverse_to_multiset(tail);
    vstd::seq_lib::lemma_multiset_commutative(hand, tail.reverse());
    vstd::seq_lib::lemma_multiset_commutative(left, tail);
    assert(left + tail =~= sack);
    assert(left.to_multiset().add(hand.to_multiset().add(tail.to_multiset())) =~= left.to_multiset().add(
        tail.to_multiset(),
    ).add(hand.to_multiset()));
}

/// A draw of `k` tiles hands out `k` tiles and leaves the rest: after a
/// fill, a hand of `h <= MAX_SACK` tiles holds `MAX_SACK` tiles.
pub proof fn lemma_draw_sizes(sack: Seq<ScrabTile>, hand: Seq<ScrabTile>, k: nat)
    requires
        k <= sack.len(),
    ensures
        drawn_tiles(sack, k).len() == k,
        left_after_draw(sack, k).len() == sack.len() - k,
        hand.len() <= MAX_SACK && k == MAX_SACK - hand.len() ==> (hand + drawn_tiles(sack, k)).len()
            == MAX_SACK,
{
}

impl BoardState {
    fn new() -> (b: Self)
        ensures
            b@.coord == (Coordinate { x: 0, y: 0 }),
            b@.turn == 0,
            b@.event is None,
            b@.sack is None,
            b@.grid is None,
            b@.players == Seq::<ServerPlayer>::empty(),
    {
        BoardState {
            current_coord: Coordinate::new(),
            player_turn: 0,
            client_event: None,
            scrab_sack: None,
            scrab_grid: None,
            players: Vec::new(),
        }
    }

    /// A board with the cursor at the top left, no sack, no grid and no
    /// players yet.
    pub fn initialize() -> (b: Box<BoardState>)
        ensures
            b@.coord == (Coordinate { x: 0, y: 0 }),
            b@.turn == 0,
            b@.event is None,
            b@.sack is None,
            b@.grid is None,
            b@.players == Seq::<ServerPlayer>::empty(),
            b@.wf(),
    {
        Box::new(BoardState::new())
    }

    pub fn get_current_coord(&self) -> (c: &Coordinate)
        ensures
            *c == self@.coord,
    {
        &self.current_coord
    }

    /// The number of tiles left in the sack, `None` before a sack is set.
    pub fn get_sack_len(&self) -> (n: Option<usize>)
        ensures
            n == match self@.sack {
                Some(s) => Some(s.len() as usize),
                None => None::<usize>,
            },
    {
        match &self.scrab_sack {
            Some(s) => Some(s.len()),
            None => None,
        }
    }

    pub fn set_scrab_sack(&mut self, sack: SackTiles)
        ensures
            final(self)@ == (BoardModel { sack: Some(sack@), ..old(self)@ }),
    {
        self.scrab_sack = Some(sack);
    }

    /// Writes the tile of the answer onto its square of the grid. Where
    /// there is no grid, no square on the board or no tile, the board stays
    /// as it is.
    pub fn update_scrab_grid(&mut self, resp: &Response)
        ensures
            ({
                let m = old(self)@;
                if m.grid is Some && resp.box_coordinate is Some && on_board(
                    resp.box_coordinate.unwrap(),
                ) && resp.write_char is Some {
                    final(self)@ == (BoardModel {
                        grid: Some(
                            with_tile(
                                m.grid.unwrap(),
                                resp.box_coordinate.unwrap(),
                                resp.write_char.unwrap(),
                            ),
                        ),
                        ..m
                    })
                } else {
                    final(self)@ == m
                }
            }),
    {
        if let (Some(c), Some(t)) = (resp.box_coordinate, resp.write_char) {
            if c.x < 15 && c.y < 15 {
                if let Some(g) = &mut self.scrab_grid {
                    let x = c.x as usize;
                    let y = c.y as usize;
                    let mut row = g[x];
                    row[y] = t;
                    g[x] = row;
                }
            }
        }
    }

    /// The grid, `None` before one is set.
    pub fn get_scrab_grid(&self) -> (g: &Option<Grid>)
        ensures
            *g == self@.grid,
    {
        &self.scrab_grid
    }

    /// Draws tiles from the back of the sack into `player`'s hand until the
    /// hand is full again.
    pub fn fill_sack(&mut self, player: &mut ServerPlayer)
        requires
            old(self)@.sack is Some,
            old(player)@.len() <= MAX_SACK,
            old(self)@.sack.unwrap().len() >= MAX_SACK - old(player)@.len(),
        ensures
            ({
                let s = old(self)@.sack.unwrap();
                let k = (MAX_SACK - old(player)@.len()) as nat;
                &&& final(self)@ == (BoardModel { sack: Some(left_after_draw(s, k)), ..old(self)@ })
                &&& final(player)@ == old(player)@ + drawn_tiles(s, k)
            }),
            final(player).score() == old(player).score(),
            final(player).words() == old(player).words(),
    {
        let ghost s = self@.sack.unwrap();
        let ghost p0 = player@;
        let ghost len = s.len();
        let lacking = player.lacking_tiles();
        let mut sack = self.scrab_sack.take().unwrap();
        assert(s.take(len as int) =~= s);
        assert(p0 + s.skip(len as int).reverse() =~= p0);
        for i in 0..lacking
            invariant
                lacking == MAX_SACK - p0.len(),
                len == s.len(),
                len >= lacking,
                sack@ == s.take(len - i),
                player@ == p0 + s.skip(len - i).reverse(),
                player.score() == old(player).score(),
                player.words() == old(player).words(),
        {
            let t = sack.pop().unwrap();
            assert(t == s[len - i - 1]);
            player.fill_sack(t);
            assert(sack@ =~= s.take(len - i - 1));
            assert(s.skip(len - i - 1).reverse() =~= s.skip(len - i).reverse().push(t));
            assert(player@ =~= p0 + s.skip(len - i - 1).reverse());
        }
        self.scrab_sack = Some(sack);
    }

    pub fn get_current_player(&self) -> (p: &ServerPlayer)
        requires
            self@.turn < self@.players.len(),
        ensures
            *p == self@.players[self@.turn as int],
    {
        &self.players[self.player_turn as usize]
    }

    pub fn get_current_player_mut(&mut self) -> (p: &mut ServerPlayer)
        requires
            old(self)@.turn < old(self)@.players.len(),
        ensures
            *p == old(self)@.players[old(self)@.turn as int],
            final(self)@ == (BoardModel {
                players: old(self)@.players.update(old(self)@.turn as int, *final(p)),
                ..old(self)@
            }),
    {
        let i = self.player_turn as usize;
        &mut self.players[i]
    }

    /// The number of seated players.
    pub fn get_total_players(&self) -> (n: usize)
        ensures
            n == self@.players.len(),
    {
        self.players.len()
    }

    /// Hands a new player a full hand from the sack and seats it after the
    /// others.
    pub fn add_player(&mut self, player: ServerPlayer)
        requires
            old(self)@.wf(),
            old(self)@.players.len() < u32::MAX,
            old(self)@.sack is Some,
            old(self)@.sack.unwrap().len() >= MAX_SACK,
            player@.len() == 0,
        ensures
            final(self)@.wf(),
            ({
                let s = old(self)@.sack.unwrap();
                let n = old(self)@.players.len();
                &&& final(self)@.players.len() == n + 1
                &&& final(self)@.players.take(n as int) == old(self)@.players
                &&& final(self)@.players[n as int]@ == drawn_tiles(s, MAX_SACK as nat)
                &&& final(self)@.players[n as int].score() == player.score()
                &&& final(self)@.players[n as int].words() == player.words()
                &&& final(self)@ == (BoardModel {
                    sack: Some(left_after_draw(s, MAX_SACK as nat)),
                    players: final(self)@.players,
                    ..old(self)@
                })
            }),
    {
        let mut player = player;
        self.fill_sack(&mut player);
        self.players.push(player);
        assert(self@.players.take(self@.players.len() - 1) =~= old(self)@.players);
    }

    pub fn get_current_coord_mut(&mut self) -> (c: &mut Coordinate)
        ensures
            *c == old(self)@.coord,
            final(self)@ == (BoardModel { coord: *final(c), ..old(self)@ }),
    {
        &mut self.current_coord
    }

    pub fn set_client_event(&mut self, c_event: Option<ClientEvent>)
        ensures
            final(self)@ == (BoardModel { event: c_event, ..old(self)@ }),
    {
        self.client_event = c_event;
    }

    pub fn get_client_event(&self) -> (e: Option<ClientEvent>)
        ensures
            e == self@.event,
    {
        self.client_event
    }

    pub fn set_scrab_grid(&mut self, grid: Grid)
        ensures
            final(self)@ == (BoardModel { grid: Some(grid), ..old(self)@ }),
    {
        self.scrab_grid = Some(grid);
    }

    pub fn get_current_turn(&self) -> (t: PlayerNo)
        ensures
            t == self@.turn,
    {
        self.player_turn
    }

    /// Passes the turn to the next player, and from the last one back to
    /// player 0.
    pub fn set_next_turn(&mut self)
        requires
            old(self)@.wf(),
            old(self)@.players.len() > 0,
        ensures
            final(self)@.wf(),
            final(self)@ == (BoardModel {
                turn: next_turn(old(self)@.turn, old(self)@.players.len()),
                ..old(self)@
            }),
    {
        let total_players = self.get_total_players();
        if self.player_turn == (total_players - 1) as u32 {
            self.player_turn = 0;
        } else {
            self.player_turn = self.player_turn + 1;
        }
    }

    /// The action of the last client event, `NONE` where there is none.
    pub fn get_action(&self) -> (a: Action)
        ensures
            a == self@.action(),
    {
        match &self.client_event {
            Some(c_event) => c_event.action,
            None => Action::NONE,
        }
    }
}

} // verus!
