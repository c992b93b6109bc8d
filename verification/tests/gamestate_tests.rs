use scrabble::gameserver::board::{Grid, Grids, Sack, SackTiles, ScrabTile};
use scrabble::gameserver::gamestate::BoardState;
use scrabble::gameserver::server_player::ServerPlayer;
use scrabble::{Action, ClientEvent, Coordinate, MOVEMENT, Response};

fn letters_sack(letters: &str) -> SackTiles {
    letters.chars().map(|c| ScrabTile::new(c, 1)).collect()
}

#[test]
fn initialize_starts_at_the_top_left_with_player_zero() {
    let board = BoardState::initialize();
    assert_eq!(*board.get_current_coord(), Coordinate { x: 0, y: 0 });
    assert_eq!(board.get_current_turn(), 0);
    assert_eq!(board.get_client_event(), None);
    assert_eq!(board.get_action(), Action::NONE);
}

#[test]
fn add_player_draws_seven_tiles_from_the_back() {
    let mut board = BoardState::initialize();
    board.set_scrab_sack(letters_sack("abcdefghij"));
    board.add_player(ServerPlayer::new());
    let p = board.get_current_player();
    assert_eq!(p.how_many_tile(), 7);
    assert_eq!(p.lacking_tiles(), 0);
    let mut p = p.clone();
    // drawn last first: j i h g f e d
    for c in ['d', 'j', 'e', 'i', 'f', 'h', 'g'] {
        assert_eq!(p.find_tile(c), Some(ScrabTile::new(c, 1)));
    }
    assert_eq!(p.how_many_tile(), 0);
    assert_eq!(p.find_tile('a'), None);
    // a, b, c are left in the sack.
    let mut q = ServerPlayer::new();
    for c in ['w', 'x', 'y', 'z'] {
        q.fill_sack(ScrabTile::new(c, 9));
    }
    board.fill_sack(&mut q);
    assert_eq!(q.how_many_tile(), 7);
    // q holds w x y z c b a
    assert_eq!(q.find_tile('a'), Some(ScrabTile::new('a', 1)));
    assert_eq!(q.how_many_tile(), 6);
    assert_eq!(q.find_tile('c'), Some(ScrabTile::new('c', 1)));
    assert_eq!(q.how_many_tile(), 5);
    assert_eq!(q.find_tile('b'), Some(ScrabTile::new('b', 1)));
    assert_eq!(q.find_tile('w'), Some(ScrabTile::new('w', 9)));
    assert_eq!(q.how_many_tile(), 3);
}

#[test]
fn fill_sack_tops_a_hand_up() {
    let mut board = BoardState::initialize();
    let mut sack: SackTiles = Sack::new_sack();
    sack.truncate(20);
    board.set_scrab_sack(sack);
    let mut p = ServerPlayer::new();
    p.fill_sack(ScrabTile::new('q', 10));
    p.fill_sack(ScrabTile::new('z', 10));
    board.fill_sack(&mut p);
    assert_eq!(p.how_many_tile(), 7);
    // tiles 15..19 of the sack are 'a' tiles (after 12 'e's).
    assert_eq!(p.find_tile('a'), Some(ScrabTile::new('a', 1)));
    assert_eq!(p.how_many_tile(), 6);
    assert_eq!(p.find_tile('q'), Some(ScrabTile::new('q', 10)));
    assert_eq!(p.how_many_tile(), 5);
}

#[test]
fn turns_go_round_the_table() {
    let mut board = BoardState::initialize();
    board.set_scrab_sack(Sack::new_sack());
    for _ in 0..3 {
        board.add_player(ServerPlayer::new());
    }
    assert_eq!(board.get_current_turn(), 0);
    board.set_next_turn();
    assert_eq!(board.get_current_turn(), 1);
    board.set_next_turn();
    assert_eq!(board.get_current_turn(), 2);
    board.set_next_turn();
    assert_eq!(board.get_current_turn(), 0);
}

#[test]
fn a_single_player_keeps_the_turn() {
    let mut board = BoardState::initialize();
    board.set_scrab_sack(Sack::new_sack());
    board.add_player(ServerPlayer::new());
    board.set_next_turn();
    assert_eq!(board.get_current_turn(), 0);
}

#[test]
fn client_event_is_stored_and_read_back() {
    let mut board = BoardState::initialize();
    let e = ClientEvent { action: Action::DIRECTION(MOVEMENT::LEFT) };
    board.set_client_event(Some(e));
    assert_eq!(board.get_client_event(), Some(e));
    assert_eq!(board.get_action(), Action::DIRECTION(MOVEMENT::LEFT));
    board.set_client_event(None);
    assert_eq!(board.get_action(), Action::NONE);
}

#[test]
fn current_coord_can_be_moved_in_place() {
    let mut board = BoardState::initialize();
    {
        let c = board.get_current_coord_mut();
        c.x = 7;
        c.y = 9;
    }
    assert_eq!(*board.get_current_coord(), Coordinate { x: 7, y: 9 });
}

#[test]
fn grid_and_response_updates_keep_the_board() {
    let mut board = BoardState::initialize();
    let grid: Box<Grid> = Grids::new();
    board.set_scrab_grid(*grid);
    let resp = Response {
        box_coordinate: None,
        player_turn: 0,
        write_char: None,
        win_score: None,
    };
    board.update_scrab_grid(&resp);
    assert_eq!(*board.get_current_coord(), Coordinate { x: 0, y: 0 });
    assert_eq!(board.get_current_turn(), 0);
    assert_eq!(*board.get_scrab_grid(), Some(*grid));
}

#[test]
fn update_scrab_grid_writes_the_tile_of_the_answer() {
    let mut board = BoardState::initialize();
    let resp = Response {
        box_coordinate: Some(Coordinate { x: 2, y: 5 }),
        player_turn: 0,
        write_char: Some(ScrabTile::new('k', 5)),
        win_score: None,
    };
    // no grid yet: nothing to write on
    board.update_scrab_grid(&resp);
    assert_eq!(*board.get_scrab_grid(), None);
    let grid: Box<Grid> = Grids::new();
    board.set_scrab_grid(*grid);
    board.update_scrab_grid(&resp);
    let g = board.get_scrab_grid().unwrap();
    assert_eq!(g[2][5], ScrabTile::new('k', 5));
    assert!(!g.if_empty(&Coordinate { x: 2, y: 5 }));
    assert!(g.if_empty(&Coordinate { x: 5, y: 2 }));
    // an answer off the board or without a tile changes nothing
    let off = Response { box_coordinate: Some(Coordinate { x: 15, y: 0 }), ..resp };
    board.update_scrab_grid(&off);
    let none = Response { box_coordinate: Some(Coordinate { x: 0, y: 0 }), write_char: None, ..resp };
    board.update_scrab_grid(&none);
    assert_eq!(*board.get_scrab_grid(), Some(g));
}
