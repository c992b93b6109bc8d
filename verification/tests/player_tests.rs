use scrabble::gameserver::board::ScrabTile;
use scrabble::gameserver::server_player::ServerPlayer;
use scrabble::players::Player;

fn hand(letters: &str) -> ServerPlayer {
    let mut p = ServerPlayer::new();
    for (i, c) in letters.chars().enumerate() {
        p.fill_sack(ScrabTile::new(c, i as u16));
    }
    p
}

#[test]
fn new_server_player_lacks_a_full_hand() {
    let p = ServerPlayer::new();
    assert_eq!(p.how_many_tile(), 0);
    assert_eq!(p.lacking_tiles(), 7);
}

#[test]
fn fill_sack_adds_one_tile() {
    let mut p = ServerPlayer::new();
    p.fill_sack(ScrabTile::new('a', 1));
    assert_eq!(p.how_many_tile(), 1);
    assert_eq!(p.lacking_tiles(), 6);
    let p = hand("abcdefg");
    assert_eq!(p.how_many_tile(), 7);
    assert_eq!(p.lacking_tiles(), 0);
}

#[test]
fn find_tile_returns_the_first_tile_with_the_letter() {
    let mut p = hand("abcab");
    assert_eq!(p.find_tile('b'), Some(ScrabTile::new('b', 1)));
    // Only the tile taken leaves the hand.
    assert_eq!(p.how_many_tile(), 4);
    assert_eq!(p.find_tile('b'), Some(ScrabTile::new('b', 4)));
    assert_eq!(p.find_tile('a'), Some(ScrabTile::new('a', 0)));
    assert_eq!(p.find_tile('a'), Some(ScrabTile::new('a', 3)));
    assert_eq!(p.find_tile('c'), Some(ScrabTile::new('c', 2)));
    assert_eq!(p.how_many_tile(), 0);
}

#[test]
fn find_tile_keeps_the_tiles_around_the_one_taken() {
    let mut p = ServerPlayer::new();
    p.fill_sack(ScrabTile::new('a', 1));
    p.fill_sack(ScrabTile::new('b', 3));
    p.fill_sack(ScrabTile::new('c', 3));
    assert_eq!(p.find_tile('b'), Some(ScrabTile::new('b', 3)));
    assert_eq!(p.how_many_tile(), 2);
    assert_eq!(p.find_tile('a'), Some(ScrabTile::new('a', 1)));
    assert_eq!(p.find_tile('c'), Some(ScrabTile::new('c', 3)));
}

#[test]
fn find_tile_without_the_letter_leaves_the_hand() {
    let mut p = hand("abc");
    assert_eq!(p.find_tile('z'), None);
    assert_eq!(p.how_many_tile(), 3);
    let mut empty = ServerPlayer::new();
    assert_eq!(empty.find_tile('a'), None);
    assert_eq!(empty.how_many_tile(), 0);
}

#[test]
fn find_tile_of_the_last_tile_takes_that_tile_alone() {
    let mut p = hand("abc");
    assert_eq!(p.find_tile('c'), Some(ScrabTile::new('c', 2)));
    assert_eq!(p.how_many_tile(), 2);
    assert_eq!(p.lacking_tiles(), 5);
}

#[test]
fn player_new_builds_a_player() {
    let p = Player::new(3, ['a', 'b', 'c', 'd', 'e', 'f', 'g']);
    let q = p;
    let _ = q;
}
