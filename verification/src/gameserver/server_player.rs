use vstd::prelude::*;

use super::board::ScrabTile;

verus! {

/// The number of tiles a player holds after a fill.
pub const MAX_SACK: u16 = 7;

/// A player as the server keeps it: the tiles in hand, front first.
#[derive(Clone, Debug)]
pub struct ServerPlayer {
    score: u32,
    player_sack: Vec<ScrabTile>,
    words: Vec<String>,
}

/// There is a tile with letter `ch` in `s`, and `i` is the first one.
pub open spec fn first_with_letter(s: Seq<ScrabTile>, ch: char, i: int) -> bool {
    &&& 0 <= i < s.len()
    &&& s[i].letter == ch
    &&& forall|j: int| 0 <= j < i ==> s[j].letter != ch
}

pub open spec fn holds_letter(s: Seq<ScrabTile>, ch: char) -> bool {
    exists|i: int| 0 <= i < s.len() && s[i].letter == ch
}

/// A hand that holds a letter has a first tile with that letter.
pub proof fn lemma_first_with_letter(s: Seq<ScrabTile>, ch: char)
    requires
        holds_letter(s, ch),
    ensures
        exists|i: int| first_with_letter(s, ch, i),
    decreases s.len(),
{
    let d = s.drop_last();
    assert forall|j: int| 0 <= j < d.len() implies #[trigger] d[j] == s[j] by {}
    if holds_letter(d, ch) {
        lemma_first_with_letter(d, ch);
        let i = choose|i: int| first_with_letter(d, ch, i);
        assert forall|j: int| 0 <= j < i implies s[j].letter != ch by {
            assert(d[j] == s[j]);
        }
        assert(d[i] == s[i]);
        assert(first_with_letter(s, ch, i));
    } else {
        let k = choose|k: int| 0 <= k < s.len() && s[k].letter == ch;
        if k < s.len() - 1 {
            assert(d[k] == s[k]);
        }
        assert forall|j: int| 0 <= j < s.len() - 1 implies s[j].letter != ch by {
            assert(d[j] == s[j]);
        }
        assert(first_with_letter(s, ch, s.len() - 1));
    }
}

impl View for ServerPlayer {
    type V = Seq<ScrabTile>;

    /// The tiles in the player's hand, front first.
    closed spec fn view(&self) -> Seq<ScrabTile> {
        self.player_sack@
    }
}

impl ServerPlayer {
    pub closed spec fn score(&self) -> u32 {
        self.score
    }

    pub closed spec fn words(&self) -> Seq<String> {
        self.words@
    }

    /// `after` is `before` once `find_tile(ch)` has returned `t`: the first
    /// tile with letter `ch` is taken out of the hand, the others stay in order.
    pub open spec fn took_tile(before: Self, after: Self, ch: char, t: Option<ScrabTile>) -> bool {
        &&& after.score() == before.score()
        &&& after.words() == before.words()
        &&& holds_letter(before@, ch) <==> t is Some
        &&& !holds_letter(before@, ch) ==> after == before
        &&& forall|i: int|
            first_with_letter(before@, ch, i) ==> t == Some(before@[i]) && after@ == before@.remove(i)
    }

    /// The tile `find_tile` hands out has the letter asked for, and it is the
    /// one tile the hand loses: no tile is lost or made.
    pub proof fn lemma_took_tile(before: Self, after: Self, ch: char, t: Option<ScrabTile>)
        requires
            Self::took_tile(before, after, ch, t),
        ensures
            t matches Some(x) ==> {
                &&& x.letter == ch
                &&& after@.len() == before@.len() - 1
                &&& before@.to_multiset() == after@.to_multiset().insert(x)
            },
            t is None ==> after@ == before@,
    {
        broadcast use vstd::seq_lib::group_to_multiset_ensures;

        if t is Some {
            lemma_first_with_letter(before@, ch);
            let i = choose|i: int| first_with_letter(before@, ch, i);
            let x = t.unwrap();
            assert(after@ == before@.remove(i));
            let l = before@.take(i);
            let r = before@.skip(i + 1);
            assert(before@.remove(i) =~= l + r);
            assert(before@ =~= l + (seq![x] + r));
            vstd::seq_lib::lemma_multiset_commutative(l, r);
            vstd::seq_lib::lemma_multiset_commutative(l, seq![x] + r);
            vstd::seq_lib::lemma_multiset_commutative(seq![x], r);
            assert(before@.to_multiset() =~= after@.to_multiset().insert(x));
        }
    }

    /// The tiles a player holds and the tiles it lacks make a full hand.
    pub proof fn lemma_hand_size(p: Self)
        requires
            p@.len() <= MAX_SACK,
        ensures
            (MAX_SACK - p@.len()) + p@.len() == MAX_SACK,
    {
    }

    pub fn new() -> (p: Self)
        ensures
            p@ == Seq::<ScrabTile>::empty(),
            p.score() == 0,
            p.words() == Seq::<String>::empty(),
    {
        ServerPlayer { score: 0, player_sack: Vec::new(), words: Vec::new() }
    }

    /// How many tiles the player needs to hold a full hand again.
    pub fn lacking_tiles(&self) -> (n: u16)
        requires
            self@.len() <= MAX_SACK,
        ensures
            n == MAX_SACK - self@.len(),
    {
        MAX_SACK - (self.player_sack.len() as u16)
    }

    /// Looks for the first tile with letter `ch`. Where there is one, it is
    /// taken out of the hand and returned.
    pub fn find_tile(&mut self, ch: char) -> (t: Option<ScrabTile>)
        ensures
            Self::took_tile(*old(self), *final(self), ch, t),
    {
        let mut i: usize = 0;
        while i < self.player_sack.len()
            invariant
                i <= self.player_sack@.len(),
                self == old(self),
                forall|j: int| 0 <= j < i ==> self.player_sack@[j].letter != ch,
            decreases self.player_sack@.len() - i,
        {
            if self.player_sack[i].letter == ch {
                let tile = self.player_sack.remove(i);
                return Some(tile);
            }
            i = i + 1;
        }
        None
    }

    /// Puts a tile at the back of the hand.
    pub fn fill_sack(&mut self, tile: ScrabTile)
        ensures
            final(self)@ == old(self)@.push(tile),
            final(self).score() == old(self).score(),
            final(self).words() == old(self).words(),
    {
        self.player_sack.push(tile);
    }

    /// The number of tiles in the hand.
    pub fn how_many_tile(&self) -> (n: usize)
        ensures
            n == self@.len(),
    {
        self.player_sack.len()
    }
}

} // verus!
