use vstd::prelude::*;
use vstd::string::StringExecFns;

use crate::card::Card;
use crate::deck::{Deck, standard_deck};
use crate::text::{decimal_digits, u32_to_decimal};

verus! {

/// One of the two participants: a display name and the count of rounds
/// won so far. The counter starts at zero and only ever grows, once per
/// round the player wins.
pub struct Player {
    pub name: String,
    pub wins: u32,
}

impl Player {
    pub fn new(name: &str) -> (p: Player)
        ensures
            p.name@ == name@,
            p.wins == 0,
    {
        Player { name: String::from_str(name), wins: 0 }
    }
}

/// Which player takes a round.
#[derive(Debug, PartialEq, Eq, Structural, Clone, Copy)]
pub enum RoundWinner {
    Player1,
    Player2,
}

/// Round resolution as a pure function of the two drawn ranks: a
/// strictly higher first rank takes the round, anything else — including
/// a tied rank — counts for the second player. The tie rule is
/// deliberate: there is no escalation ("war") on equal ranks here.
pub open spec fn resolve_spec(rank1: u8, rank2: u8) -> RoundWinner {
    if rank1 > rank2 {
        RoundWinner::Player1
    } else {
        RoundWinner::Player2
    }
}

/// Decides a round from the two drawn ranks; see `resolve_spec`.
pub fn resolve(rank1: u8, rank2: u8) -> (w: RoundWinner)
    ensures
        w == resolve_spec(rank1, rank2),
        w == RoundWinner::Player1 <==> rank1 > rank2,
        w == RoundWinner::Player2 <==> rank1 <= rank2,
        rank1 == rank2 ==> w == RoundWinner::Player2,
{
    if rank1 > rank2 {
        RoundWinner::Player1
    } else {
        RoundWinner::Player2
    }
}

/// How many rounds the given player takes when a deck holding the cards
/// `s` is played to the end: each round draws the last card for the
/// first player, then the new last card for the second, until fewer than
/// two cards remain.
pub open spec fn rounds_won(s: Seq<Card>, w: RoundWinner) -> nat
    decreases s.len(),
{
    if s.len() < 2 {
        0
    } else {
        (if resolve_spec(s.last().rank, s[s.len() - 2].rank) == w {
            1nat
        } else {
            0nat
        }) + rounds_won(s.drop_last().drop_last(), w)
    }
}

/// A full game round count: however the ranks fall, every pair of drawn
/// cards goes to exactly one of the two players, so the two tallies
/// together count one round per two cards.
pub proof fn lemma_rounds_won_total(s: Seq<Card>)
    ensures
        rounds_won(s, RoundWinner::Player1) + rounds_won(s, RoundWinner::Player2) == s.len()
            as int / 2,
    decreases s.len(),
{
    if s.len() >= 2 {
        lemma_rounds_won_total(s.drop_last().drop_last());
    }
}

/// One game: a deck owned exclusively by the game and the two players'
/// records. Rounds are played until the deck has fewer than two cards;
/// the winner report may be read at any point and speaks of the tallies
/// so far.
pub struct Game {
    pub deck: Deck,
    pub player1: Player,
    pub player2: Player,
}

/// The report `winner` gives when one player is strictly ahead.
pub open spec fn win_line(name: Seq<char>, wins: nat) -> Seq<char> {
    name + " wins with "@ + decimal_digits(wins) + " wins"@
}

/// The report `winner` gives when the tallies are equal.
pub open spec fn tie_line(wins: nat) -> Seq<char> {
    "It was a tie! Both players had "@ + decimal_digits(wins) + " wins"@
}

/// The text `winner` returns for the given two player records.
pub open spec fn winner_line(p1: Player, p2: Player) -> Seq<char> {
    if p1.wins > p2.wins {
        win_line(p1.name@, p1.wins as nat)
    } else if p1.wins < p2.wins {
        win_line(p2.name@, p2.wins as nat)
    } else {
        tie_line(p1.wins as nat)
    }
}

impl Game {
    /// A fresh game: a full shuffled deck and two players with the given
    /// names and no wins yet.
    pub fn new(name1: &str, name2: &str) -> (g: Game)
        ensures
            g.deck.cards@.to_multiset() == standard_deck().to_multiset(),
            g.player1.name@ == name1@,
            g.player1.wins == 0,
            g.player2.name@ == name2@,
            g.player2.wins == 0,
    {
        let deck = Deck::new();
        let player1 = Player::new(name1);
        let player2 = Player::new(name2);
        Game { deck, player1, player2 }
    }

    /// One round: the first player draws the top card, then the second
    /// player draws the next; the winner per `resolve` has their counter
    /// incremented and both cards are discarded. Returns the two drawn
    /// cards (first player's first) and the round's winner.
    pub fn play_round(&mut self) -> (res: (Card, Card, RoundWinner))
        requires
            old(self).deck.cards@.len() >= 2,
            old(self).player1.wins < u32::MAX,
            old(self).player2.wins < u32::MAX,
        ensures
            res.0 == old(self).deck.cards@.last(),
            res.1 == old(self).deck.cards@[old(self).deck.cards@.len() - 2],
            res.2 == resolve_spec(res.0.rank, res.1.rank),
            final(self).deck.cards@ == old(self).deck.cards@.drop_last().drop_last(),
            res.2 == RoundWinner::Player1 ==> final(self).player1.wins == old(
                self,
            ).player1.wins + 1 && final(self).player2.wins == old(self).player2.wins,
            res.2 == RoundWinner::Player2 ==> final(self).player2.wins == old(
                self,
            ).player2.wins + 1 && final(self).player1.wins == old(self).player1.wins,
            final(self).player1.name == old(self).player1.name,
            final(self).player2.name == old(self).player2.name,
    {
        let card1 = self.deck.remove_card().unwrap();
        let card2 = self.deck.remove_card().unwrap();
        let w = resolve(card1.rank, card2.rank);
        match w {
            RoundWinner::Player1 => {
                self.player1.wins = self.player1.wins + 1;
            },
            RoundWinner::Player2 => {
                self.player2.wins = self.player2.wins + 1;
            },
        }
        (card1, card2, w)
    }

    /// Plays rounds until fewer than two cards remain, with no pause
    /// between rounds. The deck keeps only its bottom card when it held
    /// an odd number of cards (and nothing otherwise), and each player's
    /// tally grows by exactly the rounds the deck's card order awards
    /// them.
    pub fn play_to_end(&mut self)
        requires
            old(self).player1.wins + old(self).deck.cards@.len() <= u32::MAX,
            old(self).player2.wins + old(self).deck.cards@.len() <= u32::MAX,
        ensures
            final(self).deck.cards@ == old(self).deck.cards@.take(
                old(self).deck.cards@.len() as int % 2,
            ),
            final(self).player1.wins == old(self).player1.wins + rounds_won(
                old(self).deck.cards@,
                RoundWinner::Player1,
            ),
            final(self).player2.wins == old(self).player2.wins + rounds_won(
                old(self).deck.cards@,
                RoundWinner::Player2,
            ),
            final(self).player1.name == old(self).player1.name,
            final(self).player2.name == old(self).player2.name,
            final(self).player1.wins + final(self).player2.wins == old(self).player1.wins + old(
                self,
            ).player2.wins + old(self).deck.cards@.len() as int / 2,
    {
        let ghost start = old(self).deck.cards@;
        while self.deck.cards.len() >= 2
            invariant
                self.deck.cards@.len() <= start.len(),
                self.deck.cards@ == start.take(self.deck.cards@.len() as int),
                self.deck.cards@.len() % 2 == start.len() % 2,
                self.player1.wins + rounds_won(self.deck.cards@, RoundWinner::Player1) == old(
                    self,
                ).player1.wins + rounds_won(start, RoundWinner::Player1),
                self.player2.wins + rounds_won(self.deck.cards@, RoundWinner::Player2) == old(
                    self,
                ).player2.wins + rounds_won(start, RoundWinner::Player2),
                self.player1.wins + self.deck.cards@.len() <= u32::MAX,
                self.player2.wins + self.deck.cards@.len() <= u32::MAX,
                self.player1.name == old(self).player1.name,
                self.player2.name == old(self).player2.name,
            decreases self.deck.cards@.len(),
        {
            let ghost prev = self.deck.cards@;
            let _round = self.play_round();
            proof {
                assert(prev.drop_last().drop_last() =~= start.take(prev.len() - 2));
            }
        }
        proof {
            assert(self.deck.cards@.len() < 2);
            assert(rounds_won(self.deck.cards@, RoundWinner::Player1) == 0);
            assert(rounds_won(self.deck.cards@, RoundWinner::Player2) == 0);
            assert(self.deck.cards@.len() == start.len() as int % 2);
            lemma_rounds_won_total(start);
        }
    }

    /// The outcome so far: names the player with strictly more round
    /// wins and that count, or reports a tie with the shared count.
    pub fn winner(&self) -> (r: String)
        ensures
            r@ == winner_line(self.player1, self.player2),
    {
        if self.player1.wins > self.player2.wins {
            let mut s = String::from_str(self.player1.name.as_str());
            s.append(" wins with ");
            let digits = u32_to_decimal(self.player1.wins);
            s.append(digits.as_str());
            s.append(" wins");
            assert(s@ =~= win_line(self.player1.name@, self.player1.wins as nat));
            s
        } else if self.player1.wins < self.player2.wins {
            let mut s = String::from_str(self.player2.name.as_str());
            s.append(" wins with ");
            let digits = u32_to_decimal(self.player2.wins);
            s.append(digits.as_str());
            s.append(" wins");
            assert(s@ =~= win_line(self.player2.name@, self.player2.wins as nat));
            s
        } else {
            let mut s = String::from_str("It was a tie! Both players had ");
            let digits = u32_to_decimal(self.player1.wins);
            s.append(digits.as_str());
            s.append(" wins");
            assert(s@ =~= tie_line(self.player1.wins as nat));
            s
        }
    }
}

} // verus!
