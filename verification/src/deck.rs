use vstd::prelude::*;

use crate::card::{Card, valid_card};

verus! {

/// The card that position `i` of the unshuffled standard deck holds:
/// the 52 positions run through the 13 ranks in order, four suits each.
pub open spec fn card_at(i: int) -> Card {
    Card { rank: (2 + i / 4) as u8, suit: (i % 4) as u8 }
}

/// The unshuffled standard deck: all 52 (rank, suit) pairs, each once.
pub open spec fn standard_deck() -> Seq<Card> {
    Seq::new(52, |i: int| card_at(i))
}

/// An ordered pile of cards. Constructed full and shuffled; it only
/// shrinks afterwards, one card per draw, from the top (the end of the
/// sequence).
pub struct Deck {
    pub cards: Vec<Card>,
}

/// Every card of the standard deck is a valid card, and no two positions
/// hold the same card.
pub proof fn lemma_standard_deck_well_formed()
    ensures
        standard_deck().len() == 52,
        forall|i: int| 0 <= i < 52 ==> valid_card(#[trigger] standard_deck()[i]),
        standard_deck().no_duplicates(),
{
    assert forall|i: int| 0 <= i < 52 implies valid_card(#[trigger] standard_deck()[i]) by {
        vstd::arithmetic::div_mod::lemma_fundamental_div_mod(i, 4);
        assert(0 <= i / 4 <= 12);
        assert(0 <= i % 4 <= 3);
    }
    assert forall|i: int, j: int|
        0 <= i < 52 && 0 <= j < 52 && i != j implies standard_deck()[i]
        != standard_deck()[j] by {
        vstd::arithmetic::div_mod::lemma_fundamental_div_mod(i, 4);
        vstd::arithmetic::div_mod::lemma_fundamental_div_mod(j, 4);
        assert(i == 4 * (i / 4) + i % 4);
        assert(j == 4 * (j / 4) + j % 4);
    }
}

/// Any sequence of cards that holds exactly the cards of the standard
/// deck (in any order) has 52 cards, all valid, and no duplicates. This
/// is the shape every freshly constructed deck has, since shuffling only
/// rearranges the cards.
pub proof fn lemma_full_deck_well_formed(s: Seq<Card>)
    requires
        s.to_multiset() == standard_deck().to_multiset(),
    ensures
        s.len() == 52,
        forall|i: int| 0 <= i < s.len() ==> valid_card(#[trigger] s[i]),
        s.no_duplicates(),
{
    broadcast use vstd::seq_lib::group_to_multiset_ensures;

    lemma_standard_deck_well_formed();
    assert(s.len() == s.to_multiset().len());
    assert(standard_deck().len() == standard_deck().to_multiset().len());
    assert forall|i: int| 0 <= i < s.len() implies valid_card(#[trigger] s[i]) by {
        assert(s.contains(s[i]));
        assert(s.to_multiset().count(s[i]) > 0);
        assert(standard_deck().contains(s[i]));
        let j = choose|j: int| 0 <= j < 52 && standard_deck()[j] == s[i];
        assert(valid_card(standard_deck()[j]));
    }
    standard_deck().lemma_multiset_has_no_duplicates();
    assert forall|x: Card| s.to_multiset().contains(x) implies s.to_multiset().count(x)
        == 1 by {
        assert(standard_deck().to_multiset().count(x) == 1);
    }
    s.lemma_multiset_has_no_duplicates_conv();
}

/// Relies on rand's `SliceRandom::shuffle` (seeded from `thread_rng`):
/// a Fisher-Yates pass of in-place swaps, so the slice afterwards holds
/// the same cards rearranged.
#[verifier::external_body]
fn shuffle_cards(cards: &mut Vec<Card>)
    ensures
        final(cards)@.to_multiset() == old(cards)@.to_multiset(),
{
    let mut rng = rand::thread_rng();
    rand::seq::SliceRandom::shuffle(cards.as_mut_slice(), &mut rng);
}

impl Deck {
    /// Builds the full standard deck and shuffles it: the result holds
    /// exactly the 52 cards of the standard deck, in some order.
    pub fn new() -> (d: Deck)
        ensures
            d.cards@.to_multiset() == standard_deck().to_multiset(),
    {
        let mut cards: Vec<Card> = Vec::new();
        for i in 2..15u8
            invariant
                cards@ =~= standard_deck().take(4 * (i - 2)),
        {
            for j in 0..4u8
                invariant
                    2 <= i < 15,
                    cards@ =~= standard_deck().take(4 * (i - 2) + j),
            {
                cards.push(Card::new(i, j));
                proof {
                    let k: int = 4 * (i - 2) + j;
                    vstd::arithmetic::div_mod::lemma_fundamental_div_mod_converse(
                        k,
                        4,
                        i - 2,
                        j as int,
                    );
                    assert(card_at(k) == (Card { rank: i, suit: j }));
                    assert(cards@ =~= standard_deck().take(k + 1));
                }
            }
        }
        assert(cards@ =~= standard_deck());
        shuffle_cards(&mut cards);
        Deck { cards }
    }

    /// Removes and returns the card at the top of the deck (the end of
    /// the sequence), or nothing when the deck is exhausted. The deck
    /// shrinks by exactly one card on a successful draw and is left
    /// untouched on an exhausted one.
    pub fn remove_card(&mut self) -> (r: Option<Card>)
        ensures
            old(self).cards@.len() == 0 ==> r is None,
            old(self).cards@.len() == 0 ==> final(self).cards@ == old(self).cards@,
            old(self).cards@.len() > 0 ==> r == Some(old(self).cards@.last()),
            old(self).cards@.len() > 0 ==> final(self).cards@ == old(self).cards@.drop_last(),
    {
        self.cards.pop()
    }
}

/// The sequence of cards that draining a deck yields: the first draw is
/// the last card of the deck's sequence, so the draws come out in the
/// reverse of the stored order.
pub open spec fn draw_sequence(s: Seq<Card>) -> Seq<Card> {
    s.reverse()
}

/// One draw step: the draws from a non-empty deck are its last card
/// followed by the draws from the rest, matching what `remove_card`
/// returns and leaves behind.
pub proof fn lemma_draw_sequence_step(s: Seq<Card>)
    requires
        s.len() > 0,
    ensures
        draw_sequence(s) == seq![s.last()] + draw_sequence(s.drop_last()),
{
    assert(draw_sequence(s) =~= seq![s.last()] + draw_sequence(s.drop_last()));
}

/// Draining a deck with no duplicate cards yields as many draws as the
/// deck held, all pairwise distinct.
pub proof fn lemma_drain_distinct(s: Seq<Card>)
    requires
        s.no_duplicates(),
    ensures
        draw_sequence(s).len() == s.len(),
        draw_sequence(s).no_duplicates(),
{
    if s.len() > 0 {
        assert forall|i: int, j: int|
            0 <= i < s.len() && 0 <= j < s.len() && i != j implies draw_sequence(s)[i]
            != draw_sequence(s)[j] by {
            assert(draw_sequence(s)[i] == s[s.len() - 1 - i]);
            assert(draw_sequence(s)[j] == s[s.len() - 1 - j]);
        }
    }
}

} // verus!
