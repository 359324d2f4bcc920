use vstd::prelude::*;

verus! {

/// One playing card: a rank (2 through 14, where 11 through 14 stand for
/// jack, queen, king and ace) and a suit (0 through 3). The suit carries
/// no weight in round resolution; it only makes the 52 cards distinct and
/// breaks ties in the total order used for sorting and equality.
#[derive(Debug, PartialEq, Eq, Structural, Clone, Copy)]
pub struct Card {
    pub rank: u8,
    pub suit: u8,
}

/// A card of the standard deck: rank between 2 and 14, suit between 0 and 3.
pub open spec fn valid_card(c: Card) -> bool {
    2 <= c.rank <= 14 && c.suit <= 3
}

impl Card {
    pub fn new(rank: u8, suit: u8) -> (c: Card)
        ensures
            c.rank == rank,
            c.suit == suit,
    {
        Card { rank, suit }
    }
}

/// The total order on cards: by rank first, then by suit. Round
/// resolution deliberately does not use this order; it compares ranks
/// alone (see `resolve`).
impl PartialOrd for Card {
    fn partial_cmp(&self, other: &Self) -> (r: Option<core::cmp::Ordering>) {
        if self.rank == other.rank {
            if self.suit == other.suit {
                Some(core::cmp::Ordering::Equal)
            } else if self.suit < other.suit {
                Some(core::cmp::Ordering::Less)
            } else {
                Some(core::cmp::Ordering::Greater)
            }
        } else if self.rank < other.rank {
            Some(core::cmp::Ordering::Less)
        } else {
            Some(core::cmp::Ordering::Greater)
        }
    }
}

impl vstd::std_specs::cmp::PartialOrdSpecImpl for Card {
    open spec fn obeys_partial_cmp_spec() -> bool {
        true
    }

    open spec fn partial_cmp_spec(&self, other: &Self) -> Option<core::cmp::Ordering> {
        if self.rank == other.rank {
            if self.suit == other.suit {
                Some(core::cmp::Ordering::Equal)
            } else if self.suit < other.suit {
                Some(core::cmp::Ordering::Less)
            } else {
                Some(core::cmp::Ordering::Greater)
            }
        } else if self.rank < other.rank {
            Some(core::cmp::Ordering::Less)
        } else {
            Some(core::cmp::Ordering::Greater)
        }
    }
}

} // verus!
