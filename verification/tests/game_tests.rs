use war_game::card::Card;
use war_game::deck::Deck;
use war_game::game::{Game, Player, RoundWinner};
use war_game::text::u32_to_decimal;

fn seeded_game(cards: Vec<Card>) -> Game {
    Game { deck: Deck { cards }, player1: Player::new("A"), player2: Player::new("B") }
}

#[test]
fn resolve_gives_the_round_to_the_higher_rank() {
    assert_eq!(war_game::game::resolve(14, 2), RoundWinner::Player1);
    assert_eq!(war_game::game::resolve(2, 14), RoundWinner::Player2);
    assert_eq!(war_game::game::resolve(11, 10), RoundWinner::Player1);
    assert_eq!(war_game::game::resolve(10, 11), RoundWinner::Player2);
}

#[test]
fn resolve_gives_every_tie_to_player2() {
    for rank in 2..=14u8 {
        assert_eq!(war_game::game::resolve(rank, rank), RoundWinner::Player2);
    }
}

#[test]
fn high_card_on_top_wins_the_first_round_for_player1() {
    // The top of the deck is the end of the vector: player1 draws the
    // ace (14, 0), player2 the (2, 0) below it.
    let mut game: Game = seeded_game(vec![Card::new(2, 0), Card::new(14, 0)]);
    let (first, second, who) = game.play_round();
    assert_eq!(first, Card::new(14, 0));
    assert_eq!(second, Card::new(2, 0));
    assert_eq!(who, RoundWinner::Player1);
    assert_eq!(game.player1.wins, 1);
    assert_eq!(game.player2.wins, 0);
    assert_eq!(game.deck.cards.len(), 0);
}

#[test]
fn a_single_remaining_card_ends_play_without_a_round() {
    let mut game: Game = seeded_game(vec![Card::new(9, 2)]);
    game.play_to_end();
    assert_eq!(game.deck.cards.len(), 1);
    assert_eq!(game.deck.cards[0], Card::new(9, 2));
    assert_eq!(game.player1.wins, 0);
    assert_eq!(game.player2.wins, 0);
}

#[test]
fn equal_ranks_give_the_round_to_player2() {
    // Player1 draws (7, 0), player2 draws (7, 1): same rank, different
    // suit, and the round goes to player2.
    let mut game: Game = seeded_game(vec![Card::new(7, 1), Card::new(7, 0)]);
    let (first, second, who) = game.play_round();
    assert_eq!(first, Card::new(7, 0));
    assert_eq!(second, Card::new(7, 1));
    assert_eq!(who, RoundWinner::Player2);
    assert_eq!(game.player1.wins, 0);
    assert_eq!(game.player2.wins, 1);
}

#[test]
fn winner_before_any_round_reports_a_tie_at_zero() {
    let game: Game = Game::new("A", "B");
    assert_eq!(game.winner(), "It was a tie! Both players had 0 wins");
}

#[test]
fn winner_names_the_player_with_strictly_more_wins() {
    let mut game: Game = seeded_game(Vec::new());
    game.player1.wins = 3;
    game.player2.wins = 1;
    assert_eq!(game.winner(), "A wins with 3 wins");
    game.player2.wins = 5;
    assert_eq!(game.winner(), "B wins with 5 wins");
    game.player1.wins = 5;
    assert_eq!(game.winner(), "It was a tie! Both players had 5 wins");
}

#[test]
fn play_to_end_tallies_each_pair_of_draws() {
    // Draws from the end: round one is (4, 1) against (5, 0) and goes to
    // player2; round two is (9, 1) against (3, 0) and goes to player1.
    let cards: Vec<Card> = vec![Card::new(3, 0), Card::new(9, 1), Card::new(5, 0), Card::new(4, 1)];
    let mut game: Game = seeded_game(cards);
    game.play_to_end();
    assert_eq!(game.player1.wins, 1);
    assert_eq!(game.player2.wins, 1);
    assert_eq!(game.deck.cards.len(), 0);
    assert_eq!(game.winner(), "It was a tie! Both players had 1 wins");
}

#[test]
fn a_full_game_plays_26_rounds() {
    let mut game: Game = Game::new("A", "B");
    game.play_to_end();
    assert_eq!(game.deck.cards.len(), 0);
    assert_eq!(game.player1.wins + game.player2.wins, 26);
}

#[test]
fn player_starts_with_the_given_name_and_no_wins() {
    let player: Player = Player::new("C");
    assert_eq!(player.name, "C");
    assert_eq!(player.wins, 0);
}

#[test]
fn decimal_rendering_matches_the_usual_numerals() {
    assert_eq!(u32_to_decimal(0), "0");
    assert_eq!(u32_to_decimal(7), "7");
    assert_eq!(u32_to_decimal(10), "10");
    assert_eq!(u32_to_decimal(26), "26");
    assert_eq!(u32_to_decimal(305), "305");
    assert_eq!(u32_to_decimal(u32::MAX), "4294967295");
}
