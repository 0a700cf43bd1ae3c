use solana_poker::advance_stage;
use solana_poker::apply_offset_batch;
use solana_poker::deal_cards;
use solana_poker::error::PokerError;
use solana_poker::generate_offset;
use solana_poker::player_action;
use solana_poker::post_blinds;
use solana_poker::start_game;
use solana_poker::state::player_seat::PlayerSeat;
use solana_poker::state::poker_game::PokerGame;
use solana_poker::state::poker_table::PokerTable;
use solana_poker::state::{BetAction, GameStage, Handle};
use solana_poker::submit_cards;

const FOLD: u8 = 0;
const CHECK: u8 = 1;
const CALL: u8 = 2;
const RAISE: u8 = 3;
const ALL_IN: u8 = 4;

fn table_for(players: u8) -> PokerTable {
    PokerTable {
        table_id: 7,
        max_players: 5,
        buy_in_min: 1,
        buy_in_max: 10_000,
        small_blind: 10,
        player_count: players,
        current_game: None,
    }
}

fn batch_of(first: u128) -> [Handle; 5] {
    [Handle(first), Handle(first + 1), Handle(first + 2), Handle(first + 3), Handle(first + 4)]
}

/// A hand in `PreFlop` whose seat `i` has a stack of `stacks[i]`.
fn dealt(stacks: &[u64]) -> (PokerTable, PokerGame, Vec<PlayerSeat>) {
    let players = stacks.len() as u8;
    let mut table = table_for(players);
    let mut game = start_game::handler(&mut table, 1).unwrap();
    for batch in 0..3u8 {
        submit_cards::handler(&mut game, batch, batch_of(100 + 5 * batch as u128)).unwrap();
    }
    for batch in 0..3u8 {
        apply_offset_batch::handler(&mut game, batch, Handle(77), batch_of(1000 + 5 * batch as u128))
            .unwrap();
    }
    generate_offset::handler(&mut game, 0).unwrap();
    let mut seats = Vec::new();
    for (seat, stack) in stacks.iter().enumerate() {
        seats.push(deal_cards::handler(&table, &mut game, seat as u8, *stack).unwrap());
    }
    assert_eq!(game.stage, GameStage::PreFlop);
    (table, game, seats)
}

fn blinds(table: &PokerTable, game: &mut PokerGame, seats: &mut Vec<PlayerSeat>) {
    let sb = ((game.dealer_position + 1) % game.player_count) as usize;
    let bb = ((game.dealer_position + 2) % game.player_count) as usize;
    let mut sb_seat = seats[sb];
    let mut bb_seat = seats[bb];
    post_blinds::handler(table, game, &mut sb_seat, &mut bb_seat).unwrap();
    seats[sb] = sb_seat;
    seats[bb] = bb_seat;
}

/// A hand after the blinds, with the small blind at 10.
fn after_blinds(stacks: &[u64]) -> (PokerTable, PokerGame, Vec<PlayerSeat>) {
    let (table, mut game, mut seats) = dealt(stacks);
    blinds(&table, &mut game, &mut seats);
    (table, game, seats)
}

fn act(game: &mut PokerGame, seats: &mut Vec<PlayerSeat>, seat: usize, code: u8, raise: u64) -> Result<(), PokerError> {
    let mut s = seats[seat];
    let r = player_action::handler(game, &mut s, code, raise);
    seats[seat] = s;
    r
}

fn bets_of(seats: &[PlayerSeat]) -> u64 {
    seats.iter().map(|s| s.total_bet).sum()
}

#[test]
fn blinds_in_a_four_seat_hand_put_the_action_on_seat_three() {
    let (_, game, seats) = after_blinds(&[1000, 1000, 1000, 1000]);
    assert_eq!(game.action_on, 3);
    assert_eq!(game.pot, 30);
    assert_eq!(game.current_bet, 20);
    assert_eq!(game.last_raise_amount, 20);
    assert_eq!(game.last_raiser, 2);
    assert_eq!(game.players_acted, 0);
    assert_eq!(game.blinds_posted.bits, 0b0110);
    assert_eq!(seats[1].chips, 990);
    assert_eq!(seats[1].current_bet, 10);
    assert_eq!(seats[1].total_bet, 10);
    assert!(!seats[1].has_acted);
    assert_eq!(seats[2].chips, 980);
    assert_eq!(seats[2].current_bet, 20);
    assert_eq!(seats[2].total_bet, 20);
    assert!(!seats[2].has_acted);
    assert_eq!(seats[0].chips, 1000);
    assert_eq!(seats[3].chips, 1000);
    assert_eq!(game.stage, GameStage::PreFlop);
}

#[test]
fn action_goes_round_the_table_and_skips_who_cannot_act() {
    let (_, mut game, mut seats) = after_blinds(&[1000, 1000, 1000, 1000]);
    assert_eq!(game.action_on, 3);
    act(&mut game, &mut seats, 3, CALL, 0).unwrap();
    assert_eq!(game.action_on, 0);
    act(&mut game, &mut seats, 0, FOLD, 0).unwrap();
    assert_eq!(game.action_on, 1);
    act(&mut game, &mut seats, 1, CALL, 0).unwrap();
    assert_eq!(game.action_on, 2);
    act(&mut game, &mut seats, 2, CHECK, 0).unwrap();
    assert_eq!(game.action_on, 3);
    act(&mut game, &mut seats, 3, ALL_IN, 0).unwrap();
    assert_eq!(game.action_on, 1);
    act(&mut game, &mut seats, 1, CALL, 0).unwrap();
    assert_eq!(game.action_on, 2);
    act(&mut game, &mut seats, 2, FOLD, 0).unwrap();
    assert_eq!(game.action_on, 1);
    assert_eq!(game.folded_mask.bits, 0b0101);
    assert_eq!(game.all_in_mask.bits, 0b1000);
    assert_eq!(game.players_remaining, 2);
    assert_eq!(game.pot, bets_of(&seats));
}

#[test]
fn a_raise_below_the_last_raise_is_too_small() {
    let (_, mut game, mut seats) = after_blinds(&[1000, 1000, 1000, 1000]);
    assert_eq!(game.current_bet, 20);
    assert_eq!(game.last_raise_amount, 20);
    let before = (game, seats[3]);
    assert_eq!(act(&mut game, &mut seats, 3, RAISE, 10), Err(PokerError::RaiseTooSmall));
    assert_eq!((game, seats[3]), before);
    assert_eq!(act(&mut game, &mut seats, 3, RAISE, 19), Err(PokerError::RaiseTooSmall));
    assert_eq!(act(&mut game, &mut seats, 3, RAISE, 20), Ok(()));
    assert_eq!(game.current_bet, 40);
    assert_eq!(game.last_raise_amount, 20);
    assert_eq!(game.last_raiser, 3);
    assert_eq!(game.players_acted, 1);
    assert_eq!(game.pot, 70);
    assert_eq!(seats[3].chips, 960);
    assert_eq!(seats[3].current_bet, 40);
    assert_eq!(seats[3].total_bet, 40);
    assert!(seats[3].has_acted);
    assert_eq!(game.action_on, 0);
}

#[test]
fn an_opening_raise_must_match_the_current_bet() {
    let (_, mut game, mut seats) = after_blinds(&[1000, 1000, 1000]);
    for seat in [0usize, 1] {
        act(&mut game, &mut seats, seat, CALL, 0).unwrap();
    }
    act(&mut game, &mut seats, 2, CHECK, 0).unwrap();
    advance_stage::handler(&mut game, &mut seats).unwrap();
    assert_eq!(game.stage, GameStage::Flop);
    assert_eq!(game.last_raise_amount, 0);
    assert_eq!(game.current_bet, 0);
    assert_eq!(game.action_on, 1);
    act(&mut game, &mut seats, 1, RAISE, 0).unwrap();
    assert_eq!(game.current_bet, 0);
    assert_eq!(game.players_acted, 1);
    act(&mut game, &mut seats, 2, RAISE, 50).unwrap();
    assert_eq!(game.current_bet, 50);
    assert_eq!(game.last_raise_amount, 50);
    assert_eq!(act(&mut game, &mut seats, 0, RAISE, 49), Err(PokerError::RaiseTooSmall));
    act(&mut game, &mut seats, 0, RAISE, 50).unwrap();
    assert_eq!(game.current_bet, 100);
    assert_eq!(seats[0].chips, 1000 - 20 - 100);
    assert_eq!(game.pot, bets_of(&seats));
}

#[test]
fn two_folds_in_a_three_seat_hand_force_the_showdown() {
    let (_, mut game, mut seats) = after_blinds(&[1000, 1000, 1000]);
    assert_eq!(game.action_on, 0);
    act(&mut game, &mut seats, 0, FOLD, 0).unwrap();
    assert_eq!(game.stage, GameStage::PreFlop);
    assert_eq!(game.players_remaining, 2);
    assert_eq!(game.action_on, 1);
    act(&mut game, &mut seats, 1, FOLD, 0).unwrap();
    assert_eq!(game.stage, GameStage::Showdown);
    assert_eq!(game.players_remaining, 1);
    assert!(seats[0].is_folded);
    assert!(seats[1].is_folded);
    assert!(!seats[2].has_acted);
    assert_eq!(game.folded_mask.bits, 0b011);
    assert_eq!(game.pot, 30);
    assert_eq!(act(&mut game, &mut seats, 2, CHECK, 0), Err(PokerError::InvalidGameStage));
}

#[test]
fn advancing_with_one_player_left_goes_to_the_showdown() {
    let (_, mut game, mut seats) = after_blinds(&[1000, 1000]);
    assert_eq!(game.action_on, 1);
    act(&mut game, &mut seats, 1, CALL, 0).unwrap();
    act(&mut game, &mut seats, 0, CHECK, 0).unwrap();
    advance_stage::handler(&mut game, &mut seats).unwrap();
    assert_eq!(game.stage, GameStage::Flop);
    let first = game.action_on as usize;
    act(&mut game, &mut seats, first, FOLD, 0).unwrap();
    assert_eq!(game.stage, GameStage::Showdown);
    let before = (game, seats.clone());
    advance_stage::handler(&mut game, &mut seats).unwrap();
    assert_eq!(game.stage, GameStage::Showdown);
    assert_eq!((game, seats), before);
}

#[test]
fn advance_is_refused_while_waiting_and_when_finished() {
    let mut table = table_for(3);
    let mut game = start_game::handler(&mut table, 1).unwrap();
    let mut seats: Vec<PlayerSeat> = Vec::new();
    let before = game;
    assert_eq!(advance_stage::handler(&mut game, &mut seats), Err(PokerError::InvalidGameStage));
    assert_eq!(game, before);

    let (_, mut game, mut seats) = after_blinds(&[1000, 1000, 1000]);
    let mut visited = vec![game.stage];
    for _ in 0..5 {
        advance_stage::handler(&mut game, &mut seats).unwrap();
        visited.push(game.stage);
    }
    assert_eq!(
        visited,
        vec![
            GameStage::PreFlop,
            GameStage::Flop,
            GameStage::Turn,
            GameStage::River,
            GameStage::Showdown,
            GameStage::Finished
        ]
    );
    let before = (game, seats.clone());
    assert_eq!(advance_stage::handler(&mut game, &mut seats), Err(PokerError::InvalidGameStage));
    assert_eq!((game, seats), before);
}

#[test]
fn advance_reveals_three_then_four_then_five_community_cards() {
    let (_, mut game, mut seats) = after_blinds(&[1000, 1000, 1000]);
    assert_eq!(game.community_revealed.bits, 0);
    advance_stage::handler(&mut game, &mut seats).unwrap();
    assert_eq!(game.community_revealed.bits, 0b00111);
    assert_eq!(game.community_revealed.count(), game.stage.community_cards_to_reveal());
    advance_stage::handler(&mut game, &mut seats).unwrap();
    assert_eq!(game.community_revealed.bits, 0b01111);
    assert_eq!(game.community_revealed.count(), game.stage.community_cards_to_reveal());
    advance_stage::handler(&mut game, &mut seats).unwrap();
    assert_eq!(game.community_revealed.bits, 0b11111);
    assert_eq!(game.community_revealed.count(), game.stage.community_cards_to_reveal());
    advance_stage::handler(&mut game, &mut seats).unwrap();
    assert_eq!(game.stage, GameStage::Showdown);
    assert_eq!(game.community_revealed.bits, 0b11111);
}

#[test]
fn advance_starts_a_new_round_for_every_seat() {
    let (_, mut game, mut seats) = after_blinds(&[1000, 1000, 1000, 1000]);
    act(&mut game, &mut seats, 3, RAISE, 40).unwrap();
    act(&mut game, &mut seats, 0, FOLD, 0).unwrap();
    act(&mut game, &mut seats, 1, CALL, 0).unwrap();
    act(&mut game, &mut seats, 2, ALL_IN, 0).unwrap();
    let pot = game.pot;
    let before = seats.clone();
    advance_stage::handler(&mut game, &mut seats).unwrap();
    assert_eq!(game.stage, GameStage::Flop);
    assert_eq!(game.pot, pot);
    assert_eq!(game.current_bet, 0);
    assert_eq!(game.players_acted, 0);
    assert_eq!(game.last_raiser, 0);
    assert_eq!(game.last_raise_amount, 0);
    assert_eq!(game.folded_mask.bits, 0b0001);
    assert_eq!(game.all_in_mask.bits, 0b0100);
    assert_eq!(game.action_on, 1);
    for (old, new) in before.iter().zip(seats.iter()) {
        let mut expected = *old;
        expected.current_bet = 0;
        expected.has_acted = false;
        assert_eq!(*new, expected);
    }
    assert_eq!(game.pot, bets_of(&seats));
}

#[test]
fn advance_with_nobody_able_to_act_leaves_the_action_left_of_the_dealer() {
    let (_, mut game, mut seats) = after_blinds(&[1000, 1000, 1000]);
    act(&mut game, &mut seats, 0, ALL_IN, 0).unwrap();
    act(&mut game, &mut seats, 1, ALL_IN, 0).unwrap();
    act(&mut game, &mut seats, 2, ALL_IN, 0).unwrap();
    assert_eq!(game.active_player_count(), 0);
    assert!(game.betting_round_complete());
    advance_stage::handler(&mut game, &mut seats).unwrap();
    assert_eq!(game.stage, GameStage::Flop);
    assert_eq!(game.action_on, 1);
    assert_eq!(game.pot, 3000);
}

#[test]
fn blinds_are_capped_at_a_short_stack() {
    let (table, mut game, mut seats) = dealt(&[1000, 4, 15]);
    blinds(&table, &mut game, &mut seats);
    assert_eq!(seats[1].chips, 0);
    assert_eq!(seats[1].total_bet, 4);
    assert_eq!(seats[2].chips, 0);
    assert_eq!(seats[2].total_bet, 15);
    assert_eq!(game.pot, 19);
    assert_eq!(game.current_bet, 15);
    assert_eq!(game.last_raise_amount, 15);
    assert_eq!(game.action_on, 0);
    assert_eq!(game.all_in_mask.bits, 0);
}

#[test]
fn blinds_heads_up_wrap_round_the_table() {
    let (_, game, seats) = after_blinds(&[500, 500]);
    assert_eq!(seats[1].total_bet, 10);
    assert_eq!(seats[0].total_bet, 20);
    assert_eq!(game.last_raiser, 0);
    assert_eq!(game.action_on, 1);
    assert_eq!(game.blinds_posted.bits, 0b11);
    assert_eq!(game.pot, 30);
}

#[test]
fn blinds_are_posted_once() {
    let (table, mut game, mut seats) = after_blinds(&[1000, 1000, 1000]);
    let before = (game, seats.clone());
    let mut sb = seats[1];
    let mut bb = seats[2];
    assert_eq!(
        post_blinds::handler(&table, &mut game, &mut sb, &mut bb),
        Err(PokerError::BlindsAlreadyPosted)
    );
    seats[1] = sb;
    seats[2] = bb;
    assert_eq!((game, seats), before);
}

#[test]
fn blinds_need_the_right_seats_and_stage() {
    let (table, mut game, seats) = dealt(&[1000, 1000, 1000]);
    let before = game;
    let (mut a, mut b) = (seats[0], seats[2]);
    assert_eq!(
        post_blinds::handler(&table, &mut game, &mut a, &mut b),
        Err(PokerError::InvalidSeatIndex)
    );
    let (mut a, mut b) = (seats[1], seats[0]);
    assert_eq!(
        post_blinds::handler(&table, &mut game, &mut a, &mut b),
        Err(PokerError::InvalidSeatIndex)
    );
    assert_eq!(game, before);
    assert_eq!((a, b), (seats[1], seats[0]));

    let (table, mut game, mut seats) = dealt(&[1000, 1000, 1000]);
    advance_stage::handler(&mut game, &mut seats).unwrap();
    let (mut a, mut b) = (seats[1], seats[2]);
    assert_eq!(
        post_blinds::handler(&table, &mut game, &mut a, &mut b),
        Err(PokerError::InvalidGameStage)
    );
}

#[test]
fn an_unknown_action_code_is_refused() {
    let (_, mut game, mut seats) = after_blinds(&[1000, 1000, 1000]);
    let before = (game, seats.clone());
    assert_eq!(act(&mut game, &mut seats, 0, 5, 0), Err(PokerError::InvalidBetAmount));
    assert_eq!(act(&mut game, &mut seats, 0, 255, 0), Err(PokerError::InvalidBetAmount));
    assert_eq!(act(&mut game, &mut seats, 1, 9, 0), Err(PokerError::InvalidBetAmount));
    assert_eq!((game, seats), before);
}

#[test]
fn action_codes_decode_to_the_five_actions() {
    assert_eq!(BetAction::from_code(0), Some(BetAction::Fold));
    assert_eq!(BetAction::from_code(1), Some(BetAction::Check));
    assert_eq!(BetAction::from_code(2), Some(BetAction::Call));
    assert_eq!(BetAction::from_code(3), Some(BetAction::Raise));
    assert_eq!(BetAction::from_code(4), Some(BetAction::AllIn));
    assert_eq!(BetAction::from_code(5), None);
}

#[test]
fn acting_out_of_turn_is_refused() {
    let (_, mut game, mut seats) = after_blinds(&[1000, 1000, 1000]);
    assert_eq!(game.action_on, 0);
    let before = (game, seats.clone());
    assert_eq!(act(&mut game, &mut seats, 1, CALL, 0), Err(PokerError::NotYourTurn));
    assert_eq!(act(&mut game, &mut seats, 2, FOLD, 0), Err(PokerError::NotYourTurn));
    assert_eq!((game, seats), before);
}

#[test]
fn a_check_with_a_bet_to_call_is_refused() {
    let (_, mut game, mut seats) = after_blinds(&[1000, 1000, 1000]);
    assert_eq!(act(&mut game, &mut seats, 0, CHECK, 0), Err(PokerError::CannotCheck));
    act(&mut game, &mut seats, 0, CALL, 0).unwrap();
    assert_eq!(act(&mut game, &mut seats, 1, CHECK, 0), Err(PokerError::CannotCheck));
    act(&mut game, &mut seats, 1, CALL, 0).unwrap();
    assert_eq!(seats[1].chips, 980);
    assert_eq!(act(&mut game, &mut seats, 2, CHECK, 0), Ok(()));
    assert_eq!(seats[2].chips, 980);
    assert!(seats[2].has_acted);
    assert_eq!(game.players_acted, 3);
    assert!(game.betting_round_complete());
}

#[test]
fn a_call_or_raise_beyond_the_stack_is_refused() {
    let (_, mut game, mut seats) = after_blinds(&[15, 1000, 1000, 30]);
    assert_eq!(game.action_on, 3);
    assert_eq!(act(&mut game, &mut seats, 3, RAISE, 20), Err(PokerError::InsufficientChips));
    assert_eq!(act(&mut game, &mut seats, 3, RAISE, u64::MAX), Err(PokerError::InsufficientChips));
    act(&mut game, &mut seats, 3, CALL, 0).unwrap();
    assert_eq!(seats[3].chips, 10);
    let before = (game, seats.clone());
    assert_eq!(act(&mut game, &mut seats, 0, CALL, 0), Err(PokerError::InsufficientChips));
    assert_eq!((game, seats.clone()), before);
    act(&mut game, &mut seats, 0, ALL_IN, 0).unwrap();
    assert_eq!(seats[0].chips, 0);
    assert_eq!(seats[0].total_bet, 15);
    assert!(seats[0].is_all_in);
    assert_eq!(game.current_bet, 20);
    assert_eq!(game.last_raiser, 2);
    assert_eq!(game.players_acted, 2);
    assert_eq!(game.pot, 30 + 20 + 15);
}

#[test]
fn an_all_in_above_the_bet_counts_as_a_raise() {
    let (_, mut game, mut seats) = after_blinds(&[300, 1000, 1000]);
    act(&mut game, &mut seats, 0, ALL_IN, 0).unwrap();
    assert_eq!(game.current_bet, 300);
    assert_eq!(game.last_raise_amount, 280);
    assert_eq!(game.last_raiser, 0);
    assert_eq!(game.players_acted, 1);
    assert_eq!(game.all_in_mask.bits, 0b001);
    assert_eq!(game.pot, 330);
    assert_eq!(game.action_on, 1);
    assert!(!game.is_active(0));
    assert!(game.is_all_in(0));
    assert!(!game.is_folded(0));
    assert!(game.is_active(1));
    assert_eq!(game.active_player_count(), 2);
    assert_eq!(act(&mut game, &mut seats, 1, RAISE, 279), Err(PokerError::RaiseTooSmall));
    act(&mut game, &mut seats, 1, RAISE, 280).unwrap();
    assert_eq!(game.current_bet, 580);
    assert_eq!(seats[1].chips, 1000 - 580);
}

#[test]
fn a_seat_that_is_all_in_or_folded_cannot_act() {
    let (_, mut game, mut seats) = after_blinds(&[1000, 1000, 1000]);
    act(&mut game, &mut seats, 0, FOLD, 0).unwrap();
    act(&mut game, &mut seats, 1, ALL_IN, 0).unwrap();
    act(&mut game, &mut seats, 2, ALL_IN, 0).unwrap();
    assert_eq!(game.stage, GameStage::PreFlop);
    assert_eq!(game.active_player_count(), 0);
    assert_eq!(game.action_on, 0);
    let before = (game, seats.clone());
    assert_eq!(act(&mut game, &mut seats, 0, CHECK, 0), Err(PokerError::PlayerFolded));
    assert_eq!((game, seats), before);

    let (_, mut game, mut seats) = after_blinds(&[1000, 1000]);
    act(&mut game, &mut seats, 1, ALL_IN, 0).unwrap();
    act(&mut game, &mut seats, 0, ALL_IN, 0).unwrap();
    assert_eq!(game.action_on, 1);
    assert_eq!(act(&mut game, &mut seats, 1, CHECK, 0), Err(PokerError::PlayerAlreadyActed));
}

#[test]
fn no_action_is_taken_outside_a_betting_stage() {
    let (_, mut game, mut seats) = after_blinds(&[1000, 1000, 1000]);
    for _ in 0..4 {
        advance_stage::handler(&mut game, &mut seats).unwrap();
    }
    assert_eq!(game.stage, GameStage::Showdown);
    let seat = game.action_on as usize;
    assert_eq!(act(&mut game, &mut seats, seat, CHECK, 0), Err(PokerError::InvalidGameStage));
    advance_stage::handler(&mut game, &mut seats).unwrap();
    assert_eq!(game.stage, GameStage::Finished);
    assert_eq!(act(&mut game, &mut seats, seat, FOLD, 0), Err(PokerError::InvalidGameStage));
}

#[test]
fn the_round_is_complete_when_all_who_can_act_have_acted() {
    let (_, mut game, mut seats) = after_blinds(&[1000, 1000, 1000]);
    assert!(!game.betting_round_complete());
    act(&mut game, &mut seats, 0, CALL, 0).unwrap();
    assert!(!game.betting_round_complete());
    act(&mut game, &mut seats, 1, RAISE, 20).unwrap();
    assert_eq!(game.players_acted, 1);
    assert!(!game.betting_round_complete());
    act(&mut game, &mut seats, 2, CALL, 0).unwrap();
    assert!(!game.betting_round_complete());
    act(&mut game, &mut seats, 0, FOLD, 0).unwrap();
    assert_eq!(game.players_acted, 3);
    assert_eq!(game.active_player_count(), 2);
    assert!(game.betting_round_complete());
}

#[test]
fn the_pot_is_what_the_seats_have_bet_at_every_step() {
    let (table, mut game, mut seats) = dealt(&[400, 1000, 60, 1000, 1000]);
    assert_eq!(game.pot, bets_of(&seats));
    blinds(&table, &mut game, &mut seats);
    assert_eq!(game.pot, bets_of(&seats));
    let script: [(u8, u64); 12] = [
        (CALL, 0),
        (RAISE, 30),
        (ALL_IN, 0),
        (CALL, 0),
        (ALL_IN, 0),
        (FOLD, 0),
        (CALL, 0),
        (CHECK, 0),
        (RAISE, 100),
        (CALL, 0),
        (FOLD, 0),
        (CHECK, 0),
    ];
    for (code, raise) in script {
        if game.betting_round_complete() {
            advance_stage::handler(&mut game, &mut seats).unwrap();
            assert_eq!(game.pot, bets_of(&seats));
        }
        let seat = game.action_on as usize;
        let stake = seats[seat].chips + seats[seat].total_bet;
        let _ = act(&mut game, &mut seats, seat, code, raise);
        assert_eq!(game.pot, bets_of(&seats));
        assert_eq!(seats[seat].chips + seats[seat].total_bet, stake);
    }
    assert!(game.pot > 30);
}

#[test]
fn seat_round_reset_and_blind_posting() {
    let mut seat = PlayerSeat::new(2, 50, Handle(1), Handle(2));
    assert_eq!(seat.post_blind(20), 20);
    assert_eq!((seat.chips, seat.current_bet, seat.total_bet), (30, 20, 20));
    seat.has_acted = true;
    seat.reset_for_new_round();
    assert_eq!((seat.chips, seat.current_bet, seat.total_bet), (30, 0, 20));
    assert!(!seat.has_acted);
    assert_eq!(seat.post_blind(40), 30);
    assert_eq!((seat.chips, seat.current_bet, seat.total_bet), (0, 30, 50));
    assert_eq!(seat.post_blind(40), 0);
    seat.place_bet(0);
    assert_eq!((seat.chips, seat.current_bet, seat.total_bet), (0, 30, 50));
}

#[test]
fn limits_bind_only_where_chips_move_or_the_count_grows() {
    let (table, mut game, seats) = after_blinds(&[1000, 1000, 1000]);
    for code in [FOLD, CHECK, CALL, RAISE, ALL_IN, 9] {
        assert!(player_action::limits_hold(&game, &seats[0], code, 20));
    }
    game.pot = u64::MAX - 19;
    assert!(player_action::limits_hold(&game, &seats[0], FOLD, 0));
    assert!(player_action::limits_hold(&game, &seats[0], CHECK, 0));
    assert!(!player_action::limits_hold(&game, &seats[0], CALL, 0));
    assert!(!player_action::limits_hold(&game, &seats[0], RAISE, 20));
    assert!(player_action::limits_hold(&game, &seats[0], RAISE, 19));
    assert!(player_action::limits_hold(&game, &seats[0], RAISE, 5000));
    assert!(!player_action::limits_hold(&game, &seats[0], ALL_IN, 0));
    assert!(player_action::limits_hold(&game, &seats[1], CALL, 0));
    game.pot = u64::MAX - 20;
    assert!(player_action::limits_hold(&game, &seats[0], CALL, 0));
    assert!(!player_action::limits_hold(&game, &seats[0], RAISE, 20));
    game.pot = u64::MAX - 1000;
    assert!(player_action::limits_hold(&game, &seats[0], ALL_IN, 0));
    assert!(player_action::limits_hold(&game, &seats[0], RAISE, 980));

    game.pot = 30;
    game.players_acted = 254;
    assert!(player_action::limits_hold(&game, &seats[0], FOLD, 0));
    game.players_acted = 255;
    assert!(!player_action::limits_hold(&game, &seats[0], FOLD, 0));
    assert!(!player_action::limits_hold(&game, &seats[0], CALL, 0));
    assert!(player_action::limits_hold(&game, &seats[0], CHECK, 0));
    assert!(player_action::limits_hold(&game, &seats[0], RAISE, 20));
    assert!(player_action::limits_hold(&game, &seats[0], ALL_IN, 0));
    assert!(player_action::limits_hold(&game, &seats[1], FOLD, 0));
    let mut raised = (game, seats[0]);
    player_action::handler(&mut raised.0, &mut raised.1, RAISE, 20).unwrap();
    assert_eq!(raised.0.players_acted, 1);

    let (table_2, mut fresh, seats) = dealt(&[1000, 1000, 1000]);
    assert_eq!(table, table_2);
    assert!(post_blinds::limits_hold(&table, &fresh, &seats[1], &seats[2]));
    fresh.pot = u64::MAX - 30;
    assert!(post_blinds::limits_hold(&table, &fresh, &seats[1], &seats[2]));
    fresh.pot = u64::MAX - 29;
    assert!(!post_blinds::limits_hold(&table, &fresh, &seats[1], &seats[2]));
    assert!(post_blinds::limits_hold(&table, &fresh, &seats[0], &seats[2]));
    assert_eq!(post_blinds::check(&fresh, &seats[1], &seats[2]), Ok(()));
    assert_eq!(post_blinds::check(&fresh, &seats[0], &seats[2]), Err(PokerError::InvalidSeatIndex));
}

#[test]
fn fold_and_check_go_through_with_a_full_pot() {
    let (_, mut game, mut seats) = after_blinds(&[1000, 1000, 1000]);
    game.pot = u64::MAX;
    assert!(player_action::limits_hold(&game, &seats[0], FOLD, 0));
    act(&mut game, &mut seats, 0, FOLD, 0).unwrap();
    assert_eq!(game.pot, u64::MAX);
    assert_eq!(game.action_on, 1);
    assert!(player_action::limits_hold(&game, &seats[1], CHECK, 0));
    assert_eq!(act(&mut game, &mut seats, 1, CHECK, 0), Err(PokerError::CannotCheck));
    assert!(player_action::limits_hold(&game, &seats[2], CALL, 0));
    assert_eq!(act(&mut game, &mut seats, 2, CALL, 0), Err(PokerError::NotYourTurn));
}

#[test]
fn check_names_the_action_or_the_refusal() {
    let (_, game, seats) = after_blinds(&[1000, 1000, 1000]);
    assert_eq!(player_action::check(&game, &seats[0], CALL, 0), Ok(BetAction::Call));
    assert_eq!(player_action::check(&game, &seats[0], ALL_IN, 0), Ok(BetAction::AllIn));
    assert_eq!(player_action::check(&game, &seats[0], RAISE, 19), Err(PokerError::RaiseTooSmall));
    assert_eq!(player_action::check(&game, &seats[1], CALL, 0), Err(PokerError::NotYourTurn));
    assert_eq!(player_action::call_amount(&game, &seats[0]), 20);
    assert_eq!(player_action::call_amount(&game, &seats[1]), 10);
    assert_eq!(player_action::call_amount(&game, &seats[2]), 0);
}

#[test]
fn advance_needs_every_seat_that_has_not_folded() {
    let (_, mut game, mut seats) = after_blinds(&[1000, 1000, 1000, 1000]);
    act(&mut game, &mut seats, 3, CALL, 0).unwrap();
    act(&mut game, &mut seats, 0, FOLD, 0).unwrap();
    act(&mut game, &mut seats, 1, CALL, 0).unwrap();
    act(&mut game, &mut seats, 2, CHECK, 0).unwrap();
    let before = game;

    let mut none: Vec<PlayerSeat> = Vec::new();
    assert_eq!(advance_stage::handler(&mut game, &mut none), Err(PokerError::InvalidSeatIndex));
    assert_eq!(game, before);

    let mut some = vec![seats[1], seats[0], seats[3]];
    let handed = some.clone();
    assert!(!advance_stage::remaining_handed_in(&game, &some));
    assert_eq!(advance_stage::handler(&mut game, &mut some), Err(PokerError::InvalidSeatIndex));
    assert_eq!(game, before);
    assert_eq!(some, handed);

    let mut twice = vec![seats[1], seats[1], seats[3]];
    assert_eq!(advance_stage::handler(&mut game, &mut twice), Err(PokerError::InvalidSeatIndex));

    let mut enough = vec![seats[3], seats[2], seats[1]];
    assert!(advance_stage::remaining_handed_in(&game, &enough));
    assert_eq!(advance_stage::handler(&mut game, &mut enough), Ok(()));
    assert_eq!(game.stage, GameStage::Flop);
    for seat in &enough {
        assert_eq!(seat.current_bet, 0);
        assert!(!seat.has_acted);
        assert_eq!(seat.total_bet, 20);
    }
    assert_eq!(enough[0].seat_index, 3);
    assert_eq!(game.action_on, 1);
}

#[test]
fn advance_with_one_player_left_needs_no_seat() {
    let (_, mut game, mut seats) = after_blinds(&[1000, 1000, 1000]);
    act(&mut game, &mut seats, 0, FOLD, 0).unwrap();
    act(&mut game, &mut seats, 1, FOLD, 0).unwrap();
    assert_eq!(game.stage, GameStage::Showdown);
    let before = game;
    let mut none: Vec<PlayerSeat> = Vec::new();
    assert_eq!(advance_stage::handler(&mut game, &mut none), Ok(()));
    assert_eq!(game, before);
}

#[test]
fn hands_stay_well_formed_through_the_betting() {
    let (table, mut game, mut seats) = dealt(&[400, 1000, 60, 1000, 1000]);
    blinds(&table, &mut game, &mut seats);
    assert!(game.is_well_formed());
    let script: [(u8, u64); 10] = [
        (CALL, 0),
        (RAISE, 30),
        (ALL_IN, 0),
        (CALL, 0),
        (ALL_IN, 0),
        (FOLD, 0),
        (CALL, 0),
        (CHECK, 0),
        (FOLD, 0),
        (FOLD, 0),
    ];
    for (code, raise) in script {
        if game.betting_round_complete() && game.stage != GameStage::Finished {
            advance_stage::handler(&mut game, &mut seats).unwrap();
            assert!(game.is_well_formed());
        }
        let seat = game.action_on as usize;
        let _ = act(&mut game, &mut seats, seat, code, raise);
        assert!(game.is_well_formed());
        assert!(seats.iter().all(|s| s.is_well_formed()));
    }
}
