use pass::game::decide_outcome;
use pass::{Address, Error, Game, GameResult, GameStatus, Outcome, RoundVerdict};

fn alice() -> Address {
    Address::Account([0xA1; 32])
}

fn bob() -> Address {
    Address::Account([0xB2; 32])
}

fn carol() -> Address {
    Address::Contract([0xC3; 32])
}

fn playing() -> Game {
    let mut game = Game::new(alice(), bob(), 10, 20);
    game.register_secret(alice(), [1u8; 32]).unwrap();
    game.register_secret(bob(), [2u8; 32]).unwrap();
    game
}

fn round_of(digits: u32, counts1: (u32, u32, u32), counts2: (u32, u32, u32)) -> Game {
    let mut game = playing();
    game.submit_guess(alice(), 1234).unwrap();
    game.submit_guess(bob(), 5678).unwrap();
    game.submit_proof(digits, alice(), counts1.0, counts1.1, counts1.2, vec![1, 2, 3]).unwrap();
    game.submit_proof(digits, bob(), counts2.0, counts2.1, counts2.2, vec![4, 5]).unwrap();
    game
}

fn round(counts1: (u32, u32, u32), counts2: (u32, u32, u32)) -> Game {
    round_of(4, counts1, counts2)
}

fn zero(player: Address) -> GameResult {
    GameResult { player, acertos: 0, erros: 0, permutados: 0 }
}

#[test]
fn new_game_starts_in_setup_with_nothing_stored() {
    let game = Game::new(alice(), bob(), 10, 20);
    assert_eq!(game.status, GameStatus::Setup);
    assert_eq!(game.player1, alice());
    assert_eq!(game.player2, bob());
    assert_eq!(game.player1_points, 10);
    assert_eq!(game.player2_points, 20);
    assert_eq!(game.player1_secret_hash, None);
    assert_eq!(game.player2_secret_hash, None);
    assert_eq!(game.player1_last_guess, None);
    assert_eq!(game.player2_last_guess, None);
    assert_eq!(game.player1_proof, None);
    assert_eq!(game.player2_proof, None);
    assert_eq!(game.winner, None);
    assert_eq!(game.player1_result, None);
    assert_eq!(game.player2_result, None);
}

#[test]
fn registration_in_either_order_reaches_playing() {
    let mut first = Game::new(alice(), bob(), 1, 1);
    assert_eq!(first.register_secret(alice(), [1u8; 32]), Ok(()));
    assert_eq!(first.status, GameStatus::Setup);
    assert_eq!(first.register_secret(bob(), [2u8; 32]), Ok(()));
    assert_eq!(first.status, GameStatus::Playing);

    let mut second = Game::new(alice(), bob(), 1, 1);
    assert_eq!(second.register_secret(bob(), [2u8; 32]), Ok(()));
    assert_eq!(second.status, GameStatus::Setup);
    assert_eq!(second.register_secret(alice(), [1u8; 32]), Ok(()));
    assert_eq!(second.status, GameStatus::Playing);

    assert_eq!(first, second);
    assert_eq!(first.player1_secret_hash, Some([1u8; 32]));
    assert_eq!(first.player2_secret_hash, Some([2u8; 32]));
}

#[test]
fn second_registration_is_rejected_and_keeps_the_commitment() {
    let mut game = Game::new(alice(), bob(), 1, 1);
    game.register_secret(bob(), [2u8; 32]).unwrap();
    assert_eq!(game.register_secret(bob(), [7u8; 32]), Err(Error::SecretAlreadyRegistered));
    assert_eq!(game.player2_secret_hash, Some([2u8; 32]));
    assert_eq!(game.status, GameStatus::Setup);

    game.register_secret(alice(), [1u8; 32]).unwrap();
    assert_eq!(game.status, GameStatus::Playing);
    assert_eq!(game.register_secret(alice(), [7u8; 32]), Err(Error::SecretAlreadyRegistered));
    assert_eq!(game.register_secret(bob(), [7u8; 32]), Err(Error::SecretAlreadyRegistered));
    assert_eq!(game.player1_secret_hash, Some([1u8; 32]));
    assert_eq!(game.player2_secret_hash, Some([2u8; 32]));
}

#[test]
fn register_secret_by_a_stranger_is_rejected() {
    let mut game = Game::new(alice(), bob(), 1, 1);
    assert_eq!(game.register_secret(carol(), [3u8; 32]), Err(Error::NotPlayer));
    assert_eq!(game, Game::new(alice(), bob(), 1, 1));
    let mut started = playing();
    assert_eq!(started.register_secret(carol(), [3u8; 32]), Err(Error::NotPlayer));
}

#[test]
fn register_secret_outside_setup_is_rejected() {
    let mut game = Game::new(alice(), bob(), 1, 1);
    game.status = GameStatus::Playing;
    assert_eq!(game.register_secret(alice(), [1u8; 32]), Err(Error::InvalidStatus));
    assert_eq!(game.player1_secret_hash, None);
}

#[test]
fn guesses_and_proofs_need_playing() {
    let mut game = Game::new(alice(), bob(), 1, 1);
    assert_eq!(game.submit_guess(alice(), 1), Err(Error::InvalidStatus));
    assert_eq!(game.submit_proof(4, alice(), 0, 0, 4, vec![1]), Err(Error::InvalidStatus));
    assert_eq!(game.submit_guess(carol(), 1), Err(Error::InvalidStatus));
    game.register_secret(alice(), [1u8; 32]).unwrap();
    assert_eq!(game.submit_guess(bob(), 1), Err(Error::InvalidStatus));
    assert_eq!(game.player1_last_guess, None);
    assert_eq!(game.player1_proof, None);
}

#[test]
fn guesses_and_proofs_by_a_stranger_are_rejected() {
    let mut game = playing();
    assert_eq!(game.submit_guess(carol(), 1), Err(Error::NotPlayer));
    assert_eq!(game.submit_proof(4, carol(), 0, 0, 4, vec![1]), Err(Error::NotPlayer));
    assert_eq!(game, playing());
}

#[test]
fn a_new_submission_overwrites_the_earlier_one() {
    let mut game = playing();
    game.submit_guess(alice(), 1111).unwrap();
    game.submit_guess(alice(), 2222).unwrap();
    assert_eq!(game.player1_last_guess, Some(2222));
    assert_eq!(game.player2_last_guess, None);
    game.submit_proof(4, bob(), 1, 1, 2, vec![9]).unwrap();
    game.submit_proof(4, bob(), 2, 0, 2, vec![8, 8]).unwrap();
    let stored = game.player2_proof.clone().unwrap();
    assert_eq!(stored.player, bob());
    assert_eq!(stored.acertos, 2);
    assert_eq!(stored.permutados, 0);
    assert_eq!(stored.erros, 2);
    assert_eq!(stored.proof, vec![8, 8]);
    assert_eq!(game.player1_proof, None);
}

#[test]
fn submissions_of_the_two_players_commute() {
    let mut first = playing();
    first.submit_guess(alice(), 1).unwrap();
    first.submit_proof(4, bob(), 0, 0, 4, vec![1]).unwrap();
    first.submit_guess(bob(), 2).unwrap();
    first.submit_proof(4, alice(), 1, 0, 3, vec![2]).unwrap();
    let mut second = playing();
    second.submit_proof(4, alice(), 1, 0, 3, vec![2]).unwrap();
    second.submit_guess(bob(), 2).unwrap();
    second.submit_proof(4, bob(), 0, 0, 4, vec![1]).unwrap();
    second.submit_guess(alice(), 1).unwrap();
    assert_eq!(first, second);
}

#[test]
fn decide_outcome_table() {
    assert_eq!(decide_outcome(4, true, 4, true, 4), Outcome::Draw);
    assert_eq!(decide_outcome(4, true, 4, true, 3), Outcome::Player1Wins);
    assert_eq!(decide_outcome(4, true, 0, true, 4), Outcome::Player2Wins);
    assert_eq!(decide_outcome(4, true, 3, true, 3), Outcome::Continue);
    assert_eq!(decide_outcome(4, false, 4, true, 0), Outcome::Player2Wins);
    assert_eq!(decide_outcome(4, true, 0, false, 4), Outcome::Player1Wins);
    assert_eq!(decide_outcome(4, false, 4, false, 4), Outcome::Draw);
    assert_eq!(decide_outcome(3, true, 3, true, 4), Outcome::Player1Wins);
}

#[test]
fn resolve_needs_both_guesses() {
    let mut game = playing();
    assert_eq!(game.resolve_round(4, true, true), Err(Error::BothPlayersNotGuessed));
    game.submit_guess(alice(), 1).unwrap();
    game.submit_proof(4, alice(), 0, 0, 4, vec![1]).unwrap();
    game.submit_proof(4, bob(), 0, 0, 4, vec![1]).unwrap();
    assert_eq!(game.resolve_round(4, true, true), Err(Error::BothPlayersNotGuessed));
    assert_eq!(game.status, GameStatus::Playing);
    assert_eq!(game.player1_last_guess, Some(1));
}

#[test]
fn resolve_needs_both_proofs() {
    let mut game = playing();
    game.submit_guess(alice(), 1).unwrap();
    game.submit_guess(bob(), 2).unwrap();
    assert!(!game.round_ready());
    assert_eq!(game.resolve_round(4, true, true), Err(Error::InvalidStatus));
    game.submit_proof(4, bob(), 0, 0, 4, vec![1]).unwrap();
    assert_eq!(game.resolve_round(4, true, true), Err(Error::InvalidStatus));
    game.submit_proof(4, alice(), 0, 0, 4, vec![1]).unwrap();
    assert!(game.round_ready());
}

#[test]
fn resolve_in_setup_is_rejected() {
    let mut game = Game::new(alice(), bob(), 1, 1);
    assert_eq!(game.resolve_round(4, true, true), Err(Error::InvalidStatus));
    assert_eq!(game, Game::new(alice(), bob(), 1, 1));
}

#[test]
fn both_at_threshold_is_a_draw() {
    let mut game = round((4, 0, 0), (4, 0, 0));
    let verdict = game.resolve_round(4, true, true).unwrap();
    assert_eq!(game.status, GameStatus::Draw);
    assert_eq!(game.winner, None);
    let r1 = GameResult { player: alice(), acertos: 4, erros: 0, permutados: 0 };
    let r2 = GameResult { player: bob(), acertos: 4, erros: 0, permutados: 0 };
    assert_eq!(game.player1_result, Some(r1));
    assert_eq!(game.player2_result, Some(r2));
    assert_eq!(
        verdict,
        RoundVerdict { player1_result: r1, player2_result: r2, settlement: Some(false) }
    );
    assert_eq!(game.has_game_ended(), Ok(None));
}

#[test]
fn the_player_at_threshold_wins() {
    let mut game = round((1, 2, 1), (4, 0, 0));
    let verdict = game.resolve_round(4, true, true).unwrap();
    assert_eq!(game.status, GameStatus::Winner);
    assert_eq!(game.winner, Some(alice()));
    assert_eq!(verdict.settlement, Some(true));
    assert_eq!(
        verdict.player1_result,
        GameResult { player: alice(), acertos: 4, erros: 0, permutados: 0 }
    );
    assert_eq!(
        verdict.player2_result,
        GameResult { player: bob(), acertos: 1, erros: 1, permutados: 2 }
    );
    assert_eq!(game.has_game_ended(), Ok(Some(alice())));

    let mut other = round((4, 0, 0), (0, 1, 3));
    let verdict = other.resolve_round(4, true, true).unwrap();
    assert_eq!(other.winner, Some(bob()));
    assert_eq!(verdict.settlement, Some(false));
}

#[test]
fn threshold_follows_the_number_of_digits() {
    let mut three = round_of(3, (3, 0, 0), (1, 1, 1));
    let verdict = three.resolve_round(3, true, true).unwrap();
    assert_eq!(three.status, GameStatus::Winner);
    assert_eq!(three.winner, Some(bob()));
    assert_eq!(verdict.settlement, Some(false));

    let mut four = round((3, 0, 1), (1, 1, 2));
    let verdict = four.resolve_round(4, true, true).unwrap();
    assert_eq!(four.status, GameStatus::Playing);
    assert_eq!(verdict.settlement, None);
}

#[test]
fn a_refused_proof_loses_whatever_the_counts() {
    let mut game = round((4, 0, 0), (0, 0, 4));
    let verdict = game.resolve_round(4, false, true).unwrap();
    assert_eq!(game.status, GameStatus::Winner);
    assert_eq!(game.winner, Some(bob()));
    assert_eq!(
        verdict,
        RoundVerdict {
            player1_result: zero(alice()),
            player2_result: zero(bob()),
            settlement: Some(false),
        }
    );

    let mut other = round((0, 0, 4), (0, 0, 4));
    let verdict = other.resolve_round(4, true, false).unwrap();
    assert_eq!(other.status, GameStatus::Winner);
    assert_eq!(other.winner, Some(alice()));
    assert_eq!(verdict.settlement, Some(true));
    assert_eq!(other.player1_result, Some(zero(alice())));
    assert_eq!(other.player2_result, Some(zero(bob())));
}

#[test]
fn counts_that_do_not_add_up_are_not_stored() {
    let mut game = playing();
    game.submit_proof(4, alice(), 0, 0, 4, vec![7]).unwrap();
    let before = game.clone();
    assert_eq!(game.submit_proof(4, alice(), 9, 9, 9, vec![1]), Err(Error::InvalidStatus));
    assert_eq!(game.submit_proof(4, bob(), 4, 1, 0, vec![1]), Err(Error::InvalidStatus));
    assert_eq!(game.submit_proof(4, bob(), 1, 1, 1, vec![1]), Err(Error::InvalidStatus));
    assert_eq!(game.submit_proof(4, bob(), 0, 0, 0, vec![1]), Err(Error::InvalidStatus));
    assert_eq!(
        game.submit_proof(4, bob(), u32::MAX, u32::MAX, 6, vec![1]),
        Err(Error::InvalidStatus)
    );
    assert_eq!(game.submit_proof(3, bob(), 4, 0, 0, vec![1]), Err(Error::InvalidStatus));
    assert_eq!(game, before);
    assert_eq!(game.player2_proof, None);
    assert_eq!(game.submit_proof(4, carol(), 9, 9, 9, vec![1]), Err(Error::NotPlayer));
    assert_eq!(game.submit_proof(3, bob(), 1, 1, 1, vec![1]), Ok(()));
}

#[test]
fn an_accepted_proof_wins_against_a_refused_one_whatever_it_reports() {
    let mut game = round((0, 0, 4), (4, 0, 0));
    let verdict = game.resolve_round(4, true, false).unwrap();
    assert_eq!(game.status, GameStatus::Winner);
    assert_eq!(game.winner, Some(alice()));
    assert_eq!(verdict.settlement, Some(true));

    let mut both = round((4, 0, 0), (4, 0, 0));
    let verdict = both.resolve_round(4, false, true).unwrap();
    assert_eq!(both.status, GameStatus::Winner);
    assert_eq!(both.winner, Some(bob()));
    assert_eq!(verdict.settlement, Some(false));
}

#[test]
fn is_well_formed_tells_sound_sessions_from_others() {
    let fresh = Game::new(alice(), bob(), 1, 1);
    assert!(fresh.is_well_formed(4));
    assert!(playing().is_well_formed(4));
    let pending = round((1, 2, 1), (4, 0, 0));
    assert!(pending.is_well_formed(4));
    assert!(!pending.is_well_formed(3));
    let mut ended = round((1, 2, 1), (4, 0, 0));
    ended.resolve_round(4, true, true).unwrap();
    assert!(ended.is_well_formed(4));
    let mut fraud = round((1, 2, 1), (4, 0, 0));
    fraud.resolve_round(4, false, true).unwrap();
    assert!(fraud.is_well_formed(4));

    let mut same = Game::new(alice(), bob(), 1, 1);
    same.player2 = alice();
    assert!(!same.is_well_formed(4));
    let mut early = Game::new(alice(), bob(), 1, 1);
    early.status = GameStatus::Playing;
    assert!(!early.is_well_formed(4));
    let mut late = playing();
    late.status = GameStatus::Setup;
    assert!(!late.is_well_formed(4));
    let mut stranger = playing();
    stranger.status = GameStatus::Winner;
    stranger.winner = Some(carol());
    stranger.player1_result = Some(zero(alice()));
    stranger.player2_result = Some(zero(bob()));
    assert!(!stranger.is_well_formed(4));
    stranger.winner = Some(bob());
    assert!(stranger.is_well_formed(4));
    stranger.player1_result = None;
    assert!(!stranger.is_well_formed(4));
    let mut unknown = playing();
    unknown.status = GameStatus::Finished;
    assert!(!unknown.is_well_formed(4));
    let mut swapped = round((1, 2, 1), (4, 0, 0));
    swapped.player1_result = Some(zero(bob()));
    swapped.player2_result = Some(zero(alice()));
    assert!(!swapped.is_well_formed(4));
}

#[test]
fn two_refused_proofs_are_a_draw() {
    let mut game = round((4, 0, 0), (0, 0, 4));
    let verdict = game.resolve_round(4, false, false).unwrap();
    assert_eq!(game.status, GameStatus::Draw);
    assert_eq!(game.winner, None);
    assert_eq!(verdict.settlement, Some(false));
    assert_eq!(verdict.player1_result, zero(alice()));
    assert_eq!(verdict.player2_result, zero(bob()));
}

#[test]
fn continue_clears_the_round_and_keeps_the_results() {
    let mut game = round((1, 1, 2), (2, 0, 2));
    let verdict = game.resolve_round(4, true, true).unwrap();
    assert_eq!(verdict.settlement, None);
    assert_eq!(game.status, GameStatus::Playing);
    assert_eq!(game.player1_last_guess, None);
    assert_eq!(game.player2_last_guess, None);
    assert_eq!(game.player1_proof, None);
    assert_eq!(game.player2_proof, None);
    assert_eq!(game.winner, None);
    let r1 = GameResult { player: alice(), acertos: 2, erros: 2, permutados: 0 };
    let r2 = GameResult { player: bob(), acertos: 1, erros: 2, permutados: 1 };
    assert_eq!(game.get_player_result(alice()), Ok(r1));
    assert_eq!(game.get_player_result(bob()), Ok(r2));

    game.submit_guess(alice(), 42).unwrap();
    game.submit_proof(4, bob(), 0, 0, 4, vec![1]).unwrap();
    assert_eq!(game.get_player_result(alice()), Ok(r1));
    assert_eq!(game.get_player_result(bob()), Ok(r2));
    assert_eq!(game.resolve_round(4, true, true), Err(Error::BothPlayersNotGuessed));
    assert_eq!(game.player1_secret_hash, Some([1u8; 32]));
    assert_eq!(game.player2_secret_hash, Some([2u8; 32]));
}

#[test]
fn resolving_an_ended_session_returns_the_same_results() {
    let mut game = round((1, 2, 1), (4, 0, 0));
    let first = game.resolve_round(4, true, true).unwrap();
    let ended = game.clone();
    let second = game.resolve_round(4, true, true).unwrap();
    let third = game.resolve_round(4, false, false).unwrap();
    assert_eq!(first.settlement, Some(true));
    assert_eq!(second.settlement, None);
    assert_eq!(second.player1_result, first.player1_result);
    assert_eq!(second.player2_result, first.player2_result);
    assert_eq!(second, third);
    assert_eq!(game, ended);
}

#[test]
fn an_ended_session_takes_no_more_moves() {
    let mut game = round((4, 0, 0), (4, 0, 0));
    game.resolve_round(4, true, true).unwrap();
    let ended = game.clone();
    assert_eq!(game.submit_guess(alice(), 1), Err(Error::InvalidStatus));
    assert_eq!(game.submit_proof(4, bob(), 4, 0, 0, vec![1]), Err(Error::InvalidStatus));
    assert_eq!(game.register_secret(alice(), [9u8; 32]), Err(Error::SecretAlreadyRegistered));
    assert_eq!(game, ended);
    assert!(game.status.has_ended());
}

#[test]
fn has_game_ended_is_refused_while_the_session_goes_on() {
    let setup = Game::new(alice(), bob(), 1, 1);
    assert_eq!(setup.has_game_ended(), Err(Error::InvalidStatus));
    assert_eq!(playing().has_game_ended(), Err(Error::InvalidStatus));
    assert!(!setup.status.has_ended());
    assert!(!playing().status.has_ended());
}

#[test]
fn get_player_result_errors() {
    let game = playing();
    assert_eq!(game.get_player_result(alice()), Err(Error::InvalidStatus));
    assert_eq!(game.get_player_result(bob()), Err(Error::InvalidStatus));
    assert_eq!(game.get_player_result(carol()), Err(Error::NotPlayer));
}

#[test]
fn clone_copies_every_field() {
    let game = round((1, 2, 1), (4, 0, 0));
    let copy = game.clone();
    assert_eq!(copy, game);
    assert_eq!(copy.player1_proof.unwrap().proof, vec![1, 2, 3]);
    assert_eq!(copy.player2_proof.unwrap().proof, vec![4, 5]);
}
