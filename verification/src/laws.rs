//! What holds of every session, whatever the players and the verifier do.
//!
//! The laws are stated over the mathematical view of a session and the
//! functions that say what each operation returns and leaves behind, so they
//! hold of every call of the operations themselves.

use crate::game::{GameView, RoundVerdict};
use crate::types::{Address, Error, GameResult, ProofDataView};
use vstd::prelude::*;

verus! {

/// One call of an operation that can change a session.
pub enum Move {
    /// `register_secret` by a player.
    Register { player: Address, secret_hash: [u8; 32] },
    /// `submit_guess` by a player.
    Guess { player: Address, guess: u32 },
    /// `submit_proof` with the counts and the proof of a player.
    Prove { proof: ProofDataView },
    /// `resolve_round`, with what the verifier said of the two proofs.
    Resolve { verified1: bool, verified2: bool },
}

/// The session after one call, in a deployment with secrets of `digits`
/// digits.
pub open spec fn step(game: GameView, digits: u32, m: Move) -> GameView {
    match m {
        Move::Register { player, secret_hash } => game.after_register_secret(player, secret_hash),
        Move::Guess { player, guess } => game.after_submit_guess(player, guess),
        Move::Prove { proof } => game.after_submit_proof(digits, proof),
        Move::Resolve { verified1, verified2 } => game.after_resolve(digits, verified1, verified2),
    }
}

/// What the session authority is told after one call: something only when
/// the call resolves a round.
pub open spec fn settlement(game: GameView, digits: u32, m: Move) -> Option<bool> {
    match m {
        Move::Resolve { verified1, verified2 } => match game.verdict(digits, verified1, verified2) {
            Ok(verdict) => verdict.settlement,
            Err(_) => None,
        },
        _ => None,
    }
}

/// A session is well formed when it is created.
pub proof fn fresh_game_is_well_formed(
    player1: Address,
    player2: Address,
    player1_points: i128,
    player2_points: i128,
    digits: u32,
)
    requires
        player1 != player2,
    ensures
        GameView::fresh(player1, player2, player1_points, player2_points).wf(digits),
{
}

/// Every call leaves a well-formed session well formed, whether it is
/// accepted or refused.
pub proof fn step_keeps_well_formed(game: GameView, digits: u32, m: Move)
    requires
        game.wf(digits),
    ensures
        step(game, digits, m).wf(digits),
{
}

/// The status of a session only moves forward, from `Setup` to `Playing`
/// to an end: no call lowers its rank, none brings a session back to
/// `Setup`, and a session that has ended keeps its status and its winner.
pub proof fn status_only_advances(game: GameView, digits: u32, m: Move)
    requires
        game.wf(digits),
    ensures
        step(game, digits, m).status.rank() >= game.status.rank(),
        !(game.status is Setup) ==> !(step(game, digits, m).status is Setup),
        game.status.is_terminal() ==> step(game, digits, m) == game,
{
}

/// A guess is accepted only from a party, while the session is `Playing`.
pub proof fn guesses_need_playing(game: GameView, player: Address)
    requires
        game.submit_guess_result(player) is Ok,
    ensures
        game.status is Playing,
        player == game.player1 || player == game.player2,
{
}

/// A submission of counts is accepted only from a party, while the session
/// is `Playing`, and only if the counts add up to the number of digits.
/// Counts that do not add up are refused with `InvalidStatus` where nothing
/// else is wrong, and a refused submission leaves the session as it was.
pub proof fn proofs_need_counts_that_add_up(game: GameView, digits: u32, proof: ProofDataView)
    ensures
        game.submit_proof_result(digits, proof) is Ok <==> game.status is Playing && (proof.player
            == game.player1 || proof.player == game.player2) && proof.acertos + proof.permutados
            + proof.erros == digits,
        game.status is Playing && (proof.player == game.player1 || proof.player == game.player2)
            && proof.acertos + proof.permutados + proof.erros != digits
            ==> game.submit_proof_result(digits, proof) == Err::<(), Error>(Error::InvalidStatus),
        game.submit_proof_result(digits, proof) is Err ==> game.after_submit_proof(digits, proof)
            == game,
{
}

/// Every submission that is pending in a well-formed session was made by
/// the player it is stored for, with counts that add up to the number of
/// digits; and so it stays after every call.
pub proof fn pending_counts_add_up(game: GameView, digits: u32, m: Move)
    requires
        game.wf(digits),
    ensures
        ({
            let next = step(game, digits, m);
            &&& next.player1_proof matches Some(p) ==> p.player == next.player1 && p.acertos
                + p.permutados + p.erros == digits
            &&& next.player2_proof matches Some(p) ==> p.player == next.player2 && p.acertos
                + p.permutados + p.erros == digits
        }),
{
}

/// The players and a commitment, once made, never change.
pub proof fn commitment_is_final(game: GameView, digits: u32, m: Move)
    ensures
        step(game, digits, m).player1 == game.player1,
        step(game, digits, m).player2 == game.player2,
        game.player1_secret_hash is Some ==> step(game, digits, m).player1_secret_hash
            == game.player1_secret_hash,
        game.player2_secret_hash is Some ==> step(game, digits, m).player2_secret_hash
            == game.player2_secret_hash,
{
}

/// The two players may register in either order: the session ends up the
/// same, and each of them gets the same answer whether called first or
/// second.
pub proof fn registration_commutes(
    game: GameView,
    a: Address,
    hash_a: [u8; 32],
    b: Address,
    hash_b: [u8; 32],
)
    requires
        a != b,
    ensures
        game.after_register_secret(a, hash_a).after_register_secret(b, hash_b)
            == game.after_register_secret(b, hash_b).after_register_secret(a, hash_a),
        game.after_register_secret(b, hash_b).register_secret_result(a)
            == game.register_secret_result(a),
        game.after_register_secret(a, hash_a).register_secret_result(b)
            == game.register_secret_result(b),
{
}

/// A player who has registered is refused with `SecretAlreadyRegistered`
/// when registering again, at once or after any other call.
pub proof fn second_registration_rejected(
    game: GameView,
    digits: u32,
    player: Address,
    secret_hash: [u8; 32],
    m: Move,
)
    requires
        game.register_secret_result(player) is Ok,
    ensures
        game.after_register_secret(player, secret_hash).register_secret_result(player) == Err::<
            (),
            Error,
        >(Error::SecretAlreadyRegistered),
        step(game.after_register_secret(player, secret_hash), digits, m).register_secret_result(
            player,
        ) == Err::<(), Error>(Error::SecretAlreadyRegistered),
{
}

/// A session is in `Setup` exactly as long as a commitment is missing, and
/// it becomes `Playing` with the call that stores the second one.
pub proof fn playing_iff_both_committed(game: GameView, digits: u32, m: Move)
    requires
        game.wf(digits),
    ensures
        step(game, digits, m).status is Setup <==> !step(game, digits, m).both_committed(),
        game.status is Setup && step(game, digits, m).status is Playing <==> !game.both_committed()
            && step(game, digits, m).both_committed(),
{
}

/// A new session is `Playing` after both players have registered, in
/// either order, and still in `Setup` after the first of them.
pub proof fn playing_after_both_orders(
    player1: Address,
    player2: Address,
    player1_points: i128,
    player2_points: i128,
    hash1: [u8; 32],
    hash2: [u8; 32],
)
    requires
        player1 != player2,
    ensures
        ({
            let game = GameView::fresh(player1, player2, player1_points, player2_points);
            &&& game.after_register_secret(player1, hash1).status is Setup
            &&& game.after_register_secret(player2, hash2).status is Setup
            &&& game.after_register_secret(player1, hash1).after_register_secret(
                player2,
                hash2,
            ).status is Playing
            &&& game.after_register_secret(player2, hash2).after_register_secret(
                player1,
                hash1,
            ).status is Playing
        }),
{
}

/// Guesses and proofs may come in any order: two submissions that are not
/// of the same kind by the same player leave the same session behind
/// whichever comes first.
pub proof fn submissions_commute(game: GameView, digits: u32, m1: Move, m2: Move)
    requires
        m1 is Guess || m1 is Prove,
        m2 is Guess || m2 is Prove,
        match (m1, m2) {
            (Move::Guess { player: a, .. }, Move::Guess { player: b, .. }) => a != b,
            (Move::Prove { proof: p }, Move::Prove { proof: q }) => p.player != q.player,
            _ => true,
        },
    ensures
        step(step(game, digits, m1), digits, m2) == step(step(game, digits, m2), digits, m1),
{
}

/// A round that is ready is always decided: the session is left in the
/// status of the outcome, both results of the round are stored, and the
/// session authority is told what the outcome says.
pub proof fn ready_round_is_decided(game: GameView, digits: u32, verified1: bool, verified2: bool)
    requires
        game.round_ready(),
    ensures
        ({
            let outcome = game.outcome(digits, verified1, verified2);
            let next = game.after_resolve(digits, verified1, verified2);
            &&& next.status == outcome.status()
            &&& next.player1_result == Some(game.round_result1(verified1, verified2))
            &&& next.player2_result == Some(game.round_result2(verified1, verified2))
            &&& game.verdict(digits, verified1, verified2) matches Ok(verdict)
            &&& verdict.settlement == outcome.settlement()
            &&& Some(verdict.player1_result) == next.player1_result
            &&& Some(verdict.player2_result) == next.player2_result
        }),
{
}

/// No proof is put to the verifier twice: once a round is resolved, the
/// session has no round that is ready, until both players have submitted
/// anew.
pub proof fn resolved_round_is_not_ready(
    game: GameView,
    digits: u32,
    verified1: bool,
    verified2: bool,
)
    requires
        game.round_ready(),
    ensures
        !game.after_resolve(digits, verified1, verified2).round_ready(),
{
}

/// When the verifier accepts both proofs and both guesses have as many
/// exact matches as the secret has digits, the session is a draw: nobody
/// wins, the session authority is told so, and both results of the round
/// are stored, where `get_player_result` finds them.
pub proof fn both_at_threshold_is_draw(game: GameView, digits: u32, verified1: bool, verified2: bool)
    requires
        game.round_ready(),
        verified1,
        verified2,
        game.player1_proof.unwrap().acertos == digits,
        game.player2_proof.unwrap().acertos == digits,
    ensures
        ({
            let next = game.after_resolve(digits, verified1, verified2);
            &&& next.status is Draw
            &&& next.winner is None
            &&& next.player1_result == Some(
                GameResult {
                    player: game.player1,
                    acertos: digits,
                    erros: game.player2_proof.unwrap().erros,
                    permutados: game.player2_proof.unwrap().permutados,
                },
            )
            &&& next.player2_result == Some(
                GameResult {
                    player: game.player2,
                    acertos: digits,
                    erros: game.player1_proof.unwrap().erros,
                    permutados: game.player1_proof.unwrap().permutados,
                },
            )
            &&& game.verdict(digits, verified1, verified2) == Ok::<RoundVerdict, Error>(
                RoundVerdict {
                    player1_result: next.player1_result.unwrap(),
                    player2_result: next.player2_result.unwrap(),
                    settlement: Some(false),
                },
            )
            &&& game.player1 != game.player2 ==> Some(next.player_result(game.player1).unwrap())
                == next.player1_result && next.player_result(game.player1) is Ok && Some(
                next.player_result(game.player2).unwrap(),
            ) == next.player2_result && next.player_result(game.player2) is Ok
        }),
{
}

/// When the verifier accepts both proofs and exactly one guess has as many exact
/// matches as the secret has digits, the player who made it wins.
pub proof fn one_at_threshold_wins(game: GameView, digits: u32, verified1: bool, verified2: bool)
    requires
        game.round_ready(),
        verified1,
        verified2,
        (game.player1_proof.unwrap().acertos == digits) != (game.player2_proof.unwrap().acertos
            == digits),
    ensures
        ({
            let next = game.after_resolve(digits, verified1, verified2);
            let player1_won = game.player2_proof.unwrap().acertos == digits;
            &&& next.status is Winner
            &&& next.winner == Some(
                if player1_won {
                    game.player1
                } else {
                    game.player2
                },
            )
            &&& game.verdict(digits, verified1, verified2) matches Ok(verdict)
            &&& verdict.settlement == Some(player1_won)
        }),
{
}

/// When the verifier refuses exactly one proof, the player who submitted
/// the other one wins, whatever counts the two proofs report, and the
/// session authority is told so: with `true` exactly if the verifier
/// accepted player 1's proof.
pub proof fn fraud_loses(game: GameView, digits: u32, verified1: bool, verified2: bool)
    requires
        game.round_ready(),
        verified1 != verified2,
    ensures
        ({
            let next = game.after_resolve(digits, verified1, verified2);
            let player1_won = verified1;
            &&& next.status is Winner
            &&& next.winner == Some(
                if player1_won {
                    game.player1
                } else {
                    game.player2
                },
            )
            &&& game.verdict(digits, verified1, verified2) matches Ok(verdict)
            &&& verdict.settlement == Some(player1_won)
        }),
{
}

/// When the verifier refuses both proofs the session is a draw.
pub proof fn double_fraud_is_draw(game: GameView, digits: u32, verified1: bool, verified2: bool)
    requires
        game.round_ready(),
        !verified1,
        !verified2,
    ensures
        ({
            let next = game.after_resolve(digits, verified1, verified2);
            &&& next.status is Draw
            &&& next.winner is None
            &&& game.verdict(digits, verified1, verified2) matches Ok(verdict)
            &&& verdict.settlement == Some(false)
        }),
{
}

/// The session authority is told of the end of a session exactly once: by
/// the call that ends it, and with `true` exactly if player 1 has won.
pub proof fn settled_exactly_once(game: GameView, digits: u32, m: Move)
    requires
        game.wf(digits),
    ensures
        settlement(game, digits, m) is Some <==> !game.status.is_terminal() && step(
            game,
            digits,
            m,
        ).status.is_terminal(),
        settlement(game, digits, m) matches Some(player1_won) ==> (player1_won <==> step(
            game,
            digits,
            m,
        ).winner == Some(game.player1)),
{
}

/// When the verifier accepts both proofs and neither guess has as many
/// exact matches as the secret has digits, the session goes on: the guesses
/// and proofs of the round are cleared, nobody has won, nothing is settled,
/// players, stakes and commitments stay, and the results of the round are
/// stored, where `get_player_result` finds them.
pub proof fn continue_clears_round(game: GameView, digits: u32, verified1: bool, verified2: bool)
    requires
        game.round_ready(),
        verified1,
        verified2,
        game.player1_proof.unwrap().acertos != digits,
        game.player2_proof.unwrap().acertos != digits,
    ensures
        ({
            let next = game.after_resolve(digits, verified1, verified2);
            &&& game.outcome(digits, verified1, verified2) is Continue
            &&& next.status is Playing
            &&& next.winner == game.winner
            &&& next.player1 == game.player1
            &&& next.player2 == game.player2
            &&& next.player1_points == game.player1_points
            &&& next.player2_points == game.player2_points
            &&& next.player1_secret_hash == game.player1_secret_hash
            &&& next.player2_secret_hash == game.player2_secret_hash
            &&& game.verdict(digits, verified1, verified2) matches Ok(verdict)
            &&& verdict.settlement is None
            &&& next.player1_last_guess is None
            &&& next.player2_last_guess is None
            &&& next.player1_proof is None
            &&& next.player2_proof is None
            &&& next.player1_result == Some(game.round_result1(verified1, verified2))
            &&& next.player2_result == Some(game.round_result2(verified1, verified2))
            &&& game.player1 != game.player2 ==> next.player_result(game.player1) == Ok::<
                GameResult,
                Error,
            >(game.round_result1(verified1, verified2)) && next.player_result(
                game.player2,
            ) == Ok::<GameResult, Error>(game.round_result2(verified1, verified2))
        }),
{
}

/// The stored results change only when a round is resolved: registering,
/// guessing and proving leave them as they are.
pub proof fn results_outlive_submissions(game: GameView, digits: u32, m: Move, player: Address)
    requires
        !(m is Resolve),
    ensures
        step(game, digits, m).player1_result == game.player1_result,
        step(game, digits, m).player2_result == game.player2_result,
        step(game, digits, m).player_result(player) == game.player_result(player),
{
}

/// Resolving a session that has ended changes nothing and returns the
/// stored results, with nothing to settle, whatever the verifier is said to
/// have answered.
pub proof fn ended_session_repeats_verdict(
    game: GameView,
    digits: u32,
    verified1: bool,
    verified2: bool,
)
    requires
        game.wf(digits),
        game.status.is_terminal(),
    ensures
        game.after_resolve(digits, verified1, verified2) == game,
        game.verdict(digits, verified1, verified2) == Ok::<RoundVerdict, Error>(
            RoundVerdict {
                player1_result: game.player1_result.unwrap(),
                player2_result: game.player2_result.unwrap(),
                settlement: None,
            },
        ),
{
}

/// After the call that ends a session, every further call to resolve it
/// returns the results that call returned, and nothing more to settle.
pub proof fn verdict_is_cached(
    game: GameView,
    digits: u32,
    verified1: bool,
    verified2: bool,
    again1: bool,
    again2: bool,
)
    requires
        game.round_ready(),
        !(game.outcome(digits, verified1, verified2) is Continue),
    ensures
        ({
            let next = game.after_resolve(digits, verified1, verified2);
            &&& game.verdict(digits, verified1, verified2) matches Ok(first)
            &&& first.settlement is Some
            &&& next.verdict(digits, again1, again2) == Ok::<RoundVerdict, Error>(
                RoundVerdict { settlement: None, ..first },
            )
            &&& next.after_resolve(digits, again1, again2) == next
        }),
{
}

/// The results stored for a round of a well-formed session either carry
/// counts that add up to the number of digits, or carry no counts because
/// the verifier refused a proof.
pub proof fn accepted_counts_add_up(game: GameView, digits: u32, verified1: bool, verified2: bool)
    requires
        game.wf(digits),
        game.round_ready(),
    ensures
        ({
            let r1 = game.round_result1(verified1, verified2);
            let r2 = game.round_result2(verified1, verified2);
            if verified1 && verified2 {
                r1.adds_up_to(digits) && r2.adds_up_to(digits)
            } else {
                r1 == GameResult::empty(game.player1) && r2 == GameResult::empty(game.player2)
            }
        }),
{
}

} // verus!
