//! One session of the game: two players, their commitments, the guesses and
//! proofs of the round being played, and the rules that take the session from
//! `Setup` through `Playing` to a draw or a winner.

use crate::types::{proof_view, Address, Error, GameResult, GameStatus, ProofData, ProofDataView};
use crate::ultrahonk::{submission_holds, verify_zk_proof};
use soroban_sdk::Env;
use vstd::prelude::*;

verus! {

/// A session between two players.
#[derive(Debug, PartialEq, Eq)]
pub struct Game {
    pub player1: Address,
    pub player2: Address,
    /// What player 1 has staked on the session.
    pub player1_points: i128,
    /// What player 2 has staked on the session.
    pub player2_points: i128,
    /// Player 1's commitment to a secret, once made.
    pub player1_secret_hash: Option<[u8; 32]>,
    /// Player 2's commitment to a secret, once made.
    pub player2_secret_hash: Option<[u8; 32]>,
    /// Player 1's guess in the round being played.
    pub player1_last_guess: Option<u32>,
    /// Player 2's guess in the round being played.
    pub player2_last_guess: Option<u32>,
    /// Player 1's proof about player 2's guess in the round being played.
    pub player1_proof: Option<ProofData>,
    /// Player 2's proof about player 1's guess in the round being played.
    pub player2_proof: Option<ProofData>,
    pub winner: Option<Address>,
    pub status: GameStatus,
    /// How player 1's guess fared in the last round that was resolved.
    pub player1_result: Option<GameResult>,
    /// How player 2's guess fared in the last round that was resolved.
    pub player2_result: Option<GameResult>,
}

/// A `Game` as a mathematical value.
pub struct GameView {
    pub player1: Address,
    pub player2: Address,
    pub player1_points: i128,
    pub player2_points: i128,
    pub player1_secret_hash: Option<[u8; 32]>,
    pub player2_secret_hash: Option<[u8; 32]>,
    pub player1_last_guess: Option<u32>,
    pub player2_last_guess: Option<u32>,
    pub player1_proof: Option<ProofDataView>,
    pub player2_proof: Option<ProofDataView>,
    pub winner: Option<Address>,
    pub status: GameStatus,
    pub player1_result: Option<GameResult>,
    pub player2_result: Option<GameResult>,
}

impl View for Game {
    type V = GameView;

    open spec fn view(&self) -> GameView {
        GameView {
            player1: self.player1,
            player2: self.player2,
            player1_points: self.player1_points,
            player2_points: self.player2_points,
            player1_secret_hash: self.player1_secret_hash,
            player2_secret_hash: self.player2_secret_hash,
            player1_last_guess: self.player1_last_guess,
            player2_last_guess: self.player2_last_guess,
            player1_proof: proof_view(self.player1_proof),
            player2_proof: proof_view(self.player2_proof),
            winner: self.winner,
            status: self.status,
            player1_result: self.player1_result,
            player2_result: self.player2_result,
        }
    }
}

/// What a resolved round decides.
#[derive(Clone, Copy, Debug, PartialEq, Eq, Structural)]
pub enum Outcome {
    /// Nobody has won yet: another round is played.
    Continue,
    /// The session ends without a winner.
    Draw,
    /// The session ends and player 1 has won.
    Player1Wins,
    /// The session ends and player 2 has won.
    Player2Wins,
}

/// What `verify_proof` hands back: the results of the last resolved round
/// and, where this very call ended the session, the word to send to the
/// session authority.
#[derive(Clone, Copy, Debug, PartialEq, Eq)]
pub struct RoundVerdict {
    /// How player 1's guess fared.
    pub player1_result: GameResult,
    /// How player 2's guess fared.
    pub player2_result: GameResult,
    /// `Some(player1_won)` if this call ended the session: the session
    /// authority is then to be told once that the session is over. `None` if
    /// the session goes on, or had ended before.
    pub settlement: Option<bool>,
}

/// The decision of a round.
///
/// `verified1` says whether the verifier accepted player 1's proof,
/// `verified2` whether it accepted player 2's. `hits1` is the number of exact
/// matches of player 1's guess, `hits2` that of player 2's guess. A player
/// whose proof is refused has cheated and loses to an honest opponent
/// whatever the counts say; if both proofs are refused nobody wins. Between
/// two honest players the one whose guess matches in all `threshold` places
/// wins.
pub open spec fn outcome_of(
    threshold: u32,
    verified1: bool,
    hits1: u32,
    verified2: bool,
    hits2: u32,
) -> Outcome {
    if !verified1 && !verified2 {
        Outcome::Draw
    } else if !verified1 {
        Outcome::Player2Wins
    } else if !verified2 {
        Outcome::Player1Wins
    } else if hits1 == threshold && hits2 == threshold {
        Outcome::Draw
    } else if hits1 == threshold {
        Outcome::Player1Wins
    } else if hits2 == threshold {
        Outcome::Player2Wins
    } else {
        Outcome::Continue
    }
}

impl Outcome {
    /// The status of a session after a round with this outcome.
    pub open spec fn status(self) -> GameStatus {
        match self {
            Outcome::Continue => GameStatus::Playing,
            Outcome::Draw => GameStatus::Draw,
            Outcome::Player1Wins => GameStatus::Winner,
            Outcome::Player2Wins => GameStatus::Winner,
        }
    }

    /// What the session authority is told after a round with this outcome:
    /// nothing while the session goes on, else whether player 1 has won.
    pub open spec fn settlement(self) -> Option<bool> {
        match self {
            Outcome::Continue => None,
            Outcome::Draw => Some(false),
            Outcome::Player1Wins => Some(true),
            Outcome::Player2Wins => Some(false),
        }
    }
}

impl GameView {
    /// A session as it is created.
    pub open spec fn fresh(
        player1: Address,
        player2: Address,
        player1_points: i128,
        player2_points: i128,
    ) -> GameView {
        GameView {
            player1,
            player2,
            player1_points,
            player2_points,
            player1_secret_hash: None,
            player2_secret_hash: None,
            player1_last_guess: None,
            player2_last_guess: None,
            player1_proof: None,
            player2_proof: None,
            winner: None,
            status: GameStatus::Setup,
            player1_result: None,
            player2_result: None,
        }
    }

    /// Whether both players have committed to a secret.
    pub open spec fn both_committed(self) -> bool {
        self.player1_secret_hash is Some && self.player2_secret_hash is Some
    }

    /// What holds of every session that was created by `Game::new` and
    /// changed only by the operations of this module, in a deployment whose
    /// secrets have `digits` digits.
    pub open spec fn wf(self, digits: u32) -> bool {
        &&& self.player1 != self.player2
        &&& (self.status is Setup || self.status is Playing || self.status is Draw
            || self.status is Winner)
        &&& (self.status is Setup <==> !self.both_committed())
        &&& (self.status is Setup ==> self.player1_last_guess is None
            && self.player2_last_guess is None && self.player1_proof is None
            && self.player2_proof is None && self.player1_result is None)
        &&& (self.winner is Some <==> self.status is Winner)
        &&& (self.winner is Some ==> self.winner == Some(self.player1) || self.winner == Some(
            self.player2,
        ))
        &&& (self.status.is_terminal() ==> self.player1_result is Some)
        &&& (self.player1_result is Some <==> self.player2_result is Some)
        &&& (self.player1_result matches Some(r) ==> r.player == self.player1 && (
        r.adds_up_to(digits) || r == GameResult::empty(self.player1)))
        &&& (self.player2_result matches Some(r) ==> r.player == self.player2 && (
        r.adds_up_to(digits) || r == GameResult::empty(self.player2)))
        &&& (self.player1_proof matches Some(p) ==> p.player == self.player1 && p.adds_up_to(
            digits,
        ))
        &&& (self.player2_proof matches Some(p) ==> p.player == self.player2 && p.adds_up_to(
            digits,
        ))
    }

    /// Whether `register_secret` by `player` is accepted, and if not, why.
    pub open spec fn register_secret_result(self, player: Address) -> Result<(), Error> {
        if player == self.player1 {
            if self.player1_secret_hash is Some {
                Err(Error::SecretAlreadyRegistered)
            } else if !(self.status is Setup) {
                Err(Error::InvalidStatus)
            } else {
                Ok(())
            }
        } else if player == self.player2 {
            if self.player2_secret_hash is Some {
                Err(Error::SecretAlreadyRegistered)
            } else if !(self.status is Setup) {
                Err(Error::InvalidStatus)
            } else {
                Ok(())
            }
        } else {
            Err(Error::NotPlayer)
        }
    }

    /// The session after `register_secret` by `player`: unchanged if the call
    /// is refused; else the commitment is stored, and the session is
    /// `Playing` if both commitments are now there.
    pub open spec fn after_register_secret(self, player: Address, secret_hash: [u8; 32])
        -> GameView {
        if self.register_secret_result(player) is Err {
            self
        } else {
            let stored = if player == self.player1 {
                GameView { player1_secret_hash: Some(secret_hash), ..self }
            } else {
                GameView { player2_secret_hash: Some(secret_hash), ..self }
            };
            if stored.both_committed() {
                GameView { status: GameStatus::Playing, ..stored }
            } else {
                stored
            }
        }
    }

    /// Whether a guess by `player` is accepted, and if not, why.
    pub open spec fn submit_guess_result(self, player: Address) -> Result<(), Error> {
        if !(self.status is Playing) {
            Err(Error::InvalidStatus)
        } else if player == self.player1 || player == self.player2 {
            Ok(())
        } else {
            Err(Error::NotPlayer)
        }
    }

    /// Whether a submission of counts with their proof is accepted, and if
    /// not, why: the session must be `Playing`, the submitter a party, and
    /// the counts must add up to the number of digits.
    pub open spec fn submit_proof_result(self, digits: u32, proof: ProofDataView) -> Result<
        (),
        Error,
    > {
        if !(self.status is Playing) {
            Err(Error::InvalidStatus)
        } else if !(proof.player == self.player1 || proof.player == self.player2) {
            Err(Error::NotPlayer)
        } else if !proof.adds_up_to(digits) {
            Err(Error::InvalidStatus)
        } else {
            Ok(())
        }
    }

    /// The session after `submit_guess` by `player`: unchanged if the call is
    /// refused; else the guess takes the place of the player's earlier one.
    pub open spec fn after_submit_guess(self, player: Address, guess: u32) -> GameView {
        if self.submit_guess_result(player) is Err {
            self
        } else if player == self.player1 {
            GameView { player1_last_guess: Some(guess), ..self }
        } else {
            GameView { player2_last_guess: Some(guess), ..self }
        }
    }

    /// The session after `submit_proof`: unchanged if the call is refused;
    /// else the submission takes the place of the player's earlier one.
    pub open spec fn after_submit_proof(self, digits: u32, proof: ProofDataView) -> GameView {
        if self.submit_proof_result(digits, proof) is Err {
            self
        } else if proof.player == self.player1 {
            GameView { player1_proof: Some(proof), ..self }
        } else {
            GameView { player2_proof: Some(proof), ..self }
        }
    }

    /// Whether the round being played has all it takes to be resolved: both
    /// guesses, both proofs, and the commitments the proofs speak of.
    pub open spec fn round_ready(self) -> bool {
        &&& self.status is Playing
        &&& self.player1_last_guess is Some
        &&& self.player2_last_guess is Some
        &&& self.player1_proof is Some
        &&& self.player2_proof is Some
        &&& self.both_committed()
    }

    /// Whether player 1's proof of the round is valid under the stored
    /// verification key: it is checked against player 2's guess, player 1's
    /// commitment and the counts player 1 reports.
    pub open spec fn player1_proof_holds(self, digits: u32, stored_key: Seq<u8>) -> bool {
        submission_holds(
            stored_key,
            digits,
            self.player1_proof.unwrap(),
            self.player1_secret_hash.unwrap()@,
            self.player2_last_guess.unwrap(),
        )
    }

    /// Whether player 2's proof of the round is valid under the stored
    /// verification key: it is checked against player 1's guess, player 2's
    /// commitment and the counts player 2 reports.
    pub open spec fn player2_proof_holds(self, digits: u32, stored_key: Seq<u8>) -> bool {
        submission_holds(
            stored_key,
            digits,
            self.player2_proof.unwrap(),
            self.player2_secret_hash.unwrap()@,
            self.player1_last_guess.unwrap(),
        )
    }

    /// The decision of the round being played, given what the verifier said
    /// of the two proofs. Player 2's proof tells how player 1's guess fared,
    /// and the other way round.
    pub open spec fn outcome(self, digits: u32, verified1: bool, verified2: bool) -> Outcome {
        outcome_of(
            digits,
            verified1,
            self.player2_proof.unwrap().acertos,
            verified2,
            self.player1_proof.unwrap().acertos,
        )
    }

    /// How player 1's guess fared in the round being played: the counts that
    /// player 2 reported, or no counts at all if either proof was refused.
    pub open spec fn round_result1(self, verified1: bool, verified2: bool) -> GameResult {
        if verified1 && verified2 {
            GameResult {
                player: self.player1,
                acertos: self.player2_proof.unwrap().acertos,
                erros: self.player2_proof.unwrap().erros,
                permutados: self.player2_proof.unwrap().permutados,
            }
        } else {
            GameResult::empty(self.player1)
        }
    }

    /// How player 2's guess fared in the round being played: the counts that
    /// player 1 reported, or no counts at all if either proof was refused.
    pub open spec fn round_result2(self, verified1: bool, verified2: bool) -> GameResult {
        if verified1 && verified2 {
            GameResult {
                player: self.player2,
                acertos: self.player1_proof.unwrap().acertos,
                erros: self.player1_proof.unwrap().erros,
                permutados: self.player1_proof.unwrap().permutados,
            }
        } else {
            GameResult::empty(self.player2)
        }
    }

    /// What `resolve_round` returns.
    ///
    /// A session that is not `Playing` hands back the results it has stored,
    /// and has nothing to settle; without stored results the call is refused.
    /// A session that is `Playing` needs both guesses, then both proofs and
    /// commitments; with them the round is decided.
    pub open spec fn verdict(self, digits: u32, verified1: bool, verified2: bool) -> Result<
        RoundVerdict,
        Error,
    > {
        if !(self.status is Playing) {
            if self.player1_result is Some && self.player2_result is Some {
                Ok(
                    RoundVerdict {
                        player1_result: self.player1_result.unwrap(),
                        player2_result: self.player2_result.unwrap(),
                        settlement: None,
                    },
                )
            } else {
                Err(Error::InvalidStatus)
            }
        } else if self.player1_last_guess is None || self.player2_last_guess is None {
            Err(Error::BothPlayersNotGuessed)
        } else if !self.round_ready() {
            Err(Error::InvalidStatus)
        } else {
            Ok(
                RoundVerdict {
                    player1_result: self.round_result1(verified1, verified2),
                    player2_result: self.round_result2(verified1, verified2),
                    settlement: self.outcome(digits, verified1, verified2).settlement(),
                },
            )
        }
    }

    /// The session after `resolve_round`: unchanged unless the round was
    /// ready. Then the results of the round are stored; the session ends
    /// with the decided status and winner, or goes on with the guesses and
    /// proofs of the round cleared.
    pub open spec fn after_resolve(self, digits: u32, verified1: bool, verified2: bool)
        -> GameView {
        if !self.round_ready() {
            self
        } else {
            let recorded = GameView {
                player1_result: Some(self.round_result1(verified1, verified2)),
                player2_result: Some(self.round_result2(verified1, verified2)),
                ..self
            };
            match self.outcome(digits, verified1, verified2) {
                Outcome::Continue => GameView {
                    player1_last_guess: None,
                    player2_last_guess: None,
                    player1_proof: None,
                    player2_proof: None,
                    ..recorded
                },
                Outcome::Draw => GameView { status: GameStatus::Draw, winner: None, ..recorded },
                Outcome::Player1Wins => GameView {
                    status: GameStatus::Winner,
                    winner: Some(self.player1),
                    ..recorded
                },
                Outcome::Player2Wins => GameView {
                    status: GameStatus::Winner,
                    winner: Some(self.player2),
                    ..recorded
                },
            }
        }
    }

    /// What `has_game_ended` returns: the winner of a session that was won,
    /// nobody for a draw, and a refusal while the session has not ended.
    pub open spec fn ended_result(self) -> Result<Option<Address>, Error> {
        match self.status {
            GameStatus::Winner => Ok(self.winner),
            GameStatus::Draw => Ok(None),
            _ => Err(Error::InvalidStatus),
        }
    }

    /// What `get_player_result` returns: the stored result of a player's
    /// guess, and a refusal for a stranger or before any round was resolved.
    pub open spec fn player_result(self, player: Address) -> Result<GameResult, Error> {
        if player == self.player1 {
            match self.player1_result {
                Some(r) => Ok(r),
                None => Err(Error::InvalidStatus),
            }
        } else if player == self.player2 {
            match self.player2_result {
                Some(r) => Ok(r),
                None => Err(Error::InvalidStatus),
            }
        } else {
            Err(Error::NotPlayer)
        }
    }
}

/// Decides a round; see [`outcome_of`].
pub fn decide_outcome(
    threshold: u32,
    verified1: bool,
    hits1: u32,
    verified2: bool,
    hits2: u32,
) -> (outcome: Outcome)
    ensures
        outcome == outcome_of(threshold, verified1, hits1, verified2, hits2),
{
    if !verified1 && !verified2 {
        Outcome::Draw
    } else if !verified1 {
        Outcome::Player2Wins
    } else if !verified2 {
        Outcome::Player1Wins
    } else if hits1 == threshold && hits2 == threshold {
        Outcome::Draw
    } else if hits1 == threshold {
        Outcome::Player1Wins
    } else if hits2 == threshold {
        Outcome::Player2Wins
    } else {
        Outcome::Continue
    }
}

/// Whether a stored result names `player` and carries counts that add up to
/// `digits`, or none at all.
fn result_is_sound(result: &GameResult, player: Address, digits: u32) -> (ok: bool)
    ensures
        ok == (result.player == player && (result.adds_up_to(digits) || *result
            == GameResult::empty(player))),
{
    let adds_up = result.acertos as u64 + result.erros as u64 + result.permutados as u64
        == digits as u64;
    let empty = result.acertos == 0 && result.erros == 0 && result.permutados == 0;
    result.player == player && (adds_up || empty)
}

impl Clone for Game {
    fn clone(&self) -> (copy: Self)
        ensures
            copy@ == self@,
    {
        Game {
            player1: self.player1,
            player2: self.player2,
            player1_points: self.player1_points,
            player2_points: self.player2_points,
            player1_secret_hash: self.player1_secret_hash,
            player2_secret_hash: self.player2_secret_hash,
            player1_last_guess: self.player1_last_guess,
            player2_last_guess: self.player2_last_guess,
            player1_proof: match &self.player1_proof {
                Some(p) => Some(p.clone()),
                None => None,
            },
            player2_proof: match &self.player2_proof {
                Some(p) => Some(p.clone()),
                None => None,
            },
            winner: self.winner,
            status: self.status,
            player1_result: self.player1_result,
            player2_result: self.player2_result,
        }
    }
}

impl Game {
    /// Creates a session in `Setup` between two different players.
    pub fn new(player1: Address, player2: Address, player1_points: i128, player2_points: i128) -> (game:
        Game)
        requires
            player1 != player2,
        ensures
            game@ == GameView::fresh(player1, player2, player1_points, player2_points),
    {
        Game {
            player1,
            player2,
            player1_points,
            player2_points,
            player1_secret_hash: None,
            player2_secret_hash: None,
            player1_last_guess: None,
            player2_last_guess: None,
            player1_proof: None,
            player2_proof: None,
            winner: None,
            status: GameStatus::Setup,
            player1_result: None,
            player2_result: None,
        }
    }

    /// Stores `player`'s commitment to a secret.
    ///
    /// Refused with `SecretAlreadyRegistered` if the player has committed
    /// before, with `NotPlayer` if `player` is neither party, and with
    /// `InvalidStatus` if the session is not in `Setup`. With the second
    /// commitment the session becomes `Playing`.
    pub fn register_secret(&mut self, player: Address, secret_hash: [u8; 32]) -> (result: Result<
        (),
        Error,
    >)
        ensures
            result == old(self)@.register_secret_result(player),
            final(self)@ == old(self)@.after_register_secret(player, secret_hash),
            result is Err ==> final(self)@ == old(self)@,
    {
        if player == self.player1 {
            if self.player1_secret_hash.is_some() {
                return Err(Error::SecretAlreadyRegistered);
            }
            if self.status != GameStatus::Setup {
                return Err(Error::InvalidStatus);
            }
            self.player1_secret_hash = Some(secret_hash);
        } else if player == self.player2 {
            if self.player2_secret_hash.is_some() {
                return Err(Error::SecretAlreadyRegistered);
            }
            if self.status != GameStatus::Setup {
                return Err(Error::InvalidStatus);
            }
            self.player2_secret_hash = Some(secret_hash);
        } else {
            return Err(Error::NotPlayer);
        }
        if self.player1_secret_hash.is_some() && self.player2_secret_hash.is_some() {
            self.status = GameStatus::Playing;
        }
        Ok(())
    }

    /// Stores `player`'s guess of the opponent's secret for the round being
    /// played, in place of an earlier one.
    ///
    /// Refused with `InvalidStatus` unless the session is `Playing`, and
    /// with `NotPlayer` if `player` is neither party.
    pub fn submit_guess(&mut self, player: Address, guess: u32) -> (result: Result<(), Error>)
        ensures
            result == old(self)@.submit_guess_result(player),
            final(self)@ == old(self)@.after_submit_guess(player, guess),
            result is Err ==> final(self)@ == old(self)@,
    {
        if self.status != GameStatus::Playing {
            return Err(Error::InvalidStatus);
        }
        if player == self.player1 {
            self.player1_last_guess = Some(guess);
        } else if player == self.player2 {
            self.player2_last_guess = Some(guess);
        } else {
            return Err(Error::NotPlayer);
        }
        Ok(())
    }

    /// Stores the counts that `player` reports for the opponent's guess,
    /// with their proof, in place of an earlier submission.
    ///
    /// Refused with `InvalidStatus` unless the session is `Playing`, with
    /// `NotPlayer` if `player` is neither party, and with `InvalidStatus` if
    /// the three counts do not add up to `digits`. A refused submission is
    /// not stored.
    pub fn submit_proof(
        &mut self,
        digits: u32,
        player: Address,
        acertos: u32,
        permutados: u32,
        erros: u32,
        proof: Vec<u8>,
    ) -> (result: Result<(), Error>)
        ensures
            result == old(self)@.submit_proof_result(
                digits,
                (ProofDataView { player, acertos, permutados, erros, proof: proof@ }),
            ),
            final(self)@ == old(self)@.after_submit_proof(
                digits,
                (ProofDataView { player, acertos, permutados, erros, proof: proof@ }),
            ),
            result is Err ==> final(self)@ == old(self)@,
    {
        if self.status != GameStatus::Playing {
            return Err(Error::InvalidStatus);
        }
        let first = player == self.player1;
        if !first && !(player == self.player2) {
            return Err(Error::NotPlayer);
        }
        let proof_data = ProofData { player, acertos, permutados, erros, proof };
        if !proof_data.counts_add_up_to(digits) {
            return Err(Error::InvalidStatus);
        }
        if first {
            self.player1_proof = Some(proof_data);
        } else {
            self.player2_proof = Some(proof_data);
        }
        Ok(())
    }

    /// Whether the round being played has both guesses, both proofs and
    /// both commitments, so that resolving it will consult the verifier.
    pub fn round_ready(&self) -> (ready: bool)
        ensures
            ready == self@.round_ready(),
    {
        self.status == GameStatus::Playing && self.player1_last_guess.is_some()
            && self.player2_last_guess.is_some() && self.player1_proof.is_some()
            && self.player2_proof.is_some() && self.player1_secret_hash.is_some()
            && self.player2_secret_hash.is_some()
    }

    /// Resolves the round being played, given what the verifier said of
    /// player 1's proof (`verified1`) and of player 2's (`verified2`).
    ///
    /// A player whose proof the verifier refused loses to an opponent whose
    /// proof it accepted, whatever the counts say; if it refused both the
    /// session is a draw. With both accepted, a player wins whose guess has
    /// `digits` exact matches while the opponent's has not; both at `digits`
    /// is a draw; neither starts the next round, with guesses and proofs
    /// cleared. The results of the round are stored either way: the counts
    /// the opponent reported, or no counts where a proof was refused.
    ///
    /// A session that has ended returns the stored results again, with
    /// nothing to settle. Refused with `BothPlayersNotGuessed` if a guess is
    /// missing, and with `InvalidStatus` if a proof or a commitment is
    /// missing or the session has not reached `Playing`.
    pub fn resolve_round(&mut self, digits: u32, verified1: bool, verified2: bool) -> (result: Result<
        RoundVerdict,
        Error,
    >)
        ensures
            result == old(self)@.verdict(digits, verified1, verified2),
            final(self)@ == old(self)@.after_resolve(digits, verified1, verified2),
            result is Err ==> final(self)@ == old(self)@,
    {
        if self.status != GameStatus::Playing {
            return match (self.player1_result, self.player2_result) {
                (Some(player1_result), Some(player2_result)) => Ok(
                    RoundVerdict { player1_result, player2_result, settlement: None },
                ),
                _ => Err(Error::InvalidStatus),
            };
        }
        if self.player1_last_guess.is_none() || self.player2_last_guess.is_none() {
            return Err(Error::BothPlayersNotGuessed);
        }
        if self.player1_secret_hash.is_none() || self.player2_secret_hash.is_none() {
            return Err(Error::InvalidStatus);
        }
        let report1: GameResult = match &self.player1_proof {
            Some(p) => GameResult {
                player: self.player2,
                acertos: p.acertos,
                erros: p.erros,
                permutados: p.permutados,
            },
            None => {
                return Err(Error::InvalidStatus);
            },
        };
        let report2: GameResult = match &self.player2_proof {
            Some(p) => GameResult {
                player: self.player1,
                acertos: p.acertos,
                erros: p.erros,
                permutados: p.permutados,
            },
            None => {
                return Err(Error::InvalidStatus);
            },
        };
        let outcome = decide_outcome(
            digits,
            verified1,
            report2.acertos,
            verified2,
            report1.acertos,
        );
        let (player1_result, player2_result): (GameResult, GameResult) = if verified1
            && verified2 {
            (report2, report1)
        } else {
            (
                GameResult { player: self.player1, acertos: 0, erros: 0, permutados: 0 },
                GameResult { player: self.player2, acertos: 0, erros: 0, permutados: 0 },
            )
        };
        let settlement: Option<bool> = match outcome {
            Outcome::Continue => {
                self.player1_last_guess = None;
                self.player2_last_guess = None;
                self.player1_proof = None;
                self.player2_proof = None;
                None
            },
            Outcome::Draw => {
                self.status = GameStatus::Draw;
                self.winner = None;
                Some(false)
            },
            Outcome::Player1Wins => {
                self.status = GameStatus::Winner;
                self.winner = Some(self.player1);
                Some(true)
            },
            Outcome::Player2Wins => {
                self.status = GameStatus::Winner;
                self.winner = Some(self.player2);
                Some(false)
            },
        };
        self.player1_result = Some(player1_result);
        self.player2_result = Some(player2_result);
        Ok(RoundVerdict { player1_result, player2_result, settlement })
    }

    /// Puts both proofs of the round being played to the verifier and
    /// resolves the round on its answers; see [`Game::resolve_round`].
    ///
    /// Each proof is checked against public inputs built here from the
    /// opponent's guess, the prover's commitment and the counts the prover
    /// reports. The verifier is consulted only when the round is ready.
    pub fn verify_proof(&mut self, env: &Env, digits: u32, stored_key: &Vec<u8>) -> (result: Result<
        RoundVerdict,
        Error,
    >)
        ensures
            result == old(self)@.verdict(
                digits,
                old(self)@.player1_proof_holds(digits, stored_key@),
                old(self)@.player2_proof_holds(digits, stored_key@),
            ),
            final(self)@ == old(self)@.after_resolve(
                digits,
                old(self)@.player1_proof_holds(digits, stored_key@),
                old(self)@.player2_proof_holds(digits, stored_key@),
            ),
            result is Err ==> final(self)@ == old(self)@,
    {
        let (verified1, verified2): (bool, bool) = match (
            &self.player1_proof,
            &self.player2_proof,
            &self.player1_secret_hash,
            &self.player2_secret_hash,
            self.player1_last_guess,
            self.player2_last_guess,
        ) {
            (Some(proof1), Some(proof2), Some(hash1), Some(hash2), Some(guess1), Some(guess2)) => {
                if self.status == GameStatus::Playing {
                    (
                        verify_zk_proof(env, stored_key, digits, proof1, hash1, guess2),
                        verify_zk_proof(env, stored_key, digits, proof2, hash2, guess1),
                    )
                } else {
                    (false, false)
                }
            },
            _ => (false, false),
        };
        self.resolve_round(digits, verified1, verified2)
    }

    /// Whether the session is one that the operations of this module can
    /// have left behind, in a deployment whose secrets have `digits` digits.
    /// A session read from a store is to be tested before it is trusted.
    pub fn is_well_formed(&self, digits: u32) -> (ok: bool)
        ensures
            ok == self@.wf(digits),
    {
        let committed = self.player1_secret_hash.is_some() && self.player2_secret_hash.is_some();
        let setup = self.status == GameStatus::Setup;
        let known = setup || self.status == GameStatus::Playing || self.status
            == GameStatus::Draw || self.status == GameStatus::Winner;
        let distinct = !(self.player1 == self.player2);
        let untouched = !setup || (self.player1_last_guess.is_none()
            && self.player2_last_guess.is_none() && self.player1_proof.is_none()
            && self.player2_proof.is_none() && self.player1_result.is_none());
        let winner = match self.winner {
            Some(w) => self.status == GameStatus::Winner && (w == self.player1 || w
                == self.player2),
            None => self.status != GameStatus::Winner,
        };
        let results = match (self.player1_result, self.player2_result) {
            (Some(r1), Some(r2)) => result_is_sound(&r1, self.player1, digits) && result_is_sound(
                &r2,
                self.player2,
                digits,
            ),
            (None, None) => !self.status.has_ended(),
            _ => false,
        };
        let proof1 = match &self.player1_proof {
            Some(p) => p.player == self.player1 && p.counts_add_up_to(digits),
            None => true,
        };
        let proof2 = match &self.player2_proof {
            Some(p) => p.player == self.player2 && p.counts_add_up_to(digits),
            None => true,
        };
        distinct && known && (setup == !committed) && untouched && winner && results && proof1
            && proof2
    }

    /// Tells how a session ended: the winner, or nobody for a draw.
    /// Refused with `InvalidStatus` while the session has not ended.
    pub fn has_game_ended(&self) -> (result: Result<Option<Address>, Error>)
        ensures
            result == self@.ended_result(),
    {
        match self.status {
            GameStatus::Winner => Ok(self.winner),
            GameStatus::Draw => Ok(None),
            _ => Err(Error::InvalidStatus),
        }
    }

    /// Returns how `player`'s guess fared in the last round that was
    /// resolved. Refused with `NotPlayer` for a stranger and with
    /// `InvalidStatus` before any round was resolved.
    pub fn get_player_result(&self, player: Address) -> (result: Result<GameResult, Error>)
        ensures
            result == self@.player_result(player),
    {
        if player == self.player1 {
            match self.player1_result {
                Some(r) => Ok(r),
                None => Err(Error::InvalidStatus),
            }
        } else if player == self.player2 {
            match self.player2_result {
                Some(r) => Ok(r),
                None => Err(Error::InvalidStatus),
            }
        } else {
            Err(Error::NotPlayer)
        }
    }
}

} // verus!
