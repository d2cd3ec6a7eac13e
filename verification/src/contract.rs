//! A deployment of the game: who administers it, which session authority it
//! answers to, how long its secrets are, the verification key of its proofs,
//! and its sessions, each kept under the id it was started with.

use crate::codec::MAX_DIGITS;
use crate::game::{Game, GameView, RoundVerdict};
use crate::laws::{
    commitment_is_final, fresh_game_is_well_formed, status_only_advances, step,
    step_keeps_well_formed, Move,
};
use crate::types::{Address, Error, GameResult, GameStatus, ProofDataView};
use soroban_sdk::Env;
use std::collections::HashMap;
use vstd::prelude::*;

verus! {

/// A deployment of the game.
pub struct PassContract {
    admin: Address,
    game_hub: Address,
    digits: u32,
    verification_key: Option<Vec<u8>>,
    games: HashMap<u32, Game>,
}

/// A `PassContract` as a mathematical value.
pub struct PassContractView {
    /// Who may change the deployment's settings.
    pub admin: Address,
    /// The session authority that holds the stakes.
    pub game_hub: Address,
    /// How many digits a secret has; a guess with that many exact matches
    /// wins.
    pub digits: u32,
    /// The verification key as it was stored, if one was.
    pub verification_key: Option<Seq<u8>>,
    /// The sessions, by id.
    pub games: Map<u32, GameView>,
}

impl PassContractView {
    /// What holds of every deployment: the number of digits is one that a
    /// guess can have, and every session is well formed.
    pub open spec fn wf(self) -> bool {
        &&& 1 <= self.digits <= MAX_DIGITS
        &&& forall|id: u32| self.games.contains_key(id) ==> (#[trigger] self.games[id]).wf(self.digits)
    }

    /// The session stored under `id`, if there is one.
    pub open spec fn game(self, id: u32) -> Option<GameView> {
        if self.games.contains_key(id) {
            Some(self.games[id])
        } else {
            None
        }
    }

    /// The deployment with `game` stored under `id`.
    pub open spec fn with_game(self, id: u32, game: GameView) -> PassContractView {
        PassContractView { games: self.games.insert(id, game), ..self }
    }

    /// The stored verification key, or the empty string if none was stored.
    pub open spec fn stored_key(self) -> Seq<u8> {
        match self.verification_key {
            Some(key) => key,
            None => Seq::empty(),
        }
    }

    /// Whether `verify_proof` on session `id` will consult the verifier.
    pub open spec fn verification_due(self, id: u32) -> bool {
        self.games.contains_key(id) && self.games[id].round_ready()
    }

    /// What the verifier says of the two proofs of the round being played
    /// in session `id`, under the stored verification key.
    pub open spec fn verifier_answers(self, id: u32) -> (bool, bool) {
        match self.game(id) {
            Some(game) => (
                game.player1_proof_holds(self.digits, self.stored_key()),
                game.player2_proof_holds(self.digits, self.stored_key()),
            ),
            None => (false, false),
        }
    }

    /// Whether a session can be started or restored under `id`: only where
    /// none is stored yet.
    pub open spec fn start_game_result(self, id: u32) -> Result<(), Error> {
        if self.games.contains_key(id) {
            Err(Error::InvalidStatus)
        } else {
            Ok(())
        }
    }

    /// Whether `game` can be restored under `id`: only where none is stored
    /// yet, and only if it is well formed.
    pub open spec fn restore_game_result(self, id: u32, game: GameView) -> Result<(), Error> {
        if self.games.contains_key(id) || !game.wf(self.digits) {
            Err(Error::InvalidStatus)
        } else {
            Ok(())
        }
    }

    /// The deployment after a move in session `id`: unchanged if there is no
    /// such session, else with that session one step further.
    pub open spec fn after_play(self, id: u32, m: Move) -> PassContractView {
        match self.game(id) {
            Some(game) => self.with_game(id, step(game, self.digits, m)),
            None => self,
        }
    }

    /// The deployment after one call.
    pub open spec fn after(self, call: Call) -> PassContractView {
        match call {
            Call::Start { session_id, player1, player2, player1_points, player2_points } => {
                if self.start_game_result(session_id) is Err {
                    self
                } else {
                    self.with_game(
                        session_id,
                        GameView::fresh(player1, player2, player1_points, player2_points),
                    )
                }
            },
            Call::Restore { session_id, game } => {
                if self.restore_game_result(session_id, game) is Err {
                    self
                } else {
                    self.with_game(session_id, game)
                }
            },
            Call::Play { session_id, m } => self.after_play(session_id, m),
            Call::SetAdmin { new_admin } => PassContractView { admin: new_admin, ..self },
            Call::SetHub { new_hub } => PassContractView { game_hub: new_hub, ..self },
            Call::SetVerificationKey { vk } => PassContractView {
                verification_key: Some(vk),
                ..self
            },
        }
    }
}

/// One call of an operation that can change a deployment.
pub enum Call {
    /// `start_game`.
    Start {
        session_id: u32,
        player1: Address,
        player2: Address,
        player1_points: i128,
        player2_points: i128,
    },
    /// `restore_game`.
    Restore { session_id: u32, game: GameView },
    /// `register_secret`, `submit_guess`, `submit_proof`, `resolve_round` or
    /// `verify_proof` on one session; `verify_proof` resolves on the
    /// verifier's answers.
    Play { session_id: u32, m: Move },
    /// `set_admin`.
    SetAdmin { new_admin: Address },
    /// `set_hub`.
    SetHub { new_hub: Address },
    /// `set_verification_key`.
    SetVerificationKey { vk: Seq<u8> },
}

/// Every call leaves a well-formed deployment well formed.
pub proof fn call_keeps_well_formed(contract: PassContractView, call: Call)
    requires
        contract.wf(),
        call matches Call::Start { player1, player2, .. } ==> player1 != player2,
    ensures
        contract.after(call).wf(),
{
    let next = contract.after(call);
    assert forall|id: u32| next.games.contains_key(id) implies (#[trigger] next.games[id]).wf(
        next.digits,
    ) by {
        match call {
            Call::Start { session_id, player1, player2, player1_points, player2_points } => {
                fresh_game_is_well_formed(
                    player1,
                    player2,
                    player1_points,
                    player2_points,
                    contract.digits,
                );
                if id != session_id {
                    assert(contract.games.contains_key(id));
                }
            },
            Call::Play { session_id, m } => {
                if contract.games.contains_key(session_id) {
                    step_keeps_well_formed(contract.games[session_id], contract.digits, m);
                }
                if id != session_id {
                    assert(contract.games.contains_key(id));
                }
            },
            Call::Restore { session_id, game } => {
                if id != session_id {
                    assert(contract.games.contains_key(id));
                }
            },
            _ => {
                assert(contract.games.contains_key(id));
            },
        }
    }
}

/// No call of any operation takes a session away or sets it back. A
/// session that is stored stays stored under its id, with the same players;
/// its status only moves forward and never comes back to `Setup`; a
/// commitment, once made, stays as it is; and a session that has ended is
/// never changed again. Starting or restoring a session under an id that is
/// taken is refused and changes nothing.
pub proof fn sessions_only_advance(contract: PassContractView, call: Call, id: u32)
    requires
        contract.wf(),
        contract.games.contains_key(id),
    ensures
        ({
            let before = contract.games[id];
            let next = contract.after(call);
            &&& next.games.contains_key(id)
            &&& next.games[id].player1 == before.player1
            &&& next.games[id].player2 == before.player2
            &&& next.games[id].status.rank() >= before.status.rank()
            &&& !(before.status is Setup) ==> !(next.games[id].status is Setup)
            &&& before.player1_secret_hash is Some ==> next.games[id].player1_secret_hash
                == before.player1_secret_hash
            &&& before.player2_secret_hash is Some ==> next.games[id].player2_secret_hash
                == before.player2_secret_hash
            &&& before.status.is_terminal() ==> next.games[id] == before
        }),
{
    match call {
        Call::Play { session_id, m } => {
            if session_id == id {
                status_only_advances(contract.games[id], contract.digits, m);
                commitment_is_final(contract.games[id], contract.digits, m);
            }
        },
        _ => {},
    }
}

/// Sessions do not touch each other: storing a session under one id leaves
/// the session under every other id, and the settings, as they were.
pub proof fn other_sessions_untouched(
    contract: PassContractView,
    id: u32,
    game: GameView,
    other: u32,
)
    requires
        other != id,
    ensures
        contract.with_game(id, game).game(other) == contract.game(other),
        contract.with_game(id, game).game(id) == Some(game),
        contract.with_game(id, game).admin == contract.admin,
        contract.with_game(id, game).game_hub == contract.game_hub,
        contract.with_game(id, game).digits == contract.digits,
        contract.with_game(id, game).verification_key == contract.verification_key,
{
}

/// The sessions of a deployment as mathematical values.
spec fn game_views(games: Map<u32, Game>) -> Map<u32, GameView> {
    Map::new(|id: u32| games.contains_key(id), |id: u32| games[id]@)
}

impl View for PassContract {
    type V = PassContractView;

    closed spec fn view(&self) -> PassContractView {
        PassContractView {
            admin: self.admin,
            game_hub: self.game_hub,
            digits: self.digits,
            verification_key: match self.verification_key {
                Some(key) => Some(key@),
                None => None,
            },
            games: game_views(self.games@),
        }
    }
}

impl PassContract {
    #[verifier::type_invariant]
    spec fn inv(self) -> bool {
        self@.wf()
    }

    /// Sets up a deployment with no sessions and no verification key, for
    /// secrets of `digits` digits.
    pub fn initialize(admin: Address, game_hub: Address, digits: u32) -> (contract: PassContract)
        requires
            1 <= digits <= MAX_DIGITS,
        ensures
            contract@ == (PassContractView {
                admin,
                game_hub,
                digits,
                verification_key: None,
                games: Map::empty(),
            }),
    {
        let contract = PassContract {
            admin,
            game_hub,
            digits,
            verification_key: None,
            games: HashMap::new(),
        };
        assert(contract@.games =~= Map::empty());
        contract
    }

    /// Takes the session stored under `session_id` out of the deployment.
    fn take_game(&mut self, session_id: u32) -> (taken: Option<Game>)
        ensures
            final(self)@ == (PassContractView {
                games: old(self)@.games.remove(session_id),
                ..old(self)@
            }),
            match taken {
                Some(game) => old(self)@.game(session_id) == Some(game@) && game@.wf(
                    old(self)@.digits,
                ),
                None => old(self)@.game(session_id) is None,
            },
    {
        proof {
            use_type_invariant(&*self);
        }
        let mut games: HashMap<u32, Game> = HashMap::new();
        std::mem::swap(&mut self.games, &mut games);
        let taken = games.remove(&session_id);
        proof {
            assert(game_views(games@) =~= old(self)@.games.remove(session_id));
        }
        std::mem::swap(&mut self.games, &mut games);
        taken
    }

    /// Stores a session under `session_id`, in place of any that was there.
    fn put_game(&mut self, session_id: u32, game: Game)
        requires
            game@.wf(old(self)@.digits),
        ensures
            final(self)@ == old(self)@.with_game(session_id, game@),
    {
        proof {
            use_type_invariant(&*self);
        }
        let mut games: HashMap<u32, Game> = HashMap::new();
        std::mem::swap(&mut self.games, &mut games);
        games.insert(session_id, game);
        proof {
            assert(game_views(games@) =~= old(self)@.games.insert(session_id, game@));
        }
        std::mem::swap(&mut self.games, &mut games);
    }

    /// Looks up the session stored under `session_id`.
    fn find_game(&self, session_id: u32) -> (found: Option<&Game>)
        ensures
            match found {
                Some(game) => self@.game(session_id) == Some(game@) && game@.wf(self@.digits),
                None => self@.game(session_id) is None,
            },
    {
        proof {
            use_type_invariant(self);
        }
        self.games.get(&session_id)
    }

    /// Tells a verified caller what holds of every deployment. It does
    /// nothing when run.
    pub fn well_formed(&self)
        ensures
            self@.wf(),
    {
        proof {
            use_type_invariant(self);
        }
    }

    /// Creates a session in `Setup` between two different players and stores
    /// it under `session_id`. Refused with `InvalidStatus` if a session is
    /// stored under that id already: a session is never replaced. A refused
    /// call changes nothing.
    pub fn start_game(
        &mut self,
        session_id: u32,
        player1: Address,
        player2: Address,
        player1_points: i128,
        player2_points: i128,
    ) -> (result: Result<(), Error>)
        requires
            player1 != player2,
        ensures
            result == old(self)@.start_game_result(session_id),
            result is Ok <==> old(self)@.game(session_id) is None,
            final(self)@ == old(self)@.after(
                (Call::Start { session_id, player1, player2, player1_points, player2_points }),
            ),
            result is Ok ==> final(self)@ == old(self)@.with_game(
                session_id,
                GameView::fresh(player1, player2, player1_points, player2_points),
            ),
            result is Err ==> final(self)@ == old(self)@,
    {
        if self.find_game(session_id).is_some() {
            return Err(Error::InvalidStatus);
        }
        let game = Game::new(player1, player2, player1_points, player2_points);
        proof {
            fresh_game_is_well_formed(
                player1,
                player2,
                player1_points,
                player2_points,
                self@.digits,
            );
        }
        self.put_game(session_id, game);
        Ok(())
    }

    /// Puts a session that was kept elsewhere back under `session_id`.
    /// Refused with `InvalidStatus` if a session is stored under that id
    /// already, or if `game` is not well formed for this deployment. A
    /// refused call changes nothing.
    pub fn restore_game(&mut self, session_id: u32, game: Game) -> (result: Result<(), Error>)
        ensures
            result == old(self)@.restore_game_result(session_id, game@),
            final(self)@ == old(self)@.after((Call::Restore { session_id, game: game@ })),
            result is Ok ==> final(self)@ == old(self)@.with_game(session_id, game@),
            result is Err ==> final(self)@ == old(self)@,
    {
        if self.find_game(session_id).is_some() || !game.is_well_formed(self.digits) {
            return Err(Error::InvalidStatus);
        }
        self.put_game(session_id, game);
        Ok(())
    }

    /// Stores `player`'s commitment in session `session_id`; see
    /// [`Game::register_secret`]. Refused with `GameNotFound` if there is no
    /// such session. A refused call changes nothing.
    pub fn register_secret(&mut self, session_id: u32, player: Address, secret_hash: [u8; 32]) -> (result:
        Result<(), Error>)
        ensures
            result == match old(self)@.game(session_id) {
                None => Err::<(), Error>(Error::GameNotFound),
                Some(game) => game.register_secret_result(player),
            },
            final(self)@ == match old(self)@.game(session_id) {
                None => old(self)@,
                Some(game) => old(self)@.with_game(
                    session_id,
                    game.after_register_secret(player, secret_hash),
                ),
            },
            final(self)@ == old(self)@.after(
                (Call::Play { session_id, m: Move::Register { player, secret_hash } }),
            ),
            result is Err ==> final(self)@ == old(self)@,
    {
        let mut game = match self.take_game(session_id) {
            Some(game) => game,
            None => {
                assert(self@.games =~= old(self)@.games);
                return Err(Error::GameNotFound);
            },
        };
        let result = game.register_secret(player, secret_hash);
        proof {
            step_keeps_well_formed(
                old(self)@.games[session_id],
                self@.digits,
                Move::Register { player, secret_hash },
            );
        }
        self.put_game(session_id, game);
        assert(self@.games =~= old(self)@.games.insert(session_id, game@));
        assert(result is Err ==> self@.games =~= old(self)@.games);
        result
    }

    /// Stores `player`'s guess in session `session_id`; see
    /// [`Game::submit_guess`]. Refused with `GameNotFound` if there is no
    /// such session. A refused call changes nothing.
    pub fn submit_guess(&mut self, session_id: u32, player: Address, guess: u32) -> (result: Result<
        (),
        Error,
    >)
        ensures
            result == match old(self)@.game(session_id) {
                None => Err::<(), Error>(Error::GameNotFound),
                Some(game) => game.submit_guess_result(player),
            },
            final(self)@ == match old(self)@.game(session_id) {
                None => old(self)@,
                Some(game) => old(self)@.with_game(
                    session_id,
                    game.after_submit_guess(player, guess),
                ),
            },
            final(self)@ == old(self)@.after(
                (Call::Play { session_id, m: Move::Guess { player, guess } }),
            ),
            result is Err ==> final(self)@ == old(self)@,
    {
        let mut game = match self.take_game(session_id) {
            Some(game) => game,
            None => {
                assert(self@.games =~= old(self)@.games);
                return Err(Error::GameNotFound);
            },
        };
        let result = game.submit_guess(player, guess);
        proof {
            step_keeps_well_formed(
                old(self)@.games[session_id],
                self@.digits,
                Move::Guess { player, guess },
            );
        }
        self.put_game(session_id, game);
        assert(self@.games =~= old(self)@.games.insert(session_id, game@));
        assert(result is Err ==> self@.games =~= old(self)@.games);
        result
    }

    /// Stores the counts and the proof that `player` submits in session
    /// `session_id`; see [`Game::submit_proof`]. Refused with `GameNotFound`
    /// if there is no such session, and with `InvalidStatus` if the counts do
    /// not add up to the deployment's number of digits. A refused call
    /// changes nothing.
    pub fn submit_proof(
        &mut self,
        session_id: u32,
        player: Address,
        acertos: u32,
        permutados: u32,
        erros: u32,
        proof: Vec<u8>,
    ) -> (result: Result<(), Error>)
        ensures
            result == match old(self)@.game(session_id) {
                None => Err::<(), Error>(Error::GameNotFound),
                Some(game) => game.submit_proof_result(
                    old(self)@.digits,
                    (ProofDataView { player, acertos, permutados, erros, proof: proof@ }),
                ),
            },
            final(self)@ == match old(self)@.game(session_id) {
                None => old(self)@,
                Some(game) => old(self)@.with_game(
                    session_id,
                    game.after_submit_proof(
                        old(self)@.digits,
                        (ProofDataView { player, acertos, permutados, erros, proof: proof@ }),
                    ),
                ),
            },
            final(self)@ == old(self)@.after(
                (Call::Play {
                    session_id,
                    m: Move::Prove {
                        proof: ProofDataView { player, acertos, permutados, erros, proof: proof@ },
                    },
                }),
            ),
            result is Err ==> final(self)@ == old(self)@,
    {
        let mut game = match self.take_game(session_id) {
            Some(game) => game,
            None => {
                assert(self@.games =~= old(self)@.games);
                return Err(Error::GameNotFound);
            },
        };
        let ghost submitted = ProofDataView { player, acertos, permutados, erros, proof: proof@ };
        let result = game.submit_proof(self.digits, player, acertos, permutados, erros, proof);
        proof {
            step_keeps_well_formed(
                old(self)@.games[session_id],
                self@.digits,
                Move::Prove { proof: submitted },
            );
        }
        self.put_game(session_id, game);
        assert(self@.games =~= old(self)@.games.insert(session_id, game@));
        assert(result is Err ==> self@.games =~= old(self)@.games);
        result
    }

    /// Whether `verify_proof` on session `session_id` will consult the
    /// verifier, and so needs the verification key.
    pub fn verification_due(&self, session_id: u32) -> (due: bool)
        ensures
            due == self@.verification_due(session_id),
    {
        match self.find_game(session_id) {
            Some(game) => game.round_ready(),
            None => false,
        }
    }

    /// Resolves the round being played in session `session_id`, given what
    /// the verifier said of player 1's proof and of player 2's; see
    /// [`Game::resolve_round`]. Refused with `GameNotFound` if there is no
    /// such session. A refused call changes nothing.
    pub fn resolve_round(&mut self, session_id: u32, verified1: bool, verified2: bool) -> (result:
        Result<RoundVerdict, Error>)
        ensures
            result == match old(self)@.game(session_id) {
                None => Err::<RoundVerdict, Error>(Error::GameNotFound),
                Some(game) => game.verdict(old(self)@.digits, verified1, verified2),
            },
            final(self)@ == match old(self)@.game(session_id) {
                None => old(self)@,
                Some(game) => old(self)@.with_game(
                    session_id,
                    game.after_resolve(old(self)@.digits, verified1, verified2),
                ),
            },
            final(self)@ == old(self)@.after(
                (Call::Play { session_id, m: Move::Resolve { verified1, verified2 } }),
            ),
            result is Err ==> final(self)@ == old(self)@,
    {
        let mut game = match self.take_game(session_id) {
            Some(game) => game,
            None => {
                assert(self@.games =~= old(self)@.games);
                return Err(Error::GameNotFound);
            },
        };
        let result = game.resolve_round(self.digits, verified1, verified2);
        proof {
            step_keeps_well_formed(
                old(self)@.games[session_id],
                self@.digits,
                Move::Resolve { verified1, verified2 },
            );
        }
        self.put_game(session_id, game);
        assert(self@.games =~= old(self)@.games.insert(session_id, game@));
        assert(result is Err ==> self@.games =~= old(self)@.games);
        result
    }

    /// Resolves the round being played in session `session_id` on the
    /// verifier's word about the two proofs; see [`Game::verify_proof`] and
    /// [`Game::resolve_round`]. Refused with `GameNotFound` if there is no
    /// such session. A refused call changes nothing.
    ///
    /// The verification key must have been stored before a round is put to
    /// the verifier.
    pub fn verify_proof(&mut self, env: &Env, session_id: u32) -> (result: Result<
        RoundVerdict,
        Error,
    >)
        requires
            old(self)@.verification_due(session_id) ==> old(self)@.verification_key is Some,
        ensures
            result == match old(self)@.game(session_id) {
                None => Err::<RoundVerdict, Error>(Error::GameNotFound),
                Some(game) => game.verdict(
                    old(self)@.digits,
                    game.player1_proof_holds(old(self)@.digits, old(self)@.stored_key()),
                    game.player2_proof_holds(old(self)@.digits, old(self)@.stored_key()),
                ),
            },
            final(self)@ == match old(self)@.game(session_id) {
                None => old(self)@,
                Some(game) => old(self)@.with_game(
                    session_id,
                    game.after_resolve(
                        old(self)@.digits,
                        game.player1_proof_holds(old(self)@.digits, old(self)@.stored_key()),
                        game.player2_proof_holds(old(self)@.digits, old(self)@.stored_key()),
                    ),
                ),
            },
            final(self)@ == old(self)@.after(
                (Call::Play {
                    session_id,
                    m: Move::Resolve {
                        verified1: old(self)@.verifier_answers(session_id).0,
                        verified2: old(self)@.verifier_answers(session_id).1,
                    },
                }),
            ),
            result is Err ==> final(self)@ == old(self)@,
    {
        let mut game = match self.take_game(session_id) {
            Some(game) => game,
            None => {
                assert(self@.games =~= old(self)@.games);
                return Err(Error::GameNotFound);
            },
        };
        let ghost before = old(self)@.games[session_id];
        let ghost verified1 = before.player1_proof_holds(self@.digits, old(self)@.stored_key());
        let ghost verified2 = before.player2_proof_holds(self@.digits, old(self)@.stored_key());
        let result = match &self.verification_key {
            Some(key) => game.verify_proof(env, self.digits, key),
            None => game.resolve_round(self.digits, false, false),
        };
        proof {
            step_keeps_well_formed(before, self@.digits, Move::Resolve { verified1, verified2 });
        }
        self.put_game(session_id, game);
        assert(self@.games =~= old(self)@.games.insert(session_id, game@));
        assert(result is Err ==> self@.games =~= old(self)@.games);
        result
    }

    /// Tells how session `session_id` ended; see [`Game::has_game_ended`].
    /// Refused with `GameNotFound` if there is no such session.
    pub fn has_game_ended(&self, session_id: u32) -> (result: Result<Option<Address>, Error>)
        ensures
            result == match self@.game(session_id) {
                None => Err::<Option<Address>, Error>(Error::GameNotFound),
                Some(game) => game.ended_result(),
            },
    {
        match self.find_game(session_id) {
            Some(game) => game.has_game_ended(),
            None => Err(Error::GameNotFound),
        }
    }

    /// Returns the status of session `session_id`. Refused with
    /// `GameNotFound` if there is no such session.
    pub fn get_game_status(&self, session_id: u32) -> (result: Result<GameStatus, Error>)
        ensures
            result == match self@.game(session_id) {
                None => Err::<GameStatus, Error>(Error::GameNotFound),
                Some(game) => Ok::<GameStatus, Error>(game.status),
            },
    {
        match self.find_game(session_id) {
            Some(game) => Ok(game.status),
            None => Err(Error::GameNotFound),
        }
    }

    /// Returns how `player`'s guess fared in the last resolved round of
    /// session `session_id`; see [`Game::get_player_result`]. Refused with
    /// `GameNotFound` if there is no such session.
    pub fn get_player_result(&self, session_id: u32, player: Address) -> (result: Result<
        GameResult,
        Error,
    >)
        ensures
            result == match self@.game(session_id) {
                None => Err::<GameResult, Error>(Error::GameNotFound),
                Some(game) => game.player_result(player),
            },
    {
        match self.find_game(session_id) {
            Some(game) => game.get_player_result(player),
            None => Err(Error::GameNotFound),
        }
    }

    /// Returns a copy of session `session_id`, which is well formed.
    /// Refused with `GameNotFound` if there is no such session.
    pub fn get_game(&self, session_id: u32) -> (result: Result<Game, Error>)
        ensures
            match result {
                Ok(game) => self@.game(session_id) == Some(game@) && game@.wf(self@.digits),
                Err(e) => self@.game(session_id) is None && e == Error::GameNotFound,
            },
    {
        match self.find_game(session_id) {
            Some(game) => Ok(game.clone()),
            None => Err(Error::GameNotFound),
        }
    }

    /// Returns how many digits a secret has in this deployment.
    pub fn get_digits(&self) -> (digits: u32)
        ensures
            digits == self@.digits,
            1 <= digits <= MAX_DIGITS,
    {
        proof {
            use_type_invariant(self);
        }
        self.digits
    }

    /// Returns the administrator.
    pub fn get_admin(&self) -> (admin: Address)
        ensures
            admin == self@.admin,
    {
        self.admin
    }

    /// Makes `new_admin` the administrator.
    pub fn set_admin(&mut self, new_admin: Address)
        ensures
            final(self)@ == (PassContractView { admin: new_admin, ..old(self)@ }),
            final(self)@ == old(self)@.after((Call::SetAdmin { new_admin })),
    {
        proof {
            use_type_invariant(&*self);
        }
        self.admin = new_admin;
    }

    /// Returns the session authority.
    pub fn get_hub(&self) -> (hub: Address)
        ensures
            hub == self@.game_hub,
    {
        self.game_hub
    }

    /// Makes `new_hub` the session authority.
    pub fn set_hub(&mut self, new_hub: Address)
        ensures
            final(self)@ == (PassContractView { game_hub: new_hub, ..old(self)@ }),
            final(self)@ == old(self)@.after((Call::SetHub { new_hub })),
    {
        proof {
            use_type_invariant(&*self);
        }
        self.game_hub = new_hub;
    }

    /// Stores `vk` as the verification key, in place of any stored before.
    pub fn set_verification_key(&mut self, vk: Vec<u8>)
        ensures
            final(self)@ == (PassContractView { verification_key: Some(vk@), ..old(self)@ }),
            final(self)@ == old(self)@.after((Call::SetVerificationKey { vk: vk@ })),
    {
        proof {
            use_type_invariant(&*self);
        }
        self.verification_key = Some(vk);
    }

    /// Returns a copy of the verification key, if one was stored.
    pub fn get_verification_key(&self) -> (vk: Option<Vec<u8>>)
        ensures
            match vk {
                Some(key) => self@.verification_key == Some(key@),
                None => self@.verification_key is None,
            },
    {
        match &self.verification_key {
            Some(key) => {
                let copy = key.clone();
                assert(copy@ =~= key@);
                Some(copy)
            },
            None => None,
        }
    }
}

} // verus!
