//! Plain data shared by every part of the game: identities, statuses, errors,
//! reported counts and round results.

use vstd::prelude::*;

verus! {

/// The identity of a party: the 32-byte payload of a ledger address together
/// with the kind of address it was taken from.
#[derive(Clone, Copy, Debug, Eq)]
pub enum Address {
    /// The Ed25519 public key of an account.
    Account([u8; 32]),
    /// The hash that identifies a contract.
    Contract([u8; 32]),
}

/// Compares two 32-byte strings.
pub fn bytes32_eq(a: &[u8; 32], b: &[u8; 32]) -> (same: bool)
    ensures
        same == (*a == *b),
{
    let mut i: usize = 0;
    while i < 32
        invariant
            i <= 32,
            forall|j: int| 0 <= j < i ==> a[j] == b[j],
        decreases 32 - i,
    {
        if a[i] != b[i] {
            return false;
        }
        i += 1;
    }
    assert(*a =~= *b);
    true
}

impl PartialEq for Address {
    fn eq(&self, other: &Self) -> (same: bool) {
        match (self, other) {
            (Address::Account(a), Address::Account(b)) => bytes32_eq(a, b),
            (Address::Contract(a), Address::Contract(b)) => bytes32_eq(a, b),
            _ => false,
        }
    }
}

impl vstd::std_specs::cmp::PartialEqSpecImpl for Address {
    open spec fn obeys_eq_spec() -> bool {
        true
    }

    open spec fn eq_spec(&self, other: &Self) -> bool {
        *self == *other
    }
}

/// Why an operation on a session was refused.
#[derive(Clone, Copy, Debug, PartialEq, Eq, Structural)]
pub enum Error {
    /// No session is stored under the given id.
    GameNotFound,
    /// The caller is neither of the session's two players.
    NotPlayer,
    /// Reserved: no operation returns it.
    AlreadyGuessed,
    /// Reserved: no operation returns it.
    GameAlreadyEnded,
    /// The session is not in the state the operation needs.
    InvalidStatus,
    /// The player has already committed to a secret.
    SecretAlreadyRegistered,
    /// A round cannot be resolved before both players have guessed.
    BothPlayersNotGuessed,
}

impl Error {
    /// The number under which the error is reported to clients.
    pub open spec fn code_spec(self) -> u32 {
        match self {
            Error::GameNotFound => 1,
            Error::NotPlayer => 2,
            Error::AlreadyGuessed => 3,
            Error::GameAlreadyEnded => 5,
            Error::InvalidStatus => 6,
            Error::SecretAlreadyRegistered => 7,
            Error::BothPlayersNotGuessed => 8,
        }
    }

    /// The number under which the error is reported to clients.
    pub fn code(&self) -> (code: u32)
        ensures
            code == self.code_spec(),
    {
        match self {
            Error::GameNotFound => 1,
            Error::NotPlayer => 2,
            Error::AlreadyGuessed => 3,
            Error::GameAlreadyEnded => 5,
            Error::InvalidStatus => 6,
            Error::SecretAlreadyRegistered => 7,
            Error::BothPlayersNotGuessed => 8,
        }
    }
}

/// Where a session stands in its life.
#[derive(Clone, Copy, Debug, PartialEq, Eq, Structural)]
pub enum GameStatus {
    /// Not used by any transition; a session is created in `Setup`.
    WaitingForPlayers,
    /// Waiting for both players to commit to their secrets.
    Setup,
    /// Rounds of guesses and proofs are being played.
    Playing,
    /// Ended without a winner.
    Draw,
    /// Ended with a winner.
    Winner,
    /// Not used by any transition; ended sessions are `Draw` or `Winner`.
    Finished,
}

impl GameStatus {
    /// A session that has ended never changes again.
    pub open spec fn is_terminal(self) -> bool {
        self is Draw || self is Winner || self is Finished
    }

    /// How far along its life a session is: a transition never lowers it.
    pub open spec fn rank(self) -> nat {
        match self {
            GameStatus::WaitingForPlayers => 0,
            GameStatus::Setup => 1,
            GameStatus::Playing => 2,
            GameStatus::Draw => 3,
            GameStatus::Winner => 3,
            GameStatus::Finished => 3,
        }
    }

    /// Whether the session has ended.
    pub fn has_ended(&self) -> (ended: bool)
        ensures
            ended == self.is_terminal(),
    {
        match self {
            GameStatus::Draw | GameStatus::Winner | GameStatus::Finished => true,
            _ => false,
        }
    }
}

/// How one player's guess compared with the opponent's secret.
#[derive(Clone, Copy, Debug, PartialEq, Eq)]
pub struct GameResult {
    /// The player who made the guess.
    pub player: Address,
    /// Digits that are right and in the right place.
    pub acertos: u32,
    /// Digits that do not occur in the secret.
    pub erros: u32,
    /// Digits that are right but in the wrong place.
    pub permutados: u32,
}

impl GameResult {
    /// The result published for a round that ended in fraud: no counts.
    pub open spec fn empty(player: Address) -> GameResult {
        GameResult { player, acertos: 0, erros: 0, permutados: 0 }
    }

    /// Whether the three counts add up to `digits`.
    pub open spec fn adds_up_to(self, digits: u32) -> bool {
        self.acertos + self.erros + self.permutados == digits
    }
}

/// The counts a player reports for the opponent's guess, with the proof that
/// they are the right ones for the secret the player committed to.
#[derive(Debug, PartialEq, Eq)]
pub struct ProofData {
    /// The player who submits the proof.
    pub player: Address,
    /// Digits that are right and in the right place.
    pub acertos: u32,
    /// Digits that are right but in the wrong place.
    pub permutados: u32,
    /// Digits that do not occur in the secret.
    pub erros: u32,
    /// The proof, as the prover wrote it.
    pub proof: Vec<u8>,
}

/// A `ProofData` as a mathematical value.
pub struct ProofDataView {
    pub player: Address,
    pub acertos: u32,
    pub permutados: u32,
    pub erros: u32,
    pub proof: Seq<u8>,
}

impl ProofDataView {
    /// Whether the three reported counts add up to `digits`.
    pub open spec fn adds_up_to(self, digits: u32) -> bool {
        self.acertos + self.permutados + self.erros == digits
    }
}

impl View for ProofData {
    type V = ProofDataView;

    open spec fn view(&self) -> ProofDataView {
        ProofDataView {
            player: self.player,
            acertos: self.acertos,
            permutados: self.permutados,
            erros: self.erros,
            proof: self.proof@,
        }
    }
}

impl Clone for ProofData {
    fn clone(&self) -> (copy: Self)
        ensures
            copy@ == self@,
    {
        let proof = self.proof.clone();
        assert(proof@ =~= self.proof@);
        ProofData {
            player: self.player,
            acertos: self.acertos,
            permutados: self.permutados,
            erros: self.erros,
            proof,
        }
    }
}

impl ProofData {
    /// Whether the three reported counts add up to `digits`.
    pub fn counts_add_up_to(&self, digits: u32) -> (ok: bool)
        ensures
            ok == self@.adds_up_to(digits),
    {
        self.acertos as u64 + self.permutados as u64 + self.erros as u64 == digits as u64
    }
}

/// The view of an optional proof.
pub open spec fn proof_view(p: Option<ProofData>) -> Option<ProofDataView> {
    match p {
        Some(p) => Some(p@),
        None => None,
    }
}

} // verus!
