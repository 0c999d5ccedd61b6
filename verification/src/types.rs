//! The plain values that cross the library's border: identities, requests,
//! snapshots, outcomes and errors.

use vstd::prelude::*;

verus! {

/// Identity of a participant: 32 bytes, ordered as byte strings are.
pub type AccountId = [u8; 32];

/// Identifier of a session: the 32-byte digest of what defines the session.
pub type AppId = [u8; 32];

/// Height of the ledger's logical clock.
pub type BlockNumber = u64;

/// A signature, in whatever form the runtime's scheme gives it.
pub type Signature = Vec<u8>;

/// Where a session stands in its life.
#[derive(Clone, Copy, Debug, PartialEq, Eq, Structural)]
pub enum AppStatus {
    Idle,
    Settle,
    Action,
    Finalized,
}

impl AppStatus {
    /// The number under which this status is persisted and signed.
    pub open spec fn code(self) -> u8 {
        match self {
            AppStatus::Idle => 0,
            AppStatus::Settle => 1,
            AppStatus::Action => 2,
            AppStatus::Finalized => 3,
        }
    }

    /// Gives the number under which this status is persisted and signed.
    pub fn to_byte(self) -> (b: u8)
        ensures
            b == self.code(),
    {
        match self {
            AppStatus::Idle => 0,
            AppStatus::Settle => 1,
            AppStatus::Action => 2,
            AppStatus::Finalized => 3,
        }
    }

    /// Reads a status from its number; `None` for a number above 3.
    pub fn from_byte(b: u8) -> (s: Option<AppStatus>)
        ensures
            match s {
                Some(status) => status.code() == b,
                None => b > 3,
            },
    {
        if b == 0 {
            Some(AppStatus::Idle)
        } else if b == 1 {
            Some(AppStatus::Settle)
        } else if b == 2 {
            Some(AppStatus::Action)
        } else if b == 3 {
            Some(AppStatus::Finalized)
        } else {
            None
        }
    }
}

/// Which part of a session's board a query asks for.
#[derive(Clone, Copy, Debug, PartialEq, Eq, Structural)]
pub enum StateKey {
    TurnColor,
    WinnerColor,
    FullState,
}

impl StateKey {
    /// The number by which a query names this part.
    pub open spec fn code(self) -> u8 {
        match self {
            StateKey::TurnColor => 0,
            StateKey::WinnerColor => 1,
            StateKey::FullState => 2,
        }
    }

    /// The part that a number names: 0 the turn, 1 the winner, anything else
    /// the whole board.
    pub open spec fn of_code(key: u8) -> StateKey {
        if key == 0 {
            StateKey::TurnColor
        } else if key == 1 {
            StateKey::WinnerColor
        } else {
            StateKey::FullState
        }
    }

    /// Gives the number by which a query names this part.
    pub fn to_byte(self) -> (b: u8)
        ensures
            b == self.code(),
            StateKey::of_code(b) == self,
    {
        match self {
            StateKey::TurnColor => 0,
            StateKey::WinnerColor => 1,
            StateKey::FullState => 2,
        }
    }

    /// Reads the part that a number names.
    pub fn from_byte(key: u8) -> (k: StateKey)
        ensures
            k == StateKey::of_code(key),
    {
        if key == 0 {
            StateKey::TurnColor
        } else if key == 1 {
            StateKey::WinnerColor
        } else {
            StateKey::FullState
        }
    }
}

/// What a caller asks for when it opens a session.
#[derive(Clone, Debug, PartialEq, Eq)]
pub struct AppInitiateRequest {
    pub nonce: u128,
    pub player_num: u8,
    pub players: Vec<AccountId>,
    pub timeout: BlockNumber,
    pub min_stone_offchain: u8,
    pub max_stone_onchain: u8,
}

/// A snapshot of a game that the players agreed on off the ledger.
#[derive(Clone, Debug, PartialEq, Eq)]
pub struct AppState {
    pub seq_num: u128,
    pub board_state: Vec<u8>,
    pub timeout: BlockNumber,
    pub app_id: AppId,
}

/// A snapshot together with one signature per player, in player order.
#[derive(Clone, Debug, PartialEq, Eq)]
pub struct StateProof {
    pub app_state: AppState,
    pub sigs: Vec<Signature>,
}

/// What the engine tells observers.
#[derive(Clone, Copy, Debug, PartialEq, Eq)]
pub enum Event {
    /// A snapshot was installed for the session, with its sequence number.
    IntendSettle(AppId, u128),
}

/// The four families that every error belongs to.
#[derive(Clone, Copy, Debug, PartialEq, Eq, Structural)]
pub enum ErrorKind {
    NotFound,
    Unauthorized,
    Conflict,
    InvalidInput,
}

/// Why a call was refused. A refused call changes nothing.
#[derive(Clone, Copy, Debug, PartialEq, Eq, Structural)]
pub enum Error {
    /// No session has the given identifier.
    SessionNotFound,
    /// The session has no board yet.
    EmptyBoardState,
    /// A player's signature is missing or does not fit the snapshot.
    InvalidCoSignature,
    /// The caller is not the player whose color is on turn.
    NotYourTurn,
    /// A session with the derived identifier exists already.
    SessionAlreadyExists,
    /// The session is finalized and takes no snapshot or move.
    AlreadyFinalized,
    /// The snapshot's sequence number is not above the session's.
    StaleSequenceNumber,
    /// The session is neither playing on the ledger nor past its settle window.
    NotInActionMode,
    /// The action window's deadline has not passed.
    DeadlineNotPassed,
    /// The settle window and its grace period have not passed.
    StillSettling,
    /// The session is not finalized.
    NotFinalized,
    /// The stored winner is not the claimed one.
    OutcomeMismatch,
    /// The board snapshot is not 228 bytes long.
    MalformedBoard,
    /// The action is not two bytes long.
    InvalidActionLength,
    /// The move names a cell outside the board.
    OutOfBoundaryMove,
    /// The move names a cell that holds a stone.
    CellOccupied,
    /// The byte that names the black player is neither 1 nor 2.
    InvalidBlackIdentity,
    /// The winner byte is above 2.
    InvalidWinner,
    /// The snapshot holds fewer stones than the session asks for.
    InsufficientOffchainStones,
    /// Fewer than two players were named.
    TooFewPlayers,
    /// The players are not listed in strictly ascending order.
    PlayersNotAscending,
    /// A sequence number or a deadline would leave its integer type.
    Overflow,
}

impl Error {
    /// The family of this error.
    pub open spec fn kind_spec(self) -> ErrorKind {
        match self {
            Error::SessionNotFound | Error::EmptyBoardState => ErrorKind::NotFound,
            Error::InvalidCoSignature | Error::NotYourTurn => ErrorKind::Unauthorized,
            Error::SessionAlreadyExists
            | Error::AlreadyFinalized
            | Error::StaleSequenceNumber
            | Error::NotInActionMode
            | Error::DeadlineNotPassed
            | Error::StillSettling
            | Error::NotFinalized
            | Error::OutcomeMismatch => ErrorKind::Conflict,
            Error::MalformedBoard
            | Error::InvalidActionLength
            | Error::OutOfBoundaryMove
            | Error::CellOccupied
            | Error::InvalidBlackIdentity
            | Error::InvalidWinner
            | Error::InsufficientOffchainStones
            | Error::TooFewPlayers
            | Error::PlayersNotAscending
            | Error::Overflow => ErrorKind::InvalidInput,
        }
    }

    /// Gives the family of this error.
    pub fn kind(&self) -> (k: ErrorKind)
        ensures
            k == self.kind_spec(),
    {
        match self {
            Error::SessionNotFound | Error::EmptyBoardState => ErrorKind::NotFound,
            Error::InvalidCoSignature | Error::NotYourTurn => ErrorKind::Unauthorized,
            Error::SessionAlreadyExists
            | Error::AlreadyFinalized
            | Error::StaleSequenceNumber
            | Error::NotInActionMode
            | Error::DeadlineNotPassed
            | Error::StillSettling
            | Error::NotFinalized
            | Error::OutcomeMismatch => ErrorKind::Conflict,
            Error::MalformedBoard
            | Error::InvalidActionLength
            | Error::OutOfBoundaryMove
            | Error::CellOccupied
            | Error::InvalidBlackIdentity
            | Error::InvalidWinner
            | Error::InsufficientOffchainStones
            | Error::TooFewPlayers
            | Error::PlayersNotAscending
            | Error::Overflow => ErrorKind::InvalidInput,
        }
    }

    /// The message that goes with this error.
    pub open spec fn message_spec(self) -> Seq<char> {
        match self {
            Error::SessionNotFound => "MultiGomokuInfo is not exist"@,
            Error::EmptyBoardState => "BoardState is empty"@,
            Error::InvalidCoSignature => "Check co-sigs failed"@,
            Error::NotYourTurn => "Not your turn"@,
            Error::SessionAlreadyExists => "AppId already exists"@,
            Error::AlreadyFinalized => "app state is finalized"@,
            Error::StaleSequenceNumber => "invalid sequence number"@,
            Error::NotInActionMode => "app not in action mode"@,
            Error::DeadlineNotPassed => "deadline does not passes"@,
            Error::StillSettling => "while setting"@,
            Error::NotFinalized => "App status is not finalized"@,
            Error::OutcomeMismatch => "App outcome is false"@,
            Error::MalformedBoard => "invalid state length"@,
            Error::InvalidActionLength => "invalid action length"@,
            Error::OutOfBoundaryMove => "out of boundary"@,
            Error::CellOccupied => "slot is occupied"@,
            Error::InvalidBlackIdentity => "BlackId is invalid"@,
            Error::InvalidWinner => "invalid winner state"@,
            Error::InsufficientOffchainStones => "not enough offchain stones"@,
            Error::TooFewPlayers => "fewer than two players"@,
            Error::PlayersNotAscending => "player is not ascending order"@,
            Error::Overflow => "arithmetic overflow"@,
        }
    }

    /// Gives the message that goes with this error.
    pub fn message(&self) -> (text: &'static str)
        ensures
            text@ == self.message_spec(),
    {
        match self {
            Error::SessionNotFound => "MultiGomokuInfo is not exist",
            Error::EmptyBoardState => "BoardState is empty",
            Error::InvalidCoSignature => "Check co-sigs failed",
            Error::NotYourTurn => "Not your turn",
            Error::SessionAlreadyExists => "AppId already exists",
            Error::AlreadyFinalized => "app state is finalized",
            Error::StaleSequenceNumber => "invalid sequence number",
            Error::NotInActionMode => "app not in action mode",
            Error::DeadlineNotPassed => "deadline does not passes",
            Error::StillSettling => "while setting",
            Error::NotFinalized => "App status is not finalized",
            Error::OutcomeMismatch => "App outcome is false",
            Error::MalformedBoard => "invalid state length",
            Error::InvalidActionLength => "invalid action length",
            Error::OutOfBoundaryMove => "out of boundary",
            Error::CellOccupied => "slot is occupied",
            Error::InvalidBlackIdentity => "BlackId is invalid",
            Error::InvalidWinner => "invalid winner state",
            Error::InsufficientOffchainStones => "not enough offchain stones",
            Error::TooFewPlayers => "fewer than two players",
            Error::PlayersNotAscending => "player is not ascending order",
            Error::Overflow => "arithmetic overflow",
        }
    }
}

} // verus!
