//! One session: its record, the rules that move it from state to state, and
//! the queries on it.

use vstd::prelude::*;
use crate::board::{cell, in_bounds, index, Color};
use crate::types::{AccountId, AppStatus, BlockNumber, Error, StateKey};
use crate::win::five_in_a_row;

verus! {

/// The mathematical record of a session.
pub struct Session {
    /// The participants, in ascending order; the first two play.
    pub players: Seq<AccountId>,
    /// The number of players that the session was opened for.
    pub player_num: u8,
    /// Sequence number of the last snapshot or move taken.
    pub seq_num: u128,
    /// Length of a window, in blocks.
    pub timeout: BlockNumber,
    /// Height at which the current window ends.
    pub deadline: BlockNumber,
    /// Where the session stands.
    pub status: AppStatus,
    /// The board buffer, once a snapshot was installed.
    pub board: Option<Seq<u8>>,
    /// Stones placed so far, as last counted.
    pub stone_num: u16,
    /// Stones placed on the ledger since the last snapshot.
    pub stone_num_onchain: u16,
    /// Fewest stones that a snapshot without a winner may hold.
    pub min_stone_offchain: u8,
    /// Most stones that may be placed on the ledger after a snapshot.
    pub max_stone_onchain: u8,
}

/// Whether `a` comes before `b` in the order of byte strings of one length.
pub open spec fn account_less(a: AccountId, b: AccountId) -> bool {
    exists|i: int|
        0 <= i < 32 && #[trigger] a@[i] < b@[i] && forall|j: int| 0 <= j < i ==> a@[j] == b@[j]
}

/// Whether each player comes before the next one.
pub open spec fn strictly_ascending(players: Seq<AccountId>) -> bool {
    forall|i: int, j: int|
        0 <= i && j == i + 1 && j < players.len() ==> account_less(
            #[trigger] players[i],
            #[trigger] players[j],
        )
}

/// What the check of a list of players gives.
pub open spec fn players_verdict(players: Seq<AccountId>) -> Result<(), Error> {
    if players.len() < 2 {
        Err(Error::TooFewPlayers)
    } else if !strictly_ascending(players) {
        Err(Error::PlayersNotAscending)
    } else {
        Ok(())
    }
}

/// The number of bytes in `cells` that are not zero.
pub open spec fn stones_in(cells: Seq<u8>) -> nat
    decreases cells.len(),
{
    if cells.len() == 0 {
        0
    } else {
        stones_in(cells.drop_last()) + if cells.last() != 0 {
            1nat
        } else {
            0nat
        }
    }
}

/// The stones that a snapshot is taken to hold: the bytes from position 4 on
/// that are not zero.
pub open spec fn offchain_stones(board: Seq<u8>) -> nat {
    stones_in(board.subrange(4, board.len() as int))
}

/// The board of a game that was closed with `winner`: the winner byte set, and
/// the turn byte cleared unless `winner` is 0.
pub open spec fn closed_board(board: Seq<u8>, winner: u8) -> Seq<u8> {
    if winner != 0 {
        board.update(0, winner).update(1, 0)
    } else {
        board.update(0, winner)
    }
}

/// The byte that follows `turn` on the turn byte: white after black, black
/// after anything else.
pub open spec fn next_turn(turn: u8) -> u8 {
    if turn == 1 {
        2
    } else {
        1
    }
}

impl Session {
    /// What holds of every session that the engine keeps.
    pub open spec fn wf(self) -> bool {
        &&& self.players.len() >= 2
        &&& (self.board matches Some(b) ==> b.len() == 228)
        &&& (self.status != AppStatus::Idle ==> self.board is Some)
        &&& self.stone_num_onchain <= self.max_stone_onchain + 1
        &&& (self.status != AppStatus::Finalized ==> self.stone_num_onchain
            <= self.max_stone_onchain)
        &&& self.stone_num <= 224 + self.stone_num_onchain
    }

    /// The session that a request opens: idle, with no board and no stones.
    pub open spec fn initial(
        players: Seq<AccountId>,
        player_num: u8,
        timeout: BlockNumber,
        min_stone_offchain: u8,
        max_stone_onchain: u8,
    ) -> Session {
        Session {
            players,
            player_num,
            seq_num: 0,
            timeout,
            deadline: 0,
            status: AppStatus::Idle,
            board: None,
            stone_num: 0,
            stone_num_onchain: 0,
            min_stone_offchain,
            max_stone_onchain,
        }
    }

    /// The board, or 228 zero bytes where there is none yet.
    pub open spec fn board_or_empty(self) -> Seq<u8> {
        match self.board {
            Some(b) => b,
            None => Seq::new(228, |i: int| 0u8),
        }
    }

    /// Closing the game with `winner`: a winner of 1 or 2 finalizes the
    /// session, 0 only clears the winner byte, anything else is refused.
    pub open spec fn win_game(self, winner: u8) -> Result<Session, Error> {
        if winner > 2 {
            Err(Error::InvalidWinner)
        } else if winner != 0 {
            Ok(
                Session {
                    board: Some(closed_board(self.board_or_empty(), winner)),
                    status: AppStatus::Finalized,
                    ..self
                },
            )
        } else {
            Ok(Session { board: Some(closed_board(self.board_or_empty(), winner)), ..self })
        }
    }

    /// Opening the settle window for a snapshot with sequence number
    /// `seq_num`, of which `co_signed` says whether every player signed it.
    pub open spec fn intend_settle(
        self,
        seq_num: u128,
        co_signed: bool,
        block_number: BlockNumber,
    ) -> Result<Session, Error> {
        if !co_signed {
            Err(Error::InvalidCoSignature)
        } else if self.status == AppStatus::Finalized {
            Err(Error::AlreadyFinalized)
        } else if self.seq_num >= seq_num {
            Err(Error::StaleSequenceNumber)
        } else if block_number + self.timeout > u64::MAX {
            Err(Error::Overflow)
        } else {
            Ok(
                Session {
                    seq_num,
                    deadline: (block_number + self.timeout) as u64,
                    status: AppStatus::Settle,
                    ..self
                },
            )
        }
    }

    /// Taking a co-signed snapshot: the window opens, and the board is
    /// installed; a snapshot that names a winner finalizes the session.
    pub open spec fn update_by_state(
        self,
        seq_num: u128,
        board: Seq<u8>,
        co_signed: bool,
        block_number: BlockNumber,
    ) -> Result<Session, Error> {
        match self.intend_settle(seq_num, co_signed, block_number) {
            Err(e) => Err(e),
            Ok(opened) => {
                if board.len() != 228 {
                    Err(Error::MalformedBoard)
                } else if board[0] != 0 {
                    if board[0] > 2 {
                        Err(Error::InvalidWinner)
                    } else {
                        Ok(
                            Session {
                                board: Some(closed_board(board, board[0])),
                                status: AppStatus::Finalized,
                                stone_num: 0,
                                ..opened
                            },
                        )
                    }
                } else if offchain_stones(board) < self.min_stone_offchain {
                    Err(Error::InsufficientOffchainStones)
                } else {
                    Ok(
                        Session {
                            board: Some(board),
                            stone_num: offchain_stones(board) as u16,
                            stone_num_onchain: 0,
                            ..opened
                        },
                    )
                }
            },
        }
    }

    /// Whether a move can be taken at `block_number`: the session plays on the
    /// ledger already, or its settle window has passed.
    pub open spec fn in_action_window(self, block_number: BlockNumber) -> bool {
        ||| self.status == AppStatus::Action
        ||| (self.status == AppStatus::Settle && block_number > self.deadline)
    }

    /// Opening or renewing the action window for a move.
    pub open spec fn apply_action(self, block_number: BlockNumber) -> Result<Session, Error> {
        if self.status == AppStatus::Finalized {
            Err(Error::AlreadyFinalized)
        } else if !self.in_action_window(block_number) {
            Err(Error::NotInActionMode)
        } else if self.seq_num == u128::MAX || block_number + self.timeout > u64::MAX {
            Err(Error::Overflow)
        } else {
            Ok(
                Session {
                    seq_num: (self.seq_num + 1) as u128,
                    deadline: (block_number + self.timeout) as u64,
                    status: AppStatus::Action,
                    ..self
                },
            )
        }
    }

    /// The player who moves when the turn byte is `turn` and the black-player
    /// byte is `black_id`, if the two bytes name one.
    pub open spec fn player_on_turn(self, black_id: u8, turn: u8) -> Option<AccountId> {
        if (turn == 1 || turn == 2) && (black_id == 1 || black_id == 2) {
            if black_id == turn {
                Some(self.players[0])
            } else {
                Some(self.players[1])
            }
        } else {
            None
        }
    }

    /// The session after the stone of color `turn` was placed on the empty
    /// cell `(x, y)` of `board`: won, drawn, or handed to the other color.
    pub open spec fn place_stone(self, board: Seq<u8>, turn: u8, x: int, y: int) -> Session {
        let placed = board.update(index(x, y), turn);
        let stone_num = (self.stone_num + 1) as u16;
        let stone_num_onchain = (self.stone_num_onchain + 1) as u16;
        if five_in_a_row(placed, x, y) {
            Session {
                board: Some(closed_board(placed, turn)),
                status: AppStatus::Finalized,
                stone_num,
                stone_num_onchain,
                ..self
            }
        } else if stone_num == 225 || stone_num_onchain > self.max_stone_onchain {
            Session {
                board: Some(placed.update(1, 0)),
                status: AppStatus::Finalized,
                stone_num,
                stone_num_onchain,
                ..self
            }
        } else {
            Session {
                board: Some(placed.update(1, next_turn(turn))),
                stone_num,
                stone_num_onchain,
                ..self
            }
        }
    }

    /// Taking the move `action` of `caller` at `block_number`.
    pub open spec fn update_by_action(
        self,
        caller: AccountId,
        action: Seq<u8>,
        block_number: BlockNumber,
    ) -> Result<Session, Error> {
        match self.apply_action(block_number) {
            Err(e) => Err(e),
            Ok(opened) => match opened.board {
                None => Err(Error::EmptyBoardState),
                Some(board) => {
                    let turn = board[1];
                    let black_id = board[2];
                    if black_id != 1 && black_id != 2 {
                        Err(Error::InvalidBlackIdentity)
                    } else if opened.player_on_turn(black_id, turn) != Some(caller) {
                        Err(Error::NotYourTurn)
                    } else if action.len() != 2 {
                        Err(Error::InvalidActionLength)
                    } else if !in_bounds(action[0] as int, action[1] as int) {
                        Err(Error::OutOfBoundaryMove)
                    } else if cell(board, action[0] as int, action[1] as int) != 0 {
                        Err(Error::CellOccupied)
                    } else {
                        Ok(opened.place_stone(board, turn, action[0] as int, action[1] as int))
                    }
                },
            },
        }
    }

    /// Whether the window that the session is in has run out at `block_number`:
    /// the action window at its deadline, the settle window one timeout later.
    pub open spec fn timed_out(self, block_number: BlockNumber) -> bool {
        ||| (self.status == AppStatus::Action && block_number > self.deadline)
        ||| (self.status == AppStatus::Settle && block_number > self.deadline + self.timeout)
    }

    /// Closing a session whose window ran out: the color on turn forfeits.
    pub open spec fn finalize_on_timeout(self, block_number: BlockNumber) -> Result<
        Session,
        Error,
    > {
        if self.status == AppStatus::Action && !(block_number > self.deadline) {
            Err(Error::DeadlineNotPassed)
        } else if self.status == AppStatus::Settle && !(block_number > self.deadline
            + self.timeout) {
            Err(Error::StillSettling)
        } else if self.status != AppStatus::Action && self.status != AppStatus::Settle {
            Ok(self)
        } else {
            match self.board {
                None => Err(Error::EmptyBoardState),
                Some(board) => match Color::of_byte(board[1]) {
                    Some(on_turn) => self.win_game(on_turn.other().byte()),
                    None => Ok(self),
                },
            }
        }
    }

    /// The answer to "is this session finalized".
    pub open spec fn is_finalized(self) -> Result<(), Error> {
        if self.status == AppStatus::Finalized {
            Ok(())
        } else {
            Err(Error::NotFinalized)
        }
    }

    /// The answer to "did `query` win this session".
    pub open spec fn get_outcome(self, query: u8) -> Result<(), Error> {
        match self.board {
            None => Err(Error::EmptyBoardState),
            Some(board) => if board[0] == query {
                Ok(())
            } else {
                Err(Error::OutcomeMismatch)
            },
        }
    }

    /// The part of the board that `key` names.
    pub open spec fn get_state(self, key: u8) -> Option<Seq<u8>> {
        match self.board {
            None => None,
            Some(board) => match StateKey::of_code(key) {
                StateKey::WinnerColor => Some(seq![board[0]]),
                StateKey::TurnColor => Some(seq![board[1]]),
                StateKey::FullState => Some(board),
            },
        }
    }
}

} // verus!
