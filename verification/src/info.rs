//! The session record as the engine keeps it, and the operations on it. Each
//! operation leaves the record it is given untouched and hands back a new one.

use vstd::prelude::*;
use crate::board::{
    check_boundary, state_index, Color, BLACK_ID_BYTE, BOARD_LEN, EMPTY, FULL_BOARD_STONES,
    TURN_BYTE, WINNER_BYTE,
};
use crate::bytes::{account_before, copy_accounts, copy_bytes, same_bytes};
use crate::session::{
    account_less, closed_board, offchain_stones, players_verdict, stones_in, strictly_ascending, Session,
};
use crate::types::{
    AccountId, AppInitiateRequest, AppState, AppStatus, BlockNumber, Error, StateKey,
};
use crate::win::has_five_in_a_row;

verus! {

/// The record of one session.
#[derive(Clone, Debug, PartialEq, Eq)]
pub struct GomokuInfo {
    players: Vec<AccountId>,
    player_num: u8,
    seq_num: u128,
    timeout: BlockNumber,
    deadline: BlockNumber,
    status: AppStatus,
    board_state: Option<Vec<u8>>,
    stone_num: u16,
    stone_num_onchain: u16,
    min_stone_offchain: u8,
    max_stone_onchain: u8,
}

impl View for GomokuInfo {
    type V = Session;

    closed spec fn view(&self) -> Session {
        Session {
            players: self.players@,
            player_num: self.player_num,
            seq_num: self.seq_num,
            timeout: self.timeout,
            deadline: self.deadline,
            status: self.status,
            board: match self.board_state {
                Some(b) => Some(b@),
                None => None,
            },
            stone_num: self.stone_num,
            stone_num_onchain: self.stone_num_onchain,
            min_stone_offchain: self.min_stone_offchain,
            max_stone_onchain: self.max_stone_onchain,
        }
    }
}

/// Whether the player at `a` comes before the player at `b`.
spec fn account_less_at(players: Seq<AccountId>, a: int, b: int) -> bool {
    account_less(players[a], players[b])
}

/// Checks that at least two players are named, each before the next one in
/// the order of identities.
pub fn boolean_ordered_account(players: &Vec<AccountId>) -> (verdict: Result<(), Error>)
    ensures
        verdict == players_verdict(players@),
{
    if players.len() < 2 {
        return Err(Error::TooFewPlayers);
    }
    let mut i: usize = 1;
    while i < players.len()
        invariant
            1 <= i <= players@.len(),
            forall|a: int, b: int|
                0 <= a && b == a + 1 && b < i ==> account_less_at(players@, a, b),
        decreases players@.len() - i,
    {
        if !account_before(&players[i - 1], &players[i]) {
            assert(!strictly_ascending(players@)) by {
                assert(!account_less_at(players@, i - 1, i as int));
            }
            return Err(Error::PlayersNotAscending);
        }
        assert(account_less_at(players@, i - 1, i as int));
        i = i + 1;
    }
    assert(strictly_ascending(players@)) by {
        assert forall|a: int, b: int|
            0 <= a && b == a + 1 && b < players@.len() implies account_less(
            #[trigger] players@[a],
            #[trigger] players@[b],
        ) by {
            assert(account_less_at(players@, a, b));
        }
    }
    Ok(())
}

/// Counts the bytes of a snapshot from position 4 on that are not zero.
pub fn count_offchain_stones(board_state: &Vec<u8>) -> (count: u8)
    requires
        board_state@.len() == BOARD_LEN,
    ensures
        count == offchain_stones(board_state@),
        count <= 224,
{
    let mut count: u8 = 0;
    let mut i: usize = 4;
    let ghost cells = board_state@.subrange(4, 228);
    assert(cells.take(0) =~= Seq::<u8>::empty());
    while i < 228
        invariant
            4 <= i <= 228,
            board_state@.len() == 228,
            cells == board_state@.subrange(4, 228),
            count == stones_in(cells.take(i - 4)),
            count <= i - 4,
        decreases 228 - i,
    {
        proof {
            let next = cells.take(i - 4 + 1);
            assert(next.drop_last() =~= cells.take(i - 4));
            assert(next.last() == board_state@[i as int]);
        }
        if board_state[i] != 0 {
            count = count + 1;
        }
        i = i + 1;
    }
    assert(cells.take(224) =~= cells);
    count
}

/// Whether an outcome is the one that the rules give: the same error, or a
/// record of the session that the rules arrive at.
pub open spec fn agrees(outcome: Result<GomokuInfo, Error>, rule: Result<Session, Error>) -> bool {
    match outcome {
        Ok(info) => rule == Ok::<Session, Error>(info@),
        Err(e) => rule == Err::<Session, Error>(e),
    }
}

/// Makes a board buffer of 228 zero bytes.
fn empty_board() -> (board: Vec<u8>)
    ensures
        board@ == Seq::new(228, |i: int| 0u8),
{
    let mut board: Vec<u8> = Vec::with_capacity(BOARD_LEN);
    let mut i: usize = 0;
    while i < BOARD_LEN
        invariant
            i <= 228,
            board@ == Seq::new(i as nat, |k: int| 0u8),
        decreases 228 - i,
    {
        board.push(0);
        i = i + 1;
        assert(board@ =~= Seq::new(i as nat, |k: int| 0u8));
    }
    board
}

impl GomokuInfo {
    /// Opens the session that `initiate_request` asks for, if its players are
    /// at least two and in ascending order.
    pub fn new(initiate_request: &AppInitiateRequest) -> (outcome: Result<GomokuInfo, Error>)
        ensures
            agrees(
                outcome,
                match players_verdict(initiate_request.players@) {
                    Err(e) => Err(e),
                    Ok(_) => Ok(
                        Session::initial(
                            initiate_request.players@,
                            initiate_request.player_num,
                            initiate_request.timeout,
                            initiate_request.min_stone_offchain,
                            initiate_request.max_stone_onchain,
                        ),
                    ),
                },
            ),
            outcome matches Ok(info) ==> info@.wf(),
    {
        match boolean_ordered_account(&initiate_request.players) {
            Err(e) => Err(e),
            Ok(_) => Ok(
                GomokuInfo {
                    players: copy_accounts(&initiate_request.players),
                    player_num: initiate_request.player_num,
                    seq_num: 0,
                    timeout: initiate_request.timeout,
                    deadline: 0,
                    status: AppStatus::Idle,
                    board_state: None,
                    stone_num: 0,
                    stone_num_onchain: 0,
                    min_stone_offchain: initiate_request.min_stone_offchain,
                    max_stone_onchain: initiate_request.max_stone_onchain,
                },
            ),
        }
    }

    /// Puts a record together from its parts; `None` where the parts do not
    /// make a session that the engine could have arrived at.
    pub fn from_parts(
        players: Vec<AccountId>,
        player_num: u8,
        seq_num: u128,
        timeout: BlockNumber,
        deadline: BlockNumber,
        status: AppStatus,
        board_state: Option<Vec<u8>>,
        stone_num: u16,
        stone_num_onchain: u16,
        min_stone_offchain: u8,
        max_stone_onchain: u8,
    ) -> (made: Option<GomokuInfo>)
        ensures
            made is Some <==> (Session {
                players: players@,
                player_num,
                seq_num,
                timeout,
                deadline,
                status,
                board: match board_state {
                    Some(b) => Some(b@),
                    None => None,
                },
                stone_num,
                stone_num_onchain,
                min_stone_offchain,
                max_stone_onchain,
            }).wf(),
            made matches Some(info) ==> info@ == (Session {
                players: players@,
                player_num,
                seq_num,
                timeout,
                deadline,
                status,
                board: match board_state {
                    Some(b) => Some(b@),
                    None => None,
                },
                stone_num,
                stone_num_onchain,
                min_stone_offchain,
                max_stone_onchain,
            }),
    {
        let board_fits: bool = match &board_state {
            Some(b) => b.len() == BOARD_LEN,
            None => status == AppStatus::Idle,
        };
        let counters_fit: bool = stone_num_onchain <= max_stone_onchain as u16 + 1 && (status
            == AppStatus::Finalized || stone_num_onchain <= max_stone_onchain as u16) && stone_num
            <= 224 + stone_num_onchain;
        if players.len() >= 2 && board_fits && counters_fit {
            Some(
                GomokuInfo {
                    players,
                    player_num,
                    seq_num,
                    timeout,
                    deadline,
                    status,
                    board_state,
                    stone_num,
                    stone_num_onchain,
                    min_stone_offchain,
                    max_stone_onchain,
                },
            )
        } else {
            None
        }
    }

    /// Makes a copy of this record.
    pub fn duplicate(&self) -> (copy: GomokuInfo)
        ensures
            copy@ == self@,
    {
        let board_state: Option<Vec<u8>> = match &self.board_state {
            Some(b) => Some(copy_bytes(b)),
            None => None,
        };
        self.rebuilt(
            self.seq_num,
            self.deadline,
            self.status,
            board_state,
            self.stone_num,
            self.stone_num_onchain,
        )
    }

    /// Makes a record that differs from this one in the given parts only.
    fn rebuilt(
        &self,
        seq_num: u128,
        deadline: BlockNumber,
        status: AppStatus,
        board_state: Option<Vec<u8>>,
        stone_num: u16,
        stone_num_onchain: u16,
    ) -> (made: GomokuInfo)
        ensures
            made@ == (Session {
                seq_num,
                deadline,
                status,
                board: match board_state {
                    Some(b) => Some(b@),
                    None => None,
                },
                stone_num,
                stone_num_onchain,
                ..self@
            }),
    {
        GomokuInfo {
            players: copy_accounts(&self.players),
            player_num: self.player_num,
            seq_num,
            timeout: self.timeout,
            deadline,
            status,
            board_state,
            stone_num,
            stone_num_onchain,
            min_stone_offchain: self.min_stone_offchain,
            max_stone_onchain: self.max_stone_onchain,
        }
    }

    /// Closes the game with `winner`: 1 or 2 finalizes the session with that
    /// winner and clears the turn, 0 only clears the winner byte, and any
    /// other byte is refused.
    pub fn win_game(&self, winner: u8) -> (outcome: Result<GomokuInfo, Error>)
        requires
            self@.wf(),
        ensures
            agrees(outcome, self@.win_game(winner)),
            outcome matches Ok(info) ==> info@.wf(),
    {
        if winner > 2 {
            return Err(Error::InvalidWinner);
        }
        let mut new_board_state: Vec<u8> = match &self.board_state {
            Some(b) => copy_bytes(b),
            None => empty_board(),
        };
        new_board_state.set(WINNER_BYTE, winner);
        let status: AppStatus = if winner != 0 {
            new_board_state.set(TURN_BYTE, 0);
            AppStatus::Finalized
        } else {
            self.status
        };
        Ok(
            self.rebuilt(
                self.seq_num,
                self.deadline,
                status,
                Some(new_board_state),
                self.stone_num,
                self.stone_num_onchain,
            ),
        )
    }

    /// Opens the settle window for a snapshot with sequence number `seq_num`.
    /// `co_signed` says whether every player's signature on it was found
    /// valid. The record that comes back waits for the snapshot's board.
    pub fn intend_settle(&self, seq_num: u128, co_signed: bool, block_number: BlockNumber) -> (outcome:
        Result<GomokuInfo, Error>)
        requires
            self@.wf(),
        ensures
            agrees(outcome, self@.intend_settle(seq_num, co_signed, block_number)),
    {
        if !co_signed {
            return Err(Error::InvalidCoSignature);
        }
        if self.status == AppStatus::Finalized {
            return Err(Error::AlreadyFinalized);
        }
        if self.seq_num >= seq_num {
            return Err(Error::StaleSequenceNumber);
        }
        let deadline: BlockNumber = match block_number.checked_add(self.timeout) {
            Some(d) => d,
            None => {
                return Err(Error::Overflow);
            },
        };
        let board_state: Option<Vec<u8>> = match &self.board_state {
            Some(b) => Some(copy_bytes(b)),
            None => None,
        };
        Ok(
            self.rebuilt(
                seq_num,
                deadline,
                AppStatus::Settle,
                board_state,
                self.stone_num,
                self.stone_num_onchain,
            ),
        )
    }

    /// Takes a co-signed snapshot. `co_signed` says whether every player's
    /// signature on the snapshot was found valid. A snapshot that names a
    /// winner finalizes the session; any other must hold as many stones as
    /// the session asks for, and opens the settle window.
    pub fn update_by_state(&self, app_state: &AppState, co_signed: bool, block_number: BlockNumber) -> (outcome:
        Result<GomokuInfo, Error>)
        requires
            self@.wf(),
        ensures
            agrees(
                outcome,
                self@.update_by_state(
                    app_state.seq_num,
                    app_state.board_state@,
                    co_signed,
                    block_number,
                ),
            ),
            outcome matches Ok(info) ==> info@.wf(),
    {
        let opened: GomokuInfo = match self.intend_settle(app_state.seq_num, co_signed, block_number) {
            Ok(info) => info,
            Err(e) => {
                return Err(e);
            },
        };
        if app_state.board_state.len() != BOARD_LEN {
            return Err(Error::MalformedBoard);
        }
        let mut board: Vec<u8> = copy_bytes(&app_state.board_state);
        let winner: u8 = board[WINNER_BYTE];
        if winner != 0 {
            if winner > 2 {
                return Err(Error::InvalidWinner);
            }
            board.set(TURN_BYTE, 0);
            assert(board@ =~= closed_board(app_state.board_state@, winner));
            Ok(
                opened.rebuilt(
                    opened.seq_num,
                    opened.deadline,
                    AppStatus::Finalized,
                    Some(board),
                    0,
                    opened.stone_num_onchain,
                ),
            )
        } else {
            let count: u8 = count_offchain_stones(&board);
            if count < self.min_stone_offchain {
                return Err(Error::InsufficientOffchainStones);
            }
            Ok(
                opened.rebuilt(
                    opened.seq_num,
                    opened.deadline,
                    opened.status,
                    Some(board),
                    count as u16,
                    0,
                ),
            )
        }
    }

    /// Opens the action window where the settle window has passed, or renews
    /// it where the session plays on the ledger already.
    pub fn apply_action(&self, block_number: BlockNumber) -> (outcome: Result<GomokuInfo, Error>)
        requires
            self@.wf(),
        ensures
            agrees(outcome, self@.apply_action(block_number)),
            outcome matches Ok(info) ==> info@.wf(),
    {
        if self.status == AppStatus::Finalized {
            return Err(Error::AlreadyFinalized);
        }
        let in_window: bool = self.status == AppStatus::Action || (self.status == AppStatus::Settle
            && block_number > self.deadline);
        if !in_window {
            return Err(Error::NotInActionMode);
        }
        let seq_num: u128 = match self.seq_num.checked_add(1) {
            Some(n) => n,
            None => {
                return Err(Error::Overflow);
            },
        };
        let deadline: BlockNumber = match block_number.checked_add(self.timeout) {
            Some(d) => d,
            None => {
                return Err(Error::Overflow);
            },
        };
        let board_state: Option<Vec<u8>> = match &self.board_state {
            Some(b) => Some(copy_bytes(b)),
            None => None,
        };
        Ok(
            self.rebuilt(
                seq_num,
                deadline,
                AppStatus::Action,
                board_state,
                self.stone_num,
                self.stone_num_onchain,
            ),
        )
    }

    /// Takes the move `action` of `caller`: two bytes that name an empty cell
    /// of the board, played by the player whose color is on turn. The move
    /// wins the game, ends it in a draw, or hands the turn to the other color.
    pub fn update_by_action(&self, caller: &AccountId, action: &Vec<u8>, block_number: BlockNumber) -> (outcome:
        Result<GomokuInfo, Error>)
        requires
            self@.wf(),
        ensures
            agrees(outcome, self@.update_by_action(*caller, action@, block_number)),
            outcome matches Ok(info) ==> info@.wf(),
    {
        let opened: GomokuInfo = match self.apply_action(block_number) {
            Ok(info) => info,
            Err(e) => {
                return Err(e);
            },
        };
        let mut board: Vec<u8> = match &opened.board_state {
            Some(b) => copy_bytes(b),
            None => {
                return Err(Error::EmptyBoardState);
            },
        };
        let ghost before = board@;
        let turn: u8 = board[TURN_BYTE];
        let black_id: u8 = board[BLACK_ID_BYTE];
        if black_id != 1 && black_id != 2 {
            return Err(Error::InvalidBlackIdentity);
        }
        if turn != 1 && turn != 2 {
            return Err(Error::NotYourTurn);
        }
        let on_turn: bool = if black_id == turn {
            same_bytes(caller, &opened.players[0])
        } else {
            same_bytes(caller, &opened.players[1])
        };
        if !on_turn {
            return Err(Error::NotYourTurn);
        }
        if action.len() != 2 {
            return Err(Error::InvalidActionLength);
        }
        let x: u8 = action[0];
        let y: u8 = action[1];
        if !check_boundary(x, y) {
            return Err(Error::OutOfBoundaryMove);
        }
        let at: usize = state_index(x, y);
        if board[at] != EMPTY {
            return Err(Error::CellOccupied);
        }
        board.set(at, turn);
        let new_stone_num: u16 = opened.stone_num + 1;
        let new_stone_num_onchain: u16 = opened.stone_num_onchain + 1;
        let status: AppStatus = if has_five_in_a_row(&board, x, y) {
            board.set(WINNER_BYTE, turn);
            board.set(TURN_BYTE, 0);
            AppStatus::Finalized
        } else if new_stone_num == FULL_BOARD_STONES || new_stone_num_onchain
            > opened.max_stone_onchain as u16 {
            board.set(TURN_BYTE, 0);
            AppStatus::Finalized
        } else {
            let next: u8 = if turn == 1 {
                2
            } else {
                1
            };
            board.set(TURN_BYTE, next);
            opened.status
        };
        Ok(
            opened.rebuilt(
                opened.seq_num,
                opened.deadline,
                status,
                Some(board),
                new_stone_num,
                new_stone_num_onchain,
            ),
        )
    }

    /// Closes a session whose window ran out, against the color on turn. A
    /// session that is idle or finalized is handed back as it is.
    pub fn finalize_on_timeout(&self, block_number: BlockNumber) -> (outcome: Result<
        GomokuInfo,
        Error,
    >)
        requires
            self@.wf(),
        ensures
            agrees(outcome, self@.finalize_on_timeout(block_number)),
            outcome matches Ok(info) ==> info@.wf(),
    {
        if self.status == AppStatus::Action {
            if !(block_number > self.deadline) {
                return Err(Error::DeadlineNotPassed);
            }
        } else if self.status == AppStatus::Settle {
            let grace_ends: u128 = self.deadline as u128 + self.timeout as u128;
            if !(block_number as u128 > grace_ends) {
                return Err(Error::StillSettling);
            }
        } else {
            return Ok(self.duplicate());
        }
        let turn: u8 = match &self.board_state {
            Some(b) => b[TURN_BYTE],
            None => {
                return Err(Error::EmptyBoardState);
            },
        };
        match Color::from_byte(turn) {
            Some(on_turn) => self.win_game(on_turn.opponent().to_byte()),
            None => Ok(self.duplicate()),
        }
    }

    /// Succeeds exactly when the session is finalized.
    pub fn is_finalized(&self) -> (answer: Result<(), Error>)
        ensures
            answer == self@.is_finalized(),
    {
        if self.status == AppStatus::Finalized {
            Ok(())
        } else {
            Err(Error::NotFinalized)
        }
    }

    /// Succeeds exactly when the winner byte of the board is `query`.
    pub fn get_outcome(&self, query: u8) -> (answer: Result<(), Error>)
        requires
            self@.wf(),
        ensures
            answer == self@.get_outcome(query),
    {
        match &self.board_state {
            None => Err(Error::EmptyBoardState),
            Some(board) => {
                if board[WINNER_BYTE] == query {
                    Ok(())
                } else {
                    Err(Error::OutcomeMismatch)
                }
            },
        }
    }

    /// Gives the part of the board that `key` names: the turn byte for 0, the
    /// winner byte for 1, the whole buffer for any other key; `None` while
    /// the session has no board.
    pub fn get_state(&self, key: u8) -> (state: Option<Vec<u8>>)
        requires
            self@.wf(),
        ensures
            match state {
                Some(bytes) => self@.get_state(key) == Some(bytes@),
                None => self@.get_state(key) is None,
            },
    {
        match &self.board_state {
            None => None,
            Some(board) => {
                match StateKey::from_byte(key) {
                    StateKey::WinnerColor => {
                        let mut state: Vec<u8> = Vec::new();
                        state.push(board[WINNER_BYTE]);
                        assert(state@ =~= seq![board@[0]]);
                        Some(state)
                    },
                    StateKey::TurnColor => {
                        let mut state: Vec<u8> = Vec::new();
                        state.push(board[TURN_BYTE]);
                        assert(state@ =~= seq![board@[1]]);
                        Some(state)
                    },
                    StateKey::FullState => Some(copy_bytes(board)),
                }
            },
        }
    }

    /// The participants, in ascending order.
    pub fn players(&self) -> (players: &Vec<AccountId>)
        ensures
            players@ == self@.players,
    {
        &self.players
    }

    /// The number of players that the session was opened for.
    pub fn player_num(&self) -> (n: u8)
        ensures
            n == self@.player_num,
    {
        self.player_num
    }

    /// Sequence number of the last snapshot or move taken.
    pub fn seq_num(&self) -> (n: u128)
        ensures
            n == self@.seq_num,
    {
        self.seq_num
    }

    /// Length of a window, in blocks.
    pub fn timeout(&self) -> (t: BlockNumber)
        ensures
            t == self@.timeout,
    {
        self.timeout
    }

    /// Height at which the current window ends.
    pub fn deadline(&self) -> (d: BlockNumber)
        ensures
            d == self@.deadline,
    {
        self.deadline
    }

    /// Where the session stands.
    pub fn status(&self) -> (s: AppStatus)
        ensures
            s == self@.status,
    {
        self.status
    }

    /// The board buffer, once a snapshot was installed.
    pub fn board_state(&self) -> (board: Option<&Vec<u8>>)
        ensures
            match board {
                Some(b) => self@.board == Some(b@),
                None => self@.board is None,
            },
    {
        match &self.board_state {
            Some(b) => Some(b),
            None => None,
        }
    }

    /// Stones placed so far, as last counted.
    pub fn stone_num(&self) -> (n: u16)
        ensures
            n == self@.stone_num,
    {
        self.stone_num
    }

    /// Stones placed on the ledger since the last snapshot.
    pub fn stone_num_onchain(&self) -> (n: u16)
        ensures
            n == self@.stone_num_onchain,
    {
        self.stone_num_onchain
    }

    /// Fewest stones that a snapshot without a winner may hold.
    pub fn min_stone_offchain(&self) -> (n: u8)
        ensures
            n == self@.min_stone_offchain,
    {
        self.min_stone_offchain
    }

    /// Most stones that may be placed on the ledger after a snapshot.
    pub fn max_stone_onchain(&self) -> (n: u8)
        ensures
            n == self@.max_stone_onchain,
    {
        self.max_stone_onchain
    }
}

} // verus!
