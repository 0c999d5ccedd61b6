//! What holds of every session, whatever calls reach it and in whatever order.

use vstd::prelude::*;
use crate::board::in_bounds;
use crate::session::{next_turn, stones_in, Session};
use crate::types::{AccountId, AppStatus, BlockNumber, Error, ErrorKind};

verus! {

/// One call on a session.
pub enum Call {
    /// A snapshot with sequence number `seq_num`, of which `co_signed` says
    /// whether every player signed it.
    StateProof { seq_num: u128, board: Seq<u8>, co_signed: bool, block_number: BlockNumber },
    /// A move of `caller`.
    Action { caller: AccountId, action: Seq<u8>, block_number: BlockNumber },
    /// A request to close the session because its window ran out.
    Timeout { block_number: BlockNumber },
}

impl Session {
    /// What `call` gives on this session.
    pub open spec fn step(self, call: Call) -> Result<Session, Error> {
        match call {
            Call::StateProof { seq_num, board, co_signed, block_number } => self.update_by_state(
                seq_num,
                board,
                co_signed,
                block_number,
            ),
            Call::Action { caller, action, block_number } => self.update_by_action(
                caller,
                action,
                block_number,
            ),
            Call::Timeout { block_number } => self.finalize_on_timeout(block_number),
        }
    }

    /// The session after `call`: a refused call leaves it as it was.
    pub open spec fn after(self, call: Call) -> Session {
        match self.step(call) {
            Ok(next) => next,
            Err(_) => self,
        }
    }

    /// The session after all of `calls`, one after the other.
    pub open spec fn after_all(self, calls: Seq<Call>) -> Session
        decreases calls.len(),
    {
        if calls.len() == 0 {
            self
        } else {
            self.after_all(calls.drop_last()).after(calls.last())
        }
    }

    /// Whether the call at position `i` of `calls` is accepted when its turn
    /// comes.
    pub open spec fn accepts(self, calls: Seq<Call>, i: int) -> bool {
        self.after_all(calls.take(i)).step(calls[i]) is Ok
    }

    /// The turn byte of the board, 0 where there is no board.
    pub open spec fn turn(self) -> u8 {
        match self.board {
            Some(board) => board[1],
            None => 0,
        }
    }

    /// The winner byte of the board, 0 where there is no board.
    pub open spec fn winner(self) -> u8 {
        match self.board {
            Some(board) => board[0],
            None => 0,
        }
    }

    /// Whether a move of `caller` at `block_number` gets as far as the look at
    /// the move itself: the session takes moves, its board names the black
    /// player, and `caller` is the player on turn.
    pub open spec fn admits_move_of(self, caller: AccountId, block_number: BlockNumber) -> bool {
        &&& self.apply_action(block_number) is Ok
        &&& self.board matches Some(board)
        &&& (board[2] == 1 || board[2] == 2)
        &&& self.player_on_turn(board[2], board[1]) == Some(caller)
    }
}

/// A buffer holds at most as many stones as it has bytes.
pub proof fn lemma_stones_bounded(cells: Seq<u8>)
    ensures
        stones_in(cells) <= cells.len(),
    decreases cells.len(),
{
    if cells.len() > 0 {
        lemma_stones_bounded(cells.drop_last());
    }
}

/// Every call leaves a well-formed session well formed, with the players, the
/// timeout and the two thresholds it was opened with, and with a board of 228
/// bytes if it has one.
pub proof fn law_calls_preserve_the_session(session: Session, call: Call)
    requires
        session.wf(),
    ensures
        session.after(call).wf(),
        session.after(call).players == session.players,
        session.after(call).player_num == session.player_num,
        session.after(call).timeout == session.timeout,
        session.after(call).min_stone_offchain == session.min_stone_offchain,
        session.after(call).max_stone_onchain == session.max_stone_onchain,
        session.after(call).board matches Some(board) ==> board.len() == 228,
{
    match call {
        Call::StateProof { seq_num, board, co_signed, block_number } => {
            if board.len() == 228 {
                lemma_stones_bounded(board.subrange(4, 228));
            }
        },
        Call::Action { caller, action, block_number } => {},
        Call::Timeout { block_number } => {},
    }
}

/// Every sequence of calls leaves a well-formed session well formed, with the
/// players it was opened with.
pub proof fn law_sequences_preserve_the_session(session: Session, calls: Seq<Call>)
    requires
        session.wf(),
    ensures
        session.after_all(calls).wf(),
        session.after_all(calls).players == session.players,
    decreases calls.len(),
{
    if calls.len() > 0 {
        law_sequences_preserve_the_session(session, calls.drop_last());
        law_calls_preserve_the_session(session.after_all(calls.drop_last()), calls.last());
    }
}

/// A session moves forward only: a snapshot that is taken leaves it settling
/// or finalized, a move that is taken finds it settling or playing and leaves
/// it playing or finalized, a request to close leaves it where it was or
/// finalized, and no call leads back to idle.
pub proof fn law_status_moves_forward(session: Session, call: Call)
    ensures
        session.after(call).status == AppStatus::Idle ==> session.status == AppStatus::Idle,
        session.step(call) matches Ok(next) ==> match call {
            Call::StateProof { .. } => next.status == AppStatus::Settle || next.status
                == AppStatus::Finalized,
            Call::Action { .. } => (session.status == AppStatus::Settle || session.status
                == AppStatus::Action) && (next.status == AppStatus::Action || next.status
                == AppStatus::Finalized),
            Call::Timeout { .. } => next.status == session.status || next.status
                == AppStatus::Finalized,
        },
{
}

/// The call that finalizes a session clears the turn: nobody is on turn in a
/// game that is over.
pub proof fn law_finalizing_clears_the_turn(session: Session, call: Call)
    requires
        session.wf(),
        session.status != AppStatus::Finalized,
        session.step(call) matches Ok(next) && next.status == AppStatus::Finalized,
    ensures
        session.after(call).turn() == 0,
{
}

/// A finalized session is final: it refuses every snapshot and every move,
/// and a request to close it changes nothing.
pub proof fn law_finalized_is_terminal(session: Session, call: Call)
    requires
        session.status == AppStatus::Finalized,
    ensures
        session.after(call) == session,
        call is StateProof || call is Action ==> session.step(call) is Err,
        call is Timeout ==> session.step(call) == Ok::<Session, Error>(session),
{
}

/// Closing is idempotent: on a finalized session the request succeeds as often
/// as it is made, at whatever heights, and leaves the session and its winner
/// as they are.
pub proof fn law_finalize_is_idempotent(
    session: Session,
    first: BlockNumber,
    second: BlockNumber,
)
    requires
        session.status == AppStatus::Finalized,
    ensures
        session.finalize_on_timeout(first) == Ok::<Session, Error>(session),
        session.after(Call::Timeout { block_number: first }).finalize_on_timeout(second) == Ok::<
            Session,
            Error,
        >(session),
        session.after(Call::Timeout { block_number: first }).after(
            Call::Timeout { block_number: second },
        ).winner() == session.winner(),
{
}

/// A session that a request closed stays closed with the same winner: where
/// closing finalizes a session, closing it again succeeds and changes nothing.
pub proof fn law_closed_stays_closed(session: Session, first: BlockNumber, second: BlockNumber)
    requires
        session.finalize_on_timeout(first) matches Ok(closed) && closed.status
            == AppStatus::Finalized,
    ensures
        session.finalize_on_timeout(first).unwrap().finalize_on_timeout(second)
            == session.finalize_on_timeout(first),
{
}

/// The color on turn forfeits: where a window ran out on a session whose turn
/// byte names a color, closing it finalizes it with the other color as winner
/// and clears the turn.
pub proof fn law_timeout_forfeits_the_color_on_turn(session: Session, block_number: BlockNumber)
    requires
        session.wf(),
        session.timed_out(block_number),
        session.turn() == 1 || session.turn() == 2,
    ensures
        session.finalize_on_timeout(block_number) matches Ok(closed) && closed.status
            == AppStatus::Finalized && closed.winner() == next_turn(session.turn())
            && closed.winner() != session.turn() && closed.turn() == 0,
{
}

/// No call lowers the sequence number.
pub proof fn law_seq_num_never_decreases(session: Session, call: Call)
    ensures
        session.after(call).seq_num >= session.seq_num,
        call is StateProof && session.step(call) is Ok ==> session.after(call).seq_num
            == call->seq_num && call->seq_num > session.seq_num,
{
}

/// No sequence of calls lowers the sequence number.
pub proof fn law_seq_num_monotonic(session: Session, calls: Seq<Call>, i: int)
    requires
        0 <= i <= calls.len(),
    ensures
        session.after_all(calls).seq_num >= session.after_all(calls.take(i)).seq_num,
    decreases calls.len(),
{
    if i == calls.len() {
        assert(calls.take(i) =~= calls);
    } else {
        assert(calls.drop_last().take(i) =~= calls.take(i));
        law_seq_num_monotonic(session, calls.drop_last(), i);
        law_seq_num_never_decreases(session.after_all(calls.drop_last()), calls.last());
    }
}

/// Accepted snapshots come with rising sequence numbers: of two snapshots that
/// a session accepts in the course of any calls, the later one has the
/// greater sequence number.
pub proof fn law_accepted_snapshots_rise(session: Session, calls: Seq<Call>, i: int, j: int)
    requires
        0 <= i < j < calls.len(),
        calls[i] is StateProof,
        calls[j] is StateProof,
        session.accepts(calls, i),
        session.accepts(calls, j),
    ensures
        calls[i]->seq_num < calls[j]->seq_num,
{
    let upto_j = calls.take(j);
    let before_i = session.after_all(calls.take(i));
    let before_j = session.after_all(upto_j);
    assert(upto_j.take(i + 1) =~= calls.take(i + 1));
    law_seq_num_monotonic(session, upto_j, i + 1);
    assert(calls.take(i + 1).drop_last() =~= calls.take(i));
    assert(calls.take(i + 1).last() == calls[i]);
    law_seq_num_never_decreases(before_i, calls[i]);
    assert(session.after_all(calls.take(i + 1)) == before_i.after(calls[i]));
}

/// An old snapshot is refused: once a session has accepted a snapshot, it
/// refuses every later snapshot whose sequence number is not greater, and
/// what it keeps stays as it is. Where the late snapshot is co-signed the
/// refusal is a conflict; where it is not, it fails on its signatures first.
pub proof fn law_stale_snapshot_is_refused(session: Session, calls: Seq<Call>, i: int, j: int)
    requires
        0 <= i < j < calls.len(),
        calls[i] is StateProof,
        calls[j] is StateProof,
        session.accepts(calls, i),
        calls[j]->seq_num <= calls[i]->seq_num,
    ensures
        session.after_all(calls.take(j)).step(calls[j]) matches Err(e) && (calls[j]->co_signed
            ==> e.kind_spec() == ErrorKind::Conflict),
        session.after_all(calls.take(j + 1)) == session.after_all(calls.take(j)),
{
    let upto_j = calls.take(j);
    let before_i = session.after_all(calls.take(i));
    assert(upto_j.take(i + 1) =~= calls.take(i + 1));
    law_seq_num_monotonic(session, upto_j, i + 1);
    assert(calls.take(i + 1).drop_last() =~= calls.take(i));
    assert(calls.take(i + 1).last() == calls[i]);
    law_seq_num_never_decreases(before_i, calls[i]);
    assert(session.after_all(calls.take(i + 1)) == before_i.after(calls[i]));
    assert(calls.take(j + 1).drop_last() =~= calls.take(j));
    assert(calls.take(j + 1).last() == calls[j]);
}

/// A move that does not end the game hands the turn to the other color: the
/// turn byte was 1 or 2 before it and is the other of the two after it.
pub proof fn law_move_passes_the_turn(
    session: Session,
    caller: AccountId,
    action: Seq<u8>,
    block_number: BlockNumber,
)
    requires
        session.wf(),
        session.update_by_action(caller, action, block_number) matches Ok(next) && next.status
            != AppStatus::Finalized,
    ensures
        session.turn() == 1 || session.turn() == 2,
        session.update_by_action(caller, action, block_number).unwrap().turn() == 3
            - session.turn(),
        session.update_by_action(caller, action, block_number).unwrap().status
            == AppStatus::Action,
{
}

/// The turn alternates: over any sequence of moves that are all accepted and
/// none of which ends the game, the turn byte goes 1, 2, 1, 2, ... or
/// 2, 1, 2, 1, ..., one change with each move.
pub proof fn law_turn_alternates(session: Session, moves: Seq<Call>, i: int)
    requires
        session.wf(),
        forall|k: int| 0 <= k < moves.len() ==> (#[trigger] moves[k]) is Action,
        forall|k: int|
            0 <= k < moves.len() ==> #[trigger] session.accepts(moves, k) && session.after_all(
                moves.take(k + 1),
            ).status != AppStatus::Finalized,
        0 <= i < moves.len(),
    ensures
        session.after_all(moves.take(i)).turn() == 1 || session.after_all(moves.take(i)).turn()
            == 2,
        session.after_all(moves.take(i + 1)).turn() == 3 - session.after_all(
            moves.take(i),
        ).turn(),
{
    let before = session.after_all(moves.take(i));
    law_sequences_preserve_the_session(session, moves.take(i));
    assert(session.accepts(moves, i));
    assert(moves[i] is Action);
    assert(moves.take(i + 1).drop_last() =~= moves.take(i));
    assert(moves.take(i + 1).last() == moves[i]);
    assert(session.after_all(moves.take(i + 1)) == before.after(moves[i]));
    match moves[i] {
        Call::Action { caller, action, block_number } => {
            law_move_passes_the_turn(before, caller, action, block_number);
        },
        _ => {},
    }
}

/// A move off the board is refused and changes nothing. Where the session
/// admits a move of the caller, the refusal says that the move is out of
/// bounds, which is an invalid input; where it does not, the call fails
/// before the move is looked at.
pub proof fn law_move_off_the_board_is_refused(
    session: Session,
    caller: AccountId,
    action: Seq<u8>,
    block_number: BlockNumber,
)
    requires
        action.len() == 2,
        !in_bounds(action[0] as int, action[1] as int),
    ensures
        session.update_by_action(caller, action, block_number) is Err,
        session.after(Call::Action { caller, action, block_number }) == session,
        session.admits_move_of(caller, block_number) ==> session.update_by_action(
            caller,
            action,
            block_number,
        ) == Err::<Session, Error>(Error::OutOfBoundaryMove)
            && Error::OutOfBoundaryMove.kind_spec() == ErrorKind::InvalidInput,
{
}

} // verus!
