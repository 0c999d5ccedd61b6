//! The engine: every session under its identifier, and the operations that
//! callers reach them by.

use std::marker::PhantomData;
use vstd::prelude::*;
use crate::encoding::{
    app_account, app_id_preimage, app_state_encoding, encode_app_id_preimage, encode_app_state,
    module_account,
};
use crate::bytes::same_bytes;
use crate::info::GomokuInfo;
use crate::runtime::Trait;
use crate::session::{players_verdict, Session};
use crate::types::{
    AccountId, AppId, AppInitiateRequest, BlockNumber, Error, Event, Signature, StateProof,
};

verus! {

/// One session and the identifier it is kept under.
struct Entry {
    app_id: AppId,
    info: GomokuInfo,
}

/// Whether the entry at `i` is the one kept under `id`.
spec fn kept_at(entries: Seq<Entry>, id: AppId, i: int) -> bool {
    0 <= i < entries.len() && entries[i].app_id == id
}

/// Whether no identifier is kept twice.
spec fn distinct(entries: Seq<Entry>) -> bool {
    forall|i: int, j: int|
        0 <= i < j < entries.len() ==> (#[trigger] entries[i]).app_id != (
        #[trigger] entries[j]).app_id
}

/// The sessions that a list of entries holds, by identifier.
spec fn sessions_of(entries: Seq<Entry>) -> Map<AppId, Session> {
    Map::new(
        |id: AppId| exists|i: int| kept_at(entries, id, i),
        |id: AppId| entries[choose|i: int| kept_at(entries, id, i)].info@,
    )
}

/// An entry is found under its identifier.
proof fn lemma_kept(entries: Seq<Entry>, i: int)
    requires
        distinct(entries),
        0 <= i < entries.len(),
    ensures
        sessions_of(entries).contains_key(entries[i].app_id),
        sessions_of(entries)[entries[i].app_id] == entries[i].info@,
{
    let id = entries[i].app_id;
    assert(kept_at(entries, id, i));
    let j = choose|j: int| kept_at(entries, id, j);
    assert(kept_at(entries, id, j));
    if j < i {
        assert(entries[j].app_id != entries[i].app_id);
    } else if i < j {
        assert(entries[i].app_id != entries[j].app_id);
    }
}

/// Replacing the session of one entry replaces it under its identifier and
/// leaves every other session alone.
proof fn lemma_replaced(entries: Seq<Entry>, i: int, entry: Entry)
    requires
        distinct(entries),
        0 <= i < entries.len(),
        entry.app_id == entries[i].app_id,
    ensures
        distinct(entries.update(i, entry)),
        sessions_of(entries.update(i, entry)) == sessions_of(entries).insert(
            entry.app_id,
            entry.info@,
        ),
{
    let after = entries.update(i, entry);
    assert forall|a: int, b: int| 0 <= a < b < after.len() implies (#[trigger] after[a]).app_id != (
    #[trigger] after[b]).app_id by {
        assert(entries[a].app_id != entries[b].app_id);
    }
    let left = sessions_of(after);
    let right = sessions_of(entries).insert(entry.app_id, entry.info@);
    assert forall|id: AppId| left.contains_key(id) == right.contains_key(id) by {
        if left.contains_key(id) {
            let j = choose|j: int| kept_at(after, id, j);
            assert(kept_at(entries, id, j));
        }
        if right.contains_key(id) {
            if id == entry.app_id {
                assert(kept_at(after, id, i));
            } else {
                let j = choose|j: int| kept_at(entries, id, j);
                assert(kept_at(after, id, j));
            }
        }
    }
    assert forall|id: AppId| left.contains_key(id) implies left[id] == right[id] by {
        let j = choose|j: int| kept_at(after, id, j);
        lemma_kept(after, j);
        if j != i {
            lemma_kept(entries, j);
        }
    }
    assert(left =~= right);
}

/// Adding an entry under an identifier that is not kept yet adds its session
/// and leaves every other session alone.
proof fn lemma_added(entries: Seq<Entry>, entry: Entry)
    requires
        distinct(entries),
        !sessions_of(entries).contains_key(entry.app_id),
    ensures
        distinct(entries.push(entry)),
        sessions_of(entries.push(entry)) == sessions_of(entries).insert(
            entry.app_id,
            entry.info@,
        ),
{
    let after = entries.push(entry);
    assert forall|a: int, b: int| 0 <= a < b < after.len() implies (#[trigger] after[a]).app_id != (
    #[trigger] after[b]).app_id by {
        if b == entries.len() {
            assert(!kept_at(entries, entry.app_id, a));
        } else {
            assert(entries[a].app_id != entries[b].app_id);
        }
    }
    let left = sessions_of(after);
    let right = sessions_of(entries).insert(entry.app_id, entry.info@);
    assert forall|id: AppId| left.contains_key(id) == right.contains_key(id) by {
        if left.contains_key(id) {
            let j = choose|j: int| kept_at(after, id, j);
            if j < entries.len() {
                assert(kept_at(entries, id, j));
            }
        }
        if right.contains_key(id) {
            if id == entry.app_id {
                assert(kept_at(after, id, entries.len() as int));
            } else {
                let j = choose|j: int| kept_at(entries, id, j);
                assert(kept_at(after, id, j));
            }
        }
    }
    assert forall|id: AppId| left.contains_key(id) implies left[id] == right[id] by {
        let j = choose|j: int| kept_at(after, id, j);
        lemma_kept(after, j);
        if j < entries.len() {
            lemma_kept(entries, j);
        }
    }
    assert(left =~= right);
}

/// What opening a session under `app_id` does to the sessions kept.
pub open spec fn initiate_rule(
    sessions: Map<AppId, Session>,
    app_id: AppId,
    request: AppInitiateRequest,
) -> Result<Map<AppId, Session>, Error> {
    if sessions.contains_key(app_id) {
        Err(Error::SessionAlreadyExists)
    } else {
        match players_verdict(request.players@) {
            Err(e) => Err(e),
            Ok(_) => Ok(
                sessions.insert(
                    app_id,
                    Session::initial(
                        request.players@,
                        request.player_num,
                        request.timeout,
                        request.min_stone_offchain,
                        request.max_stone_onchain,
                    ),
                ),
            ),
        }
    }
}

/// What an operation on the session under `app_id` does to the sessions kept,
/// where `rule` says what it does to that session: an unknown identifier is
/// refused, a refusal changes nothing, and a new session takes the old one's
/// place.
pub open spec fn session_rule(
    sessions: Map<AppId, Session>,
    app_id: AppId,
    rule: spec_fn(Session) -> Result<Session, Error>,
) -> Result<Map<AppId, Session>, Error> {
    if !sessions.contains_key(app_id) {
        Err(Error::SessionNotFound)
    } else {
        match rule(sessions[app_id]) {
            Err(e) => Err(e),
            Ok(session) => Ok(sessions.insert(app_id, session)),
        }
    }
}

/// Whether every signer has a signature on `message` that the runtime takes
/// for valid: the signature at a signer's position is that signer's.
/// Signatures beyond the last signer count for nothing.
pub open spec fn co_signed<T: Trait>(
    signatures: Seq<Signature>,
    message: Seq<u8>,
    signers: Seq<AccountId>,
) -> bool {
    &&& signatures.len() >= signers.len()
    &&& forall|i: int|
        #![trigger signatures[i]]
        0 <= i < signers.len() ==> T::signature_valid(signatures[i]@, message, signers[i]@)
}

/// What a snapshot with signatures does to the session it names: the
/// session's rule for snapshots, with the runtime's verdict on the signatures.
pub open spec fn state_proof_rule<T: Trait>(
    session: Session,
    state_proof: StateProof,
    block_number: BlockNumber,
) -> Result<Session, Error> {
    session.update_by_state(
        state_proof.app_state.seq_num,
        state_proof.app_state.board_state@,
        co_signed::<T>(
            state_proof.sigs@,
            app_state_encoding(
                state_proof.app_state.seq_num,
                state_proof.app_state.board_state@,
                state_proof.app_state.timeout,
                state_proof.app_state.app_id,
            ),
            session.players,
        ),
        block_number,
    )
}

/// Whether an operation did what `rule` gives: it failed with the rule's error
/// and changed nothing, or it succeeded and left the rule's sessions.
pub open spec fn carried_out<R>(
    rule: Result<Map<AppId, Session>, Error>,
    before: Map<AppId, Session>,
    after: Map<AppId, Session>,
    outcome: Result<R, Error>,
) -> bool {
    match rule {
        Ok(sessions) => outcome is Ok && after == sessions,
        Err(e) => outcome matches Err(given) && given == e && after == before,
    }
}

/// The engine, for a runtime `T`.
pub struct Module<T: Trait> {
    entries: Vec<Entry>,
    runtime: PhantomData<T>,
}

impl<T: Trait> View for Module<T> {
    type V = Map<AppId, Session>;

    closed spec fn view(&self) -> Map<AppId, Session> {
        sessions_of(self.entries@)
    }
}

impl<T: Trait> Module<T> {
    /// What holds of the engine between calls: no identifier is kept twice,
    /// and every session is well formed.
    pub closed spec fn wf(&self) -> bool {
        &&& distinct(self.entries@)
        &&& forall|i: int| 0 <= i < self.entries@.len() ==> (#[trigger] self.entries@[i]).info@.wf()
    }

    /// Every session that a well-formed engine keeps is well formed.
    pub proof fn law_kept_sessions_are_well_formed(&self)
        requires
            self.wf(),
        ensures
            forall|id: AppId| self@.contains_key(id) ==> (#[trigger] self@[id]).wf(),
    {
        assert forall|id: AppId| self@.contains_key(id) implies (#[trigger] self@[id]).wf() by {
            let j = choose|j: int| kept_at(self.entries@, id, j);
            lemma_kept(self.entries@, j);
        }
    }

    /// Makes an engine that keeps no session.
    pub fn new() -> (module: Self)
        ensures
            module.wf(),
            module@ == Map::<AppId, Session>::empty(),
    {
        let module = Module { entries: Vec::new(), runtime: PhantomData };
        assert(module@ =~= Map::<AppId, Session>::empty());
        module
    }

    /// Finds the entry kept under `app_id`.
    fn position(&self, app_id: &AppId) -> (found: Option<usize>)
        requires
            self.wf(),
        ensures
            match found {
                Some(i) => kept_at(self.entries@, *app_id, i as int) && self@.contains_key(*app_id)
                    && self@[*app_id] == self.entries@[i as int].info@,
                None => !self@.contains_key(*app_id),
            },
    {
        let mut i: usize = 0;
        while i < self.entries.len()
            invariant
                i <= self.entries@.len(),
                self.wf(),
                forall|j: int| 0 <= j < i ==> !kept_at(self.entries@, *app_id, j),
            decreases self.entries@.len() - i,
        {
            if same_bytes(&self.entries[i].app_id, app_id) {
                proof {
                    lemma_kept(self.entries@, i as int);
                }
                return Some(i);
            }
            i = i + 1;
        }
        None
    }

    /// Gives the identity that stands for the module itself.
    pub fn app_account() -> (account: AccountId)
        ensures
            account@ == module_account(),
    {
        app_account()
    }

    /// Derives the identifier of the session that `initiate_request` asks for:
    /// the runtime's hash of the module's identity, the nonce, the timeout and
    /// the players.
    pub fn calculate_app_id(initiate_request: &AppInitiateRequest) -> (app_id: AppId)
        ensures
            app_id@ == T::hash_of(
                app_id_preimage(
                    initiate_request.nonce,
                    initiate_request.timeout,
                    initiate_request.players@,
                ),
            ),
    {
        let encoded: Vec<u8> = encode_app_id_preimage(initiate_request);
        T::hash(&encoded)
    }

    /// Gives a copy of the session kept under `app_id`.
    pub fn gomoku_info(&self, app_id: &AppId) -> (info: Option<GomokuInfo>)
        requires
            self.wf(),
        ensures
            match info {
                Some(found) => self@.contains_key(*app_id) && found@ == self@[*app_id]
                    && found@.wf(),
                None => !self@.contains_key(*app_id),
            },
    {
        match self.position(app_id) {
            Some(i) => Some(self.entries[i].info.duplicate()),
            None => None,
        }
    }

    /// Opens a session under the identifier `app_id`, unless one is kept
    /// there or the players are too few or out of order.
    pub fn initiate_with_id(&mut self, app_id: AppId, initiate_request: &AppInitiateRequest) -> (outcome:
        Result<(), Error>)
        requires
            old(self).wf(),
        ensures
            final(self).wf(),
            carried_out(
                initiate_rule(old(self)@, app_id, *initiate_request),
                old(self)@,
                final(self)@,
                outcome,
            ),
    {
        if self.position(&app_id).is_some() {
            return Err(Error::SessionAlreadyExists);
        }
        match GomokuInfo::new(initiate_request) {
            Err(e) => Err(e),
            Ok(info) => {
                let entry = Entry { app_id, info };
                proof {
                    lemma_added(self.entries@, entry);
                }
                self.entries.push(entry);
                Ok(())
            },
        }
    }

    /// Opens the session that `initiate_request` asks for, under the
    /// identifier that the runtime's hash derives for it, and gives that
    /// identifier. The request is refused where a session is kept under the
    /// identifier already, and where the players are too few or out of order.
    pub fn app_initiate(&mut self, initiate_request: &AppInitiateRequest) -> (outcome: Result<
        AppId,
        Error,
    >)
        requires
            old(self).wf(),
        ensures
            final(self).wf(),
            outcome matches Ok(given) ==> given@ == T::hash_of(
                app_id_preimage(
                    initiate_request.nonce,
                    initiate_request.timeout,
                    initiate_request.players@,
                ),
            ),
            forall|app_id: AppId|
                app_id@ == T::hash_of(
                    app_id_preimage(
                        initiate_request.nonce,
                        initiate_request.timeout,
                        initiate_request.players@,
                    ),
                ) ==> carried_out(
                    #[trigger] initiate_rule(old(self)@, app_id, *initiate_request),
                    old(self)@,
                    final(self)@,
                    outcome,
                ) && (outcome matches Ok(given) ==> given == app_id),
    {
        let ghost before = self@;
        let app_id: AppId = Self::calculate_app_id(initiate_request);
        let outcome: Result<AppId, Error> = match self.initiate_with_id(app_id, initiate_request) {
            Ok(_) => Ok(app_id),
            Err(e) => Err(e),
        };
        assert forall|other: AppId|
            other@ == T::hash_of(
                app_id_preimage(
                    initiate_request.nonce,
                    initiate_request.timeout,
                    initiate_request.players@,
                ),
            ) implies carried_out(
            #[trigger] initiate_rule(before, other, *initiate_request),
            before,
            self@,
            outcome,
        ) && (outcome matches Ok(given) ==> given == other) by {
            assert(other =~= app_id);
        }
        outcome
    }

    /// Puts `info` in the place of the session that the entry at `i` keeps.
    fn replace(&mut self, i: usize, info: GomokuInfo)
        requires
            old(self).wf(),
            i < old(self).entries@.len(),
            info@.wf(),
        ensures
            final(self).wf(),
            final(self)@ == old(self)@.insert(old(self).entries@[i as int].app_id, info@),
    {
        let entry = Entry { app_id: self.entries[i].app_id, info };
        proof {
            lemma_replaced(self.entries@, i as int, entry);
        }
        self.entries.set(i, entry);
    }

    /// Asks the runtime about each signer's signature on `encoded`, in the
    /// signers' order, and stops at the first that is missing or refused.
    /// Signatures beyond the last signer are not looked at.
    pub fn valid_signers(
        signatures: &Vec<Signature>,
        encoded: &Vec<u8>,
        signers: &Vec<AccountId>,
    ) -> (verdict: Result<(), Error>)
        ensures
            verdict == if co_signed::<T>(signatures@, encoded@, signers@) {
                Ok::<(), Error>(())
            } else {
                Err::<(), Error>(Error::InvalidCoSignature)
            },
    {
        let mut i: usize = 0;
        while i < signers.len()
            invariant
                i <= signers@.len(),
                i <= signatures@.len(),
                forall|k: int|
                    #![trigger signatures@[k]]
                    0 <= k < i ==> T::signature_valid(signatures@[k]@, encoded@, signers@[k]@),
            decreases signers@.len() - i,
        {
            if i >= signatures.len() {
                return Err(Error::InvalidCoSignature);
            }
            if !T::verify(&signatures[i], encoded, &signers[i]) {
                assert(!T::signature_valid(signatures@[i as int]@, encoded@, signers@[i as int]@));
                return Err(Error::InvalidCoSignature);
            }
            i = i + 1;
        }
        Ok(())
    }

    /// Takes a snapshot with its signatures: the session that the snapshot
    /// names takes it as its rules say, as co-signed if the runtime takes
    /// every player's signature on the snapshot's encoding for valid. On
    /// success the event names the session and the sequence number installed.
    pub fn update_by_state(&mut self, state_proof: &StateProof, block_number: BlockNumber) -> (outcome:
        Result<Event, Error>)
        requires
            old(self).wf(),
        ensures
            final(self).wf(),
            carried_out(
                session_rule(
                    old(self)@,
                    state_proof.app_state.app_id,
                    |s: Session| state_proof_rule::<T>(s, *state_proof, block_number),
                ),
                old(self)@,
                final(self)@,
                outcome,
            ),
            outcome matches Ok(event) ==> event == Event::IntendSettle(
                state_proof.app_state.app_id,
                state_proof.app_state.seq_num,
            ),
    {
        let i: usize = match self.position(&state_proof.app_state.app_id) {
            Some(i) => i,
            None => {
                return Err(Error::SessionNotFound);
            },
        };
        let encoded: Vec<u8> = encode_app_state(&state_proof.app_state);
        let signed: bool = Self::valid_signers(
            &state_proof.sigs,
            &encoded,
            self.entries[i].info.players(),
        ).is_ok();
        match self.entries[i].info.update_by_state(&state_proof.app_state, signed, block_number) {
            Err(e) => Err(e),
            Ok(info) => {
                self.replace(i, info);
                Ok(Event::IntendSettle(state_proof.app_state.app_id, state_proof.app_state.seq_num))
            },
        }
    }

    /// Takes the move `action` of `caller` in the session under `app_id`.
    pub fn update_by_action(
        &mut self,
        caller: &AccountId,
        app_id: &AppId,
        action: &Vec<u8>,
        block_number: BlockNumber,
    ) -> (outcome: Result<(), Error>)
        requires
            old(self).wf(),
        ensures
            final(self).wf(),
            carried_out(
                session_rule(
                    old(self)@,
                    *app_id,
                    |s: Session| s.update_by_action(*caller, action@, block_number),
                ),
                old(self)@,
                final(self)@,
                outcome,
            ),
    {
        let i: usize = match self.position(app_id) {
            Some(i) => i,
            None => {
                return Err(Error::SessionNotFound);
            },
        };
        match self.entries[i].info.update_by_action(caller, action, block_number) {
            Err(e) => Err(e),
            Ok(info) => {
                self.replace(i, info);
                Ok(())
            },
        }
    }

    /// Closes the session under `app_id` if its window ran out.
    pub fn finalize_on_timeout(&mut self, app_id: &AppId, block_number: BlockNumber) -> (outcome:
        Result<(), Error>)
        requires
            old(self).wf(),
        ensures
            final(self).wf(),
            carried_out(
                session_rule(
                    old(self)@,
                    *app_id,
                    |s: Session| s.finalize_on_timeout(block_number),
                ),
                old(self)@,
                final(self)@,
                outcome,
            ),
    {
        let i: usize = match self.position(app_id) {
            Some(i) => i,
            None => {
                return Err(Error::SessionNotFound);
            },
        };
        match self.entries[i].info.finalize_on_timeout(block_number) {
            Err(e) => Err(e),
            Ok(info) => {
                self.replace(i, info);
                Ok(())
            },
        }
    }

    /// Succeeds exactly when the session under `app_id` is finalized.
    pub fn is_finalized(&self, app_id: &AppId) -> (answer: Result<(), Error>)
        requires
            self.wf(),
        ensures
            answer == if self@.contains_key(*app_id) {
                self@[*app_id].is_finalized()
            } else {
                Err(Error::SessionNotFound)
            },
    {
        match self.position(app_id) {
            Some(i) => self.entries[i].info.is_finalized(),
            None => Err(Error::SessionNotFound),
        }
    }

    /// Succeeds exactly when the winner byte of the session under `app_id`
    /// is `query`.
    pub fn get_outcome(&self, app_id: &AppId, query: u8) -> (answer: Result<(), Error>)
        requires
            self.wf(),
        ensures
            answer == if self@.contains_key(*app_id) {
                self@[*app_id].get_outcome(query)
            } else {
                Err(Error::SessionNotFound)
            },
    {
        match self.position(app_id) {
            Some(i) => self.entries[i].info.get_outcome(query),
            None => Err(Error::SessionNotFound),
        }
    }

    /// Gives the part that `key` names of the board of the session under
    /// `app_id`: the turn byte for 0, the winner byte for 1, the whole buffer
    /// for any other key; `None` where no such session is kept or it has no
    /// board.
    pub fn get_state(&self, app_id: &AppId, key: u8) -> (state: Option<Vec<u8>>)
        requires
            self.wf(),
        ensures
            match state {
                Some(bytes) => self@.contains_key(*app_id) && self@[*app_id].get_state(key)
                    == Some(bytes@),
                None => !self@.contains_key(*app_id) || self@[*app_id].get_state(key) is None,
            },
    {
        match self.position(app_id) {
            Some(i) => self.entries[i].info.get_state(key),
            None => None,
        }
    }
}

} // verus!
