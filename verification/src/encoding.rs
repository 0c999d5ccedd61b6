//! The byte strings that the runtime hashes and that the players sign, laid
//! out in the SCALE format.

use vstd::prelude::*;
use parity_scale_codec::Encode;
use crate::runtime::module_into_account;
use crate::types::{AccountId, AppId, AppInitiateRequest, AppState};

verus! {

/// The `width` lowest bytes of `value`, lowest first.
pub open spec fn le_bytes(value: nat, width: nat) -> Seq<u8>
    decreases width,
{
    if width == 0 {
        Seq::empty()
    } else {
        seq![(value % 256) as u8] + le_bytes(value / 256, (width - 1) as nat)
    }
}

/// The bytes of all identities in `accounts`, one identity after the other.
pub open spec fn accounts_bytes(accounts: Seq<AccountId>) -> Seq<u8>
    decreases accounts.len(),
{
    if accounts.len() == 0 {
        Seq::empty()
    } else {
        accounts_bytes(accounts.drop_last()) + accounts.last()@
    }
}

/// The identifier of this module: the bytes of `m_gomoku`.
pub open spec fn module_id() -> Seq<u8> {
    seq![109u8, 95u8, 103u8, 111u8, 109u8, 111u8, 107u8, 117u8]
}

/// The identity that stands for the module itself: the bytes of `modl`, then
/// the module's identifier, then zero bytes up to the length of an identity.
pub open spec fn module_account() -> Seq<u8> {
    seq![109u8, 111u8, 100u8, 108u8] + module_id() + Seq::new(20, |i: int| 0u8)
}

/// What the players sign: the sequence number in 16 bytes, the board byte by
/// byte, the timeout in 8 bytes, and the session's identifier.
pub open spec fn app_state_encoding(
    seq_num: u128,
    board: Seq<u8>,
    timeout: u64,
    app_id: AppId,
) -> Seq<u8> {
    le_bytes(seq_num as nat, 16) + board + le_bytes(timeout as nat, 8) + app_id@
}

/// What is hashed into a session's identifier: the module's own identity, the
/// nonce in 16 bytes, the timeout in 8 bytes, and the players in their order.
pub open spec fn app_id_preimage(nonce: u128, timeout: u64, players: Seq<AccountId>) -> Seq<u8> {
    module_account() + le_bytes(nonce as nat, 16) + le_bytes(timeout as nat, 8) + accounts_bytes(
        players,
    )
}

/// `parity_scale_codec::Encode::encode` on a `u128`: the codec writes a
/// fixed-width integer as its bytes in little-endian order, sixteen of them
/// here.
#[verifier::external_body]
pub(crate) fn encode_u128(value: u128) -> (bytes: Vec<u8>)
    ensures
        bytes@ == le_bytes(value as nat, 16),
{
    value.encode()
}

/// `parity_scale_codec::Encode::encode` on a `u64`: the eight bytes of the
/// integer in little-endian order.
#[verifier::external_body]
pub(crate) fn encode_u64(value: u64) -> (bytes: Vec<u8>)
    ensures
        bytes@ == le_bytes(value as nat, 8),
{
    value.encode()
}

/// `parity_scale_codec::Encode::encode` on a `u8`: the byte itself.
#[verifier::external_body]
pub(crate) fn encode_u8(value: u8) -> (bytes: Vec<u8>)
    ensures
        bytes@ == seq![value],
{
    value.encode()
}

/// `parity_scale_codec::Encode::encode` on an array of 32 bytes: the codec
/// writes a fixed-size array of bytes as those bytes, with no length before
/// them.
#[verifier::external_body]
pub(crate) fn encode_bytes32(value: &[u8; 32]) -> (bytes: Vec<u8>)
    ensures
        bytes@ == value@,
{
    value.encode()
}

/// The identifier of this module.
pub const MULTI_GOMOKU_ID: [u8; 8] = [109, 95, 103, 111, 109, 111, 107, 117];

/// Gives the identity that stands for the module itself.
pub fn app_account() -> (account: AccountId)
    ensures
        account@ == module_account(),
{
    let account: AccountId = module_into_account(MULTI_GOMOKU_ID);
    assert(MULTI_GOMOKU_ID@ =~= module_id());
    account
}

/// Lays out the bytes that the players sign for a snapshot.
pub fn encode_app_state(app_state: &AppState) -> (encoded: Vec<u8>)
    ensures
        encoded@ == app_state_encoding(
            app_state.seq_num,
            app_state.board_state@,
            app_state.timeout,
            app_state.app_id,
        ),
{
    let mut encoded: Vec<u8> = encode_u128(app_state.seq_num);
    let ghost head = encoded@;
    let mut i: usize = 0;
    while i < app_state.board_state.len()
        invariant
            i <= app_state.board_state@.len(),
            encoded@ == head + app_state.board_state@.take(i as int),
        decreases app_state.board_state@.len() - i,
    {
        let mut cell: Vec<u8> = encode_u8(app_state.board_state[i]);
        encoded.append(&mut cell);
        i = i + 1;
        assert(encoded@ =~= head + app_state.board_state@.take(i as int));
    }
    assert(app_state.board_state@.take(i as int) =~= app_state.board_state@);
    let mut timeout: Vec<u8> = encode_u64(app_state.timeout);
    encoded.append(&mut timeout);
    let mut app_id: Vec<u8> = encode_bytes32(&app_state.app_id);
    encoded.append(&mut app_id);
    encoded
}

/// Lays out the bytes that are hashed into the identifier of the session that
/// `initiate_request` asks for.
pub fn encode_app_id_preimage(initiate_request: &AppInitiateRequest) -> (encoded: Vec<u8>)
    ensures
        encoded@ == app_id_preimage(
            initiate_request.nonce,
            initiate_request.timeout,
            initiate_request.players@,
        ),
{
    let account: AccountId = app_account();
    let mut encoded: Vec<u8> = encode_bytes32(&account);
    let mut nonce: Vec<u8> = encode_u128(initiate_request.nonce);
    encoded.append(&mut nonce);
    let mut timeout: Vec<u8> = encode_u64(initiate_request.timeout);
    encoded.append(&mut timeout);
    let ghost head = encoded@;
    let mut i: usize = 0;
    assert(initiate_request.players@.take(0) =~= Seq::<AccountId>::empty());
    while i < initiate_request.players.len()
        invariant
            i <= initiate_request.players@.len(),
            encoded@ == head + accounts_bytes(initiate_request.players@.take(i as int)),
        decreases initiate_request.players@.len() - i,
    {
        let mut player: Vec<u8> = encode_bytes32(&initiate_request.players[i]);
        proof {
            let next = initiate_request.players@.take(i + 1);
            assert(next.drop_last() =~= initiate_request.players@.take(i as int));
            assert(next.last() == initiate_request.players@[i as int]);
        }
        encoded.append(&mut player);
        i = i + 1;
        assert(encoded@ =~= head + accounts_bytes(initiate_request.players@.take(i as int)));
    }
    assert(initiate_request.players@.take(i as int) =~= initiate_request.players@);
    encoded
}

} // verus!
