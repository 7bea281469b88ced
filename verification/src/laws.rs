//! What holds of the proxy's decisions, whatever the invocation.
//!
//! Each law is stated of the functions that say what an operation decides. An operation of
//! the [`Processor`](crate::processor::Processor) returns exactly what they say, so each law
//! holds of every call.

use vstd::prelude::*;
use crate::account::AccountInfoView;
use crate::error::{refused_for, ProxyError};
use crate::identity::zero_identity;
use crate::instruction::{
    encode_instruction, lemma_decode_encode_instruction, ProxyInstructionView,
};
use crate::multiplier::{
    is_finite, is_infinite, is_nan, is_normal, is_sign_positive, is_subnormal, is_zero,
};
use crate::pda::{is_derived_address, program_address, SeedTag, SigningProof};
use crate::processor::{
    dispatch_spec, initialize_spec, process_spec, update_authority_spec, update_multiplier_spec,
};
use crate::state::{decode_state, encode_state, lemma_decode_encode, ProxyStateView};
use crate::token_2022_helpers::{lemma_update_multiplier_data, TOKEN_2022_PROGRAM_ID};
use crate::wire::{le_bytes, unsigned_bits};

verus! {

/// An invocation whose payload is the encoding of a request is decided as that request is,
/// with the addresses that derive from the proxy's identity.
pub proof fn lemma_process_decides_the_encoded_request(
    program_id: Seq<u8>,
    accounts: Seq<AccountInfoView>,
    instruction: ProxyInstructionView,
)
    requires
        instruction.wf(),
        encode_instruction(instruction) is Some,
    ensures
        process_spec(program_id, accounts, encode_instruction(instruction)->Some_0)
            == dispatch_spec(
            program_id,
            accounts,
            instruction,
            program_address(SeedTag::State.spec_bytes(), program_id),
            program_address(SeedTag::Authority.spec_bytes(), program_id),
        ),
{
    lemma_decode_encode_instruction(instruction);
}

/// Setup is accepted whenever the payer has signed, both addresses are the derived ones and
/// the state account does not exist yet. The record that it stores is set up and carries
/// the authority of the request, the mint of the invocation and the bump of the signing
/// address; the account that it creates is at the derived state address and owned by the
/// proxy.
pub proof fn lemma_setup_stores_the_requested_record(
    program_id: Seq<u8>,
    accounts: Seq<AccountInfoView>,
    authority: Seq<u8>,
    state_address: Option<(Seq<u8>, u8)>,
    signing_address: Option<(Seq<u8>, u8)>,
)
    requires
        accounts.len() >= 5,
        accounts[0].is_signer,
        is_derived_address(state_address, accounts[1].key),
        is_derived_address(signing_address, accounts[2].key),
        accounts[1].data.len() == 0,
    ensures
        initialize_spec(program_id, accounts, authority, state_address, signing_address) is Ok,
        ({
            let plan = initialize_spec(
                program_id,
                accounts,
                authority,
                state_address,
                signing_address,
            )->Ok_0;
            &&& plan.record == ProxyStateView {
                initialized: true,
                authority,
                token_mint: accounts[3].key,
                bump: signing_address->Some_0.1,
            }
            &&& plan.state_account == state_address->Some_0.0
            &&& plan.state_bump == state_address->Some_0.1
            &&& plan.owner == program_id
            &&& plan.payer == accounts[0].key
        }),
{
}

/// Setup runs once. After a setup was accepted and its record stored, another setup of the
/// same proxy is refused, whatever it asks for; and where it names five accounts, its payer
/// has signed and its addresses are the derived ones, the reason is that the proxy is
/// already set up.
pub proof fn lemma_second_setup_is_refused(
    program_id: Seq<u8>,
    first: Seq<AccountInfoView>,
    first_authority: Seq<u8>,
    second: Seq<AccountInfoView>,
    second_authority: Seq<u8>,
    state_address: Option<(Seq<u8>, u8)>,
    signing_address: Option<(Seq<u8>, u8)>,
)
    requires
        first_authority.len() == 32,
        first.len() >= 5 ==> first[3].key.len() == 32,
        initialize_spec(program_id, first, first_authority, state_address, signing_address) is Ok,
        second.len() >= 2,
        second[1].data == encode_state(
            initialize_spec(
                program_id,
                first,
                first_authority,
                state_address,
                signing_address,
            )->Ok_0.record,
        ),
    ensures
        initialize_spec(program_id, second, second_authority, state_address, signing_address)
            is Err,
        second.len() >= 5 && second[0].is_signer && is_derived_address(
            state_address,
            second[1].key,
        ) && is_derived_address(signing_address, second[2].key) ==> refused_for(
            initialize_spec(program_id, second, second_authority, state_address, signing_address),
            ProxyError::AlreadyInitialized,
        ),
{
    let record = initialize_spec(
        program_id,
        first,
        first_authority,
        state_address,
        signing_address,
    )->Ok_0.record;
    lemma_decode_encode(record);
}

/// The payload of the call that a multiplier update makes. Where the multiplier is positive,
/// finite and normal, the signer is the stored authority, the mint is the controlled one and
/// the signing address and bump are the derived ones, the update is accepted, and its call
/// carries exactly 18 bytes: 43, 1, the multiplier's eight bytes and the timestamp's eight
/// bytes, little-endian. It is addressed to the token program and made in the name of the
/// signing address with the stored bump.
pub proof fn lemma_update_carries_the_exact_payload(
    accounts: Seq<AccountInfoView>,
    new_multiplier: u64,
    effective_timestamp: i64,
    signing_address: Option<(Seq<u8>, u8)>,
)
    requires
        accounts.len() >= 5,
        accounts[0].is_signer,
        decode_state(accounts[1].data) is Some,
        decode_state(accounts[1].data)->Some_0.initialized,
        decode_state(accounts[1].data)->Some_0.authority == accounts[0].key,
        decode_state(accounts[1].data)->Some_0.token_mint == accounts[3].key,
        is_sign_positive(new_multiplier),
        is_finite(new_multiplier),
        is_normal(new_multiplier),
        is_derived_address(signing_address, accounts[2].key),
        signing_address->Some_0.1 == decode_state(accounts[1].data)->Some_0.bump,
    ensures
        update_multiplier_spec(accounts, new_multiplier, effective_timestamp, signing_address)
            is Ok,
        ({
            let call = update_multiplier_spec(
                accounts,
                new_multiplier,
                effective_timestamp,
                signing_address,
            )->Ok_0.call;
            &&& call.instruction.data == seq![43u8, 1u8] + le_bytes(new_multiplier) + le_bytes(
                unsigned_bits(effective_timestamp),
            )
            &&& call.instruction.data.len() == 18
            &&& call.instruction.program_id == TOKEN_2022_PROGRAM_ID@
            &&& call.signer == SigningProof {
                tag: SeedTag::Authority,
                bump: decode_state(accounts[1].data)->Some_0.bump,
            }
        }),
{
    lemma_update_multiplier_data(new_multiplier, effective_timestamp);
}

/// A multiplier that is zero, negative, a NaN, an infinity or subnormal is never accepted, so
/// no call is made for it; and where every earlier check passes, the reason is the
/// multiplier.
pub proof fn lemma_bad_multiplier_is_refused(
    accounts: Seq<AccountInfoView>,
    new_multiplier: u64,
    effective_timestamp: i64,
    signing_address: Option<(Seq<u8>, u8)>,
)
    requires
        is_zero(new_multiplier) || !is_sign_positive(new_multiplier) || is_nan(new_multiplier)
            || is_infinite(new_multiplier) || is_subnormal(new_multiplier),
    ensures
        update_multiplier_spec(accounts, new_multiplier, effective_timestamp, signing_address)
            is Err,
        accounts.len() >= 5 && accounts[0].is_signer && decode_state(accounts[1].data) is Some
            && decode_state(accounts[1].data)->Some_0.initialized && decode_state(
            accounts[1].data,
        )->Some_0.authority == accounts[0].key && decode_state(accounts[1].data)->Some_0.token_mint
            == accounts[3].key ==> refused_for(
            update_multiplier_spec(accounts, new_multiplier, effective_timestamp, signing_address),
            ProxyError::InvalidMultiplier,
        ),
{
}

/// A signer who is not the stored authority changes nothing: both a multiplier update and a
/// change of authority are refused; and where the signature is there and the record is set
/// up, the reason is the authority.
pub proof fn lemma_stranger_is_refused(
    accounts: Seq<AccountInfoView>,
    new_multiplier: u64,
    effective_timestamp: i64,
    signing_address: Option<(Seq<u8>, u8)>,
    new_authority: Seq<u8>,
)
    requires
        accounts.len() >= 2,
        decode_state(accounts[1].data) is Some,
        decode_state(accounts[1].data)->Some_0.authority != accounts[0].key,
    ensures
        update_multiplier_spec(accounts, new_multiplier, effective_timestamp, signing_address)
            is Err,
        update_authority_spec(accounts, new_authority) is Err,
        accounts.len() >= 5 && accounts[0].is_signer && decode_state(
            accounts[1].data,
        )->Some_0.initialized ==> refused_for(
            update_multiplier_spec(accounts, new_multiplier, effective_timestamp, signing_address),
            ProxyError::InvalidAuthority,
        ),
        accounts[0].is_signer && decode_state(accounts[1].data)->Some_0.initialized
            ==> refused_for(
            update_authority_spec(accounts, new_authority),
            ProxyError::InvalidAuthority,
        ),
{
}

/// Setup at a wrong address is refused. A state account that is not at the derived state
/// address, or a third account that is not the derived signing address, is never accepted;
/// and where the payer has signed, the reason is the state account if that is wrong, else
/// the signing address.
pub proof fn lemma_setup_at_wrong_address_is_refused(
    program_id: Seq<u8>,
    accounts: Seq<AccountInfoView>,
    authority: Seq<u8>,
    state_address: Option<(Seq<u8>, u8)>,
    signing_address: Option<(Seq<u8>, u8)>,
)
    requires
        accounts.len() >= 5,
        !is_derived_address(state_address, accounts[1].key) || !is_derived_address(
            signing_address,
            accounts[2].key,
        ),
    ensures
        initialize_spec(program_id, accounts, authority, state_address, signing_address) is Err,
        accounts[0].is_signer && !is_derived_address(state_address, accounts[1].key)
            ==> refused_for(
            initialize_spec(program_id, accounts, authority, state_address, signing_address),
            ProxyError::InvalidStateAccount,
        ),
        accounts[0].is_signer && is_derived_address(state_address, accounts[1].key)
            ==> refused_for(
            initialize_spec(program_id, accounts, authority, state_address, signing_address),
            ProxyError::InvalidPDA,
        ),
{
}

/// A multiplier update at a wrong signing address is refused. A third account that is not
/// the derived signing address, or a stored bump that is not the derived one, is never
/// accepted; and where every earlier check passes, the reason is the derivation.
pub proof fn lemma_update_at_wrong_address_is_refused(
    accounts: Seq<AccountInfoView>,
    new_multiplier: u64,
    effective_timestamp: i64,
    signing_address: Option<(Seq<u8>, u8)>,
)
    requires
        accounts.len() >= 5,
        decode_state(accounts[1].data) is Some,
        !is_derived_address(signing_address, accounts[2].key) || signing_address->Some_0.1
            != decode_state(accounts[1].data)->Some_0.bump,
    ensures
        update_multiplier_spec(accounts, new_multiplier, effective_timestamp, signing_address)
            is Err,
        accounts[0].is_signer && decode_state(accounts[1].data)->Some_0.initialized
            && decode_state(accounts[1].data)->Some_0.authority == accounts[0].key
            && decode_state(accounts[1].data)->Some_0.token_mint == accounts[3].key
            && is_sign_positive(new_multiplier) && is_normal(new_multiplier)
            ==> refused_for(
            update_multiplier_spec(accounts, new_multiplier, effective_timestamp, signing_address),
            ProxyError::InvalidPDA,
        ),
{
}

/// The proxy is never handed to nobody. A change of authority to the zero identity is
/// refused, whoever asks; and where the signature is there and the record is set up, the
/// reason is the authority.
pub proof fn lemma_zero_authority_is_refused(accounts: Seq<AccountInfoView>)
    ensures
        update_authority_spec(accounts, zero_identity()) is Err,
        accounts.len() >= 2 && accounts[0].is_signer && decode_state(accounts[1].data) is Some
            && decode_state(accounts[1].data)->Some_0.initialized ==> refused_for(
            update_authority_spec(accounts, zero_identity()),
            ProxyError::InvalidAuthority,
        ),
{
}

/// The stored authority can hand the proxy to anybody. A change of authority to an identity
/// that is not zero, signed by the stored authority, is accepted. The record that it stores
/// differs from the stored one in the authority alone: it is still set up, and its mint and
/// bump are unchanged. Read back from its bytes it shows the next authority.
pub proof fn lemma_handover_is_stored(accounts: Seq<AccountInfoView>, new_authority: Seq<u8>)
    requires
        accounts.len() >= 2,
        accounts[0].is_signer,
        decode_state(accounts[1].data) is Some,
        decode_state(accounts[1].data)->Some_0.initialized,
        decode_state(accounts[1].data)->Some_0.authority == accounts[0].key,
        new_authority.len() == 32,
        new_authority != zero_identity(),
    ensures
        update_authority_spec(accounts, new_authority) is Ok,
        ({
            let before = decode_state(accounts[1].data)->Some_0;
            let update = update_authority_spec(accounts, new_authority)->Ok_0;
            &&& update.record == ProxyStateView {
                initialized: true,
                authority: new_authority,
                token_mint: before.token_mint,
                bump: before.bump,
            }
            &&& update.previous_authority == before.authority
            &&& decode_state(encode_state(update.record)) == Some(update.record)
        }),
{
    let update = update_authority_spec(accounts, new_authority)->Ok_0;
    lemma_decode_encode(update.record);
}

/// After a handover the next authority is in charge and the previous one is not. On the
/// record that an accepted change of authority stores, a request of the next authority
/// passes the check of the authority, and a request of the previous one, who is somebody
/// else, is refused for it.
pub proof fn lemma_handover_takes_effect(
    accounts: Seq<AccountInfoView>,
    new_authority: Seq<u8>,
    later: Seq<AccountInfoView>,
    new_multiplier: u64,
    effective_timestamp: i64,
    signing_address: Option<(Seq<u8>, u8)>,
    next_authority: Seq<u8>,
)
    requires
        new_authority.len() == 32,
        update_authority_spec(accounts, new_authority) is Ok,
        later.len() >= 5,
        later[0].is_signer,
        later[1].data == encode_state(update_authority_spec(accounts, new_authority)->Ok_0.record),
    ensures
        later[0].key == new_authority ==> !refused_for(
            update_multiplier_spec(later, new_multiplier, effective_timestamp, signing_address),
            ProxyError::InvalidAuthority,
        ),
        later[0].key == new_authority && next_authority != zero_identity()
            ==> update_authority_spec(later, next_authority) is Ok,
        later[0].key != new_authority ==> refused_for(
            update_multiplier_spec(later, new_multiplier, effective_timestamp, signing_address),
            ProxyError::InvalidAuthority,
        ),
        later[0].key != new_authority ==> refused_for(
            update_authority_spec(later, next_authority),
            ProxyError::InvalidAuthority,
        ),
{
    let record = update_authority_spec(accounts, new_authority)->Ok_0.record;
    crate::state::lemma_encode_decode(accounts[1].data);
    lemma_decode_encode(record);
}

} // verus!
