//! The three operations of the proxy: what each checks, in which order, and what it asks of
//! the host.
//!
//! An invocation is decided from what it shows: the proxy's own identity, the accounts it
//! names and the request's bytes. The result is either the one error of the first check that
//! failed, or what the host is to do. Nothing is changed here, so a refused request leaves
//! every record as it was.

use vstd::prelude::*;
use crate::account::{account_views, AccountInfo, AccountInfoView};
use crate::effects::{
    AuthorityUpdate, AuthorityUpdateView, InitializePlan, InitializePlanView, MultiplierUpdate,
    MultiplierUpdateView, Outcome, OutcomeView, SignedCall, SignedCallView,
};
use crate::error::{ProcessError, ProxyError};
use crate::identity::{zero_identity, Identity};
use crate::instruction::{decode_instruction, ProxyInstruction, ProxyInstructionView};
use crate::multiplier::{check_valid_multiplier, is_valid_multiplier};
use crate::pda::{
    derived_view, find_program_address, is_derived_address, program_address, SeedTag,
    SigningProof,
};
use crate::state::{decode_state, ProxyState, ProxyStateView};
use crate::token_2022_helpers::{update_multiplier, update_multiplier_instruction};

verus! {

/// A result as a mathematical value: what was accepted by its view, an error as it is.
pub open spec fn result_view<T: View>(r: Result<T, ProcessError>) -> Result<T::V, ProcessError> {
    match r {
        Ok(value) => Ok(value@),
        Err(e) => Err(e),
    }
}

/// What setup decides, given the two addresses that the proxy derives for itself.
///
/// The checks, in order: five accounts are named; the payer has signed; the state account
/// is at the derived state address; the third account is the derived signing address; the
/// state account, if it has data, holds a record, and that record is not set up. The record
/// to store then carries the authority of the request, the mint of the invocation and the
/// bump of the signing address.
pub open spec fn initialize_spec(
    program_id: Seq<u8>,
    accounts: Seq<AccountInfoView>,
    authority: Seq<u8>,
    state_address: Option<(Seq<u8>, u8)>,
    signing_address: Option<(Seq<u8>, u8)>,
) -> Result<InitializePlanView, ProcessError> {
    if accounts.len() < 5 {
        Err(ProcessError::NotEnoughAccountKeys)
    } else if !accounts[0].is_signer {
        Err(ProcessError::MissingRequiredSignature)
    } else if !is_derived_address(state_address, accounts[1].key) {
        Err(ProcessError::Proxy(ProxyError::InvalidStateAccount))
    } else if !is_derived_address(signing_address, accounts[2].key) {
        Err(ProcessError::Proxy(ProxyError::InvalidPDA))
    } else if accounts[1].data.len() > 0 && decode_state(accounts[1].data) is None {
        Err(ProcessError::Deserialization)
    } else if accounts[1].data.len() > 0 && decode_state(accounts[1].data)->Some_0.initialized {
        Err(ProcessError::Proxy(ProxyError::AlreadyInitialized))
    } else {
        Ok(
            InitializePlanView {
                payer: accounts[0].key,
                state_account: accounts[1].key,
                owner: program_id,
                state_bump: state_address->Some_0.1,
                record: ProxyStateView {
                    initialized: true,
                    authority,
                    token_mint: accounts[3].key,
                    bump: signing_address->Some_0.1,
                },
                authority_pda: accounts[2].key,
            },
        )
    }
}

/// What a multiplier update decides, given the signing address that the proxy derives for
/// itself.
///
/// The checks, in order: five accounts are named; the first has signed; the state account
/// holds a record; the record is set up; its authority is the signer; its mint is the fourth
/// account; the multiplier is a positive normal number; the third account is the derived
/// signing address and the record's bump is the derived bump. The call then asks the token
/// program to update the mint, is handed the mint and the signing address (the accounts 3
/// and 2 of the invocation), and is made in the name of the signing address with the
/// record's bump.
pub open spec fn update_multiplier_spec(
    accounts: Seq<AccountInfoView>,
    new_multiplier: u64,
    effective_timestamp: i64,
    signing_address: Option<(Seq<u8>, u8)>,
) -> Result<MultiplierUpdateView, ProcessError> {
    if accounts.len() < 5 {
        Err(ProcessError::NotEnoughAccountKeys)
    } else if !accounts[0].is_signer {
        Err(ProcessError::MissingRequiredSignature)
    } else if decode_state(accounts[1].data) is None {
        Err(ProcessError::Deserialization)
    } else {
        let state = decode_state(accounts[1].data)->Some_0;
        if !state.initialized {
            Err(ProcessError::Proxy(ProxyError::NotInitialized))
        } else if state.authority != accounts[0].key {
            Err(ProcessError::Proxy(ProxyError::InvalidAuthority))
        } else if state.token_mint != accounts[3].key {
            Err(ProcessError::Proxy(ProxyError::InvalidMint))
        } else if !is_valid_multiplier(new_multiplier) {
            Err(ProcessError::Proxy(ProxyError::InvalidMultiplier))
        } else if !(is_derived_address(signing_address, accounts[2].key)
            && signing_address->Some_0.1 == state.bump) {
            Err(ProcessError::Proxy(ProxyError::InvalidPDA))
        } else {
            Ok(
                MultiplierUpdateView {
                    call: SignedCallView {
                        instruction: update_multiplier_instruction(
                            accounts[3].key,
                            accounts[2].key,
                            new_multiplier,
                            effective_timestamp,
                        ),
                        accounts: seq![3usize, 2usize],
                        signer: SigningProof { tag: SeedTag::Authority, bump: state.bump },
                    },
                    new_multiplier,
                    effective_timestamp,
                },
            )
        }
    }
}

/// What a change of authority decides.
///
/// The checks, in order: two accounts are named; the first has signed; the state account
/// holds a record; the record is set up; its authority is the signer; the next authority is
/// not the zero identity. The record to store is then the stored one with the next
/// authority in place of the signer.
pub open spec fn update_authority_spec(
    accounts: Seq<AccountInfoView>,
    new_authority: Seq<u8>,
) -> Result<AuthorityUpdateView, ProcessError> {
    if accounts.len() < 2 {
        Err(ProcessError::NotEnoughAccountKeys)
    } else if !accounts[0].is_signer {
        Err(ProcessError::MissingRequiredSignature)
    } else if decode_state(accounts[1].data) is None {
        Err(ProcessError::Deserialization)
    } else {
        let state = decode_state(accounts[1].data)->Some_0;
        if !state.initialized {
            Err(ProcessError::Proxy(ProxyError::NotInitialized))
        } else if state.authority != accounts[0].key {
            Err(ProcessError::Proxy(ProxyError::InvalidAuthority))
        } else if new_authority == zero_identity() {
            Err(ProcessError::Proxy(ProxyError::InvalidAuthority))
        } else {
            Ok(
                AuthorityUpdateView {
                    record: state.with_authority(new_authority),
                    previous_authority: accounts[0].key,
                },
            )
        }
    }
}

/// What a decoded request decides, given the two addresses that the proxy derives for
/// itself.
pub open spec fn dispatch_spec(
    program_id: Seq<u8>,
    accounts: Seq<AccountInfoView>,
    instruction: ProxyInstructionView,
    state_address: Option<(Seq<u8>, u8)>,
    signing_address: Option<(Seq<u8>, u8)>,
) -> Result<OutcomeView, ProcessError> {
    match instruction {
        ProxyInstructionView::Initialize { authority } => match initialize_spec(
            program_id,
            accounts,
            authority,
            state_address,
            signing_address,
        ) {
            Ok(plan) => Ok(OutcomeView::Initialize(plan)),
            Err(e) => Err(e),
        },
        ProxyInstructionView::UpdateMultiplier {
            new_multiplier,
            effective_timestamp,
        } => match update_multiplier_spec(
            accounts,
            new_multiplier,
            effective_timestamp,
            signing_address,
        ) {
            Ok(update) => Ok(OutcomeView::UpdateMultiplier(update)),
            Err(e) => Err(e),
        },
        ProxyInstructionView::UpdateAuthority { new_authority } => match update_authority_spec(
            accounts,
            new_authority,
        ) {
            Ok(update) => Ok(OutcomeView::UpdateAuthority(update)),
            Err(e) => Err(e),
        },
    }
}

/// What an invocation decides: a payload that holds no request is refused; any other is
/// decided as its request is, with the addresses derived from the two seed tags and the
/// proxy's identity.
pub open spec fn process_spec(
    program_id: Seq<u8>,
    accounts: Seq<AccountInfoView>,
    instruction_data: Seq<u8>,
) -> Result<OutcomeView, ProcessError> {
    match decode_instruction(instruction_data) {
        None => Err(ProcessError::Deserialization),
        Some(instruction) => dispatch_spec(
            program_id,
            accounts,
            instruction,
            program_address(SeedTag::State.spec_bytes(), program_id),
            program_address(SeedTag::Authority.spec_bytes(), program_id),
        ),
    }
}

/// Accepts a multiplier that is a normal number with a positive sign, and refuses any other.
pub fn try_validate_multiplier(multiplier: u64) -> (r: Result<(), ProcessError>)
    ensures
        is_valid_multiplier(multiplier) ==> r == Ok::<(), ProcessError>(()),
        !is_valid_multiplier(multiplier) ==> r == Err::<(), ProcessError>(
            ProcessError::Proxy(ProxyError::InvalidMultiplier),
        ),
{
    if check_valid_multiplier(multiplier) {
        Ok(())
    } else {
        Err(ProcessError::Proxy(ProxyError::InvalidMultiplier))
    }
}

/// Tells whether `supplied` is the address of `derived`.
fn matches_derived(derived: &Option<(Identity, u8)>, supplied: &Identity) -> (same: bool)
    ensures
        same == is_derived_address(derived_view(*derived), supplied@),
{
    match derived {
        Some((address, _)) => address.equals(supplied),
        None => false,
    }
}

/// The proxy's operations.
pub struct Processor;

impl Processor {
    /// Decides an invocation of the proxy `program_id` with the accounts `accounts` and the
    /// payload `instruction_data`.
    pub fn process(
        program_id: &Identity,
        accounts: &[AccountInfo],
        instruction_data: &[u8],
    ) -> (r: Result<Outcome, ProcessError>)
        ensures
            result_view(r) == process_spec(
                program_id@,
                account_views(accounts@),
                instruction_data@,
            ),
    {
        let instruction = match ProxyInstruction::try_from_slice(instruction_data) {
            Ok(instruction) => instruction,
            Err(e) => {
                return Err(e);
            },
        };
        match instruction {
            ProxyInstruction::Initialize { authority } => {
                match Self::process_initialize(program_id, accounts, authority) {
                    Ok(plan) => Ok(Outcome::Initialize(plan)),
                    Err(e) => Err(e),
                }
            },
            ProxyInstruction::UpdateMultiplier { new_multiplier, effective_timestamp } => {
                match Self::process_update_multiplier(
                    program_id,
                    accounts,
                    new_multiplier,
                    effective_timestamp,
                ) {
                    Ok(update) => Ok(Outcome::UpdateMultiplier(update)),
                    Err(e) => Err(e),
                }
            },
            ProxyInstruction::UpdateAuthority { new_authority } => {
                match Self::process_update_authority(program_id, accounts, new_authority) {
                    Ok(update) => Ok(Outcome::UpdateAuthority(update)),
                    Err(e) => Err(e),
                }
            },
        }
    }

    /// Decides a setup request: derives the proxy's two addresses and decides by them.
    pub fn process_initialize(
        program_id: &Identity,
        accounts: &[AccountInfo],
        authority: Identity,
    ) -> (r: Result<InitializePlan, ProcessError>)
        ensures
            result_view(r) == initialize_spec(
                program_id@,
                account_views(accounts@),
                authority@,
                program_address(SeedTag::State.spec_bytes(), program_id@),
                program_address(SeedTag::Authority.spec_bytes(), program_id@),
            ),
    {
        let state_address = find_program_address(SeedTag::State, program_id);
        let signing_address = find_program_address(SeedTag::Authority, program_id);
        Self::plan_initialize(program_id, accounts, authority, state_address, signing_address)
    }

    /// Decides a setup request by the addresses `state_address` and `signing_address`, which
    /// the caller has derived for the proxy.
    pub fn plan_initialize(
        program_id: &Identity,
        accounts: &[AccountInfo],
        authority: Identity,
        state_address: Option<(Identity, u8)>,
        signing_address: Option<(Identity, u8)>,
    ) -> (r: Result<InitializePlan, ProcessError>)
        ensures
            result_view(r) == initialize_spec(
                program_id@,
                account_views(accounts@),
                authority@,
                derived_view(state_address),
                derived_view(signing_address),
            ),
    {
        if accounts.len() < 5 {
            return Err(ProcessError::NotEnoughAccountKeys);
        }
        let payer_info = &accounts[0];
        let state_info = &accounts[1];
        let authority_pda_info = &accounts[2];
        let token_mint_info = &accounts[3];

        if !payer_info.is_signer {
            return Err(ProcessError::MissingRequiredSignature);
        }
        if !matches_derived(&state_address, &state_info.key) {
            return Err(ProcessError::Proxy(ProxyError::InvalidStateAccount));
        }
        if !matches_derived(&signing_address, &authority_pda_info.key) {
            return Err(ProcessError::Proxy(ProxyError::InvalidPDA));
        }
        if state_info.data.len() > 0 {
            let state = match ProxyState::try_from_slice(state_info.data) {
                Ok(state) => state,
                Err(e) => {
                    return Err(e);
                },
            };
            if state.initialized {
                return Err(ProcessError::Proxy(ProxyError::AlreadyInitialized));
            }
        }
        let state_bump = match state_address {
            Some((_, bump)) => bump,
            None => 0,
        };
        let authority_bump = match signing_address {
            Some((_, bump)) => bump,
            None => 0,
        };
        let plan = InitializePlan {
            payer: payer_info.key,
            state_account: state_info.key,
            owner: *program_id,
            state_bump,
            record: ProxyState {
                initialized: true,
                authority,
                token_mint: token_mint_info.key,
                bump: authority_bump,
            },
            authority_pda: authority_pda_info.key,
        };
        Ok(plan)
    }

    /// Decides a multiplier update: derives the proxy's signing address and decides by it.
    pub fn process_update_multiplier(
        program_id: &Identity,
        accounts: &[AccountInfo],
        new_multiplier: u64,
        effective_timestamp: i64,
    ) -> (r: Result<MultiplierUpdate, ProcessError>)
        ensures
            result_view(r) == update_multiplier_spec(
                account_views(accounts@),
                new_multiplier,
                effective_timestamp,
                program_address(SeedTag::Authority.spec_bytes(), program_id@),
            ),
    {
        let signing_address = find_program_address(SeedTag::Authority, program_id);
        Self::plan_update_multiplier(accounts, new_multiplier, effective_timestamp, signing_address)
    }

    /// Decides a multiplier update by the address `signing_address`, which the caller has
    /// derived for the proxy.
    pub fn plan_update_multiplier(
        accounts: &[AccountInfo],
        new_multiplier: u64,
        effective_timestamp: i64,
        signing_address: Option<(Identity, u8)>,
    ) -> (r: Result<MultiplierUpdate, ProcessError>)
        ensures
            result_view(r) == update_multiplier_spec(
                account_views(accounts@),
                new_multiplier,
                effective_timestamp,
                derived_view(signing_address),
            ),
    {
        if accounts.len() < 5 {
            return Err(ProcessError::NotEnoughAccountKeys);
        }
        let authority_info = &accounts[0];
        let state_info = &accounts[1];
        let authority_pda_info = &accounts[2];
        let token_mint_info = &accounts[3];

        if !authority_info.is_signer {
            return Err(ProcessError::MissingRequiredSignature);
        }
        let state = match ProxyState::try_from_slice(state_info.data) {
            Ok(state) => state,
            Err(e) => {
                return Err(e);
            },
        };
        if !state.initialized {
            return Err(ProcessError::Proxy(ProxyError::NotInitialized));
        }
        if !state.authority.equals(&authority_info.key) {
            return Err(ProcessError::Proxy(ProxyError::InvalidAuthority));
        }
        if !state.token_mint.equals(&token_mint_info.key) {
            return Err(ProcessError::Proxy(ProxyError::InvalidMint));
        }
        match try_validate_multiplier(new_multiplier) {
            Ok(()) => {},
            Err(e) => {
                return Err(e);
            },
        }
        let derived_bump = match signing_address {
            Some((_, bump)) => bump,
            None => 0,
        };
        if !matches_derived(&signing_address, &authority_pda_info.key) || derived_bump
            != state.bump {
            return Err(ProcessError::Proxy(ProxyError::InvalidPDA));
        }
        let instruction = match update_multiplier(
            &token_mint_info.key,
            &authority_pda_info.key,
            new_multiplier,
            effective_timestamp,
        ) {
            Ok(instruction) => instruction,
            Err(e) => {
                return Err(e);
            },
        };
        let mut handed: Vec<usize> = Vec::new();
        handed.push(3);
        handed.push(2);
        let update = MultiplierUpdate {
            call: SignedCall {
                instruction,
                accounts: handed,
                signer: SigningProof { tag: SeedTag::Authority, bump: state.bump },
            },
            new_multiplier,
            effective_timestamp,
        };
        assert(update@ =~~= update_multiplier_spec(
            account_views(accounts@),
            new_multiplier,
            effective_timestamp,
            derived_view(signing_address),
        )->Ok_0);
        Ok(update)
    }

    /// Decides a change of authority. The proxy's identity plays no part in it.
    pub fn process_update_authority(
        _program_id: &Identity,
        accounts: &[AccountInfo],
        new_authority: Identity,
    ) -> (r: Result<AuthorityUpdate, ProcessError>)
        ensures
            result_view(r) == update_authority_spec(account_views(accounts@), new_authority@),
    {
        if accounts.len() < 2 {
            return Err(ProcessError::NotEnoughAccountKeys);
        }
        let authority_info = &accounts[0];
        let state_info = &accounts[1];

        if !authority_info.is_signer {
            return Err(ProcessError::MissingRequiredSignature);
        }
        let state = match ProxyState::try_from_slice(state_info.data) {
            Ok(state) => state,
            Err(e) => {
                return Err(e);
            },
        };
        if !state.initialized {
            return Err(ProcessError::Proxy(ProxyError::NotInitialized));
        }
        if !state.authority.equals(&authority_info.key) {
            return Err(ProcessError::Proxy(ProxyError::InvalidAuthority));
        }
        if new_authority.is_zero() {
            return Err(ProcessError::Proxy(ProxyError::InvalidAuthority));
        }
        let update = AuthorityUpdate {
            record: ProxyState {
                initialized: state.initialized,
                authority: new_authority,
                token_mint: state.token_mint,
                bump: state.bump,
            },
            previous_authority: authority_info.key,
        };
        Ok(update)
    }
}

} // verus!
