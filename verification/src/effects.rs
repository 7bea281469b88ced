//! What the proxy asks of the host when it accepts a request.
//!
//! The proxy itself changes nothing. A request that it accepts yields a value of this module,
//! which says what the host is to do: create the state account, call another program in the
//! proxy's name, or store a record. A request that it refuses yields an error, and the host is
//! to do nothing.

use vstd::prelude::*;
use crate::identity::Identity;
use crate::pda::{SeedTag, SigningProof};
use crate::state::{ProxyState, ProxyStateView};
use crate::system::{create_account, create_account_instruction};
use crate::token_2022_helpers::{Instruction, InstructionView};

verus! {

/// A call of another program in the name of an address that the proxy owns.
#[derive(Clone, Debug, PartialEq, Eq)]
pub struct SignedCall {
    /// The request to the other program.
    pub instruction: Instruction,
    /// The accounts of the invocation that are handed to the callee, by their positions.
    pub accounts: Vec<usize>,
    /// What shows the host that the proxy controls the signing address.
    pub signer: SigningProof,
}

/// The mathematical value of a [`SignedCall`].
#[verifier::ext_equal]
pub struct SignedCallView {
    pub instruction: InstructionView,
    pub accounts: Seq<usize>,
    pub signer: SigningProof,
}

impl View for SignedCall {
    type V = SignedCallView;

    open spec fn view(&self) -> SignedCallView {
        SignedCallView {
            instruction: self.instruction@,
            accounts: self.accounts@,
            signer: self.signer,
        }
    }
}

/// What setup asks of the host: to create the state account, sized for one record, funded
/// to the minimum balance for that size and owned by the proxy, and then to store `record`
/// in it.
#[derive(Clone, Copy, Debug, PartialEq, Eq)]
pub struct InitializePlan {
    /// The account that pays for the state account.
    pub payer: Identity,
    /// The address of the state account.
    pub state_account: Identity,
    /// The proxy, which is to own the state account.
    pub owner: Identity,
    /// The bump of the state account's address.
    pub state_bump: u8,
    /// The record to store in the state account.
    pub record: ProxyState,
    /// The address in whose name the proxy will call the token program.
    pub authority_pda: Identity,
}

/// The mathematical value of an [`InitializePlan`].
#[verifier::ext_equal]
pub struct InitializePlanView {
    pub payer: Seq<u8>,
    pub state_account: Seq<u8>,
    pub owner: Seq<u8>,
    pub state_bump: u8,
    pub record: ProxyStateView,
    pub authority_pda: Seq<u8>,
}

impl View for InitializePlan {
    type V = InitializePlanView;

    open spec fn view(&self) -> InitializePlanView {
        InitializePlanView {
            payer: self.payer@,
            state_account: self.state_account@,
            owner: self.owner@,
            state_bump: self.state_bump,
            record: self.record@,
            authority_pda: self.authority_pda@,
        }
    }
}

/// The call that creates the state account of `plan` with a balance of `lamports`: a request
/// to the system program for an account of 66 bytes owned by the proxy, handed the payer, the
/// state account and the system program (the accounts 0, 1 and 4 of the invocation), in the
/// name of the state account's address.
pub open spec fn create_state_account_call(plan: InitializePlanView, lamports: u64) -> SignedCallView {
    SignedCallView {
        instruction: create_account_instruction(
            plan.payer,
            plan.state_account,
            lamports,
            66,
            plan.owner,
        ),
        accounts: seq![0usize, 1usize, 4usize],
        signer: SigningProof { tag: SeedTag::State, bump: plan.state_bump },
    }
}

impl InitializePlan {
    /// The size of the state account to create, in bytes.
    pub fn space(&self) -> (space: u64)
        ensures
            space == ProxyState::LEN,
    {
        66
    }

    /// Builds the call that creates the state account with a balance of `lamports`, which the
    /// host has found to be the minimum balance for an account of [`Self::space`] bytes.
    pub fn create_account(&self, lamports: u64) -> (call: SignedCall)
        ensures
            call@ == create_state_account_call(self@, lamports),
    {
        let instruction = create_account(
            &self.payer,
            &self.state_account,
            lamports,
            66,
            &self.owner,
        );
        let mut accounts: Vec<usize> = Vec::new();
        accounts.push(0);
        accounts.push(1);
        accounts.push(4);
        let call = SignedCall {
            instruction,
            accounts,
            signer: SigningProof { tag: SeedTag::State, bump: self.state_bump },
        };
        assert(call@ =~~= create_state_account_call(self@, lamports));
        call
    }
}

/// What a multiplier update asks of the host: to make `call`.
#[derive(Clone, Debug, PartialEq, Eq)]
pub struct MultiplierUpdate {
    /// The call of the token program, in the name of the proxy's signing address.
    pub call: SignedCall,
    /// The bits of the new multiplier.
    pub new_multiplier: u64,
    /// The time from which the new multiplier holds.
    pub effective_timestamp: i64,
}

/// The mathematical value of a [`MultiplierUpdate`].
#[verifier::ext_equal]
pub struct MultiplierUpdateView {
    pub call: SignedCallView,
    pub new_multiplier: u64,
    pub effective_timestamp: i64,
}

impl View for MultiplierUpdate {
    type V = MultiplierUpdateView;

    open spec fn view(&self) -> MultiplierUpdateView {
        MultiplierUpdateView {
            call: self.call@,
            new_multiplier: self.new_multiplier,
            effective_timestamp: self.effective_timestamp,
        }
    }
}

/// What a change of authority asks of the host: to store `record` in the state account, in
/// place of the record that is there.
#[derive(Clone, Copy, Debug, PartialEq, Eq)]
pub struct AuthorityUpdate {
    /// The record to store.
    pub record: ProxyState,
    /// The authority that handed the proxy over.
    pub previous_authority: Identity,
}

/// The mathematical value of an [`AuthorityUpdate`].
#[verifier::ext_equal]
pub struct AuthorityUpdateView {
    pub record: ProxyStateView,
    pub previous_authority: Seq<u8>,
}

impl View for AuthorityUpdate {
    type V = AuthorityUpdateView;

    open spec fn view(&self) -> AuthorityUpdateView {
        AuthorityUpdateView {
            record: self.record@,
            previous_authority: self.previous_authority@,
        }
    }
}

/// What an accepted request asks of the host.
#[derive(Clone, Debug, PartialEq, Eq)]
pub enum Outcome {
    Initialize(InitializePlan),
    UpdateMultiplier(MultiplierUpdate),
    UpdateAuthority(AuthorityUpdate),
}

/// The mathematical value of an [`Outcome`].
#[verifier::ext_equal]
pub enum OutcomeView {
    Initialize(InitializePlanView),
    UpdateMultiplier(MultiplierUpdateView),
    UpdateAuthority(AuthorityUpdateView),
}

impl View for Outcome {
    type V = OutcomeView;

    open spec fn view(&self) -> OutcomeView {
        match *self {
            Outcome::Initialize(plan) => OutcomeView::Initialize(plan@),
            Outcome::UpdateMultiplier(update) => OutcomeView::UpdateMultiplier(update@),
            Outcome::UpdateAuthority(update) => OutcomeView::UpdateAuthority(update@),
        }
    }
}

} // verus!
