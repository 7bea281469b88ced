//! The request that asks the system program to create an account.

use vstd::prelude::*;
use solana_program::pubkey::Pubkey;
use crate::identity::{zero_identity, Identity};
use crate::token_2022_helpers::{AccountMeta, AccountMetaView, Instruction, InstructionView};

verus! {

/// The payload by which the system program is asked to create an account with `lamports` of
/// balance and `space` bytes of data, owned by the program `owner`. It is a function of these
/// three alone.
pub uninterp spec fn create_account_data(lamports: u64, space: u64, owner: Seq<u8>) -> Seq<u8>;

/// The request that creates the account `to`, paid for by `from`: addressed to the system
/// program, whose identity is the zero identity, it names both accounts as writable signers.
pub open spec fn create_account_instruction(
    from: Seq<u8>,
    to: Seq<u8>,
    lamports: u64,
    space: u64,
    owner: Seq<u8>,
) -> InstructionView {
    InstructionView {
        program_id: zero_identity(),
        accounts: seq![
            AccountMetaView { pubkey: from, is_signer: true, is_writable: true },
            AccountMetaView { pubkey: to, is_signer: true, is_writable: true },
        ],
        data: create_account_data(lamports, space, owner),
    }
}

/// Calls `system_instruction::create_account` of `solana_program`.
///
/// Trusted: the request is addressed to the system program, names `from` and then `to`, both
/// writable and signing, and carries the named payload, which the outside function encodes
/// from `lamports`, `space` and `owner` and nothing else.
#[verifier::external_body]
#[allow(deprecated)]
pub(crate) fn create_account(
    from: &Identity,
    to: &Identity,
    lamports: u64,
    space: u64,
    owner: &Identity,
) -> (instruction: Instruction)
    ensures
        instruction@.program_id == zero_identity(),
        instruction@.accounts == seq![
            AccountMetaView { pubkey: from@, is_signer: true, is_writable: true },
            AccountMetaView { pubkey: to@, is_signer: true, is_writable: true },
        ],
        instruction@.data == create_account_data(lamports, space, owner@),
{
    let (from, to) = (Pubkey::new_from_array(from.bytes), Pubkey::new_from_array(to.bytes));
    let owner = Pubkey::new_from_array(owner.bytes);
    let made = solana_program::system_instruction::create_account(&from, &to, lamports, space, &owner);
    let mut accounts: Vec<AccountMeta> = Vec::new();
    for meta in made.accounts.iter() {
        let pubkey = Identity { bytes: meta.pubkey.to_bytes() };
        accounts.push(AccountMeta { pubkey, is_signer: meta.is_signer, is_writable: meta.is_writable });
    }
    Instruction { program_id: Identity { bytes: made.program_id.to_bytes() }, accounts, data: made.data }
}

} // verus!
