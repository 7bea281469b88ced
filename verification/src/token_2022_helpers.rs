//! The request that asks the token program to change a mint's multiplier.

use vstd::prelude::*;
use crate::error::ProcessError;
use crate::identity::Identity;
use crate::wire::{append_u64_le, le_bytes, to_unsigned_bits, unsigned_bits};

verus! {

/// Bytes of the identity of the token program that owns the multiplier:
/// `TokenzQdBNbLqP5VEhdkAS6EPFLC1PHnBqCXEpPxuEb` in base 58.
pub const TOKEN_2022_PROGRAM_ID: [u8; 32] = [
    6, 221, 246, 225, 238, 117, 143, 222, 24, 66, 93, 188, 228, 108, 205, 218, 182, 26, 252, 77,
    131, 185, 13, 39, 254, 189, 249, 40, 216, 161, 139, 252,
];

/// The identity of the token program that owns the multiplier.
pub fn token_2022_program_id() -> (id: Identity)
    ensures
        id@ == TOKEN_2022_PROGRAM_ID@,
{
    Identity { bytes: TOKEN_2022_PROGRAM_ID }
}

/// Operations of the token program, as far as the proxy names them.
#[derive(Clone, Copy, Debug, PartialEq, Eq, Structural)]
pub enum TokenInstruction {
    /// An operation of the scaled-amount extension.
    ScaledUiAmountExtension,
}

impl TokenInstruction {
    /// The byte that names the operation on the wire.
    pub open spec fn spec_discriminant(self) -> u8 {
        match self {
            TokenInstruction::ScaledUiAmountExtension => 43,
        }
    }

    /// Gives the byte that names the operation on the wire.
    pub fn discriminant(self) -> (d: u8)
        ensures
            d == self.spec_discriminant(),
    {
        match self {
            TokenInstruction::ScaledUiAmountExtension => 43,
        }
    }
}

/// Operations of the scaled-amount extension.
#[derive(Clone, Copy, Debug, PartialEq, Eq, Structural)]
pub enum ScaledUiAmountMintInstruction {
    /// Sets a new mint up with a multiplier.
    Initialize,
    /// Changes the multiplier.
    UpdateMultiplier,
}

impl ScaledUiAmountMintInstruction {
    /// The byte that names the operation on the wire.
    pub open spec fn spec_discriminant(self) -> u8 {
        match self {
            ScaledUiAmountMintInstruction::Initialize => 0,
            ScaledUiAmountMintInstruction::UpdateMultiplier => 1,
        }
    }

    /// Gives the byte that names the operation on the wire.
    pub fn discriminant(self) -> (d: u8)
        ensures
            d == self.spec_discriminant(),
    {
        match self {
            ScaledUiAmountMintInstruction::Initialize => 0,
            ScaledUiAmountMintInstruction::UpdateMultiplier => 1,
        }
    }
}

/// How a request refers to one account.
#[derive(Clone, Copy, Debug, PartialEq, Eq)]
pub struct AccountMeta {
    /// The account's address.
    pub pubkey: Identity,
    /// Whether the request carries the account's authorization.
    pub is_signer: bool,
    /// Whether the callee may change the account.
    pub is_writable: bool,
}

/// The mathematical value of an [`AccountMeta`].
#[verifier::ext_equal]
pub struct AccountMetaView {
    pub pubkey: Seq<u8>,
    pub is_signer: bool,
    pub is_writable: bool,
}

impl View for AccountMeta {
    type V = AccountMetaView;

    open spec fn view(&self) -> AccountMetaView {
        AccountMetaView {
            pubkey: self.pubkey@,
            is_signer: self.is_signer,
            is_writable: self.is_writable,
        }
    }
}

impl AccountMeta {
    /// A reference to an account that the callee may change.
    pub fn new(pubkey: Identity, is_signer: bool) -> (meta: AccountMeta)
        ensures
            meta@ == (AccountMetaView { pubkey: pubkey@, is_signer, is_writable: true }),
    {
        AccountMeta { pubkey, is_signer, is_writable: true }
    }

    /// A reference to an account that the callee may only read.
    pub fn new_readonly(pubkey: Identity, is_signer: bool) -> (meta: AccountMeta)
        ensures
            meta@ == (AccountMetaView { pubkey: pubkey@, is_signer, is_writable: false }),
    {
        AccountMeta { pubkey, is_signer, is_writable: false }
    }
}

/// A request to another program: whom it addresses, which accounts it names, and its payload.
#[derive(Clone, Debug, PartialEq, Eq)]
pub struct Instruction {
    /// The program that executes the request.
    pub program_id: Identity,
    /// The accounts that the request names, in order.
    pub accounts: Vec<AccountMeta>,
    /// The payload, which only the callee interprets.
    pub data: Vec<u8>,
}

/// The mathematical value of an [`Instruction`].
#[verifier::ext_equal]
pub struct InstructionView {
    pub program_id: Seq<u8>,
    pub accounts: Seq<AccountMetaView>,
    pub data: Seq<u8>,
}

impl View for Instruction {
    type V = InstructionView;

    open spec fn view(&self) -> InstructionView {
        InstructionView {
            program_id: self.program_id@,
            accounts: Seq::new(self.accounts@.len(), |i: int| self.accounts@[i]@),
            data: self.data@,
        }
    }
}

/// The payload of a multiplier update: the two opcodes, then the multiplier's bits and the
/// timestamp, each as eight little-endian bytes.
pub open spec fn update_multiplier_data(multiplier: u64, effective_timestamp: i64) -> Seq<u8> {
    seq![
        TokenInstruction::ScaledUiAmountExtension.spec_discriminant(),
        ScaledUiAmountMintInstruction::UpdateMultiplier.spec_discriminant(),
    ] + le_bytes(multiplier) + le_bytes(unsigned_bits(effective_timestamp))
}

/// The request that changes the multiplier of `mint` on behalf of `authority`: addressed to
/// the token program, it names the mint, writable, and the authority, read-only and signing.
pub open spec fn update_multiplier_instruction(
    mint: Seq<u8>,
    authority: Seq<u8>,
    multiplier: u64,
    effective_timestamp: i64,
) -> InstructionView {
    InstructionView {
        program_id: TOKEN_2022_PROGRAM_ID@,
        accounts: seq![
            AccountMetaView { pubkey: mint, is_signer: false, is_writable: true },
            AccountMetaView { pubkey: authority, is_signer: true, is_writable: false },
        ],
        data: update_multiplier_data(multiplier, effective_timestamp),
    }
}

/// The payload of a multiplier update has 18 bytes and begins with 43 and 1.
pub proof fn lemma_update_multiplier_data(multiplier: u64, effective_timestamp: i64)
    ensures
        update_multiplier_data(multiplier, effective_timestamp).len() == 18,
        update_multiplier_data(multiplier, effective_timestamp)[0] == 43,
        update_multiplier_data(multiplier, effective_timestamp)[1] == 1,
        update_multiplier_data(multiplier, effective_timestamp).subrange(2, 10) == le_bytes(
            multiplier,
        ),
        update_multiplier_data(multiplier, effective_timestamp).subrange(10, 18) == le_bytes(
            unsigned_bits(effective_timestamp),
        ),
{
    let data = update_multiplier_data(multiplier, effective_timestamp);
    assert(data.subrange(2, 10) =~= le_bytes(multiplier));
    assert(data.subrange(10, 18) =~= le_bytes(unsigned_bits(effective_timestamp)));
}

/// Builds the request that changes the multiplier of `mint` to the number with the bits
/// `multiplier`, from `effective_timestamp` on, signed by `authority`. Never fails.
pub fn update_multiplier(
    mint: &Identity,
    authority: &Identity,
    multiplier: u64,
    effective_timestamp: i64,
) -> (r: Result<Instruction, ProcessError>)
    ensures
        r is Ok,
        r->Ok_0@ == update_multiplier_instruction(
            mint@,
            authority@,
            multiplier,
            effective_timestamp,
        ),
{
    let mut accounts: Vec<AccountMeta> = Vec::new();
    accounts.push(AccountMeta::new(*mint, false));
    accounts.push(AccountMeta::new_readonly(*authority, true));

    let mut data: Vec<u8> = Vec::new();
    data.push(TokenInstruction::ScaledUiAmountExtension.discriminant());
    data.push(ScaledUiAmountMintInstruction::UpdateMultiplier.discriminant());
    append_u64_le(&mut data, multiplier);
    append_u64_le(&mut data, to_unsigned_bits(effective_timestamp));

    let instruction = Instruction { program_id: token_2022_program_id(), accounts, data };
    assert(instruction@ =~~= update_multiplier_instruction(
        mint@,
        authority@,
        multiplier,
        effective_timestamp,
    ));
    Ok(instruction)
}

} // verus!
