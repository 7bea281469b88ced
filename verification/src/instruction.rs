//! The requests that the proxy accepts, and their encoding.

use vstd::prelude::*;
use crate::error::ProcessError;
use crate::identity::Identity;
use crate::multiplier::{check_nan, is_nan};
use crate::wire::{
    append_u64_le, from_le_bytes, le_bytes, lemma_digits_of_le_bytes, lemma_le_bytes_of_digits,
    lemma_signed_unsigned, read_u64_le, signed_value, to_signed_value, to_unsigned_bits,
    unsigned_bits,
};

verus! {

/// A request to the proxy.
#[derive(Clone, Copy, Debug, PartialEq, Eq)]
pub enum ProxyInstruction {
    /// Sets the proxy up.
    ///
    /// Accounts, in order: the payer (writable, signing); the state account (writable); the
    /// signing address; the token mint; the system program.
    Initialize {
        /// The first authority of the proxy.
        authority: Identity,
    },
    /// Asks the token program to change the multiplier.
    ///
    /// Accounts, in order: the authority (signing); the state account; the signing address;
    /// the token mint (writable); the token program.
    UpdateMultiplier {
        /// The bits of the new multiplier, a double-precision number.
        new_multiplier: u64,
        /// The time, in seconds since the Unix epoch, from which the new multiplier holds.
        effective_timestamp: i64,
    },
    /// Hands the proxy over to another authority.
    ///
    /// Accounts, in order: the authority (signing); the state account (writable).
    UpdateAuthority {
        /// The next authority.
        new_authority: Identity,
    },
}

/// The mathematical value of a [`ProxyInstruction`].
#[verifier::ext_equal]
pub enum ProxyInstructionView {
    Initialize { authority: Seq<u8> },
    UpdateMultiplier { new_multiplier: u64, effective_timestamp: i64 },
    UpdateAuthority { new_authority: Seq<u8> },
}

impl View for ProxyInstruction {
    type V = ProxyInstructionView;

    open spec fn view(&self) -> ProxyInstructionView {
        match *self {
            ProxyInstruction::Initialize { authority } => ProxyInstructionView::Initialize {
                authority: authority@,
            },
            ProxyInstruction::UpdateMultiplier {
                new_multiplier,
                effective_timestamp,
            } => ProxyInstructionView::UpdateMultiplier { new_multiplier, effective_timestamp },
            ProxyInstruction::UpdateAuthority {
                new_authority,
            } => ProxyInstructionView::UpdateAuthority { new_authority: new_authority@ },
        }
    }
}

impl ProxyInstructionView {
    /// Every identity of the request has 32 bytes. Every view of a [`ProxyInstruction`] is
    /// well formed.
    pub open spec fn wf(self) -> bool {
        match self {
            ProxyInstructionView::Initialize { authority } => authority.len() == 32,
            ProxyInstructionView::UpdateMultiplier { .. } => true,
            ProxyInstructionView::UpdateAuthority { new_authority } => new_authority.len() == 32,
        }
    }
}

/// The request that `data` holds, if it holds one: a tag byte that numbers the operation,
/// then the operation's fields and nothing after them. A multiplier that is a NaN is no
/// multiplier.
pub open spec fn decode_instruction(data: Seq<u8>) -> Option<ProxyInstructionView> {
    if data.len() == 33 && data[0] == 0 {
        Some(ProxyInstructionView::Initialize { authority: data.subrange(1, 33) })
    } else if data.len() == 17 && data[0] == 1 && !is_nan(from_le_bytes(data.subrange(1, 9))) {
        Some(
            ProxyInstructionView::UpdateMultiplier {
                new_multiplier: from_le_bytes(data.subrange(1, 9)),
                effective_timestamp: signed_value(from_le_bytes(data.subrange(9, 17))),
            },
        )
    } else if data.len() == 33 && data[0] == 2 {
        Some(ProxyInstructionView::UpdateAuthority { new_authority: data.subrange(1, 33) })
    } else {
        None
    }
}

/// The bytes that hold `instruction`; none where its multiplier is a NaN.
pub open spec fn encode_instruction(instruction: ProxyInstructionView) -> Option<Seq<u8>> {
    match instruction {
        ProxyInstructionView::Initialize { authority } => Some(seq![0u8] + authority),
        ProxyInstructionView::UpdateMultiplier { new_multiplier, effective_timestamp } => {
            if is_nan(new_multiplier) {
                None
            } else {
                Some(
                    seq![1u8] + le_bytes(new_multiplier) + le_bytes(
                        unsigned_bits(effective_timestamp),
                    ),
                )
            }
        },
        ProxyInstructionView::UpdateAuthority { new_authority } => Some(seq![2u8] + new_authority),
    }
}

/// Decoding undoes encoding: a well-formed request is read back from its own bytes.
pub proof fn lemma_decode_encode_instruction(instruction: ProxyInstructionView)
    requires
        instruction.wf(),
        encode_instruction(instruction) is Some,
    ensures
        decode_instruction(encode_instruction(instruction)->Some_0) == Some(instruction),
{
    let data = encode_instruction(instruction)->Some_0;
    match instruction {
        ProxyInstructionView::Initialize { authority } => {
            assert(data.subrange(1, 33) =~= authority);
        },
        ProxyInstructionView::UpdateMultiplier { new_multiplier, effective_timestamp } => {
            assert(data.subrange(1, 9) =~= le_bytes(new_multiplier));
            assert(data.subrange(9, 17) =~= le_bytes(unsigned_bits(effective_timestamp)));
            lemma_digits_of_le_bytes(new_multiplier);
            lemma_digits_of_le_bytes(unsigned_bits(effective_timestamp));
            lemma_signed_unsigned(effective_timestamp, 0);
        },
        ProxyInstructionView::UpdateAuthority { new_authority } => {
            assert(data.subrange(1, 33) =~= new_authority);
        },
    }
}

/// Encoding undoes decoding: bytes that hold a request are the encoding of that request,
/// which is well formed.
pub proof fn lemma_encode_decode_instruction(data: Seq<u8>)
    requires
        decode_instruction(data) is Some,
    ensures
        decode_instruction(data)->Some_0.wf(),
        encode_instruction(decode_instruction(data)->Some_0) == Some(data),
{
    let instruction = decode_instruction(data)->Some_0;
    match instruction {
        ProxyInstructionView::UpdateMultiplier { new_multiplier, effective_timestamp } => {
            lemma_le_bytes_of_digits(data.subrange(1, 9));
            lemma_le_bytes_of_digits(data.subrange(9, 17));
            lemma_signed_unsigned(0, from_le_bytes(data.subrange(9, 17)));
            assert(encode_instruction(instruction)->Some_0 =~= data);
        },
        _ => {
            assert(encode_instruction(instruction)->Some_0 =~= data);
        },
    }
}

impl ProxyInstruction {
    /// Reads a request from `data`, which must hold one and nothing else.
    pub fn try_from_slice(data: &[u8]) -> (r: Result<ProxyInstruction, ProcessError>)
        ensures
            match r {
                Ok(instruction) => decode_instruction(data@) == Some(instruction@),
                Err(e) => decode_instruction(data@) is None && e == ProcessError::Deserialization,
            },
    {
        if data.len() == 0 {
            return Err(ProcessError::Deserialization);
        }
        let tag = data[0];
        if tag == 0 && data.len() == 33 {
            let instruction = ProxyInstruction::Initialize { authority: Identity::read_from(data, 1) };
            assert(decode_instruction(data@)->Some_0 =~= instruction@);
            Ok(instruction)
        } else if tag == 1 && data.len() == 17 {
            let new_multiplier = read_u64_le(data, 1);
            if check_nan(new_multiplier) {
                return Err(ProcessError::Deserialization);
            }
            let effective_timestamp = to_signed_value(read_u64_le(data, 9));
            Ok(ProxyInstruction::UpdateMultiplier { new_multiplier, effective_timestamp })
        } else if tag == 2 && data.len() == 33 {
            let instruction = ProxyInstruction::UpdateAuthority {
                new_authority: Identity::read_from(data, 1),
            };
            assert(decode_instruction(data@)->Some_0 =~= instruction@);
            Ok(instruction)
        } else {
            Err(ProcessError::Deserialization)
        }
    }

    /// Appends the bytes that hold the request to `writer`. A request whose multiplier is a
    /// NaN has no encoding: it is refused, and `writer` is left as it was.
    pub fn serialize(&self, writer: &mut Vec<u8>) -> (r: Result<(), ProcessError>)
        ensures
            match r {
                Ok(()) => encode_instruction(self@) is Some && final(writer)@ == old(writer)@
                    + encode_instruction(self@)->Some_0,
                Err(e) => encode_instruction(self@) is None && e == ProcessError::Deserialization
                    && final(writer)@ == old(writer)@,
            },
    {
        match *self {
            ProxyInstruction::Initialize { authority } => {
                writer.push(0);
                authority.append_to(writer);
                assert(writer@ =~= old(writer)@ + encode_instruction(self@)->Some_0);
            },
            ProxyInstruction::UpdateMultiplier { new_multiplier, effective_timestamp } => {
                if check_nan(new_multiplier) {
                    return Err(ProcessError::Deserialization);
                }
                writer.push(1);
                append_u64_le(writer, new_multiplier);
                append_u64_le(writer, to_unsigned_bits(effective_timestamp));
                assert(writer@ =~= old(writer)@ + encode_instruction(self@)->Some_0);
            },
            ProxyInstruction::UpdateAuthority { new_authority } => {
                writer.push(2);
                new_authority.append_to(writer);
                assert(writer@ =~= old(writer)@ + encode_instruction(self@)->Some_0);
            },
        }
        Ok(())
    }
}

} // verus!
