//! The persisted state record and its fixed 66-byte layout.

use vstd::prelude::*;
use crate::error::ProcessError;
use crate::identity::Identity;

verus! {

/// The record that the proxy keeps in its state account.
#[derive(Clone, Copy, Debug, PartialEq, Eq)]
pub struct ProxyState {
    /// Whether setup has run.
    pub initialized: bool,
    /// The principal that may request changes.
    pub authority: Identity,
    /// The mint whose multiplier the proxy may change.
    pub token_mint: Identity,
    /// The bump of the program's signing address.
    pub bump: u8,
}

/// The mathematical value of a [`ProxyState`]: identities are sequences of bytes.
#[verifier::ext_equal]
pub struct ProxyStateView {
    pub initialized: bool,
    pub authority: Seq<u8>,
    pub token_mint: Seq<u8>,
    pub bump: u8,
}

impl View for ProxyState {
    type V = ProxyStateView;

    open spec fn view(&self) -> ProxyStateView {
        ProxyStateView {
            initialized: self.initialized,
            authority: self.authority@,
            token_mint: self.token_mint@,
            bump: self.bump,
        }
    }
}

impl ProxyStateView {
    /// Both identities of the record have 32 bytes. Every view of a [`ProxyState`] is well formed.
    pub open spec fn wf(self) -> bool {
        self.authority.len() == 32 && self.token_mint.len() == 32
    }

    /// The record with its authority replaced and everything else kept.
    pub open spec fn with_authority(self, authority: Seq<u8>) -> ProxyStateView {
        ProxyStateView { authority, ..self }
    }
}

/// The byte that stands for a flag: 1 for true, 0 for false.
pub open spec fn flag_byte(flag: bool) -> u8 {
    if flag {
        1
    } else {
        0
    }
}

/// The layout of a record: the flag, the authority, the mint, the bump.
pub open spec fn encode_state(state: ProxyStateView) -> Seq<u8> {
    seq![flag_byte(state.initialized)] + state.authority + state.token_mint + seq![state.bump]
}

/// The record that `data` holds, if `data` is a record: exactly 66 bytes, the first of them
/// 0 or 1.
pub open spec fn decode_state(data: Seq<u8>) -> Option<ProxyStateView> {
    if data.len() == 66 && data[0] <= 1 {
        Some(
            ProxyStateView {
                initialized: data[0] == 1,
                authority: data.subrange(1, 33),
                token_mint: data.subrange(33, 65),
                bump: data[65],
            },
        )
    } else {
        None
    }
}

/// Decoding undoes encoding: a well-formed record is read back from its own bytes, and those
/// bytes are 66.
pub proof fn lemma_decode_encode(state: ProxyStateView)
    requires
        state.wf(),
    ensures
        encode_state(state).len() == 66,
        decode_state(encode_state(state)) == Some(state),
{
    let data = encode_state(state);
    let back = decode_state(data)->Some_0;
    assert(back.authority =~= state.authority);
    assert(back.token_mint =~= state.token_mint);
    assert(back =~= state);
}

/// Encoding undoes decoding: bytes that hold a record are the encoding of that record, which
/// is well formed.
pub proof fn lemma_encode_decode(data: Seq<u8>)
    requires
        decode_state(data) is Some,
    ensures
        decode_state(data)->Some_0.wf(),
        encode_state(decode_state(data)->Some_0) == data,
{
    assert(encode_state(decode_state(data)->Some_0) =~= data);
}

impl ProxyState {
    /// Size of the encoded record: a flag, two identities and a bump.
    pub const LEN: usize = 66;

    /// Seed tag of the program's signing address: the ASCII text `proxy_authority`.
    pub const AUTHORITY_SEED: [u8; 15] = [
        112, 114, 111, 120, 121, 95, 97, 117, 116, 104, 111, 114, 105, 116, 121,
    ];

    /// Seed tag of the state account's address: the ASCII text `state`.
    pub const STATE_SEED: [u8; 5] = [115, 116, 97, 116, 101];

    /// Reads a record from `data`, which must be exactly the 66 bytes of one.
    pub fn try_from_slice(data: &[u8]) -> (r: Result<ProxyState, ProcessError>)
        ensures
            match r {
                Ok(state) => decode_state(data@) == Some(state@),
                Err(e) => decode_state(data@) is None && e == ProcessError::Deserialization,
            },
    {
        if data.len() != 66 {
            return Err(ProcessError::Deserialization);
        }
        let flag = data[0];
        if flag > 1 {
            return Err(ProcessError::Deserialization);
        }
        let state = ProxyState {
            initialized: flag == 1,
            authority: Identity::read_from(data, 1),
            token_mint: Identity::read_from(data, 33),
            bump: data[65],
        };
        assert(decode_state(data@)->Some_0 =~= state@);
        Ok(state)
    }

    /// Appends the 66 bytes of the record to `writer`.
    pub fn serialize(&self, writer: &mut Vec<u8>)
        ensures
            final(writer)@ == old(writer)@ + encode_state(self@),
    {
        writer.push(if self.initialized { 1u8 } else { 0u8 });
        self.authority.append_to(writer);
        self.token_mint.append_to(writer);
        writer.push(self.bump);
        assert(writer@ =~= old(writer)@ + encode_state(self@));
    }
}

} // verus!
