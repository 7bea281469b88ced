//! Failures that the proxy reports.

use vstd::prelude::*;

verus! {

/// Why the proxy's own rules refused a request.
#[derive(Clone, Copy, Debug, PartialEq, Eq, Structural)]
pub enum ProxyError {
    /// The state record has not been set up.
    NotInitialized,
    /// The state record has been set up before.
    AlreadyInitialized,
    /// The signer is not the stored authority, or the proposed authority is the zero identity.
    InvalidAuthority,
    /// The multiplier is not a positive normal number.
    InvalidMultiplier,
    /// The supplied mint is not the controlled one.
    InvalidMint,
    /// The supplied state address is not the derived one.
    InvalidStateAccount,
    /// The supplied signing address or the stored bump is not the derived one.
    InvalidPDA,
}

impl ProxyError {
    /// The stable number under which the host reports the error.
    pub open spec fn spec_code(self) -> u32 {
        match self {
            ProxyError::NotInitialized => 0,
            ProxyError::AlreadyInitialized => 1,
            ProxyError::InvalidAuthority => 2,
            ProxyError::InvalidMultiplier => 3,
            ProxyError::InvalidMint => 4,
            ProxyError::InvalidStateAccount => 5,
            ProxyError::InvalidPDA => 6,
        }
    }

    /// The text that describes the error to a reader.
    pub open spec fn spec_message(self) -> Seq<char> {
        match self {
            ProxyError::NotInitialized => "Program not initialized"@,
            ProxyError::AlreadyInitialized => "Program already initialized"@,
            ProxyError::InvalidAuthority => "Invalid authority"@,
            ProxyError::InvalidMultiplier => "Invalid multiplier: must be greater than 0"@,
            ProxyError::InvalidMint => "Invalid mint account"@,
            ProxyError::InvalidStateAccount => "Invalid state account"@,
            ProxyError::InvalidPDA => "Invalid PDA derivation"@,
        }
    }

    /// Computes the stable number of the error.
    pub fn code(self) -> (c: u32)
        ensures
            c == self.spec_code(),
    {
        match self {
            ProxyError::NotInitialized => 0,
            ProxyError::AlreadyInitialized => 1,
            ProxyError::InvalidAuthority => 2,
            ProxyError::InvalidMultiplier => 3,
            ProxyError::InvalidMint => 4,
            ProxyError::InvalidStateAccount => 5,
            ProxyError::InvalidPDA => 6,
        }
    }

    /// Gives the text that describes the error.
    pub fn message(self) -> (text: &'static str)
        ensures
            text@ == self.spec_message(),
    {
        match self {
            ProxyError::NotInitialized => "Program not initialized",
            ProxyError::AlreadyInitialized => "Program already initialized",
            ProxyError::InvalidAuthority => "Invalid authority",
            ProxyError::InvalidMultiplier => "Invalid multiplier: must be greater than 0",
            ProxyError::InvalidMint => "Invalid mint account",
            ProxyError::InvalidStateAccount => "Invalid state account",
            ProxyError::InvalidPDA => "Invalid PDA derivation",
        }
    }
}

/// Distinct errors have distinct numbers.
pub proof fn lemma_codes_are_distinct(a: ProxyError, b: ProxyError)
    ensures
        a.spec_code() == b.spec_code() <==> a == b,
{
}

/// Why an invocation was aborted: a failure of the host's account model, a payload or record
/// that does not decode, or a refusal by the proxy's own rules.
#[derive(Clone, Copy, Debug, PartialEq, Eq, Structural)]
pub enum ProcessError {
    /// The invocation names fewer accounts than the operation reads.
    NotEnoughAccountKeys,
    /// The account that must authorize the operation has not signed.
    MissingRequiredSignature,
    /// The request payload or the state record is not a valid encoding.
    Deserialization,
    /// One of the proxy's own rules refused the request.
    Proxy(ProxyError),
}

/// Whether `r` is the refusal of a request for the reason `reason`.
pub open spec fn refused_for<T>(r: Result<T, ProcessError>, reason: ProxyError) -> bool {
    r == Err::<T, ProcessError>(ProcessError::Proxy(reason))
}

} // verus!
