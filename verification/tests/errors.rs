use multiplier_proxy::error::{ProcessError, ProxyError};

const ALL: [ProxyError; 7] = [
    ProxyError::NotInitialized,
    ProxyError::AlreadyInitialized,
    ProxyError::InvalidAuthority,
    ProxyError::InvalidMultiplier,
    ProxyError::InvalidMint,
    ProxyError::InvalidStateAccount,
    ProxyError::InvalidPDA,
];

#[test]
fn codes_count_up_from_zero() {
    for (i, e) in ALL.iter().enumerate() {
        assert_eq!(e.code(), i as u32);
    }
}

#[test]
fn codes_are_distinct() {
    for a in ALL {
        for b in ALL {
            assert_eq!(a.code() == b.code(), a == b);
        }
    }
}

#[test]
fn messages() {
    assert_eq!(ProxyError::NotInitialized.message(), "Program not initialized");
    assert_eq!(ProxyError::AlreadyInitialized.message(), "Program already initialized");
    assert_eq!(ProxyError::InvalidAuthority.message(), "Invalid authority");
    assert_eq!(ProxyError::InvalidMultiplier.message(), "Invalid multiplier: must be greater than 0");
    assert_eq!(ProxyError::InvalidMint.message(), "Invalid mint account");
    assert_eq!(ProxyError::InvalidStateAccount.message(), "Invalid state account");
    assert_eq!(ProxyError::InvalidPDA.message(), "Invalid PDA derivation");
}

#[test]
fn process_errors_are_distinct() {
    assert_ne!(ProcessError::NotEnoughAccountKeys, ProcessError::MissingRequiredSignature);
    assert_ne!(ProcessError::Deserialization, ProcessError::Proxy(ProxyError::NotInitialized));
    assert_ne!(
        ProcessError::Proxy(ProxyError::InvalidPDA),
        ProcessError::Proxy(ProxyError::InvalidStateAccount)
    );
}
