//! What an invocation shows of the accounts it names.

use vstd::prelude::*;
use crate::identity::Identity;

verus! {

/// One account of an invocation, as far as the proxy reads it.
#[derive(Clone, Copy, Debug)]
pub struct AccountInfo<'a> {
    /// The account's address.
    pub key: Identity,
    /// Whether the host has verified the account's signature on the invocation.
    pub is_signer: bool,
    /// The account's data; empty while the account does not exist.
    pub data: &'a [u8],
}

/// The mathematical value of an [`AccountInfo`].
#[verifier::ext_equal]
pub struct AccountInfoView {
    pub key: Seq<u8>,
    pub is_signer: bool,
    pub data: Seq<u8>,
}

impl<'a> View for AccountInfo<'a> {
    type V = AccountInfoView;

    open spec fn view(&self) -> AccountInfoView {
        AccountInfoView { key: self.key@, is_signer: self.is_signer, data: self.data@ }
    }
}

/// The mathematical values of the accounts of an invocation, in order.
pub open spec fn account_views(accounts: Seq<AccountInfo>) -> Seq<AccountInfoView> {
    Seq::new(accounts.len(), |i: int| accounts[i]@)
}

} // verus!
