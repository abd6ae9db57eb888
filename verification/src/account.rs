//! What an operation is told about each account it is handed.
use vstd::prelude::*;
use crate::address::Address;

verus! {

/// A snapshot of one ledger account, as the host presents it to an
/// operation.
#[derive(Clone, Debug, PartialEq, Eq)]
pub struct Account {
    /// Where the account lives.
    pub key: Address,
    /// The program that controls the account's data.
    pub owner: Address,
    /// Whether the holder of `key` authenticated this call.
    pub is_signer: bool,
    /// Whether the call may change the account.
    pub is_writable: bool,
    /// The storage allowance held by the account.
    pub lamports: u64,
    /// The account's contents.
    pub data: Vec<u8>,
}

/// The mathematical content of an [`Account`].
pub struct AccountView {
    pub key: Seq<u8>,
    pub owner: Seq<u8>,
    pub is_signer: bool,
    pub is_writable: bool,
    pub lamports: u64,
    pub data: Seq<u8>,
}

impl View for Account {
    type V = AccountView;

    open spec fn view(&self) -> AccountView {
        AccountView {
            key: self.key@,
            owner: self.owner@,
            is_signer: self.is_signer,
            is_writable: self.is_writable,
            lamports: self.lamports,
            data: self.data@,
        }
    }
}

/// The views of a list of accounts, in order.
pub open spec fn account_views(accounts: Seq<Account>) -> Seq<AccountView> {
    accounts.map_values(|a: Account| a@)
}

} // verus!
