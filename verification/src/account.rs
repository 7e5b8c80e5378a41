use vstd::prelude::*;
use solana_program::account_info::AccountInfo;
use crate::address::Address;
use crate::runtime::snapshot;

verus! {

/// What the program reads of one account handed to it: its address, the
/// program that owns it, and whether it signed the transaction.
#[derive(Clone, Copy, Debug, PartialEq, Eq)]
pub struct AccountSnapshot {
    pub key: Address,
    pub owner: Address,
    pub is_signer: bool,
}

/// Reads every account of the list once, in order, and keeps a reference to
/// each handle beside what was read of it.
pub fn read_accounts<'a, 'b>(accounts: &'b [AccountInfo<'a>]) -> (read: (Vec<AccountSnapshot>, Vec<&'b AccountInfo<'a>>))
    ensures
        read.0@.len() == accounts@.len(),
        read.1@.len() == accounts@.len(),
        forall|i: int| 0 <= i < accounts@.len() ==> *read.1@[i] == accounts@[i],
{
    let mut snapshots: Vec<AccountSnapshot> = Vec::new();
    let mut handles: Vec<&'b AccountInfo<'a>> = Vec::new();
    let mut i: usize = 0;
    while i < accounts.len()
        invariant
            i <= accounts@.len(),
            snapshots@.len() == i,
            handles@.len() == i,
            forall|j: int| 0 <= j < i ==> *handles@[j] == accounts@[j],
        decreases accounts@.len() - i,
    {
        let info = &accounts[i];
        snapshots.push(snapshot(info));
        handles.push(info);
        i = i + 1;
    }
    (snapshots, handles)
}

} // verus!
