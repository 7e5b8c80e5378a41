use vstd::prelude::*;
use crate::address::Address;

verus! {

/// One account that a call names: its address, whether it signs the call and
/// whether the called program may write to it.
#[derive(Clone, Copy, Debug, PartialEq, Eq)]
pub struct AccountMeta {
    pub pubkey: Address,
    pub is_signer: bool,
    pub is_writable: bool,
}

/// The mathematical value of an [`AccountMeta`].
pub struct AccountMetaView {
    pub pubkey: Seq<u8>,
    pub is_signer: bool,
    pub is_writable: bool,
}

impl View for AccountMeta {
    type V = AccountMetaView;

    open spec fn view(&self) -> AccountMetaView {
        AccountMetaView {
            pubkey: self.pubkey@,
            is_signer: self.is_signer,
            is_writable: self.is_writable,
        }
    }
}

impl AccountMeta {
    /// An account reference from its parts.
    pub fn new(pubkey: [u8; 32], is_signer: bool, is_writable: bool) -> (meta: AccountMeta)
        ensures
            meta.pubkey.bytes == pubkey,
            meta.is_signer == is_signer,
            meta.is_writable == is_writable,
    {
        AccountMeta { pubkey: Address { bytes: pubkey }, is_signer, is_writable }
    }
}

/// A call to another program, as it is handed to the runtime: the program to
/// call, the accounts it works on, in order, and the bytes of its arguments.
#[derive(Clone, Debug, PartialEq, Eq)]
pub struct Instruction {
    pub program_id: Address,
    pub accounts: Vec<AccountMeta>,
    pub data: Vec<u8>,
}

/// The mathematical value of an [`Instruction`].
pub struct InstructionView {
    pub program_id: Seq<u8>,
    pub accounts: Seq<AccountMetaView>,
    pub data: Seq<u8>,
}

impl View for Instruction {
    type V = InstructionView;

    open spec fn view(&self) -> InstructionView {
        InstructionView {
            program_id: self.program_id@,
            accounts: self.accounts@.map_values(|meta: AccountMeta| meta@),
            data: self.data@,
        }
    }
}

impl Instruction {
    /// A call from its parts.
    pub fn new(program_id: [u8; 32], accounts: Vec<AccountMeta>, data: Vec<u8>) -> (call: Instruction)
        ensures
            call.program_id.bytes == program_id,
            call.accounts == accounts,
            call.data == data,
    {
        Instruction { program_id: Address { bytes: program_id }, accounts, data }
    }
}

} // verus!
