use crate::pubkey::Pubkey;
use vstd::prelude::*;

verus! {

/// One account that an instruction names, and what the instruction may do
/// with it.
#[derive(Clone, Copy, Debug, PartialEq, Eq)]
pub struct AccountMeta {
    pub pubkey: Pubkey,
    /// The account must have signed.
    pub is_signer: bool,
    /// The account may be changed.
    pub is_writable: bool,
}

/// An instruction for another program, ready to be handed to the runtime.
#[derive(Clone, Debug, PartialEq, Eq)]
pub struct Instruction {
    /// The program that is to run the instruction.
    pub program_id: Pubkey,
    pub accounts: Vec<AccountMeta>,
    /// What the program is to do, in its own encoding.
    pub data: Vec<u8>,
}

pub struct InstructionView {
    pub program_id: Pubkey,
    pub accounts: Seq<AccountMeta>,
    pub data: Seq<u8>,
}

impl View for Instruction {
    type V = InstructionView;

    open spec fn view(&self) -> InstructionView {
        InstructionView {
            program_id: self.program_id,
            accounts: self.accounts@,
            data: self.data@,
        }
    }
}

/// The instruction by which the system program moves `lamports` from the
/// account at `from` to the account at `to`, as
/// `solana_program::system_instruction::transfer` builds it.
pub uninterp spec fn system_transfer(from: Seq<u8>, to: Seq<u8>, lamports: u64) -> InstructionView;

/// The accounts of a transfer: the sender, who signs and is debited, and then
/// the receiver, who is credited.
pub open spec fn transfer_accounts(from: Pubkey, to: Pubkey) -> Seq<AccountMeta> {
    seq![
        AccountMeta { pubkey: from, is_signer: true, is_writable: true },
        AccountMeta { pubkey: to, is_signer: false, is_writable: true },
    ]
}

/// Whether `ix` is the system program's transfer of `lamports` from `from` to
/// `to`: it is addressed to the system program, whose address is the one of 32
/// zero bytes, it names the sender and the receiver, and its data is what the
/// system program reads as a transfer of that amount.
pub open spec fn is_system_transfer(
    ix: InstructionView,
    from: Pubkey,
    to: Pubkey,
    lamports: u64,
) -> bool {
    &&& ix == system_transfer(from.bytes@, to.bytes@, lamports)
    &&& ix.program_id.is_default()
    &&& ix.accounts == transfer_accounts(from, to)
}

/// Calls `solana_program::system_instruction::transfer`, which is reached
/// through `anchor_lang`, and copies what it returns field by field.
///
/// Taken on trust: the instruction depends on the two addresses and the amount
/// alone; it is addressed to the system program, whose address is the one of
/// 32 zero bytes; and it names two accounts, first `from` as a writable signer
/// and then `to` as writable.
#[verifier::external_body]
pub(crate) fn build_system_transfer(from: &Pubkey, to: &Pubkey, lamports: u64) -> (ix: Instruction)
    ensures
        ix@ == system_transfer(from.bytes@, to.bytes@, lamports),
        ix.program_id.is_default(),
        ix@.accounts == transfer_accounts(*from, *to),
{
    let built = anchor_lang::solana_program::system_instruction::transfer(
        &anchor_lang::prelude::Pubkey::new_from_array(from.bytes),
        &anchor_lang::prelude::Pubkey::new_from_array(to.bytes),
        lamports,
    );
    Instruction {
        program_id: Pubkey { bytes: built.program_id.to_bytes() },
        accounts: built.accounts.iter().map(|meta| AccountMeta {
            pubkey: Pubkey { bytes: meta.pubkey.to_bytes() },
            is_signer: meta.is_signer,
            is_writable: meta.is_writable,
        }).collect(),
        data: built.data,
    }
}

} // verus!
