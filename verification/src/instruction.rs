use crate::address::Address;
use vstd::bytes::spec_u64_to_le_bytes;
use vstd::prelude::*;

verus! {

/// One account that an instruction touches.
#[derive(Clone, Copy, Debug, PartialEq, Eq)]
pub struct AccountMeta {
    pub pubkey: Address,
    /// Whether the account must have signed the transaction.
    pub is_signer: bool,
    /// Whether the instruction may change the account.
    pub is_writable: bool,
}

/// An `AccountMeta` with its address as a sequence of bytes.
pub struct AccountMetaView {
    pub pubkey: Seq<u8>,
    pub is_signer: bool,
    pub is_writable: bool,
}

impl View for AccountMeta {
    type V = AccountMetaView;

    open spec fn view(&self) -> AccountMetaView {
        AccountMetaView {
            pubkey: self.pubkey@,
            is_signer: self.is_signer,
            is_writable: self.is_writable,
        }
    }
}

/// A request to another program of the host ledger, as plain values:
/// which program, on which accounts, with which data.
#[derive(Debug, PartialEq, Eq)]
pub struct Instruction {
    pub program_id: Address,
    pub accounts: Vec<AccountMeta>,
    pub data: Vec<u8>,
}

/// An `Instruction` as sequences.
pub struct InstructionView {
    pub program_id: Seq<u8>,
    pub accounts: Seq<AccountMetaView>,
    pub data: Seq<u8>,
}

impl View for Instruction {
    type V = InstructionView;

    open spec fn view(&self) -> InstructionView {
        InstructionView {
            program_id: self.program_id@,
            accounts: self.accounts@.map_values(|m: AccountMeta| m@),
            data: self.data@,
        }
    }
}

/// The system program's request to move `lamports` of native currency out of
/// `from`, which must sign, into `to`. The program's address is all zero. The
/// data is the request's place among the system program's requests, 2, in
/// four bytes, and then the amount in eight, both little-endian.
pub open spec fn system_transfer(from: Seq<u8>, to: Seq<u8>, lamports: u64) -> InstructionView {
    InstructionView {
        program_id: Seq::new(32, |i: int| 0u8),
        accounts: seq![
            AccountMetaView { pubkey: from, is_signer: true, is_writable: true },
            AccountMetaView { pubkey: to, is_signer: false, is_writable: true },
        ],
        data: seq![2u8, 0u8, 0u8, 0u8] + spec_u64_to_le_bytes(lamports),
    }
}

/// Builds the native transfer with `solana_program::system_instruction::transfer`
/// (reached through `anchor_lang`) and hands it back as plain values. Not
/// proved, but taken from that crate's source: that the instruction it builds
/// is `system_transfer(from, to, lamports)`. That is: it is addressed to the
/// system program; it names `from` and then `to`, both writable and only
/// `from` a signer; and its data is `SystemInstruction::Transfer`, the third
/// variant of its enum, as `bincode` writes it with fixed-width integers.
#[verifier::external_body]
pub(crate) fn build_system_transfer(from: &Address, to: &Address, lamports: u64) -> (ix:
    Instruction)
    ensures
        ix@ == system_transfer(from@, to@, lamports),
{
    let built = anchor_lang::solana_program::system_instruction::transfer(
        &anchor_lang::prelude::Pubkey::new_from_array(from.bytes),
        &anchor_lang::prelude::Pubkey::new_from_array(to.bytes),
        lamports,
    );
    Instruction {
        program_id: Address { bytes: built.program_id.to_bytes() },
        accounts: built.accounts.iter().map(|m| AccountMeta {
            pubkey: Address { bytes: m.pubkey.to_bytes() },
            is_signer: m.is_signer,
            is_writable: m.is_writable,
        }).collect(),
        data: built.data,
    }
}

/// A request to move `amount` units of the token `mint` out of the token
/// custody that `authority` owns into the token account of `recipient`. The
/// authority is the presale record itself, not a key that anyone holds.
#[derive(Clone, Copy, Debug, PartialEq, Eq)]
pub struct TokenTransfer {
    pub mint: Address,
    pub authority: Address,
    pub recipient: Address,
    pub amount: u64,
}

} // verus!
