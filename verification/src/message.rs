//! The unsigned message that stands for a transaction signed elsewhere, and its text form.
use vstd::prelude::*;
use solana_sdk::bs58;
use solana_sdk::instruction::{AccountMeta as SdkAccountMeta, Instruction as SdkInstruction};
use solana_sdk::message::Message;
use solana_sdk::pubkey::Pubkey;
use crate::instruction::{Instruction, InstructionView};
use crate::key::Key;

verus! {

/// The bytes of the legacy message that `Message::new` of solana-program compiles from
/// these instructions and this fee payer, as `Message::serialize` writes them.
pub uninterp spec fn serialized_message(instructions: Seq<InstructionView>, payer: Key) -> Seq<u8>;

/// The text that `bs58::encode` gives for these bytes with its default alphabet.
pub uninterp spec fn base58_text(bytes: Seq<u8>) -> Seq<char>;

/// Whether a character belongs to the base-58 alphabet: the digits and letters without
/// `0`, `O`, `I` and `l`.
pub open spec fn is_base58_char(c: char) -> bool {
    ||| '1' <= c <= '9'
    ||| 'A' <= c <= 'H'
    ||| 'J' <= c <= 'N'
    ||| 'P' <= c <= 'Z'
    ||| 'a' <= c <= 'k'
    ||| 'm' <= c <= 'z'
}

/// Whether a text is made of base-58 characters only. Such a text holds no line break.
pub open spec fn is_base58(text: Seq<char>) -> bool {
    forall|i: int| 0 <= i < text.len() ==> is_base58_char(#[trigger] text[i])
}

/// The instruction lists that this crate compiles into a message: few enough
/// instructions, accounts and payload bytes that every count of the message fits the
/// width it is written in.
pub open spec fn message_fits(instructions: Seq<InstructionView>) -> bool {
    &&& instructions.len() <= 8
    &&& forall|i: int|
        0 <= i < instructions.len() ==> (#[trigger] instructions[i]).accounts.len() <= 16
            && instructions[i].data.len() <= 1024
}

/// Calls `Message::new` of solana-program on a copy of the instructions, with the fee
/// payer given, and `Message::serialize` on what it returns. Both depend on their
/// arguments alone; the contract gives the bytes their name. `Message::new` panics where
/// the accounts of a message cannot be counted in a byte, and `serialize` where a list is
/// longer than 65535: the `requires` keeps every list far below that.
#[verifier::external_body]
fn message_bytes(instructions: &Vec<Instruction>, payer: &Key) -> (bytes: Vec<u8>)
    requires
        message_fits(instructions.deep_view()),
    ensures
        bytes@ == serialized_message(instructions.deep_view(), *payer),
{
    let copies: Vec<SdkInstruction> = instructions.iter().map(|ix| SdkInstruction {
        program_id: Pubkey::new_from_array(ix.program_id.bytes),
        accounts: ix.accounts.iter().map(|a| SdkAccountMeta {
            pubkey: Pubkey::new_from_array(a.pubkey.bytes),
            is_signer: a.is_signer,
            is_writable: a.is_writable,
        }).collect(),
        data: ix.data.clone(),
    }).collect();
    Message::new(&copies, Some(&Pubkey::new_from_array(payer.bytes))).serialize()
}

/// Calls `bs58::encode` with the default alphabet and collects the text. The contract
/// gives the text its name and states that it is written in the base-58 alphabet.
#[verifier::external_body]
fn base58(bytes: &Vec<u8>) -> (text: String)
    ensures
        text@ == base58_text(bytes@),
        is_base58(text@),
{
    bs58::encode(bytes).into_string()
}

/// The text of an address: its 32 bytes in base 58.
pub fn key_text(key: &Key) -> (text: String)
    ensures
        text@ == base58_text(key@),
        is_base58(text@),
{
    let bytes = key.to_vec();
    base58(&bytes)
}

/// The text of the unsigned message for these instructions, with `payer` as the account
/// that is to sign and pay: the serialized message in base 58, on one line.
pub fn offline_message(instructions: &Vec<Instruction>, payer: &Key) -> (text: String)
    requires
        message_fits(instructions.deep_view()),
    ensures
        text@ == base58_text(serialized_message(instructions.deep_view(), *payer)),
        is_base58(text@),
{
    let bytes = message_bytes(instructions, payer);
    base58(&bytes)
}

} // verus!
