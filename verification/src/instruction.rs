//! Instructions as plain data, and the instruction list of each administrative operation.
use vstd::prelude::*;
use vstd::bytes::{spec_u64_to_le_bytes, u64_to_le_bytes};
use solana_sdk::compute_budget::ComputeBudgetInstruction;
use crate::key::{Key, COMPUTE_BUDGET_PROGRAM};
use crate::operation::{AdministrativeOperation, DeliveryMode, DistributorAccount};

verus! {

/// One account that an instruction refers to, with the access it asks for.
#[derive(Clone, Copy, Debug, PartialEq, Eq)]
pub struct AccountMeta {
    pub pubkey: Key,
    pub is_signer: bool,
    pub is_writable: bool,
}

/// An instruction for one program: the accounts it touches, in order, and its payload.
#[derive(Clone, Debug, PartialEq, Eq)]
pub struct Instruction {
    pub program_id: Key,
    pub accounts: Vec<AccountMeta>,
    pub data: Vec<u8>,
}

/// The mathematical content of an [`Instruction`].
pub ghost struct InstructionView {
    pub program_id: Key,
    pub accounts: Seq<AccountMeta>,
    pub data: Seq<u8>,
}

impl View for Instruction {
    type V = InstructionView;

    open spec fn view(&self) -> InstructionView {
        InstructionView { program_id: self.program_id, accounts: self.accounts@, data: self.data@ }
    }
}

impl DeepView for Instruction {
    type V = InstructionView;

    open spec fn deep_view(&self) -> InstructionView {
        self@
    }
}

/// First bytes of the payload of a set-admin instruction: the first eight bytes of the
/// SHA-256 hash of `global:set_admin`, by which the program tells its instructions apart.
pub const SET_ADMIN_TAG: [u8; 8] = [251, 163, 0, 52, 91, 194, 187, 92];

/// First bytes of the payload of a set-clawback-receiver instruction, from
/// `global:set_clawback_receiver`.
pub const SET_CLAWBACK_RECEIVER_TAG: [u8; 8] = [153, 217, 34, 20, 19, 29, 229, 75];

/// First bytes of the payload of a set-clawback-start-timestamp instruction, from
/// `global:set_clawback_start_ts`.
pub const SET_CLAWBACK_START_TS_TAG: [u8; 8] = [83, 102, 71, 44, 243, 244, 186, 8];

/// A reference to an account that the instruction may change.
pub open spec fn writable(pubkey: Key, is_signer: bool) -> AccountMeta {
    AccountMeta { pubkey, is_signer, is_writable: true }
}

/// A reference to an account that the instruction only reads.
pub open spec fn readonly(pubkey: Key, is_signer: bool) -> AccountMeta {
    AccountMeta { pubkey, is_signer, is_writable: false }
}

/// The key that stands in the admin position of the administrative instruction: the
/// distributor's current admin, except that a broadcast change of the clawback receiver
/// names the signer of the transaction.
pub open spec fn admin_reference(
    operation: AdministrativeOperation,
    mode: DeliveryMode,
    account: DistributorAccount,
) -> Key {
    match (operation, mode) {
        (
            AdministrativeOperation::SetClawbackReceiver { .. },
            DeliveryMode::Broadcast { signer },
        ) => signer,
        _ => account.admin,
    }
}

/// The accounts of the administrative instruction, in the order the program reads them.
pub open spec fn administrative_accounts(
    operation: AdministrativeOperation,
    distributor: Key,
    admin: Key,
) -> Seq<AccountMeta> {
    match operation {
        AdministrativeOperation::SetAdmin { new_admin } => seq![
            writable(distributor, false),
            writable(admin, true),
            writable(new_admin, false),
        ],
        AdministrativeOperation::SetClawbackReceiver { new_receiver } => seq![
            writable(distributor, false),
            writable(admin, true),
            readonly(new_receiver, false),
        ],
        AdministrativeOperation::SetClawbackStartTs { .. } => seq![
            writable(distributor, false),
            writable(admin, true),
        ],
    }
}

/// The payload of the administrative instruction: the tag of the operation, then its
/// arguments. Only the timestamp change has an argument, eight bytes, least significant first.
pub open spec fn administrative_data(operation: AdministrativeOperation) -> Seq<u8> {
    match operation {
        AdministrativeOperation::SetAdmin { .. } => SET_ADMIN_TAG@,
        AdministrativeOperation::SetClawbackReceiver { .. } => SET_CLAWBACK_RECEIVER_TAG@,
        AdministrativeOperation::SetClawbackStartTs { new_ts } => SET_CLAWBACK_START_TS_TAG@
            + spec_u64_to_le_bytes(new_ts as u64),
    }
}

/// The one administrative instruction of an operation.
pub open spec fn administrative_instruction(
    operation: AdministrativeOperation,
    program_id: Key,
    distributor: Key,
    admin: Key,
) -> InstructionView {
    InstructionView {
        program_id,
        accounts: administrative_accounts(operation, distributor, admin),
        data: administrative_data(operation),
    }
}

/// The instruction that sets the price of a compute unit, in micro-lamports.
pub open spec fn compute_unit_price(micro_lamports: u64) -> InstructionView {
    InstructionView {
        program_id: Key { bytes: COMPUTE_BUDGET_PROGRAM },
        accounts: Seq::empty(),
        data: seq![3u8] + spec_u64_to_le_bytes(micro_lamports),
    }
}

/// Whether a priority fee is paid: only a broadcast run with a configured fee pays one.
pub open spec fn pays_priority_fee(mode: DeliveryMode, priority_fee: Option<u64>) -> bool {
    mode is Broadcast && priority_fee is Some
}

/// The instructions for one distributor, in order: the compute-unit price where a
/// priority fee is paid, then the administrative instruction.
pub open spec fn instruction_list(
    operation: AdministrativeOperation,
    mode: DeliveryMode,
    priority_fee: Option<u64>,
    program_id: Key,
    distributor: Key,
    account: DistributorAccount,
) -> Seq<InstructionView> {
    let administrative = administrative_instruction(
        operation,
        program_id,
        distributor,
        admin_reference(operation, mode, account),
    );
    if pays_priority_fee(mode, priority_fee) {
        seq![compute_unit_price(priority_fee->0), administrative]
    } else {
        seq![administrative]
    }
}

/// Calls `ComputeBudgetInstruction::set_compute_unit_price` of solana-sdk and copies the
/// instruction it returns. The contract states what that function builds: an instruction
/// for the compute-budget program with no accounts, whose payload is the variant's index,
/// 3, followed by the price as eight bytes, least significant first.
#[verifier::external_body]
fn compute_unit_price_instruction(micro_lamports: u64) -> (ix: Instruction)
    ensures
        ix@ == compute_unit_price(micro_lamports),
{
    let made = ComputeBudgetInstruction::set_compute_unit_price(micro_lamports);
    Instruction {
        program_id: Key { bytes: made.program_id.to_bytes() },
        accounts: made.accounts.iter().map(|a| AccountMeta {
            pubkey: Key { bytes: a.pubkey.to_bytes() },
            is_signer: a.is_signer,
            is_writable: a.is_writable,
        }).collect(),
        data: made.data,
    }
}

/// Builds the administrative instruction of an operation.
pub fn build_administrative_instruction(
    operation: &AdministrativeOperation,
    program_id: Key,
    distributor: Key,
    admin: Key,
) -> (ix: Instruction)
    ensures
        ix@ == administrative_instruction(*operation, program_id, distributor, admin),
{
    let mut accounts: Vec<AccountMeta> = Vec::new();
    accounts.push(AccountMeta { pubkey: distributor, is_signer: false, is_writable: true });
    accounts.push(AccountMeta { pubkey: admin, is_signer: true, is_writable: true });
    let mut data: Vec<u8> = Vec::new();
    match operation {
        AdministrativeOperation::SetAdmin { new_admin } => {
            accounts.push(AccountMeta { pubkey: *new_admin, is_signer: false, is_writable: true });
            append_tag(&mut data, &SET_ADMIN_TAG);
        },
        AdministrativeOperation::SetClawbackReceiver { new_receiver } => {
            accounts.push(
                AccountMeta { pubkey: *new_receiver, is_signer: false, is_writable: false },
            );
            append_tag(&mut data, &SET_CLAWBACK_RECEIVER_TAG);
        },
        AdministrativeOperation::SetClawbackStartTs { new_ts } => {
            append_tag(&mut data, &SET_CLAWBACK_START_TS_TAG);
            let mut argument = u64_to_le_bytes(*new_ts as u64);
            data.append(&mut argument);
        },
    }
    let ix = Instruction { program_id, accounts, data };
    assert(ix@.accounts =~= administrative_accounts(*operation, distributor, admin));
    assert(ix@.data =~= administrative_data(*operation));
    ix
}

/// Appends the eight bytes of a tag to a payload.
fn append_tag(data: &mut Vec<u8>, tag: &[u8; 8])
    ensures
        final(data)@ == old(data)@ + tag@,
{
    let mut i: usize = 0;
    while i < 8
        invariant
            i <= 8,
            data@ == old(data)@ + tag@.subrange(0, i as int),
        decreases 8 - i,
    {
        data.push(tag[i]);
        assert(data@ =~= old(data)@ + tag@.subrange(0, i + 1));
        i += 1;
    }
    assert(tag@.subrange(0, 8) =~= tag@);
}

/// Builds the instruction list for one distributor: the compute-unit price first where a
/// priority fee is paid, and in every case exactly one administrative instruction, last.
pub fn build_instructions(
    operation: &AdministrativeOperation,
    mode: &DeliveryMode,
    priority_fee: Option<u64>,
    program_id: Key,
    distributor: Key,
    account: &DistributorAccount,
) -> (instructions: Vec<Instruction>)
    ensures
        instructions.deep_view() == instruction_list(
            *operation,
            *mode,
            priority_fee,
            program_id,
            distributor,
            *account,
        ),
{
    let mut instructions: Vec<Instruction> = Vec::new();
    let mut admin = account.admin;
    match mode {
        DeliveryMode::Broadcast { signer } => {
            if let Some(micro_lamports) = priority_fee {
                instructions.push(compute_unit_price_instruction(micro_lamports));
            }
            if let AdministrativeOperation::SetClawbackReceiver { .. } = operation {
                admin = *signer;
            }
        },
        DeliveryMode::OfflineMessage => {},
    }
    instructions.push(build_administrative_instruction(operation, program_id, distributor, admin));
    assert(instructions.deep_view() =~= instruction_list(
        *operation,
        *mode,
        priority_fee,
        program_id,
        distributor,
        *account,
    ));
    instructions
}

} // verus!
