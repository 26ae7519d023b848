//! A reconciliation run: one administrative operation carried to every distributor of a
//! directory of tree files or of a range of versions, one distributor after the other.
//!
//! The run decides and the caller acts. The run names the one thing it waits for, a
//! [`Command`]; the caller does it and reports what came of it as an [`Event`]; the run
//! answers with the next command and, where there is something to tell the operator, a
//! [`Notice`].
use vstd::prelude::*;
use vstd::bytes::lemma_auto_spec_u64_to_from_le_bytes;
use crate::address::{clawback_token_account, derive_distributor_address, distributor_address,
    token_account_address};
use crate::error::RunError;
use crate::instruction::{build_instructions, instruction_list, Instruction, InstructionView};
use crate::key::{byte_strings, Key};
use crate::message::{base58_text, is_base58, message_fits, offline_message,
    serialized_message};
use crate::operation::{AdministrativeOperation, DeliveryMode, DispatchPolicy, DistributorAccount};
use crate::version_source::{SourceView, VersionSource};

verus! {

/// What every run is configured with.
#[derive(Clone, Copy, Debug, PartialEq, Eq)]
pub struct Args {
    /// The distributor program.
    pub program_id: Key,
    /// The base key that the distributor addresses are derived from.
    pub base: Key,
    /// The mint of the distributed token.
    pub mint: Key,
    /// Micro-lamports per compute unit, where broadcast transactions are to be prioritized.
    pub priority_fee: Option<u64>,
    /// How the instructions are delivered.
    pub mode: DeliveryMode,
}

/// The arguments of an admin change.
#[derive(Clone, Debug, PartialEq, Eq)]
pub struct SetAdminArgs {
    /// The paths of the tree files, in whatever order the directory listed them.
    pub tree_paths: Vec<Vec<u8>>,
    pub new_admin: Key,
}

/// The arguments of a change of the clawback receiver.
#[derive(Clone, Debug, PartialEq, Eq)]
pub struct ClawbackReceiverArgs {
    /// The paths of the tree files, in whatever order the directory listed them.
    pub tree_paths: Vec<Vec<u8>>,
    /// The wallet whose token account is to receive clawed-back tokens.
    pub receiver: Key,
}

/// The arguments of a change of the clawback start time.
#[derive(Clone, Copy, Debug, PartialEq, Eq)]
pub struct SetClawbackStartTsArgs {
    pub from_version: u64,
    pub to_version: u64,
    pub clawback_start_ts: i64,
}

/// The distributor that the run is working on.
#[derive(Clone, Copy, Debug, PartialEq, Eq)]
pub struct Target {
    /// The position of its tree file in the visiting order; 0 in a run over a range.
    pub position: usize,
    pub version: u64,
    pub address: Key,
}

/// What the run is waiting for.
#[derive(Clone, Copy, Debug, PartialEq, Eq)]
pub enum Phase {
    /// The version held by the tree file at this position of the visiting order.
    Loading { position: usize },
    /// The on-chain record of the target.
    Reading { target: Target },
    /// The outcome of the transaction submitted for the target, whose record was `account`.
    Dispatching { target: Target, account: DistributorAccount },
    /// Nothing: every distributor has been dealt with.
    Finished,
    /// Nothing: the run has failed.
    Aborted { error: RunError },
}

/// What the caller reports back.
#[derive(Clone, Copy, Debug, PartialEq, Eq)]
pub enum Event {
    /// The tree file was read and holds this version.
    TreeLoaded { version: u64 },
    /// The tree file could not be read as a tree.
    TreeUnreadable,
    /// The record of the distributor was fetched.
    AccountRead { account: DistributorAccount },
    /// There is no account at the distributor's address.
    AccountMissing,
    /// The record could not be fetched or decoded.
    ReadFailed,
    /// The transaction was submitted and a signature obtained.
    Submitted,
    /// The recent blockhash could not be fetched, or the submission failed.
    SubmitFailed,
}

/// What the caller is to do next.
#[derive(Clone, Debug, PartialEq, Eq)]
pub enum Command {
    /// Read the tree file at `path` and report its version.
    LoadTree { path: Vec<u8> },
    /// Fetch the record of the distributor at `address`.
    FetchAccount { version: u64, address: Key },
    /// Sign a transaction of these instructions with the key of `fee_payer` and submit it.
    Submit { version: u64, instructions: Vec<Instruction>, fee_payer: Key, policy: DispatchPolicy },
    /// Stop: the run is complete.
    Finished,
    /// Stop: the run has failed.
    Abort { error: RunError },
}

/// What the operator is told about one distributor.
#[derive(Clone, Debug, PartialEq, Eq)]
pub enum Notice {
    /// The record already held the value; nothing was built or sent.
    Skipped { version: u64 },
    /// No distributor of this version exists on chain; the run goes on with the next.
    NotInitialized { version: u64 },
    /// The transaction went out.
    Submitted { version: u64 },
    /// The transaction did not go out; the record is read again.
    SubmitFailed { version: u64 },
    /// The unsigned message to sign elsewhere, as one line of text.
    Message { version: u64, text: String },
}

/// The answer of the run to one event.
#[derive(Clone, Debug, PartialEq, Eq)]
pub struct Step {
    pub notice: Option<Notice>,
    pub command: Command,
}

/// The state of a run.
pub struct Run {
    args: Args,
    operation: AdministrativeOperation,
    source: VersionSource,
    phase: Phase,
}

/// The mathematical content of a [`Command`].
pub ghost enum CommandView {
    LoadTree { path: Seq<u8> },
    FetchAccount { version: u64, address: Key },
    Submit {
        version: u64,
        instructions: Seq<InstructionView>,
        fee_payer: Key,
        policy: DispatchPolicy,
    },
    Finished,
    Abort { error: RunError },
}

/// The mathematical content of a [`Notice`].
pub ghost enum NoticeView {
    Skipped { version: u64 },
    NotInitialized { version: u64 },
    Submitted { version: u64 },
    SubmitFailed { version: u64 },
    Message { version: u64, text: Seq<char> },
}

/// The mathematical content of a [`Run`].
pub ghost struct RunView {
    pub args: Args,
    pub operation: AdministrativeOperation,
    pub source: SourceView,
    pub phase: Phase,
}

impl View for Command {
    type V = CommandView;

    open spec fn view(&self) -> CommandView {
        match *self {
            Command::LoadTree { path } => CommandView::LoadTree { path: path@ },
            Command::FetchAccount { version, address } => CommandView::FetchAccount {
                version,
                address,
            },
            Command::Submit { version, instructions, fee_payer, policy } => CommandView::Submit {
                version,
                instructions: instructions.deep_view(),
                fee_payer,
                policy,
            },
            Command::Finished => CommandView::Finished,
            Command::Abort { error } => CommandView::Abort { error },
        }
    }
}

impl View for Notice {
    type V = NoticeView;

    open spec fn view(&self) -> NoticeView {
        match *self {
            Notice::Skipped { version } => NoticeView::Skipped { version },
            Notice::NotInitialized { version } => NoticeView::NotInitialized { version },
            Notice::Submitted { version } => NoticeView::Submitted { version },
            Notice::SubmitFailed { version } => NoticeView::SubmitFailed { version },
            Notice::Message { version, text } => NoticeView::Message { version, text: text@ },
        }
    }
}

impl Step {
    /// The notice of a step, by its content.
    pub open spec fn notice_view(self) -> Option<NoticeView> {
        match self.notice {
            Some(notice) => Some(notice@),
            None => None,
        }
    }
}

impl View for Run {
    type V = RunView;

    closed spec fn view(&self) -> RunView {
        RunView {
            args: self.args,
            operation: self.operation,
            source: self.source@,
            phase: self.phase,
        }
    }
}

impl RunView {
    /// Whether a target lies within the source of the run.
    pub open spec fn holds(self, target: Target) -> bool {
        match self.source {
            SourceView::Directory { paths } => target.position < paths.len(),
            SourceView::Range { first, last } => first <= target.version <= last,
        }
    }

    /// The states that a run can be in: its tree files can be counted, what it waits for
    /// lies within its source, and it waits for a submission only in broadcast mode and
    /// only for a record that does not hold the value yet.
    pub open spec fn wf(self) -> bool {
        &&& self.source.wf()
        &&& match self.phase {
            Phase::Loading { position } => self.source matches SourceView::Directory { paths }
                && position < paths.len(),
            Phase::Reading { target } => self.holds(target),
            Phase::Dispatching { target, account } => {
                &&& self.holds(target)
                &&& self.args.mode is Broadcast
                &&& !self.operation.satisfied(account)
            },
            Phase::Finished => true,
            Phase::Aborted { .. } => true,
        }
    }

    /// The run as it starts: at work on the first tree file or the first version, or
    /// finished where the directory holds no file.
    pub open spec fn started(
        args: Args,
        operation: AdministrativeOperation,
        source: SourceView,
    ) -> RunView {
        let fresh = RunView { args, operation, source, phase: Phase::Finished };
        RunView {
            phase: match source {
                SourceView::Directory { paths } => if paths.len() > 0 {
                    Phase::Loading { position: 0 }
                } else {
                    Phase::Finished
                },
                SourceView::Range { first, .. } => fresh.entered(0, first),
            },
            ..fresh
        }
    }

    /// The place in the source of what the run works on: the position of a tree file in
    /// the visiting order, or the version within a range. A run that has ended has none.
    pub open spec fn place(self) -> Option<nat> {
        match self.phase {
            Phase::Loading { position } => Some(position as nat),
            Phase::Reading { target } | Phase::Dispatching { target, .. } => match self.source {
                SourceView::Directory { .. } => Some(target.position as nat),
                SourceView::Range { .. } => Some(target.version as nat),
            },
            Phase::Finished | Phase::Aborted { .. } => None,
        }
    }

    /// The phase in which work on a version begins: reading its record at the address
    /// derived for it, or failure where no address can be derived.
    pub open spec fn entered(self, position: usize, version: u64) -> Phase {
        match distributor_address(self.args.program_id, self.args.base, self.args.mint, version) {
            Some((address, _)) => Phase::Reading { target: Target { position, version, address } },
            None => Phase::Aborted { error: RunError::AddressDerivation { version } },
        }
    }

    /// The phase that follows once a target is dealt with: the next tree file or the next
    /// version, in ascending order, or the end of the run after the last.
    pub open spec fn advanced(self, target: Target) -> Phase {
        match self.source {
            SourceView::Directory { paths } => if target.position + 1 < paths.len() {
                Phase::Loading { position: (target.position + 1) as usize }
            } else {
                Phase::Finished
            },
            SourceView::Range { last, .. } => if target.version < last {
                self.entered(0, (target.version + 1) as u64)
            } else {
                Phase::Finished
            },
        }
    }

    /// The instructions that change the record `account` of a target.
    pub open spec fn instructions(self, target: Target, account: DistributorAccount) -> Seq<
        InstructionView,
    > {
        instruction_list(
            self.operation,
            self.args.mode,
            self.args.priority_fee,
            self.args.program_id,
            target.address,
            account,
        )
    }

    /// The account that signs and pays: the signer of a broadcast run, and for an offline
    /// message the distributor's current admin.
    pub open spec fn fee_payer(self, account: DistributorAccount) -> Key {
        match self.args.mode {
            DeliveryMode::Broadcast { signer } => signer,
            DeliveryMode::OfflineMessage => account.admin,
        }
    }

    /// The text of the unsigned message for a target: its instructions compiled into a
    /// message with the fee payer first, serialized, in base 58.
    pub open spec fn message_text(self, target: Target, account: DistributorAccount) -> Seq<char> {
        base58_text(
            serialized_message(self.instructions(target, account), self.fee_payer(account)),
        )
    }

    /// The phase after an event. An event that the phase does not wait for changes nothing.
    pub open spec fn next_phase(self, event: Event) -> Phase {
        match (self.phase, event) {
            (Phase::Loading { position }, Event::TreeLoaded { version }) => self.entered(
                position,
                version,
            ),
            (Phase::Loading { position }, Event::TreeUnreadable) => Phase::Aborted {
                error: RunError::FileRead { position },
            },
            (Phase::Reading { target }, Event::AccountRead { account }) => if
                self.operation.satisfied(account) || self.args.mode is OfflineMessage {
                self.advanced(target)
            } else {
                Phase::Dispatching { target, account }
            },
            (Phase::Reading { target }, Event::AccountMissing) => self.advanced(target),
            (Phase::Reading { target }, Event::ReadFailed) => Phase::Aborted {
                error: RunError::Rpc { version: target.version },
            },
            (Phase::Dispatching { target, .. }, Event::Submitted) => self.advanced(target),
            (Phase::Dispatching { target, .. }, Event::SubmitFailed) => Phase::Reading { target },
            _ => self.phase,
        }
    }

    /// The run after an event.
    pub open spec fn next(self, event: Event) -> RunView {
        RunView { phase: self.next_phase(event), ..self }
    }

    /// What the operator is told on an event.
    pub open spec fn notice(self, event: Event) -> Option<NoticeView> {
        match (self.phase, event) {
            (Phase::Reading { target }, Event::AccountRead { account }) => if
                self.operation.satisfied(account) {
                Some(NoticeView::Skipped { version: target.version })
            } else if self.args.mode is OfflineMessage {
                Some(
                    NoticeView::Message {
                        version: target.version,
                        text: self.message_text(target, account),
                    },
                )
            } else {
                None
            },
            (Phase::Reading { target }, Event::AccountMissing) => Some(
                NoticeView::NotInitialized { version: target.version },
            ),
            (Phase::Dispatching { target, .. }, Event::Submitted) => Some(
                NoticeView::Submitted { version: target.version },
            ),
            (Phase::Dispatching { target, .. }, Event::SubmitFailed) => Some(
                NoticeView::SubmitFailed { version: target.version },
            ),
            _ => None,
        }
    }

    /// The command that the run is waiting on.
    pub open spec fn pending(self) -> CommandView {
        match self.phase {
            Phase::Loading { position } => CommandView::LoadTree {
                path: self.source->paths[position as int],
            },
            Phase::Reading { target } => CommandView::FetchAccount {
                version: target.version,
                address: target.address,
            },
            Phase::Dispatching { target, account } => CommandView::Submit {
                version: target.version,
                instructions: self.instructions(target, account),
                fee_payer: self.fee_payer(account),
                policy: self.operation.policy(),
            },
            Phase::Finished => CommandView::Finished,
            Phase::Aborted { error } => CommandView::Abort { error },
        }
    }
}

/// Every instruction list of a run is small enough to be compiled into a message.
pub proof fn lemma_instructions_fit(run: RunView, target: Target, account: DistributorAccount)
    ensures
        message_fits(run.instructions(target, account)),
        1 <= run.instructions(target, account).len() <= 2,
{
    lemma_auto_spec_u64_to_from_le_bytes();
}

impl Run {
    #[verifier::type_invariant]
    spec fn valid(self) -> bool {
        self@.wf()
    }

    /// Starts a run of an operation over a source of versions.
    pub fn start(args: &Args, operation: AdministrativeOperation, source: VersionSource) -> (run:
        Run)
        ensures
            run@ == RunView::started(*args, operation, source@),
            run@.wf(),
    {
        let ends = source.bounds();
        let count: usize = source.file_count();
        let mut run = Run { args: *args, operation, source, phase: Phase::Finished };
        match ends {
            Some((first, _)) => {
                run.phase = run.enter(0, first);
            },
            None => {
                if count > 0 {
                    run.phase = Phase::Loading { position: 0 };
                }
            },
        }
        run
    }

    /// The phase in which work on a version begins.
    fn enter(&self, position: usize, version: u64) -> (phase: Phase)
        ensures
            phase == self@.entered(position, version),
    {
        match derive_distributor_address(
            &self.args.program_id,
            &self.args.base,
            &self.args.mint,
            version,
        ) {
            Ok((address, _)) => Phase::Reading { target: Target { position, version, address } },
            Err(error) => Phase::Aborted { error },
        }
    }

    /// The phase that follows once a target is dealt with.
    fn advance(&self, target: Target) -> (phase: Phase)
        requires
            self@.holds(target),
        ensures
            phase == self@.advanced(target),
    {
        match self.source.bounds() {
            None => {
                let count: usize = self.source.file_count();
                if target.position + 1 < count {
                    Phase::Loading { position: target.position + 1 }
                } else {
                    Phase::Finished
                }
            },
            Some((_, last)) => {
                if target.version < last {
                    self.enter(0, target.version + 1)
                } else {
                    Phase::Finished
                }
            },
        }
    }

    /// The phase that the run is in.
    pub fn phase(&self) -> (phase: Phase)
        ensures
            phase == self@.phase,
            self@.wf(),
    {
        proof {
            use_type_invariant(self);
        }
        self.phase
    }

    /// The operation that the run carries out.
    pub fn operation(&self) -> (operation: AdministrativeOperation)
        ensures
            operation == self@.operation,
    {
        self.operation
    }

    /// The command that the run is waiting on.
    pub fn pending(&self) -> (command: Command)
        ensures
            command@ == self@.pending(),
    {
        proof {
            use_type_invariant(self);
        }
        match self.phase {
            Phase::Loading { position } => match self.source.path_at(position) {
                Some(path) => Command::LoadTree { path },
                None => Command::Finished,
            },
            Phase::Reading { target } => Command::FetchAccount {
                version: target.version,
                address: target.address,
            },
            Phase::Dispatching { target, account } => {
                let instructions = build_instructions(
                    &self.operation,
                    &self.args.mode,
                    self.args.priority_fee,
                    self.args.program_id,
                    target.address,
                    &account,
                );
                let fee_payer = match self.args.mode {
                    DeliveryMode::Broadcast { signer } => signer,
                    DeliveryMode::OfflineMessage => account.admin,
                };
                Command::Submit {
                    version: target.version,
                    instructions,
                    fee_payer,
                    policy: self.operation.dispatch_policy(),
                }
            },
            Phase::Finished => Command::Finished,
            Phase::Aborted { error } => Command::Abort { error },
        }
    }

    /// Takes in what came of the pending command and answers with the next one.
    ///
    /// A fetched record that already holds the value is skipped. Otherwise the
    /// instructions are built: in offline mode their message is handed out as a notice and
    /// the target is done; in broadcast mode they are submitted, and a failed submission
    /// leads back to reading the record. A missing account is reported and passed over. An
    /// unreadable tree file or a failed read ends the run, as does a version without an
    /// address. An event that the run is not waiting for is answered with the pending
    /// command again.
    pub fn step(&mut self, event: Event) -> (step: Step)
        ensures
            final(self)@ == old(self)@.next(event),
            step.notice_view() == old(self)@.notice(event),
            step.command@ == final(self)@.pending(),
            step.notice matches Some(Notice::Message { text, .. }) ==> is_base58(text@),
            final(self)@.wf(),
    {
        proof {
            use_type_invariant(&*self);
        }
        let mut notice: Option<Notice> = None;
        match (self.phase, event) {
            (Phase::Loading { position }, Event::TreeLoaded { version }) => {
                self.phase = self.enter(position, version);
            },
            (Phase::Loading { position }, Event::TreeUnreadable) => {
                self.phase = Phase::Aborted { error: RunError::FileRead { position } };
            },
            (Phase::Reading { target }, Event::AccountRead { account }) => {
                if self.operation.is_satisfied_by(&account) {
                    notice = Some(Notice::Skipped { version: target.version });
                    self.phase = self.advance(target);
                } else {
                    match self.args.mode {
                        DeliveryMode::OfflineMessage => {
                            let instructions = build_instructions(
                                &self.operation,
                                &self.args.mode,
                                self.args.priority_fee,
                                self.args.program_id,
                                target.address,
                                &account,
                            );
                            proof {
                                lemma_instructions_fit(self@, target, account);
                            }
                            let text = offline_message(&instructions, &account.admin);
                            notice = Some(Notice::Message { version: target.version, text });
                            self.phase = self.advance(target);
                        },
                        DeliveryMode::Broadcast { .. } => {
                            self.phase = Phase::Dispatching { target, account };
                        },
                    }
                }
            },
            (Phase::Reading { target }, Event::AccountMissing) => {
                notice = Some(Notice::NotInitialized { version: target.version });
                self.phase = self.advance(target);
            },
            (Phase::Reading { target }, Event::ReadFailed) => {
                self.phase = Phase::Aborted { error: RunError::Rpc { version: target.version } };
            },
            (Phase::Dispatching { target, .. }, Event::Submitted) => {
                notice = Some(Notice::Submitted { version: target.version });
                self.phase = self.advance(target);
            },
            (Phase::Dispatching { target, .. }, Event::SubmitFailed) => {
                notice = Some(Notice::SubmitFailed { version: target.version });
                self.phase = Phase::Reading { target };
            },
            _ => {},
        }
        let command = self.pending();
        Step { notice, command }
    }
}

/// Starts the run that hands every distributor of the listed tree files to a new admin.
///
/// The files are visited in the order of their paths, whatever the order of the listing.
/// The run waits for the version of the first file, or is finished where there is none.
pub fn process_set_admin(args: &Args, set_admin_args: &SetAdminArgs) -> (run: Run)
    ensures
        run@.wf(),
        run@.source.is_scan_of(byte_strings(set_admin_args.tree_paths@)),
        run@ == RunView::started(
            *args,
            AdministrativeOperation::SetAdmin { new_admin: set_admin_args.new_admin },
            run@.source,
        ),
{
    Run::start(
        args,
        AdministrativeOperation::SetAdmin { new_admin: set_admin_args.new_admin },
        VersionSource::scan(&set_admin_args.tree_paths),
    )
}

/// Starts the run that makes the receiver's token account the clawback receiver of every
/// distributor of the listed tree files.
///
/// Fails with [`RunError::ReceiverDerivation`] exactly where the receiver's token account
/// for the mint has no address. Otherwise the run compares against that account, visits
/// the files in the order of their paths, and waits for the version of the first file, or
/// is finished where there is none.
pub fn process_set_clawback_receiver(
    args: &Args,
    set_clawback_receiver_args: &ClawbackReceiverArgs,
) -> (started: Result<Run, RunError>)
    ensures
        match started {
            Ok(run) => {
                &&& token_account_address(set_clawback_receiver_args.receiver, args.mint) matches Some(
                    new_receiver,
                )
                &&& run@.wf()
                &&& run@.source.is_scan_of(byte_strings(set_clawback_receiver_args.tree_paths@))
                &&& run@ == RunView::started(
                    *args,
                    AdministrativeOperation::SetClawbackReceiver { new_receiver },
                    run@.source,
                )
            },
            Err(error) => {
                &&& token_account_address(set_clawback_receiver_args.receiver, args.mint) is None
                &&& error == RunError::ReceiverDerivation
            },
        },
{
    match clawback_token_account(&set_clawback_receiver_args.receiver, &args.mint) {
        None => Err(RunError::ReceiverDerivation),
        Some(new_receiver) => Ok(
            Run::start(
                args,
                AdministrativeOperation::SetClawbackReceiver { new_receiver },
                VersionSource::scan(&set_clawback_receiver_args.tree_paths),
            ),
        ),
    }
}

/// Starts the run that sets the clawback start time of every distributor whose version
/// lies in the range, both ends included, in ascending order.
///
/// Fails with [`RunError::InvalidRange`] exactly where the first version lies above the
/// last; no command has been issued then. Otherwise the run begins work on the first
/// version.
pub fn process_set_clawback_start_ts(
    args: &Args,
    set_clawback_start_ts_args: &SetClawbackStartTsArgs,
) -> (started: Result<Run, RunError>)
    ensures
        match started {
            Ok(run) => {
                &&& set_clawback_start_ts_args.from_version <= set_clawback_start_ts_args.to_version
                &&& run@.wf()
                &&& run@ == RunView::started(
                    *args,
                    AdministrativeOperation::SetClawbackStartTs {
                        new_ts: set_clawback_start_ts_args.clawback_start_ts,
                    },
                    SourceView::Range {
                        first: set_clawback_start_ts_args.from_version,
                        last: set_clawback_start_ts_args.to_version,
                    },
                )
            },
            Err(error) => {
                &&& set_clawback_start_ts_args.from_version > set_clawback_start_ts_args.to_version
                &&& error == (RunError::InvalidRange {
                    from_version: set_clawback_start_ts_args.from_version,
                    to_version: set_clawback_start_ts_args.to_version,
                })
            },
        },
{
    match VersionSource::range(
        set_clawback_start_ts_args.from_version,
        set_clawback_start_ts_args.to_version,
    ) {
        Err(error) => Err(error),
        Ok(source) => Ok(
            Run::start(
                args,
                AdministrativeOperation::SetClawbackStartTs {
                    new_ts: set_clawback_start_ts_args.clawback_start_ts,
                },
                source,
            ),
        ),
    }
}

} // verus!
