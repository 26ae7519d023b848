use distributor_admin::address::{clawback_token_account, derive_distributor_address};
use distributor_admin::error::RunError;
use distributor_admin::instruction::{build_instructions, Instruction};
use distributor_admin::key::{Key, COMPUTE_BUDGET_PROGRAM};
use distributor_admin::message::offline_message;
use distributor_admin::operation::{
    AdministrativeOperation, DeliveryMode, DispatchPolicy, DistributorAccount,
};
use distributor_admin::report::notice_line;
use distributor_admin::run::{
    process_set_admin, process_set_clawback_receiver, process_set_clawback_start_ts, Args,
    ClawbackReceiverArgs, Command, Event, Notice, Phase, Run, SetAdminArgs,
    SetClawbackStartTsArgs, Step, Target,
};

fn key(n: u8) -> Key {
    Key { bytes: [n; 32] }
}

fn args(mode: DeliveryMode, priority_fee: Option<u64>) -> Args {
    Args { program_id: key(5), base: key(3), mint: key(4), priority_fee, mode }
}

fn address(version: u64) -> Key {
    derive_distributor_address(&key(5), &key(3), &key(4), version).unwrap().0
}

fn record(admin: u8) -> DistributorAccount {
    DistributorAccount { admin: key(admin), clawback_receiver: key(2), clawback_start_ts: 7 }
}

fn paths(names: &[&str]) -> Vec<Vec<u8>> {
    names.iter().map(|n| n.as_bytes().to_vec()).collect()
}

/// What a driver saw of a run.
struct Seen {
    lines: Vec<String>,
    submitted: Vec<(u64, Vec<Instruction>, Key, DispatchPolicy)>,
    reads: Vec<u64>,
    end: Command,
}

/// Drives a run against a chain held in memory. Tree files are named `tree_<version>`;
/// `submissions` says, for each submission in turn, whether it goes through. A submission
/// that goes through applies the operation to the stored record.
fn drive(
    mut run: Run,
    chain: &mut Vec<(Key, DistributorAccount)>,
    submissions: &[bool],
) -> Seen {
    let operation = run.operation();
    let mut seen =
        Seen { lines: Vec::new(), submitted: Vec::new(), reads: Vec::new(), end: Command::Finished };
    let mut outcomes = submissions.iter();
    let mut command = run.pending();
    loop {
        let (event, detail) = match command {
            Command::LoadTree { path } => {
                let name = String::from_utf8(path).unwrap();
                match name.rsplit('_').next().unwrap().parse::<u64>() {
                    Ok(version) => (Event::TreeLoaded { version }, String::new()),
                    Err(_) => (Event::TreeUnreadable, String::new()),
                }
            }
            Command::FetchAccount { version, address } => {
                seen.reads.push(version);
                match chain.iter().find(|(at, _)| *at == address) {
                    Some((_, account)) => (Event::AccountRead { account: *account }, String::new()),
                    None => (Event::AccountMissing, String::from("account not found")),
                }
            }
            Command::Submit { version, instructions, fee_payer, policy } => {
                let distributor = instructions.last().unwrap().accounts[0].pubkey;
                seen.submitted.push((version, instructions, fee_payer, policy));
                if *outcomes.next().expect("more submissions than planned") {
                    let stored = chain.iter_mut().find(|(at, _)| *at == distributor).unwrap();
                    match operation {
                        AdministrativeOperation::SetAdmin { new_admin } => stored.1.admin = new_admin,
                        AdministrativeOperation::SetClawbackReceiver { new_receiver } => {
                            stored.1.clawback_receiver = new_receiver
                        }
                        AdministrativeOperation::SetClawbackStartTs { new_ts } => {
                            stored.1.clawback_start_ts = new_ts
                        }
                    }
                    (Event::Submitted, String::from("5sig"))
                } else {
                    (Event::SubmitFailed, String::from("rpc timed out"))
                }
            }
            end => {
                seen.end = end;
                return seen;
            }
        };
        let Step { notice, command: next } = run.step(event);
        if let Some(notice) = notice {
            seen.lines.push(notice_line(&operation, &notice, &detail));
        }
        command = next;
    }
}

#[test]
fn directory_of_three_with_two_already_set() {
    let mut chain =
        vec![(address(0), record(9)), (address(1), record(9)), (address(2), record(1))];
    let run = process_set_admin(
        &args(DeliveryMode::Broadcast { signer: key(1) }, None),
        &SetAdminArgs { tree_paths: paths(&["tree_2", "tree_0", "tree_1"]), new_admin: key(9) },
    );
    let seen = drive(run, &mut chain, &[true]);
    assert_eq!(seen.end, Command::Finished);
    assert_eq!(seen.reads, vec![0, 1, 2]);
    assert_eq!(
        seen.lines,
        vec![
            String::from("already the same skip airdrop version 0"),
            String::from("already the same skip airdrop version 1"),
            String::from(
                "Successfully set admin cGfHiC6Kgg3FpFZvgwGcswsCRtp4aBP2fzuXRQPizuN airdrop version 2 ! signature: 5sig"
            ),
        ]
    );
    assert!(seen.lines[2].contains("airdrop version 2"));
    assert_eq!(seen.submitted.len(), 1);
    let (version, instructions, fee_payer, policy) = &seen.submitted[0];
    assert_eq!(*version, 2);
    assert_eq!(*fee_payer, key(1));
    assert_eq!(*policy, DispatchPolicy { wait_for_confirmation: false, dual_endpoint: true });
    assert_eq!(
        *instructions,
        build_instructions(
            &AdministrativeOperation::SetAdmin { new_admin: key(9) },
            &DeliveryMode::Broadcast { signer: key(1) },
            None,
            key(5),
            address(2),
            &record(1),
        )
    );
    assert_eq!(chain[2].1.admin, key(9));
}

#[test]
fn offline_range_of_one_prints_one_message() {
    let mut chain = vec![(address(5), record(1))];
    let run = process_set_clawback_start_ts(
        &args(DeliveryMode::OfflineMessage, Some(1000)),
        &SetClawbackStartTsArgs { from_version: 5, to_version: 5, clawback_start_ts: 99 },
    )
    .ok()
    .unwrap();
    let seen = drive(run, &mut chain, &[]);
    assert_eq!(seen.end, Command::Finished);
    assert_eq!(seen.reads, vec![5]);
    assert!(seen.submitted.is_empty());
    assert_eq!(seen.lines.len(), 1);
    let line = &seen.lines[0];
    assert!(!line.is_empty());
    assert!(line
        .chars()
        .all(|c| "123456789ABCDEFGHJKLMNPQRSTUVWXYZabcdefghijkmnopqrstuvwxyz".contains(c)));
    let expected = build_instructions(
        &AdministrativeOperation::SetClawbackStartTs { new_ts: 99 },
        &DeliveryMode::OfflineMessage,
        Some(1000),
        key(5),
        address(5),
        &record(1),
    );
    assert_eq!(expected.len(), 1);
    assert_eq!(*line, offline_message(&expected, &key(1)));
    assert_eq!(chain[0].1.clawback_start_ts, 7);
}

#[test]
fn second_run_skips_what_the_first_changed() {
    let mut chain =
        vec![(address(0), record(1)), (address(1), record(9)), (address(2), record(3))];
    let start = || {
        process_set_admin(
            &args(DeliveryMode::Broadcast { signer: key(1) }, Some(10)),
            &SetAdminArgs { tree_paths: paths(&["tree_1", "tree_2", "tree_0"]), new_admin: key(9) },
        )
    };
    let first = drive(start(), &mut chain, &[true, true]);
    assert_eq!(first.submitted.len(), 2);
    let second = drive(start(), &mut chain, &[]);
    assert!(second.submitted.is_empty());
    assert_eq!(
        second.lines,
        vec![
            String::from("already the same skip airdrop version 0"),
            String::from("already the same skip airdrop version 1"),
            String::from("already the same skip airdrop version 2"),
        ]
    );
}

#[test]
fn failed_submission_reads_the_record_again() {
    let mut chain = vec![(address(7), record(1))];
    let run = process_set_clawback_start_ts(
        &args(DeliveryMode::Broadcast { signer: key(1) }, Some(10)),
        &SetClawbackStartTsArgs { from_version: 7, to_version: 7, clawback_start_ts: -5 },
    )
    .ok()
    .unwrap();
    let seen = drive(run, &mut chain, &[false, false, true]);
    assert_eq!(seen.reads, vec![7, 7, 7]);
    assert_eq!(seen.submitted.len(), 3);
    assert_eq!(
        seen.lines,
        vec![
            String::from("airdrop version 7 rpc timed out"),
            String::from("airdrop version 7 rpc timed out"),
            String::from("Successfully set clawback start ts -5 airdrop version 7 ! signature: 5sig"),
        ]
    );
    let (_, instructions, _, policy) = &seen.submitted[0];
    assert_eq!(*policy, DispatchPolicy { wait_for_confirmation: true, dual_endpoint: false });
    assert_eq!(instructions.len(), 2);
    assert_eq!(instructions[0].program_id.bytes, COMPUTE_BUDGET_PROGRAM);
    assert_eq!(instructions[1].program_id, key(5));
    assert_eq!(chain[0].1.clawback_start_ts, -5);
}

#[test]
fn change_by_someone_else_between_attempts_ends_in_a_skip() {
    let mut run = process_set_clawback_start_ts(
        &args(DeliveryMode::Broadcast { signer: key(1) }, None),
        &SetClawbackStartTsArgs { from_version: 7, to_version: 7, clawback_start_ts: 8 },
    )
    .ok()
    .unwrap();
    let step = run.step(Event::AccountRead { account: record(1) });
    assert_eq!(step.notice, None);
    assert!(matches!(step.command, Command::Submit { version: 7, .. }));
    let step = run.step(Event::SubmitFailed);
    assert_eq!(step.notice, Some(Notice::SubmitFailed { version: 7 }));
    assert_eq!(step.command, Command::FetchAccount { version: 7, address: address(7) });
    let mut changed = record(1);
    changed.clawback_start_ts = 8;
    let step = run.step(Event::AccountRead { account: changed });
    assert_eq!(step.notice, Some(Notice::Skipped { version: 7 }));
    assert_eq!(step.command, Command::Finished);
}

#[test]
fn missing_account_is_reported_and_passed_over() {
    let mut chain = vec![(address(4), record(1))];
    let run = process_set_clawback_start_ts(
        &args(DeliveryMode::Broadcast { signer: key(1) }, None),
        &SetClawbackStartTsArgs { from_version: 3, to_version: 4, clawback_start_ts: 8 },
    )
    .ok()
    .unwrap();
    let seen = drive(run, &mut chain, &[true]);
    assert_eq!(seen.end, Command::Finished);
    assert_eq!(
        seen.lines,
        vec![
            String::from("airdrop version 3 account not found"),
            String::from("Successfully set clawback start ts 8 airdrop version 4 ! signature: 5sig"),
        ]
    );
}

#[test]
fn failed_read_ends_the_run() {
    let mut run = process_set_clawback_start_ts(
        &args(DeliveryMode::Broadcast { signer: key(1) }, None),
        &SetClawbackStartTsArgs { from_version: 3, to_version: 4, clawback_start_ts: 8 },
    )
    .ok()
    .unwrap();
    let step = run.step(Event::ReadFailed);
    assert_eq!(step.notice, None);
    assert_eq!(step.command, Command::Abort { error: RunError::Rpc { version: 3 } });
    assert_eq!(run.phase(), Phase::Aborted { error: RunError::Rpc { version: 3 } });
    let again = run.step(Event::AccountRead { account: record(1) });
    assert_eq!(again.command, Command::Abort { error: RunError::Rpc { version: 3 } });
}

#[test]
fn unreadable_tree_file_ends_the_run() {
    let mut chain = vec![(address(0), record(9))];
    let run = process_set_admin(
        &args(DeliveryMode::Broadcast { signer: key(1) }, None),
        &SetAdminArgs { tree_paths: paths(&["tree_x", "tree_0", "tree_y"]), new_admin: key(9) },
    );
    let seen = drive(run, &mut chain, &[]);
    assert_eq!(seen.reads, vec![0]);
    assert_eq!(seen.end, Command::Abort { error: RunError::FileRead { position: 1 } });
    assert_eq!(seen.lines, vec![String::from("already the same skip airdrop version 0")]);
}

#[test]
fn event_that_is_not_awaited_changes_nothing() {
    let mut run = process_set_admin(
        &args(DeliveryMode::Broadcast { signer: key(1) }, None),
        &SetAdminArgs { tree_paths: paths(&["tree_0"]), new_admin: key(9) },
    );
    let awaited = run.pending();
    assert_eq!(awaited, Command::LoadTree { path: b"tree_0".to_vec() });
    for event in [
        Event::AccountRead { account: record(1) },
        Event::AccountMissing,
        Event::ReadFailed,
        Event::Submitted,
        Event::SubmitFailed,
    ] {
        let step = run.step(event);
        assert_eq!(step.notice, None);
        assert_eq!(step.command, awaited);
        assert_eq!(run.phase(), Phase::Loading { position: 0 });
    }
    let step = run.step(Event::TreeLoaded { version: 0 });
    let target = Target { position: 0, version: 0, address: address(0) };
    assert_eq!(run.phase(), Phase::Reading { target });
    assert_eq!(step.command, Command::FetchAccount { version: 0, address: address(0) });
    for event in [Event::TreeLoaded { version: 1 }, Event::TreeUnreadable, Event::Submitted] {
        assert_eq!(run.step(event).command, step.command);
    }
    run.step(Event::AccountRead { account: record(1) });
    assert_eq!(run.phase(), Phase::Dispatching { target, account: record(1) });
    assert_eq!(run.step(Event::AccountMissing).notice, None);
    assert_eq!(run.phase(), Phase::Dispatching { target, account: record(1) });
    assert_eq!(run.step(Event::Submitted).command, Command::Finished);
    assert_eq!(run.step(Event::Submitted).command, Command::Finished);
    assert_eq!(run.phase(), Phase::Finished);
}

#[test]
fn clawback_receiver_run_compares_against_the_token_account() {
    let token_account = clawback_token_account(&key(8), &key(4)).unwrap();
    let mut settled = record(1);
    settled.clawback_receiver = token_account;
    let mut by_wallet = record(1);
    by_wallet.clawback_receiver = key(8);
    let mut chain = vec![(address(0), settled), (address(1), by_wallet)];
    let run = process_set_clawback_receiver(
        &args(DeliveryMode::Broadcast { signer: key(6) }, None),
        &ClawbackReceiverArgs { tree_paths: paths(&["tree_1", "tree_0"]), receiver: key(8) },
    )
    .ok()
    .unwrap();
    assert_eq!(
        run.operation(),
        AdministrativeOperation::SetClawbackReceiver { new_receiver: token_account }
    );
    let seen = drive(run, &mut chain, &[true]);
    assert_eq!(seen.lines.len(), 2);
    assert_eq!(seen.lines[0], "already the same skip airdrop version 0");
    assert!(seen.lines[1].starts_with("Successfully set clawback receiver "));
    assert!(seen.lines[1].ends_with(" airdrop version 1 ! signature: 5sig"));
    let (_, instructions, fee_payer, policy) = &seen.submitted[0];
    assert_eq!(*fee_payer, key(6));
    assert_eq!(*policy, DispatchPolicy { wait_for_confirmation: false, dual_endpoint: false });
    assert_eq!(instructions[0].accounts[1].pubkey, key(6));
    assert_eq!(instructions[0].accounts[2].pubkey, token_account);
    assert_eq!(chain[1].1.clawback_receiver, token_account);
}

#[test]
fn offline_directory_prints_a_message_for_each_unsettled_version() {
    let mut chain =
        vec![(address(0), record(1)), (address(1), record(9)), (address(2), record(3))];
    let run = process_set_admin(
        &args(DeliveryMode::OfflineMessage, Some(77)),
        &SetAdminArgs { tree_paths: paths(&["tree_0", "tree_1", "tree_2"]), new_admin: key(9) },
    );
    let seen = drive(run, &mut chain, &[]);
    assert!(seen.submitted.is_empty());
    assert_eq!(seen.reads, vec![0, 1, 2]);
    assert_eq!(seen.lines.len(), 3);
    assert_eq!(seen.lines[1], "already the same skip airdrop version 1");
    let operation = AdministrativeOperation::SetAdmin { new_admin: key(9) };
    let first =
        build_instructions(&operation, &DeliveryMode::OfflineMessage, None, key(5), address(0), &record(1));
    let third =
        build_instructions(&operation, &DeliveryMode::OfflineMessage, None, key(5), address(2), &record(3));
    assert_eq!(seen.lines[0], offline_message(&first, &key(1)));
    assert_eq!(seen.lines[2], offline_message(&third, &key(3)));
    assert_eq!(chain[0].1.admin, key(1));
}
