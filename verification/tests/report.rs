use distributor_admin::error::RunError;
use distributor_admin::key::Key;
use distributor_admin::operation::AdministrativeOperation;
use distributor_admin::report::{append_decimal, append_signed_decimal, error_line, notice_line};
use distributor_admin::run::Notice;

fn key(n: u8) -> Key {
    Key { bytes: [n; 32] }
}

fn decimal(n: u64) -> String {
    let mut text = String::from(">");
    append_decimal(&mut text, n);
    text
}

fn signed(n: i64) -> String {
    let mut text = String::from(">");
    append_signed_decimal(&mut text, n);
    text
}

#[test]
fn numbers_are_written_in_decimal() {
    assert_eq!(decimal(0), ">0");
    assert_eq!(decimal(7), ">7");
    assert_eq!(decimal(10), ">10");
    assert_eq!(decimal(1234567890), ">1234567890");
    assert_eq!(decimal(u64::MAX), ">18446744073709551615");
    assert_eq!(signed(0), ">0");
    assert_eq!(signed(-1), ">-1");
    assert_eq!(signed(i64::MAX), ">9223372036854775807");
    assert_eq!(signed(i64::MIN), ">-9223372036854775808");
    for n in [1u64, 9, 99, 100, 101, 65535, 4294967296] {
        assert_eq!(decimal(n), format!(">{n}"));
    }
}

#[test]
fn skip_lines_of_each_operation() {
    let skipped = Notice::Skipped { version: 12 };
    assert_eq!(
        notice_line(&AdministrativeOperation::SetAdmin { new_admin: key(1) }, &skipped, ""),
        "already the same skip airdrop version 12"
    );
    assert_eq!(
        notice_line(&AdministrativeOperation::SetClawbackReceiver { new_receiver: key(1) }, &skipped, ""),
        "already the same skip airdrop version 12"
    );
    assert_eq!(
        notice_line(&AdministrativeOperation::SetClawbackStartTs { new_ts: 1 }, &skipped, "unused"),
        "already set slot skip airdrop version 12"
    );
}

#[test]
fn success_lines_of_each_operation() {
    let submitted = Notice::Submitted { version: 3 };
    assert_eq!(
        notice_line(&AdministrativeOperation::SetAdmin { new_admin: key(0) }, &submitted, "sig"),
        "Successfully set admin 11111111111111111111111111111111 airdrop version 3 ! signature: sig"
    );
    assert_eq!(
        notice_line(
            &AdministrativeOperation::SetClawbackReceiver { new_receiver: key(0) },
            &submitted,
            "sig"
        ),
        "Successfully set clawback receiver 11111111111111111111111111111111 airdrop version 3 ! signature: sig"
    );
    assert_eq!(
        notice_line(&AdministrativeOperation::SetClawbackStartTs { new_ts: -40 }, &submitted, "sig"),
        "Successfully set clawback start ts -40 airdrop version 3 ! signature: sig"
    );
}

#[test]
fn failure_and_message_lines() {
    let operation = AdministrativeOperation::SetAdmin { new_admin: key(0) };
    assert_eq!(
        notice_line(&operation, &Notice::SubmitFailed { version: 3 }, "blockhash not found"),
        "airdrop version 3 blockhash not found"
    );
    assert_eq!(
        notice_line(&operation, &Notice::NotInitialized { version: 4 }, "account not found"),
        "airdrop version 4 account not found"
    );
    assert_eq!(
        notice_line(&operation, &Notice::Message { version: 4, text: String::from("3yZe7d") }, "x"),
        "3yZe7d"
    );
}

#[test]
fn lines_of_the_failures_that_end_a_run() {
    assert_eq!(
        error_line(&RunError::InvalidRange { from_version: 6, to_version: 5 }),
        "invalid version range: from 6 to 5"
    );
    assert_eq!(error_line(&RunError::FileRead { position: 2 }), "failed to read tree file 2");
    assert_eq!(
        error_line(&RunError::AddressDerivation { version: 8 }),
        "no distributor address for airdrop version 8"
    );
    assert_eq!(
        error_line(&RunError::ReceiverDerivation),
        "no token account address for the clawback receiver"
    );
    assert_eq!(
        error_line(&RunError::Rpc { version: 9 }),
        "failed to read the distributor of airdrop version 9"
    );
}
