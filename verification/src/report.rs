//! The lines that tell the operator what became of each distributor.
use vstd::prelude::*;
use vstd::string::*;
use crate::error::RunError;
use crate::message::{base58_text, key_text};
use crate::operation::AdministrativeOperation;
use crate::run::{Notice, NoticeView};

verus! {

/// The character of one decimal digit.
pub open spec fn digit_char(digit: nat) -> char {
    if digit == 0 {
        '0'
    } else if digit == 1 {
        '1'
    } else if digit == 2 {
        '2'
    } else if digit == 3 {
        '3'
    } else if digit == 4 {
        '4'
    } else if digit == 5 {
        '5'
    } else if digit == 6 {
        '6'
    } else if digit == 7 {
        '7'
    } else if digit == 8 {
        '8'
    } else {
        '9'
    }
}

/// A natural number in decimal, without leading zeros.
pub open spec fn decimal(n: nat) -> Seq<char>
    decreases n,
{
    if n < 10 {
        seq![digit_char(n)]
    } else {
        decimal(n / 10).push(digit_char(n % 10))
    }
}

/// An integer in decimal, with a minus sign where it is negative.
pub open spec fn signed_decimal(n: int) -> Seq<char> {
    if n < 0 {
        seq!['-'] + decimal((-n) as nat)
    } else {
        decimal(n as nat)
    }
}

/// The words that open the notice of a skip.
pub open spec fn skip_words(operation: AdministrativeOperation) -> Seq<char> {
    match operation {
        AdministrativeOperation::SetClawbackStartTs { .. } =>
            "already set slot skip airdrop version "@,
        _ => "already the same skip airdrop version "@,
    }
}

/// The words that open the notice of a submission, up to the new value.
pub open spec fn success_words(operation: AdministrativeOperation) -> Seq<char> {
    match operation {
        AdministrativeOperation::SetAdmin { .. } => "Successfully set admin "@,
        AdministrativeOperation::SetClawbackReceiver { .. } =>
            "Successfully set clawback receiver "@,
        AdministrativeOperation::SetClawbackStartTs { .. } =>
            "Successfully set clawback start ts "@,
    }
}

/// The new value of an operation as text: an address in base 58, a time in decimal.
pub open spec fn value_text(operation: AdministrativeOperation) -> Seq<char> {
    match operation {
        AdministrativeOperation::SetAdmin { new_admin } => base58_text(new_admin@),
        AdministrativeOperation::SetClawbackReceiver { new_receiver } => base58_text(
            new_receiver@,
        ),
        AdministrativeOperation::SetClawbackStartTs { new_ts } => signed_decimal(new_ts as int),
    }
}

/// The line of a notice. `detail` is what the caller adds from the network: the signature
/// of a submitted transaction, the error of a failed one or of a missing account.
pub open spec fn line_text(
    operation: AdministrativeOperation,
    notice: NoticeView,
    detail: Seq<char>,
) -> Seq<char> {
    match notice {
        NoticeView::Skipped { version } => skip_words(operation) + decimal(version as nat),
        NoticeView::Submitted { version } => success_words(operation) + value_text(operation)
            + " airdrop version "@ + decimal(version as nat) + " ! signature: "@ + detail,
        NoticeView::SubmitFailed { version } => "airdrop version "@ + decimal(version as nat)
            + " "@ + detail,
        NoticeView::NotInitialized { version } => "airdrop version "@ + decimal(version as nat)
            + " "@ + detail,
        NoticeView::Message { text, .. } => text,
    }
}

/// The line of a failure that ends the run.
pub open spec fn error_text(error: RunError) -> Seq<char> {
    match error {
        RunError::InvalidRange { from_version, to_version } => "invalid version range: from "@
            + decimal(from_version as nat) + " to "@ + decimal(to_version as nat),
        RunError::FileRead { position } => "failed to read tree file "@ + decimal(
            position as nat,
        ),
        RunError::AddressDerivation { version } =>
            "no distributor address for airdrop version "@ + decimal(version as nat),
        RunError::ReceiverDerivation => "no token account address for the clawback receiver"@,
        RunError::Rpc { version } => "failed to read the distributor of airdrop version "@
            + decimal(version as nat),
    }
}

/// Appends one decimal digit.
fn append_digit(text: &mut String, digit: u64)
    requires
        digit < 10,
    ensures
        final(text)@ == old(text)@.push(digit_char(digit as nat)),
{
    proof {
        reveal_strlit("0");
        reveal_strlit("1");
        reveal_strlit("2");
        reveal_strlit("3");
        reveal_strlit("4");
        reveal_strlit("5");
        reveal_strlit("6");
        reveal_strlit("7");
        reveal_strlit("8");
        reveal_strlit("9");
    }
    let word = if digit == 0 {
        "0"
    } else if digit == 1 {
        "1"
    } else if digit == 2 {
        "2"
    } else if digit == 3 {
        "3"
    } else if digit == 4 {
        "4"
    } else if digit == 5 {
        "5"
    } else if digit == 6 {
        "6"
    } else if digit == 7 {
        "7"
    } else if digit == 8 {
        "8"
    } else {
        "9"
    };
    assert(word@ =~= seq![digit_char(digit as nat)]);
    text.append(word);
    assert(text@ =~= old(text)@.push(digit_char(digit as nat)));
}

/// Appends a number in decimal.
pub fn append_decimal(text: &mut String, n: u64)
    ensures
        final(text)@ == old(text)@ + decimal(n as nat),
    decreases n,
{
    if n >= 10 {
        append_decimal(text, n / 10);
    }
    append_digit(text, n % 10);
    assert(text@ =~= old(text)@ + decimal(n as nat));
}

/// Appends a signed number in decimal.
pub fn append_signed_decimal(text: &mut String, n: i64)
    ensures
        final(text)@ == old(text)@ + signed_decimal(n as int),
{
    if n < 0 {
        proof {
            reveal_strlit("-");
        }
        text.append("-");
        let magnitude: u64 = ((-(n + 1)) as u64) + 1;
        append_decimal(text, magnitude);
        assert(text@ =~= old(text)@ + signed_decimal(n as int));
    } else {
        append_decimal(text, n as u64);
    }
}

/// Appends the new value of an operation.
fn append_value(text: &mut String, operation: &AdministrativeOperation)
    ensures
        final(text)@ == old(text)@ + value_text(*operation),
{
    match operation {
        AdministrativeOperation::SetAdmin { new_admin } => {
            let value = key_text(new_admin);
            text.append(value.as_str());
        },
        AdministrativeOperation::SetClawbackReceiver { new_receiver } => {
            let value = key_text(new_receiver);
            text.append(value.as_str());
        },
        AdministrativeOperation::SetClawbackStartTs { new_ts } => {
            append_signed_decimal(text, *new_ts);
        },
    }
}

/// Writes the line that tells the operator of a notice. `detail` is the signature of a
/// submitted transaction or the error text of a failure; the other notices do not use it.
pub fn notice_line(operation: &AdministrativeOperation, notice: &Notice, detail: &str) -> (line:
    String)
    ensures
        line@ == line_text(*operation, notice@, detail@),
{
    match notice {
        Notice::Skipped { version } => {
            let mut line = match operation {
                AdministrativeOperation::SetClawbackStartTs { .. } => String::from_str(
                    "already set slot skip airdrop version ",
                ),
                _ => String::from_str("already the same skip airdrop version "),
            };
            append_decimal(&mut line, *version);
            line
        },
        Notice::Submitted { version } => {
            let mut line = match operation {
                AdministrativeOperation::SetAdmin { .. } => String::from_str(
                    "Successfully set admin ",
                ),
                AdministrativeOperation::SetClawbackReceiver { .. } => String::from_str(
                    "Successfully set clawback receiver ",
                ),
                AdministrativeOperation::SetClawbackStartTs { .. } => String::from_str(
                    "Successfully set clawback start ts ",
                ),
            };
            append_value(&mut line, operation);
            line.append(" airdrop version ");
            append_decimal(&mut line, *version);
            line.append(" ! signature: ");
            line.append(detail);
            line
        },
        Notice::SubmitFailed { version } => failure_line(*version, detail),
        Notice::NotInitialized { version } => failure_line(*version, detail),
        Notice::Message { text, .. } => text.clone(),
    }
}

/// Writes the line of a failure that concerns one version.
fn failure_line(version: u64, detail: &str) -> (line: String)
    ensures
        line@ == "airdrop version "@ + decimal(version as nat) + " "@ + detail@,
{
    let mut line = String::from_str("airdrop version ");
    append_decimal(&mut line, version);
    line.append(" ");
    line.append(detail);
    line
}

/// Writes the line of a failure that ends the run.
pub fn error_line(error: &RunError) -> (line: String)
    ensures
        line@ == error_text(*error),
{
    match error {
        RunError::InvalidRange { from_version, to_version } => {
            let mut line = String::from_str("invalid version range: from ");
            append_decimal(&mut line, *from_version);
            line.append(" to ");
            append_decimal(&mut line, *to_version);
            line
        },
        RunError::FileRead { position } => {
            let mut line = String::from_str("failed to read tree file ");
            append_decimal(&mut line, *position as u64);
            line
        },
        RunError::AddressDerivation { version } => {
            let mut line = String::from_str("no distributor address for airdrop version ");
            append_decimal(&mut line, *version);
            line
        },
        RunError::ReceiverDerivation => String::from_str(
            "no token account address for the clawback receiver",
        ),
        RunError::Rpc { version } => {
            let mut line = String::from_str("failed to read the distributor of airdrop version ");
            append_decimal(&mut line, *version);
            line
        },
    }
}

} // verus!
