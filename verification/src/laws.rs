//! What holds of every run, whatever the chain answers.
use vstd::prelude::*;
use crate::instruction::{admin_reference, administrative_instruction, compute_unit_price,
    pays_priority_fee};
use crate::operation::{AdministrativeOperation, DeliveryMode, DistributorAccount};
use crate::path_order::lemma_visiting_order_unique;
use crate::run::{Args, CommandView, Event, NoticeView, Phase, RunView, Target};
use crate::version_source::SourceView;

verus! {

/// Once an operation has been carried out on a record, the record holds the value that
/// the operation asks for, whatever it held before.
pub proof fn lemma_applied_is_satisfied(operation: AdministrativeOperation, before: DistributorAccount)
    ensures
        operation.satisfied(operation.applied(before)),
{
}

/// A second run finds nothing left to do: a run that reads the record of a distributor on
/// which the same operation has been carried out reports a skip, goes on to the next target
/// and submits nothing.
pub proof fn lemma_second_run_skips(run: RunView, target: Target, before: DistributorAccount)
    requires
        run.phase == (Phase::Reading { target }),
    ensures
        ({
            let event = Event::AccountRead { account: run.operation.applied(before) };
            &&& run.notice(event) == Some(NoticeView::Skipped { version: target.version })
            &&& run.next(event).phase == run.advanced(target)
            &&& !(run.next(event).pending() is Submit)
        }),
{
}

/// A distributor whose record already holds the value is passed over: the run reports a
/// skip and goes on to the next target; it neither hands out a message nor asks for a
/// submission.
pub proof fn lemma_satisfied_target_is_passed_over(
    run: RunView,
    target: Target,
    account: DistributorAccount,
)
    requires
        run.phase == (Phase::Reading { target }),
        run.operation.satisfied(account),
    ensures
        ({
            let event = Event::AccountRead { account };
            &&& run.notice(event) == Some(NoticeView::Skipped { version: target.version })
            &&& run.next(event).phase == run.advanced(target)
            &&& !(run.next(event).pending() is Submit)
        }),
{
}

/// A distributor whose record differs is acted on at once: in offline mode the message
/// of its instructions is handed out and the target is done; in broadcast mode the run
/// waits for the submission of exactly its instructions, paid by the signer.
pub proof fn lemma_unsatisfied_target_is_dispatched(
    run: RunView,
    target: Target,
    account: DistributorAccount,
)
    requires
        run.phase == (Phase::Reading { target }),
        !run.operation.satisfied(account),
    ensures
        ({
            let event = Event::AccountRead { account };
            match run.args.mode {
                DeliveryMode::OfflineMessage => {
                    &&& run.notice(event) == Some(
                        NoticeView::Message {
                            version: target.version,
                            text: run.message_text(target, account),
                        },
                    )
                    &&& run.next(event).phase == run.advanced(target)
                    &&& !(run.next(event).pending() is Submit)
                },
                DeliveryMode::Broadcast { signer } => {
                    &&& run.notice(event) is None
                    &&& run.next(event).pending() == (CommandView::Submit {
                        version: target.version,
                        instructions: run.instructions(target, account),
                        fee_payer: signer,
                        policy: run.operation.policy(),
                    })
                },
            }
        }),
{
}

/// An offline run submits nothing: whatever it is told, it never waits for a submission,
/// and every record that it reads settles its target at once, with a skip or with a
/// message that is handed out once.
pub proof fn lemma_offline_run_submits_nothing(run: RunView, event: Event)
    requires
        run.wf(),
        run.args.mode is OfflineMessage,
    ensures
        !(run.pending() is Submit),
        !(run.next(event).pending() is Submit),
        run.phase is Reading && event is AccountRead ==> run.next(event).phase == run.advanced(
            run.phase->Reading_target,
        ) && run.notice(event) is Some,
{
}

/// A failed submission leads back to reading the record of the same target, and only a
/// submission that went out, or a record found satisfied on a later reading, moves the
/// run on.
pub proof fn lemma_failed_submission_reads_again(
    run: RunView,
    target: Target,
    account: DistributorAccount,
)
    requires
        run.phase == (Phase::Dispatching { target, account }),
    ensures
        run.next(Event::SubmitFailed).phase == (Phase::Reading { target }),
        run.next(Event::SubmitFailed).pending() == (CommandView::FetchAccount {
            version: target.version,
            address: target.address,
        }),
        run.notice(Event::SubmitFailed) == Some(
            NoticeView::SubmitFailed { version: target.version },
        ),
        run.next(Event::Submitted).phase == run.advanced(target),
{
}

/// The instruction list ends with the one administrative instruction. Where a priority
/// fee is paid, which only a broadcast run does, the compute-unit price stands before it,
/// first in the list. In every other case, and so in all of offline mode, the list holds
/// nothing else, and no compute-unit price at any fee occurs in it.
pub proof fn lemma_priority_fee_leads(run: RunView, target: Target, account: DistributorAccount)
    ensures
        ({
            let instructions = run.instructions(target, account);
            let administrative = administrative_instruction(
                run.operation,
                run.args.program_id,
                target.address,
                admin_reference(run.operation, run.args.mode, account),
            );
            &&& instructions.last() == administrative
            &&& pays_priority_fee(run.args.mode, run.args.priority_fee) ==> instructions.len() == 2
                && instructions[0] == compute_unit_price(run.args.priority_fee->0)
            &&& !pays_priority_fee(run.args.mode, run.args.priority_fee) ==> instructions.len() == 1
                && forall|fee: u64| !instructions.contains(compute_unit_price(fee))
            &&& run.args.mode is OfflineMessage ==> !pays_priority_fee(
                run.args.mode,
                run.args.priority_fee,
            )
        }),
{
    let instructions = run.instructions(target, account);
    if !pays_priority_fee(run.args.mode, run.args.priority_fee) {
        assert forall|fee: u64| !instructions.contains(compute_unit_price(fee)) by {
            if instructions.contains(compute_unit_price(fee)) {
                let i = choose|i: int|
                    0 <= i < instructions.len() && instructions[i] == compute_unit_price(fee);
                assert(instructions[i].accounts.len() >= 2);
                assert(compute_unit_price(fee).accounts.len() == 0);
            }
        }
    }
}

/// The versions of a range are dealt with in ascending order, each once: after a target
/// the run enters the next version, and after the last it is finished.
pub proof fn lemma_range_ascends(run: RunView, target: Target)
    requires
        run.source is Range,
        run.holds(target),
    ensures
        target.version < run.source->last ==> run.advanced(target) == run.entered(
            0,
            (target.version + 1) as u64,
        ),
        target.version == run.source->last ==> run.advanced(target) == Phase::Finished,
{
}

/// Two runs that start over listings of the same files are the same run, whatever the
/// order of each listing: they ask for the same files in the same order, and so see the
/// same versions in the same order.
pub proof fn lemma_runs_ignore_enumeration(
    args: Args,
    operation: AdministrativeOperation,
    first_listing: Seq<Seq<u8>>,
    second_listing: Seq<Seq<u8>>,
    first_source: SourceView,
    second_source: SourceView,
)
    requires
        first_listing.to_multiset() == second_listing.to_multiset(),
        first_source.is_scan_of(first_listing),
        second_source.is_scan_of(second_listing),
    ensures
        first_source == second_source,
        RunView::started(args, operation, first_source) == RunView::started(
            args,
            operation,
            second_source,
        ),
{
    lemma_visiting_order_unique(first_source->paths, second_source->paths);
}

/// No event leads a run out of the states it can be in, and none takes it back: the run
/// keeps its one operation, its configuration and its source, and while it is at work the
/// place of what it works on stays or moves on by one. A run that has ended stays as it is.
pub proof fn lemma_run_moves_forward(run: RunView, event: Event)
    requires
        run.wf(),
    ensures
        run.next(event).wf(),
        run.next(event).operation == run.operation,
        run.next(event).args == run.args,
        run.next(event).source == run.source,
        run.place() is Some && run.next(event).place() is Some ==> run.place()->0
            <= run.next(event).place()->0 <= run.place()->0 + 1,
        run.place() is None ==> run.next(event) == run,
{
}

} // verus!
