//! What holds of every run of a tool.

use vstd::prelude::*;

use crate::orchestrator::{
    approval_start, attempt_start, lets_run, Approval, ApprovalStep, AttemptStep, DecisionRecord,
    DenialStep, Denied, Event, ExecApprovalRequirement, OrchestratorRun, Outcome,
    PermissionRequestDecision, Phase, Rejection, ReviewDecision, RunContext, SandboxOverride,
    SandboxType, Stage, ToolError, ToolTypes,
};

verus! {

// ---------------------------------------------------------------------------
// Every run ends
// ---------------------------------------------------------------------------

/// Whether an event is an answer to what the run waits for.
pub open spec fn awaits<T: ToolTypes>(run: OrchestratorRun<T>, event: Event<T>) -> bool {
    match run.phase {
        Phase::ToolRequirement => event is ToolRequirement,
        Phase::DefaultRequirement => event is DefaultRequirement,
        Phase::Approval(approval) => match approval.step {
            ApprovalStep::ReviewId => event is ReviewId,
            ApprovalStep::PermissionPayload => event is PermissionPayload,
            ApprovalStep::Hooks => event is HookDecision,
            ApprovalStep::Decision => event is Decision,
            ApprovalStep::RejectionMessage => event is Message,
            ApprovalStep::TimeoutMessage => event is Message,
        },
        Phase::SandboxMode => event is SandboxMode,
        Phase::Attempt(attempt) => match attempt.step {
            AttemptStep::NetworkApproval => event is NetworkApproval,
            AttemptStep::Tool(_) => event is ToolFinished,
            AttemptStep::FinishImmediate(_) => event is ImmediateFinished,
            AttemptStep::FinishDeferred(_) => event is DeferredFinished,
            AttemptStep::TakeDeferred(_) => event is DeferredTaken,
        },
        Phase::Denied(denied) => match denied.step {
            DenialStep::NetworkContext => event is NetworkContext,
            DenialStep::EscalateOnFailure => event is EscalateOnFailure,
            DenialStep::WantsNoSandboxApproval => event is WantsNoSandboxApproval,
            DenialStep::RetryRequirement => event is RetryRequirement,
            DenialStep::BypassApproval => event is BypassApproval,
        },
        Phase::Done(_) => false,
    }
}

/// How many answers a run takes at most.
pub open spec fn answers_left<T: ToolTypes>(phase: Phase<T>) -> nat {
    match phase {
        Phase::ToolRequirement => 22,
        Phase::DefaultRequirement => 21,
        Phase::Approval(approval) => {
            let after: nat = match approval.stage {
                Stage::Initial { .. } => 16,
                Stage::Retry { .. } => 3,
            };
            match approval.step {
                ApprovalStep::ReviewId => after + 4,
                ApprovalStep::PermissionPayload => after + 3,
                ApprovalStep::Hooks => after + 2,
                ApprovalStep::Decision => after + 1,
                ApprovalStep::RejectionMessage => 1,
                ApprovalStep::TimeoutMessage => 1,
            }
        },
        Phase::SandboxMode => 16,
        Phase::Attempt(attempt) => {
            let after: nat = if attempt.escalated {
                0
            } else {
                12
            };
            match attempt.step {
                AttemptStep::NetworkApproval => after + 3,
                AttemptStep::Tool(_) => after + 2,
                _ => after + 1,
            }
        },
        Phase::Denied(denied) => match denied.step {
            DenialStep::NetworkContext => 12,
            DenialStep::EscalateOnFailure => 11,
            DenialStep::WantsNoSandboxApproval => 10,
            DenialStep::RetryRequirement => 9,
            DenialStep::BypassApproval => 8,
        },
        Phase::Done(_) => 0,
    }
}

/// Every answer brings a run closer to its end, and nothing else changes it.
pub proof fn answers_bring_the_end_closer<T: ToolTypes>(run: OrchestratorRun<T>, event: Event<T>)
    ensures
        awaits(run, event) ==> answers_left(run.next(event).phase) < answers_left(run.phase),
        !awaits(run, event) ==> run.next(event) == run && run.record(event) is None,
{
}

/// A run that is over stays as it is, and a run that is not over waits for
/// something.
pub proof fn only_the_end_is_final<T: ToolTypes>(run: OrchestratorRun<T>)
    ensures
        run.phase is Done <==> (forall|event: Event<T>| !#[trigger] awaits(run, event)),
        run.phase is Done <==> answers_left(run.phase) == 0,
{
    if !(run.phase is Done) {
        let event: Event<T> = match run.phase {
            Phase::ToolRequirement => Event::ToolRequirement(None),
            Phase::DefaultRequirement => Event::DefaultRequirement(ExecApprovalRequirement::Skip),
            Phase::Approval(approval) => match approval.step {
                ApprovalStep::ReviewId => Event::ReviewId(arbitrary()),
                ApprovalStep::PermissionPayload => Event::PermissionPayload(true),
                ApprovalStep::Hooks => Event::HookDecision(None),
                ApprovalStep::Decision => Event::Decision(ReviewDecision::Denied),
                _ => Event::Message(arbitrary()),
            },
            Phase::SandboxMode => Event::SandboxMode(SandboxOverride::NoOverride),
            Phase::Attempt(attempt) => match attempt.step {
                AttemptStep::NetworkApproval => Event::NetworkApproval(None),
                AttemptStep::Tool(_) => Event::ToolFinished(arbitrary()),
                AttemptStep::FinishImmediate(_) => Event::ImmediateFinished(Ok(())),
                AttemptStep::FinishDeferred(_) => Event::DeferredFinished,
                AttemptStep::TakeDeferred(_) => Event::DeferredTaken(None),
            },
            Phase::Denied(denied) => match denied.step {
                DenialStep::NetworkContext => Event::NetworkContext(None),
                DenialStep::EscalateOnFailure => Event::EscalateOnFailure(false),
                DenialStep::WantsNoSandboxApproval => Event::WantsNoSandboxApproval(false),
                DenialStep::RetryRequirement => Event::RetryRequirement(
                    ExecApprovalRequirement::Skip,
                ),
                DenialStep::BypassApproval => Event::BypassApproval(false),
            },
            Phase::Done(_) => arbitrary(),
        };
        assert(awaits(run, event));
    }
}

/// The run after a series of events.
pub open spec fn replay<T: ToolTypes>(
    run: OrchestratorRun<T>,
    events: Seq<Event<T>>,
) -> OrchestratorRun<T>
    decreases events.len(),
{
    if events.len() == 0 {
        run
    } else {
        replay(run, events.drop_last()).next(events.last())
    }
}

/// How many events of a series answer what the run waits for.
pub open spec fn answers_given<T: ToolTypes>(
    run: OrchestratorRun<T>,
    events: Seq<Event<T>>,
) -> nat
    decreases events.len(),
{
    if events.len() == 0 {
        0
    } else {
        answers_given(run, events.drop_last()) + (if awaits(
            replay(run, events.drop_last()),
            events.last(),
        ) {
            1nat
        } else {
            0nat
        })
    }
}

/// A run is over after 22 answers at the latest.
pub proof fn every_run_ends<T: ToolTypes>(context: RunContext, events: Seq<Event<T>>)
    ensures
        answers_given(OrchestratorRun::<T>::initial(context), events) + answers_left(
            replay(OrchestratorRun::<T>::initial(context), events).phase,
        ) <= 22,
        answers_given(OrchestratorRun::<T>::initial(context), events) >= 22 ==> replay(
            OrchestratorRun::<T>::initial(context),
            events,
        ).phase is Done,
    decreases events.len(),
{
    if events.len() > 0 {
        let before = replay(OrchestratorRun::<T>::initial(context), events.drop_last());
        every_run_ends(context, events.drop_last());
        answers_bring_the_end_closer(before, events.last());
    }
    only_the_end_is_final(replay(OrchestratorRun::<T>::initial(context), events));
}

// ---------------------------------------------------------------------------
// The tool runs at most twice
// ---------------------------------------------------------------------------

/// Whether an event is that the tool ran.
pub open spec fn is_tool_run<T: ToolTypes>(run: OrchestratorRun<T>, event: Event<T>) -> bool {
    awaits(run, event) && event is ToolFinished
}

/// How often the tool may still run.
pub open spec fn tool_runs_left<T: ToolTypes>(phase: Phase<T>) -> nat {
    match phase {
        Phase::ToolRequirement => 2,
        Phase::DefaultRequirement => 2,
        Phase::Approval(approval) => if approval.stage is Initial {
            2
        } else {
            1
        },
        Phase::SandboxMode => 2,
        Phase::Attempt(attempt) => (if attempt.escalated {
            0nat
        } else {
            1nat
        }) + (if attempt.step is NetworkApproval || attempt.step is Tool {
            1nat
        } else {
            0nat
        }),
        Phase::Denied(_) => 1,
        Phase::Done(_) => 0,
    }
}

/// How often the tool ran in a series of events.
pub open spec fn tool_runs<T: ToolTypes>(run: OrchestratorRun<T>, events: Seq<Event<T>>) -> nat
    decreases events.len(),
{
    if events.len() == 0 {
        0
    } else {
        tool_runs(run, events.drop_last()) + (if is_tool_run(
            replay(run, events.drop_last()),
            events.last(),
        ) {
            1nat
        } else {
            0nat
        })
    }
}

/// The tool runs at most twice.
pub proof fn the_tool_runs_at_most_twice<T: ToolTypes>(context: RunContext, events: Seq<Event<T>>)
    ensures
        tool_runs(OrchestratorRun::<T>::initial(context), events) + tool_runs_left(
            replay(OrchestratorRun::<T>::initial(context), events).phase,
        ) <= 2,
    decreases events.len(),
{
    if events.len() > 0 {
        the_tool_runs_at_most_twice(context, events.drop_last());
    }
}

/// Whether an event ends the first attempt, and the sandbox denied it: the tool
/// says so when it is done, or said so and its network approval is now settled,
/// or settling that says so.
pub open spec fn denies_first_attempt<T: ToolTypes>(
    run: OrchestratorRun<T>,
    event: Event<T>,
) -> bool {
    match run.phase {
        Phase::Attempt(attempt) => !attempt.escalated && match (attempt.step, event) {
            (AttemptStep::Tool(None), Event::ToolFinished(result)) => result
                matches Err(ToolError::SandboxDenied(_)),
            (AttemptStep::FinishImmediate(result), Event::ImmediateFinished(Ok(_))) => result
                matches Err(ToolError::SandboxDenied(_)),
            (AttemptStep::FinishImmediate(_), Event::ImmediateFinished(Err(error))) =>
                error is SandboxDenied,
            (AttemptStep::FinishDeferred(error), Event::DeferredFinished) => error is SandboxDenied,
            _ => false,
        },
        _ => false,
    }
}

/// Whether the run is on its way to the retry, or in it.
pub open spec fn after_the_first_attempt<T: ToolTypes>(phase: Phase<T>) -> bool {
    match phase {
        Phase::Denied(_) => true,
        Phase::Approval(approval) => approval.stage is Retry,
        Phase::Attempt(attempt) => attempt.escalated,
        _ => false,
    }
}

/// Whether one of the events ended the first attempt in a denial.
pub open spec fn first_attempt_was_denied<T: ToolTypes>(
    run: OrchestratorRun<T>,
    events: Seq<Event<T>>,
) -> bool {
    exists|i: int|
        0 <= i < events.len() && denies_first_attempt(
            #[trigger] replay(run, events.take(i)),
            events[i],
        )
}

/// The tool is run again, and a retry is asked about, only where the sandbox
/// denied the first attempt.
pub proof fn no_retry_without_denial<T: ToolTypes>(context: RunContext, events: Seq<Event<T>>)
    requires
        after_the_first_attempt(replay(OrchestratorRun::<T>::initial(context), events).phase),
    ensures
        first_attempt_was_denied(OrchestratorRun::<T>::initial(context), events),
    decreases events.len(),
{
    let start = OrchestratorRun::<T>::initial(context);
    if events.len() > 0 {
        let earlier = events.drop_last();
        let before = replay(start, earlier);
        if after_the_first_attempt(before.phase) {
            no_retry_without_denial(context, earlier);
            let i = choose|i: int|
                0 <= i < earlier.len() && denies_first_attempt(
                    #[trigger] replay(start, earlier.take(i)),
                    earlier[i],
                );
            assert(events.take(i) =~= earlier.take(i));
            assert(denies_first_attempt(replay(start, events.take(i)), events[i]));
        } else {
            let i = events.len() - 1;
            assert(events.take(i) =~= earlier);
            assert(denies_first_attempt(replay(start, events.take(i)), events[i]));
        }
    }
}

// ---------------------------------------------------------------------------
// Nothing runs without consent
// ---------------------------------------------------------------------------

/// Whether a hook, the guardian or the user consents to what the approval is asked for.
pub open spec fn consents<T: ToolTypes>(approval: Approval<T>, event: Event<T>) -> bool {
    match event {
        Event::HookDecision(decision) => approval.step == ApprovalStep::Hooks && decision == Some(
            PermissionRequestDecision::Allow,
        ),
        Event::Decision(decision) => approval.step == ApprovalStep::Decision && lets_run(decision),
        _ => false,
    }
}

/// Whether an event opens the way to the first attempt: no approval is
/// required, or it is given.
pub open spec fn opens_first_attempt<T: ToolTypes>(
    run: OrchestratorRun<T>,
    event: Event<T>,
) -> bool {
    match run.phase {
        Phase::ToolRequirement => event == Event::<T>::ToolRequirement(
            Some(ExecApprovalRequirement::Skip),
        ),
        Phase::DefaultRequirement => event == Event::<T>::DefaultRequirement(
            ExecApprovalRequirement::Skip,
        ),
        Phase::Approval(approval) => approval.stage is Initial && consents(approval, event),
        _ => false,
    }
}

/// Whether an event opens the way to the retry outside the sandbox: it is
/// approved, or the tool goes without approval and no network access is asked
/// for.
pub open spec fn opens_retry<T: ToolTypes>(run: OrchestratorRun<T>, event: Event<T>) -> bool {
    match run.phase {
        Phase::Approval(approval) => approval.stage is Retry && consents(approval, event),
        Phase::Denied(denied) => denied.step == DenialStep::BypassApproval && event
            == Event::<T>::BypassApproval(true) && denied.network is None,
        _ => false,
    }
}

/// Whether the run is in an attempt, or about to start the first one.
pub open spec fn in_first_attempt<T: ToolTypes>(phase: Phase<T>) -> bool {
    match phase {
        Phase::SandboxMode => true,
        Phase::Attempt(attempt) => !attempt.escalated,
        _ => false,
    }
}

/// Whether the run is in the retry.
pub open spec fn in_retry<T: ToolTypes>(phase: Phase<T>) -> bool {
    match phase {
        Phase::Attempt(attempt) => attempt.escalated,
        _ => false,
    }
}

/// A run comes to its first attempt and to its retry in no other way than by
/// an event that opens the way there.
pub proof fn attempts_need_consent<T: ToolTypes>(run: OrchestratorRun<T>, event: Event<T>)
    ensures
        !in_first_attempt(run.phase) ==> (in_first_attempt(run.next(event).phase)
            <==> opens_first_attempt(run, event)),
        !in_retry(run.phase) ==> (in_retry(run.next(event).phase) <==> opens_retry(run, event)),
{
}

/// Whether one of the events opened the way to the retry.
pub open spec fn retry_was_opened<T: ToolTypes>(
    run: OrchestratorRun<T>,
    events: Seq<Event<T>>,
) -> bool {
    exists|i: int|
        0 <= i < events.len() && opens_retry(#[trigger] replay(run, events.take(i)), events[i])
}

/// No tool is retried outside the sandbox unless the way there was opened.
pub proof fn no_retry_without_consent<T: ToolTypes>(context: RunContext, events: Seq<Event<T>>)
    requires
        in_retry(replay(OrchestratorRun::<T>::initial(context), events).phase),
    ensures
        retry_was_opened(OrchestratorRun::<T>::initial(context), events),
    decreases events.len(),
{
    let start = OrchestratorRun::<T>::initial(context);
    if events.len() > 0 {
        let earlier = events.drop_last();
        let before = replay(start, earlier);
        attempts_need_consent(before, events.last());
        if in_retry(before.phase) {
            no_retry_without_consent(context, earlier);
            let i = choose|i: int|
                0 <= i < earlier.len() && opens_retry(
                    #[trigger] replay(start, earlier.take(i)),
                    earlier[i],
                );
            assert(events.take(i) =~= earlier.take(i));
            assert(opens_retry(replay(start, events.take(i)), events[i]));
        } else {
            let i = events.len() - 1;
            assert(events.take(i) =~= earlier);
            assert(opens_retry(replay(start, events.take(i)), events[i]));
        }
    }
}

/// Whether the run has come as far as its first attempt, or further without
/// being over.
pub open spec fn has_started<T: ToolTypes>(phase: Phase<T>) -> bool {
    match phase {
        Phase::SandboxMode => true,
        Phase::Attempt(_) => true,
        Phase::Denied(_) => true,
        Phase::Approval(approval) => approval.stage is Retry,
        _ => false,
    }
}

/// Whether one of the events opened the way to the first attempt.
pub open spec fn first_attempt_was_opened<T: ToolTypes>(
    run: OrchestratorRun<T>,
    events: Seq<Event<T>>,
) -> bool {
    exists|i: int|
        0 <= i < events.len() && opens_first_attempt(
            #[trigger] replay(run, events.take(i)),
            events[i],
        )
}

/// No tool is attempted at all unless the way there was opened.
pub proof fn no_attempt_without_consent<T: ToolTypes>(context: RunContext, events: Seq<Event<T>>)
    requires
        has_started(replay(OrchestratorRun::<T>::initial(context), events).phase),
    ensures
        first_attempt_was_opened(OrchestratorRun::<T>::initial(context), events),
    decreases events.len(),
{
    let start = OrchestratorRun::<T>::initial(context);
    if events.len() > 0 {
        let earlier = events.drop_last();
        let before = replay(start, earlier);
        if has_started(before.phase) {
            no_attempt_without_consent(context, earlier);
            let i = choose|i: int|
                0 <= i < earlier.len() && opens_first_attempt(
                    #[trigger] replay(start, earlier.take(i)),
                    earlier[i],
                );
            assert(events.take(i) =~= earlier.take(i));
            assert(opens_first_attempt(replay(start, events.take(i)), events[i]));
        } else {
            let i = events.len() - 1;
            assert(events.take(i) =~= earlier);
            assert(opens_first_attempt(replay(start, events.take(i)), events[i]));
        }
    }
}

/// A tool call that is forbidden is rejected with the reason given, before
/// anything runs.
pub proof fn forbidden_is_rejected<T: ToolTypes>(run: OrchestratorRun<T>, reason: String)
    ensures
        run.phase is ToolRequirement ==> run.next(
            Event::ToolRequirement(Some(ExecApprovalRequirement::Forbidden { reason })),
        ).phase == Phase::<T>::Done(Outcome::Rejected(Rejection::Forbidden(reason))),
        run.phase is DefaultRequirement ==> run.next(
            Event::DefaultRequirement(ExecApprovalRequirement::Forbidden { reason }),
        ).phase == Phase::<T>::Done(Outcome::Rejected(Rejection::Forbidden(reason))),
{
}

/// Whether the run can only end in a rejection.
pub open spec fn is_being_rejected<T: ToolTypes>(phase: Phase<T>) -> bool {
    match phase {
        Phase::Approval(approval) => approval.step == ApprovalStep::RejectionMessage
            || approval.step == ApprovalStep::TimeoutMessage,
        Phase::Done(outcome) => outcome is Rejected,
        _ => false,
    }
}

/// After a decision that does not let the tool run, the run ends in a rejection
/// and nothing else.
pub proof fn a_refusal_is_final<T: ToolTypes>(
    run: OrchestratorRun<T>,
    decision: ReviewDecision<T>,
    event: Event<T>,
)
    requires
        !lets_run(decision),
    ensures
        run.phase is Approval && awaits(run, Event::Decision(decision)) ==> is_being_rejected(
            run.next(Event::Decision(decision)).phase,
        ),
        is_being_rejected(run.phase) ==> is_being_rejected(run.next(event).phase),
{
}

/// Permission hooks come first: where they decide, nobody else is asked, and a
/// refusal of theirs is the rejection.
pub proof fn hooks_come_first<T: ToolTypes>(
    run: OrchestratorRun<T>,
    decision: PermissionRequestDecision,
)
    requires
        awaits(run, Event::HookDecision(Some(decision))),
    ensures
        match decision {
            PermissionRequestDecision::Allow => in_first_attempt(
                run.next(Event::HookDecision(Some(decision))).phase,
            ) || in_retry(run.next(Event::HookDecision(Some(decision))).phase),
            PermissionRequestDecision::Deny { message } => run.next(
                Event::HookDecision(Some(decision)),
            ).phase == Phase::<T>::Done(Outcome::Rejected(Rejection::ByHook(message))),
        },
{
}

// ---------------------------------------------------------------------------
// Decisions are recorded
// ---------------------------------------------------------------------------

/// The decisions that are recorded with a series of events, in their order.
pub open spec fn records<T: ToolTypes>(run: OrchestratorRun<T>, events: Seq<Event<T>>) -> Seq<
    DecisionRecord<T>,
>
    decreases events.len(),
{
    if events.len() == 0 {
        Seq::empty()
    } else {
        let earlier = records(run, events.drop_last());
        match replay(run, events.drop_last()).record(events.last()) {
            Some(record) => earlier.push(record),
            None => earlier,
        }
    }
}

/// Whether all the events but the last leave the run in the approval that it is
/// in.
pub open spec fn stays_in_approval<T: ToolTypes>(
    run: OrchestratorRun<T>,
    events: Seq<Event<T>>,
) -> bool {
    forall|i: int|
        0 <= i < events.len() ==> (#[trigger] replay(run, events.take(i))).phase is Approval
}

/// What an approval has recorded so far: nothing until it is decided, and then
/// the refusal that it still wants words for.
proof fn lemma_records_of_an_approval<T: ToolTypes>(
    run: OrchestratorRun<T>,
    stage: Stage<T>,
    events: Seq<Event<T>>,
)
    requires
        run.phase == approval_start(stage, run.context.use_guardian),
        stays_in_approval(run, events),
    ensures
        ({
            let recorded = records(run, events);
            match replay(run, events).phase {
                Phase::Approval(approval) => if is_being_rejected::<T>(Phase::Approval(approval)) {
                    recorded.len() == 1 && !lets_run(recorded[0].decision)
                } else {
                    recorded.len() == 0
                },
                phase => recorded.len() == 1 && (lets_run(recorded[0].decision)
                    <==> !(phase is Done)),
            }
        }),
    decreases events.len(),
{
    if events.len() > 0 {
        let earlier = events.drop_last();
        assert forall|i: int| 0 <= i < earlier.len() implies (#[trigger] replay(
            run,
            earlier.take(i),
        )).phase is Approval by {
            assert(earlier.take(i) =~= events.take(i));
        }
        lemma_records_of_an_approval(run, stage, earlier);
        assert(events.take(events.len() - 1) =~= earlier);
        assert(replay(run, earlier).phase is Approval);
    }
}

/// An approval records one decision, no more and no less, by the time it is
/// over; the run goes on if that decision lets the tool run, and is over if it
/// does not.
pub proof fn an_approval_records_one_decision<T: ToolTypes>(
    run: OrchestratorRun<T>,
    stage: Stage<T>,
    events: Seq<Event<T>>,
)
    requires
        run.phase == approval_start(stage, run.context.use_guardian),
        stays_in_approval(run, events),
        !(replay(run, events).phase is Approval),
    ensures
        records(run, events).len() == 1,
        replay(run, events).phase is Done <==> !lets_run(records(run, events)[0].decision),
{
    lemma_records_of_an_approval(run, stage, events);
}

// ---------------------------------------------------------------------------
// Denials
// ---------------------------------------------------------------------------

/// A denial that is not retried is handed back as it was.
pub proof fn a_denial_is_handed_back_unchanged<T: ToolTypes>(
    run: OrchestratorRun<T>,
    event: Event<T>,
)
    ensures
        run.phase is Denied && run.next(event).phase is Done ==> run.next(event).phase
            == Phase::<T>::Done(
            Outcome::Failed(ToolError::SandboxDenied(run.phase->Denied_0.denial)),
        ),
{
}

/// A retry that was asked about a network access is never run without approval.
pub proof fn network_access_is_always_asked<T: ToolTypes>(
    run: OrchestratorRun<T>,
    event: Event<T>,
)
    ensures
        run.phase is Denied && run.phase->Denied_0.network is Some ==> !in_retry(
            run.next(event).phase,
        ),
{
}

/// A tool that says so is retried without being approved again, unless a
/// network access is asked for.
pub proof fn no_second_approval<T: ToolTypes>(run: OrchestratorRun<T>)
    requires
        run.phase is Denied,
        run.phase->Denied_0.step == DenialStep::BypassApproval,
        run.phase->Denied_0.network is None,
    ensures
        run.next(Event::BypassApproval(true)).phase == attempt_start::<T>(
            true,
            SandboxType::Unsandboxed,
        ),
{
}

/// That the first attempt was approved is remembered, and known from nothing
/// but an approval.
pub proof fn approval_is_remembered<T: ToolTypes>(run: OrchestratorRun<T>, event: Event<T>)
    ensures
        run.next(event).already_approved <==> run.already_approved || (run.phase is Approval
            && opens_first_attempt(run, event)),
{
}

} // verus!
