//! What each answer leads to, and what is asked for at each step of a run.

use vstd::prelude::*;

use crate::orchestrator::{
    after_requirement, approval_next, approval_record, attempt_next, denial_reason, denied_next,
    requirement_record, Action, ActionModel, Approval, ApprovalStep, Attempt, AttemptStep,
    DecisionRecord, DenialStep, Denied, Event, ExecApprovalRequirement, NetworkApprovalContext,
    NetworkApprovalMode, NetworkPolicyRuleAction, OrchestratorRun, OrchestratorRunResult, Outcome,
    PermissionRequestDecision, Phase, Rejection, ReviewDecision, RunContext, SandboxAttempt,
    SandboxDenial, SandboxOverride, SandboxType, Stage, ToolDecisionSource, ToolError, ToolTypes,
};
use crate::orchestrator_laws::replay;
use crate::orchestrator_outcome::{answer, play, Answers};

verus! {

// ---------------------------------------------------------------------------
// Approval
// ---------------------------------------------------------------------------

/// A run begins by asking the tool, knowing of no approval.
pub proof fn how_a_run_begins<T: ToolTypes>(context: RunContext)
    ensures
        OrchestratorRun::<T>::initial(context).context == context,
        !OrchestratorRun::<T>::initial(context).already_approved,
        OrchestratorRun::<T>::initial(context).phase is ToolRequirement,
        OrchestratorRun::<T>::initial(context).action() is AskToolRequirement,
{
}

/// What a run knows when it starts stays as it is; every part of a run goes on by
/// its own rules.
pub proof fn what_goes_on_by_which_rules<T: ToolTypes>(
    run: OrchestratorRun<T>,
    event: Event<T>,
    requirement: ExecApprovalRequirement,
)
    ensures
        run.next(event).context == run.context,
        run.phase is ToolRequirement ==> run.next(Event::ToolRequirement(None)).phase
            is DefaultRequirement,
        run.phase is ToolRequirement ==> run.next(Event::ToolRequirement(Some(requirement))).phase
            == after_requirement::<T>(requirement, run.context.use_guardian) && run.record(
            Event::ToolRequirement(Some(requirement)),
        ) == requirement_record::<T>(requirement),
        run.phase is DefaultRequirement ==> run.next(Event::DefaultRequirement(requirement)).phase
            == after_requirement::<T>(requirement, run.context.use_guardian) && run.record(
            Event::DefaultRequirement(requirement),
        ) == requirement_record::<T>(requirement),
        run.phase matches Phase::Approval(approval) ==> run.next(event).phase == approval_next(
            approval,
            event,
        ) && run.record(event) == approval_record(approval, event, run.context.use_guardian),
        run.phase matches Phase::Attempt(attempt) ==> run.next(event).phase == attempt_next(
            attempt,
            event,
            run.context.managed_network_active,
        ),
        run.phase matches Phase::Denied(denied) ==> run.next(event).phase == denied_next(
            denied,
            event,
            run.context,
        ),
        run.phase is Done ==> run.next(event) == run,
        run.phase is SandboxMode || run.phase is Attempt || run.phase is Denied || run.phase is Done
            ==> run.record(event) is None,
        run.record(Event::ToolRequirement(None)) is None,
        run.phase matches Phase::Approval(approval) ==> (approval.step != ApprovalStep::Hooks
            && approval.step != ApprovalStep::Decision ==> run.record(event) is None),
{
}

/// Where no approval is required the tool is attempted, and that is recorded as
/// the configuration's decision; where one is, it is asked for with the reason
/// given; where the tool is forbidden, the run is over.
pub proof fn what_a_requirement_leads_to<T: ToolTypes>(
    use_guardian: bool,
    reason: Option<String>,
    ground: String,
)
    ensures
        after_requirement::<T>(ExecApprovalRequirement::Skip, use_guardian) is SandboxMode,
        requirement_record::<T>(ExecApprovalRequirement::Skip) == Some(
            DecisionRecord {
                decision: ReviewDecision::<T>::Approved,
                source: ToolDecisionSource::Config,
            },
        ),
        after_requirement::<T>(ExecApprovalRequirement::NeedsApproval { reason }, use_guardian)
            == Phase::Approval(
            Approval::<T> {
                stage: Stage::Initial { reason },
                review_id: None,
                step: if use_guardian {
                    ApprovalStep::ReviewId
                } else {
                    ApprovalStep::PermissionPayload
                },
            },
        ),
        requirement_record::<T>(ExecApprovalRequirement::NeedsApproval { reason }) is None,
        after_requirement::<T>(ExecApprovalRequirement::Forbidden { reason: ground }, use_guardian)
            == Phase::<T>::Done(Outcome::Rejected(Rejection::Forbidden(ground))),
        requirement_record::<T>(ExecApprovalRequirement::Forbidden { reason: ground }) is None,
{
}

/// Whether what was asked for is granted: the first attempt is prepared, or the
/// retry is on, outside the sandbox.
pub open spec fn is_granted<T: ToolTypes>(stage: Stage<T>, phase: Phase<T>) -> bool {
    match stage {
        Stage::Initial { .. } => phase is SandboxMode,
        Stage::Retry { .. } => phase == Phase::Attempt(
            Attempt::<T> {
                escalated: true,
                sandbox: SandboxType::Unsandboxed,
                step: AttemptStep::NetworkApproval,
            },
        ),
    }
}

/// An approval gets an id for the guardian's review, then shows the hooks what
/// there is to show, and asks only where they leave it open.
pub proof fn how_an_approval_gets_to_its_decision<T: ToolTypes>(
    stage: Stage<T>,
    review_id: Option<String>,
    id: String,
    message: String,
    use_guardian: bool,
)
    ensures
        ({
            let at = |step: ApprovalStep| Approval::<T> { stage, review_id, step };
            let reviewed = Approval::<T> {
                stage,
                review_id: Some(id),
                step: ApprovalStep::PermissionPayload,
            };
            let allow = Event::<T>::HookDecision(Some(PermissionRequestDecision::Allow));
            let deny = Event::<T>::HookDecision(Some(PermissionRequestDecision::Deny { message }));
            &&& approval_next(at(ApprovalStep::ReviewId), Event::ReviewId(id)) == Phase::Approval(
                reviewed,
            )
            &&& approval_next(at(ApprovalStep::PermissionPayload), Event::PermissionPayload(true))
                == Phase::Approval(at(ApprovalStep::Hooks))
            &&& approval_next(at(ApprovalStep::PermissionPayload), Event::PermissionPayload(false))
                == Phase::Approval(at(ApprovalStep::Decision))
            &&& approval_next(at(ApprovalStep::Hooks), Event::HookDecision(None))
                == Phase::Approval(at(ApprovalStep::Decision))
            &&& is_granted(stage, approval_next(at(ApprovalStep::Hooks), allow))
            &&& approval_next(at(ApprovalStep::Hooks), deny) == Phase::<T>::Done(
                Outcome::Rejected(Rejection::ByHook(message)),
            )
            &&& approval_record(at(ApprovalStep::Hooks), allow, use_guardian) == Some(
                DecisionRecord {
                    decision: ReviewDecision::<T>::Approved,
                    source: ToolDecisionSource::Config,
                },
            )
            &&& approval_record(at(ApprovalStep::Hooks), deny, use_guardian) == Some(
                DecisionRecord {
                    decision: ReviewDecision::<T>::Denied,
                    source: ToolDecisionSource::Config,
                },
            )
            &&& approval_record(
                at(ApprovalStep::Hooks),
                Event::HookDecision(None),
                use_guardian,
            ) is None
            &&& approval_record(
                at(ApprovalStep::ReviewId),
                Event::ReviewId(id),
                use_guardian,
            ) is None
        }),
{
}

/// Every decision is recorded as it is, as the guardian's or the user's. The ones
/// that approve grant what was asked for, and so does an amendment of the network
/// policy that allows; one that denies is a rejection by the user; a denial is
/// given in the guardian's words where there was a review, and a timeout in
/// words of its own.
pub proof fn what_a_decision_leads_to<T: ToolTypes>(
    stage: Stage<T>,
    review_id: Option<String>,
    exec_amendment: T::ExecPolicyAmendment,
    amendment: T::NetworkPolicyAmendment,
    decision: ReviewDecision<T>,
    use_guardian: bool,
    words: String,
)
    ensures
        ({
            let asked = Approval::<T> { stage, review_id, step: ApprovalStep::Decision };
            let rejection = Approval::<T> {
                stage,
                review_id,
                step: ApprovalStep::RejectionMessage,
            };
            let timeout = Approval::<T> { stage, review_id, step: ApprovalStep::TimeoutMessage };
            let by_user = Phase::<T>::Done(Outcome::Rejected(Rejection::ByUser));
            let denied = if review_id is Some {
                Phase::Approval(rejection)
            } else {
                by_user
            };
            let next = |decision: ReviewDecision<T>| approval_next(
                asked,
                Event::Decision(decision),
            );
            let allows = ReviewDecision::NetworkPolicyAmendment {
                action: NetworkPolicyRuleAction::Allow,
                amendment,
            };
            let denies = ReviewDecision::NetworkPolicyAmendment {
                action: NetworkPolicyRuleAction::Deny,
                amendment,
            };
            &&& is_granted(stage, next(ReviewDecision::Approved))
            &&& is_granted(stage, next(ReviewDecision::ApprovedForSession))
            &&& is_granted(
                stage,
                next(ReviewDecision::ApprovedExecpolicyAmendment(exec_amendment)),
            )
            &&& is_granted(stage, next(allows))
            &&& next(denies) == by_user
            &&& next(ReviewDecision::Denied) == denied
            &&& next(ReviewDecision::Abort) == denied
            &&& next(ReviewDecision::TimedOut) == Phase::Approval(timeout)
            &&& approval_next(rejection, Event::Message(words)) == Phase::<T>::Done(
                Outcome::Rejected(Rejection::ByGuardian(words)),
            )
            &&& approval_next(timeout, Event::Message(words)) == Phase::<T>::Done(
                Outcome::Rejected(Rejection::TimedOut(words)),
            )
            &&& approval_record(asked, Event::Decision(decision), use_guardian) == Some(
                DecisionRecord {
                    decision,
                    source: if use_guardian {
                        ToolDecisionSource::AutomatedReviewer
                    } else {
                        ToolDecisionSource::User
                    },
                },
            )
        }),
{
}

/// That the first attempt was approved is known once it was, and by nothing else.
pub proof fn when_an_approval_is_known<T: ToolTypes>(run: OrchestratorRun<T>, event: Event<T>)
    ensures
        run.already_approved ==> run.next(event).already_approved,
        run.phase is Approval && run.next(event).phase is SandboxMode ==> run.next(
            event,
        ).already_approved,
        !run.already_approved && !(run.phase is Approval && run.next(event).phase is SandboxMode)
            ==> !run.next(event).already_approved,
{
}

/// A rejection is told in the words it came with, and one by the user in words of
/// its own.
pub proof fn a_rejection_in_words(words: String)
    ensures
        Rejection::Forbidden(words).words() == words@,
        Rejection::ByHook(words).words() == words@,
        Rejection::ByGuardian(words).words() == words@,
        Rejection::TimedOut(words).words() == words@,
        Rejection::ByUser.words() == "rejected by user"@,
{
}

// ---------------------------------------------------------------------------
// Attempts
// ---------------------------------------------------------------------------

/// Whatever was approved before, a tool that wants its first attempt outside the
/// sandbox gets it there, and any other gets the selected sandbox.
pub proof fn the_tool_says_which_sandbox<T: ToolTypes>(run: OrchestratorRun<T>)
    requires
        run.phase is SandboxMode,
    ensures
        run.next(Event::SandboxMode(SandboxOverride::BypassSandboxFirstAttempt)).phase
            == Phase::Attempt(
            Attempt::<T> {
                escalated: false,
                sandbox: SandboxType::Unsandboxed,
                step: AttemptStep::NetworkApproval,
            },
        ),
        run.next(Event::SandboxMode(SandboxOverride::NoOverride)).phase == Phase::Attempt(
            Attempt::<T> {
                escalated: false,
                sandbox: SandboxType::Selected,
                step: AttemptStep::NetworkApproval,
            },
        ),
{
}

/// Whether a run is at an attempt that has the sandbox it is to have.
pub open spec fn has_its_sandbox<T: ToolTypes>(
    run: OrchestratorRun<T>,
    mode: SandboxOverride,
) -> bool {
    run.phase matches Phase::Attempt(attempt) ==> attempt.sandbox == (if attempt.escalated || mode
        == SandboxOverride::BypassSandboxFirstAttempt {
        SandboxType::Unsandboxed
    } else {
        SandboxType::Selected
    })
}

proof fn lemma_sandbox_of_a_played_run<T: ToolTypes>(
    run: OrchestratorRun<T>,
    answers: Answers<T>,
    count: nat,
)
    requires
        has_its_sandbox(run, answers.sandbox_mode),
    ensures
        has_its_sandbox(play(run, answers, count), answers.sandbox_mode),
        play(run, answers, count).context == run.context,
    decreases count,
{
    if count > 0 {
        lemma_sandbox_of_a_played_run(
            run.next(answer(run, answers)),
            answers,
            (count - 1) as nat,
        );
    }
}

/// Whenever a run has the tool run, it names the sandbox that the tool wanted for
/// its first attempt, and none for the retry; the retry gets no sandbox helper,
/// and both have the managed network enforced where it is active.
pub proof fn the_tool_runs_in_the_sandbox_it_wanted<T: ToolTypes>(
    context: RunContext,
    answers: Answers<T>,
    count: nat,
)
    ensures
        play(OrchestratorRun::<T>::initial(context), answers, count).phase
            matches Phase::Attempt(attempt) ==> attempt.sandbox == (if attempt.escalated {
            SandboxType::Unsandboxed
        } else {
            match answers.sandbox_mode {
                SandboxOverride::BypassSandboxFirstAttempt => SandboxType::Unsandboxed,
                SandboxOverride::NoOverride => SandboxType::Selected,
            }
        }),
        play(OrchestratorRun::<T>::initial(context), answers, count).action()
            matches ActionModel::RunTool { attempt } ==> {
            &&& attempt.enforce_managed_network == context.managed_network_active
            &&& !attempt.with_linux_sandbox_exe ==> attempt.sandbox == SandboxType::Unsandboxed
            &&& attempt.with_linux_sandbox_exe && answers.sandbox_mode
                == SandboxOverride::BypassSandboxFirstAttempt ==> attempt.sandbox
                == SandboxType::Unsandboxed
            &&& attempt.with_linux_sandbox_exe && answers.sandbox_mode
                == SandboxOverride::NoOverride ==> attempt.sandbox == SandboxType::Selected
        },
{
    lemma_sandbox_of_a_played_run(OrchestratorRun::<T>::initial(context), answers, count);
}

/// Whatever the events, the sandbox of a first attempt is the one that the tool
/// gave as the answer when it was asked.
pub proof fn the_sandbox_was_asked_for<T: ToolTypes>(
    context: RunContext,
    events: Seq<Event<T>>,
) -> (at: int)
    requires
        replay(OrchestratorRun::<T>::initial(context), events).phase is Attempt,
        !replay(OrchestratorRun::<T>::initial(context), events).phase->Attempt_0.escalated,
    ensures
        0 <= at < events.len(),
        replay(OrchestratorRun::<T>::initial(context), events.take(at)).action() is AskSandboxMode,
        events[at] matches Event::SandboxMode(mode) && replay(
            OrchestratorRun::<T>::initial(context),
            events,
        ).phase->Attempt_0.sandbox == (match mode {
            SandboxOverride::BypassSandboxFirstAttempt => SandboxType::Unsandboxed,
            SandboxOverride::NoOverride => SandboxType::Selected,
        }),
    decreases events.len(),
{
    let start = OrchestratorRun::<T>::initial(context);
    if events.len() == 0 {
        0
    } else {
        let earlier = events.drop_last();
        let before = replay(start, earlier);
        if before.phase is Attempt {
            let at = the_sandbox_was_asked_for(context, earlier);
            assert(events.take(at) =~= earlier.take(at));
            at
        } else {
            assert(events.take(events.len() - 1) =~= earlier);
            events.len() - 1
        }
    }
}

/// An attempt begins its network approval, runs the tool, and settles the
/// approval: an immediate one whatever the tool returned, a deferred one after a
/// failure only. It stays in its sandbox all along.
pub proof fn how_an_attempt_goes_on<T: ToolTypes>(
    escalated: bool,
    sandbox: SandboxType,
    managed: bool,
    mode: Option<NetworkApprovalMode>,
    output: T::Output,
    error: ToolError<T>,
    result: Result<T::Output, ToolError<T>>,
)
    ensures
        ({
            let at = |step: AttemptStep<T>| Attempt::<T> { escalated, sandbox, step };
            let deferred = AttemptStep::<T>::Tool(Some(NetworkApprovalMode::Deferred));
            &&& attempt_next(
                at(AttemptStep::NetworkApproval),
                Event::NetworkApproval(mode),
                managed,
            ) == Phase::Attempt(at(AttemptStep::Tool(mode)))
            &&& attempt_next(
                at(AttemptStep::Tool(Some(NetworkApprovalMode::Immediate))),
                Event::ToolFinished(result),
                managed,
            ) == Phase::Attempt(at(AttemptStep::FinishImmediate(result)))
            &&& attempt_next(at(deferred), Event::ToolFinished(Ok(output)), managed)
                == Phase::Attempt(at(AttemptStep::TakeDeferred(output)))
            &&& attempt_next(at(deferred), Event::ToolFinished(Err(error)), managed)
                == Phase::Attempt(at(AttemptStep::FinishDeferred(error)))
        }),
{
}

/// Whether an attempt that came to a success is the end of the run, with what it
/// returned and what is left to settle.
pub open spec fn ends_well<T: ToolTypes>(
    phase: Phase<T>,
    output: T::Output,
    deferred: Option<T::DeferredApproval>,
) -> bool {
    phase == Phase::<T>::Done(
        Outcome::Completed(
            OrchestratorRunResult { output, deferred_network_approval: deferred },
        ),
    )
}

/// An attempt that succeeds ends the run with what the tool returned; a deferred
/// network approval is handed on with it, and no other.
pub proof fn what_a_success_leads_to<T: ToolTypes>(
    escalated: bool,
    sandbox: SandboxType,
    managed: bool,
    output: T::Output,
    deferred: Option<T::DeferredApproval>,
)
    ensures
        ({
            let at = |step: AttemptStep<T>| Attempt::<T> { escalated, sandbox, step };
            &&& ends_well(
                attempt_next(at(AttemptStep::Tool(None)), Event::ToolFinished(Ok(output)), managed),
                output,
                None,
            )
            &&& ends_well(
                attempt_next(
                    at(AttemptStep::FinishImmediate(Ok(output))),
                    Event::ImmediateFinished(Ok(())),
                    managed,
                ),
                output,
                None,
            )
            &&& ends_well(
                attempt_next(
                    at(AttemptStep::TakeDeferred(output)),
                    Event::DeferredTaken(deferred),
                    managed,
                ),
                output,
                deferred,
            )
        }),
{
}

/// An attempt that fails ends the run with its error, unless the sandbox denied
/// the first one. A denial by the network policy stands at once where the network
/// is not managed.
pub proof fn what_a_failure_leads_to<T: ToolTypes>(
    escalated: bool,
    sandbox: SandboxType,
    managed: bool,
    result: Result<T::Output, ToolError<T>>,
    error: ToolError<T>,
)
    ensures
        ({
            let at = |step: AttemptStep<T>| Attempt::<T> { escalated, sandbox, step };
            let failed = attempt_next(
                at(AttemptStep::Tool(None)),
                Event::ToolFinished(Err(error)),
                managed,
            );
            &&& attempt_next(
                at(AttemptStep::FinishImmediate(Err(error))),
                Event::ImmediateFinished(Ok(())),
                managed,
            ) == failed
            &&& attempt_next(
                at(AttemptStep::FinishImmediate(result)),
                Event::ImmediateFinished(Err(error)),
                managed,
            ) == failed
            &&& attempt_next(
                at(AttemptStep::FinishDeferred(error)),
                Event::DeferredFinished,
                managed,
            ) == failed
            &&& escalated || error !is SandboxDenied ==> failed == Phase::<T>::Done(
                Outcome::Failed(error),
            )
            &&& !escalated ==> (error matches ToolError::SandboxDenied(denial) ==> {
                &&& denial.network_policy_decision is None ==> failed == Phase::Denied(
                    Denied::<T> { denial, network: None, step: DenialStep::EscalateOnFailure },
                )
                &&& denial.network_policy_decision is Some && managed ==> failed == Phase::Denied(
                    Denied::<T> { denial, network: None, step: DenialStep::NetworkContext },
                )
                &&& denial.network_policy_decision is Some && !managed ==> failed
                    == Phase::<T>::Done(Outcome::Failed(error))
            })
        }),
{
}

// ---------------------------------------------------------------------------
// Denials
// ---------------------------------------------------------------------------

/// A denial leads to a retry step by step: the network access must be known where
/// the network policy denied, the tool must be one that is retried, and asking
/// must be allowed, or else the denial stands as it was. The retry goes without
/// approval only where the tool says so and no network access is asked for.
pub proof fn how_a_denial_goes_on<T: ToolTypes>(
    denial: SandboxDenial<T>,
    network: Option<NetworkApprovalContext<T>>,
    known: NetworkApprovalContext<T>,
    context: RunContext,
    requirement: ExecApprovalRequirement,
    bypass: bool,
)
    ensures
        ({
            let at = |step: DenialStep| Denied::<T> { denial, network, step };
            let stands = Phase::<T>::Done(Outcome::Failed(ToolError::SandboxDenied(denial)));
            let next = |step: DenialStep, event: Event<T>| denied_next(at(step), event, context);
            &&& next(DenialStep::NetworkContext, Event::NetworkContext(None)) == stands
            &&& next(DenialStep::NetworkContext, Event::NetworkContext(Some(known)))
                == Phase::Denied(
                Denied::<T> {
                    denial,
                    network: Some(known),
                    step: DenialStep::EscalateOnFailure,
                },
            )
            &&& next(DenialStep::EscalateOnFailure, Event::EscalateOnFailure(false)) == stands
            &&& next(DenialStep::EscalateOnFailure, Event::EscalateOnFailure(true))
                == Phase::Denied(at(DenialStep::WantsNoSandboxApproval))
            &&& next(DenialStep::WantsNoSandboxApproval, Event::WantsNoSandboxApproval(true))
                == Phase::Denied(at(DenialStep::BypassApproval))
            &&& context.approval_on_request && network is Some ==> next(
                DenialStep::WantsNoSandboxApproval,
                Event::WantsNoSandboxApproval(false),
            ) == Phase::Denied(at(DenialStep::RetryRequirement))
            &&& !context.approval_on_request || network is None ==> next(
                DenialStep::WantsNoSandboxApproval,
                Event::WantsNoSandboxApproval(false),
            ) == stands
            &&& next(DenialStep::RetryRequirement, Event::RetryRequirement(requirement)) == (
            if requirement is NeedsApproval {
                Phase::Denied(at(DenialStep::BypassApproval))
            } else {
                stands
            })
            &&& bypass && network is None ==> next(
                DenialStep::BypassApproval,
                Event::BypassApproval(bypass),
            ) == Phase::Attempt(
                Attempt::<T> {
                    escalated: true,
                    sandbox: SandboxType::Unsandboxed,
                    step: AttemptStep::NetworkApproval,
                },
            )
            &&& !bypass || network is Some ==> next(
                DenialStep::BypassApproval,
                Event::BypassApproval(bypass),
            ) == Phase::Approval(
                Approval::<T> {
                    stage: Stage::Retry { denial, network },
                    review_id: None,
                    step: if context.use_guardian {
                        ApprovalStep::ReviewId
                    } else {
                        ApprovalStep::PermissionPayload
                    },
                },
            )
        }),
{
}

// ---------------------------------------------------------------------------
// What is asked for
// ---------------------------------------------------------------------------

/// An approval is asked for with its reason: the one given, or that the network
/// access to the host is blocked, or that the command failed. Hooks run under the
/// id of the call, marked where it is a retry.
pub proof fn what_an_approval_asks_for<T: ToolTypes>(
    run: OrchestratorRun<T>,
    reason: Option<String>,
    denial: SandboxDenial<T>,
    known: NetworkApprovalContext<T>,
    approval: Approval<T>,
)
    requires
        run.phase == Phase::Approval(approval),
    ensures
        approval.step == ApprovalStep::ReviewId ==> run.action() is NewReviewId,
        approval.step == ApprovalStep::PermissionPayload ==> run.action() is AskPermissionPayload,
        approval.step == ApprovalStep::Hooks && approval.stage is Initial ==> run.action()
            == (ActionModel::RunPermissionHooks { run_id: run.context.call_id@ }),
        approval.step == ApprovalStep::Hooks && approval.stage is Retry ==> run.action()
            == (ActionModel::RunPermissionHooks { run_id: run.context.call_id@ + ":retry"@ }),
        approval.step == ApprovalStep::Decision ==> (run.action()
            matches ActionModel::RequestApproval { review_id, retry_reason, network_host } && {
            &&& approval.review_id matches Some(id) ==> review_id == Some(id@)
            &&& approval.review_id is None ==> review_id is None
            &&& approval.stage == (Stage::<T>::Initial { reason }) ==> {
                &&& network_host is None
                &&& reason matches Some(given) ==> retry_reason == Some(given@)
                &&& reason is None ==> retry_reason is None
            }
            &&& approval.stage == (Stage::Retry { denial, network: Some(known) }) ==> {
                &&& network_host == Some(known.host@)
                &&& retry_reason == Some(
                    "Network access to \""@ + known.host@ + "\" is blocked by policy."@,
                )
            }
            &&& approval.stage == (Stage::Retry { denial, network: None }) ==> {
                &&& network_host is None
                &&& retry_reason == Some("command failed; retry without sandbox?"@)
            }
        }),
        approval.step == ApprovalStep::RejectionMessage ==> (run.action()
            matches ActionModel::GetRejectionMessage { review_id } && (approval.review_id
            matches Some(id) ==> review_id == id@)),
        denial_reason() == "command failed; retry without sandbox?"@,
        approval.step == ApprovalStep::TimeoutMessage ==> run.action() is GetTimeoutMessage,
{
}

/// What is asked for is what it says.
pub proof fn what_an_action_says(
    attempt: SandboxAttempt,
    flag: bool,
    review_id: Option<String>,
    retry_reason: Option<String>,
    network_host: Option<String>,
    id: String,
)
    ensures
        (Action::RunTool { attempt })@ == (ActionModel::RunTool { attempt }),
        (Action::RequestApproval { review_id, retry_reason, network_host })@
            matches ActionModel::RequestApproval {
            review_id: r,
            retry_reason: t,
            network_host: h,
        } && {
            &&& r == (match review_id {
                Some(s) => Some(s@),
                None => None,
            })
            &&& t == (match retry_reason {
                Some(s) => Some(s@),
                None => None,
            })
            &&& h == (match network_host {
                Some(s) => Some(s@),
                None => None,
            })
        },
        (Action::RunPermissionHooks { run_id: id })@ == (ActionModel::RunPermissionHooks {
            run_id: id@,
        }),
        (Action::GetRejectionMessage { review_id: id })@ == (ActionModel::GetRejectionMessage {
            review_id: id@,
        }),
        (Action::BeginNetworkApproval { managed_network_active: flag })@
            == (ActionModel::BeginNetworkApproval { managed_network_active: flag }),
        (Action::AskBypassApproval { already_approved: flag })@
            == (ActionModel::AskBypassApproval { already_approved: flag }),
        Action::AskToolRequirement@ == ActionModel::AskToolRequirement,
        Action::ComputeDefaultRequirement@ == ActionModel::ComputeDefaultRequirement,
        Action::NewReviewId@ == ActionModel::NewReviewId,
        Action::AskPermissionPayload@ == ActionModel::AskPermissionPayload,
        Action::GetTimeoutMessage@ == ActionModel::GetTimeoutMessage,
        Action::AskSandboxMode@ == ActionModel::AskSandboxMode,
        Action::FinishImmediateNetworkApproval@ == ActionModel::FinishImmediateNetworkApproval,
        Action::FinishDeferredNetworkApproval@ == ActionModel::FinishDeferredNetworkApproval,
        Action::TakeDeferredNetworkApproval@ == ActionModel::TakeDeferredNetworkApproval,
        Action::ReadNetworkContext@ == ActionModel::ReadNetworkContext,
        Action::AskEscalateOnFailure@ == ActionModel::AskEscalateOnFailure,
        Action::AskWantsNoSandboxApproval@ == ActionModel::AskWantsNoSandboxApproval,
        Action::ComputeRetryRequirement@ == ActionModel::ComputeRetryRequirement,
        Action::Finish@ == ActionModel::Finish,
{
}

/// At every other step it is asked for what the step is about.
pub proof fn what_else_is_asked_for<T: ToolTypes>(run: OrchestratorRun<T>)
    ensures
        run.phase is ToolRequirement ==> run.action() is AskToolRequirement,
        run.phase is DefaultRequirement ==> run.action() is ComputeDefaultRequirement,
        run.phase is SandboxMode ==> run.action() is AskSandboxMode,
        run.phase is Done ==> run.action() is Finish,
        run.phase matches Phase::Attempt(attempt) ==> {
            &&& attempt.step is NetworkApproval ==> run.action()
                == (ActionModel::BeginNetworkApproval {
                managed_network_active: run.context.managed_network_active,
            })
            &&& attempt.step is Tool ==> run.action() == (ActionModel::RunTool {
                attempt: SandboxAttempt {
                    sandbox: attempt.sandbox,
                    enforce_managed_network: run.context.managed_network_active,
                    with_linux_sandbox_exe: !attempt.escalated,
                },
            })
            &&& attempt.step is FinishImmediate ==> run.action() is FinishImmediateNetworkApproval
            &&& attempt.step is FinishDeferred ==> run.action() is FinishDeferredNetworkApproval
            &&& attempt.step is TakeDeferred ==> run.action() is TakeDeferredNetworkApproval
        },
        run.phase matches Phase::Denied(denied) ==> {
            &&& denied.step == DenialStep::NetworkContext ==> run.action() is ReadNetworkContext
            &&& denied.step == DenialStep::EscalateOnFailure ==> run.action()
                is AskEscalateOnFailure
            &&& denied.step == DenialStep::WantsNoSandboxApproval ==> run.action()
                is AskWantsNoSandboxApproval
            &&& denied.step == DenialStep::RetryRequirement ==> run.action()
                is ComputeRetryRequirement
            &&& denied.step == DenialStep::BypassApproval ==> run.action()
                == (ActionModel::AskBypassApproval { already_approved: run.already_approved })
        },
{
}

} // verus!
