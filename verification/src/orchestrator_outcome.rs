//! What a whole run of a tool comes to, told from the answers that it gets.

use vstd::prelude::*;

use crate::orchestrator::{
    after_approval, after_attempt, after_denial, approval_start, attempt_start, lets_run,
    ApprovalStep, AttemptStep, DenialStep, Denied, Event, ExecApprovalRequirement,
    NetworkApprovalContext, NetworkApprovalMode, OrchestratorRun, OrchestratorRunResult, Outcome,
    PermissionRequestDecision, Phase, Rejection, ReviewDecision, RunContext, SandboxDenial,
    SandboxOverride, SandboxType, Stage, ToolError, ToolTypes,
};

verus! {

/// The answers that an approval gets, if it asks.
pub struct ApprovalAnswers<T: ToolTypes> {
    pub review_id: String,
    pub has_payload: bool,
    pub hook: Option<PermissionRequestDecision>,
    pub decision: ReviewDecision<T>,
    pub message: String,
}

/// The answers that an attempt gets, if it asks.
pub struct AttemptAnswers<T: ToolTypes> {
    pub mode: Option<NetworkApprovalMode>,
    pub result: Result<T::Output, ToolError<T>>,
    pub settled: Result<(), ToolError<T>>,
    pub deferred: Option<T::DeferredApproval>,
}

/// The answers that a run gets, if it asks.
pub struct Answers<T: ToolTypes> {
    pub tool_requirement: Option<ExecApprovalRequirement>,
    pub default_requirement: ExecApprovalRequirement,
    pub first_approval: ApprovalAnswers<T>,
    pub sandbox_mode: SandboxOverride,
    pub first_attempt: AttemptAnswers<T>,
    pub network_context: Option<NetworkApprovalContext<T>>,
    pub escalate_on_failure: bool,
    pub wants_no_sandbox_approval: bool,
    pub retry_requirement: ExecApprovalRequirement,
    pub bypass_approval: bool,
    pub retry_approval: ApprovalAnswers<T>,
    pub retry_attempt: AttemptAnswers<T>,
}

// ---------------------------------------------------------------------------
// What the answers come to
// ---------------------------------------------------------------------------

/// The approval that is required: the tool's own word counts, if it has one.
pub open spec fn requirement<T: ToolTypes>(answers: Answers<T>) -> ExecApprovalRequirement {
    match answers.tool_requirement {
        Some(requirement) => requirement,
        None => answers.default_requirement,
    }
}

/// How an approval is refused, if it is. Hooks decide where they do; else the
/// guardian or the user does. The guardian refuses in its own words.
pub open spec fn refusal<T: ToolTypes>(
    answers: ApprovalAnswers<T>,
    use_guardian: bool,
) -> Option<Rejection> {
    if answers.has_payload && answers.hook is Some {
        match answers.hook->0 {
            PermissionRequestDecision::Allow => None,
            PermissionRequestDecision::Deny { message } => Some(Rejection::ByHook(message)),
        }
    } else {
        match answers.decision {
            ReviewDecision::Denied | ReviewDecision::Abort => if use_guardian {
                Some(Rejection::ByGuardian(answers.message))
            } else {
                Some(Rejection::ByUser)
            },
            ReviewDecision::TimedOut => Some(Rejection::TimedOut(answers.message)),
            decision => if lets_run(decision) {
                None
            } else {
                Some(Rejection::ByUser)
            },
        }
    }
}

/// What an attempt comes to. Where an immediate network approval cannot be
/// settled, that is the result.
pub open spec fn attempt_result<T: ToolTypes>(answers: AttemptAnswers<T>) -> Result<
    T::Output,
    ToolError<T>,
> {
    match (answers.mode, answers.settled) {
        (Some(NetworkApprovalMode::Immediate), Err(error)) => Err(error),
        _ => answers.result,
    }
}

/// The network approval that is left to be settled after an attempt.
pub open spec fn attempt_deferred<T: ToolTypes>(answers: AttemptAnswers<T>) -> Option<
    T::DeferredApproval,
> {
    if answers.mode == Some(NetworkApprovalMode::Deferred) && answers.result is Ok {
        answers.deferred
    } else {
        None
    }
}

/// What is known of the network access behind a denial.
pub open spec fn denied_network<T: ToolTypes>(
    denial: SandboxDenial<T>,
    context: RunContext,
    answers: Answers<T>,
) -> Option<NetworkApprovalContext<T>> {
    if denial.network_policy_decision is Some && context.managed_network_active {
        answers.network_context
    } else {
        None
    }
}

/// Whether a denial may be retried outside the sandbox at all.
pub open spec fn may_retry<T: ToolTypes>(
    denial: SandboxDenial<T>,
    context: RunContext,
    answers: Answers<T>,
) -> bool {
    let network = denied_network(denial, context, answers);
    &&& denial.network_policy_decision is None || network is Some
    &&& answers.escalate_on_failure
    &&& answers.wants_no_sandbox_approval || (context.approval_on_request && network is Some
        && answers.retry_requirement is NeedsApproval)
}

/// How the retry is refused, if it is. It goes without approval where the tool
/// says so and no network access is asked for.
pub open spec fn retry_refusal<T: ToolTypes>(
    denial: SandboxDenial<T>,
    context: RunContext,
    answers: Answers<T>,
) -> Option<Rejection> {
    if answers.bypass_approval && denied_network(denial, context, answers) is None {
        None
    } else {
        refusal(answers.retry_approval, context.use_guardian)
    }
}

/// The outcome of an attempt that is the last.
pub open spec fn last_outcome<T: ToolTypes>(answers: AttemptAnswers<T>) -> Outcome<T> {
    match attempt_result(answers) {
        Ok(output) => Outcome::Completed(
            OrchestratorRunResult {
                output,
                deferred_network_approval: attempt_deferred(answers),
            },
        ),
        Err(error) => Outcome::Failed(error),
    }
}

/// The outcome of a run from its first attempt on.
pub open spec fn attempts_outcome<T: ToolTypes>(
    context: RunContext,
    answers: Answers<T>,
) -> Outcome<T> {
    match attempt_result(answers.first_attempt) {
        Err(ToolError::SandboxDenied(denial)) => if may_retry(denial, context, answers) {
            match retry_refusal(denial, context, answers) {
                Some(rejection) => Outcome::Rejected(rejection),
                None => last_outcome(answers.retry_attempt),
            }
        } else {
            Outcome::Failed(ToolError::SandboxDenied(denial))
        },
        _ => last_outcome(answers.first_attempt),
    }
}

/// The outcome of a run.
pub open spec fn outcome<T: ToolTypes>(context: RunContext, answers: Answers<T>) -> Outcome<T> {
    match requirement(answers) {
        ExecApprovalRequirement::Forbidden { reason } => Outcome::Rejected(
            Rejection::Forbidden(reason),
        ),
        ExecApprovalRequirement::Skip => attempts_outcome(context, answers),
        ExecApprovalRequirement::NeedsApproval { .. } => match refusal(
            answers.first_approval,
            context.use_guardian,
        ) {
            Some(rejection) => Outcome::Rejected(rejection),
            None => attempts_outcome(context, answers),
        },
    }
}

// ---------------------------------------------------------------------------
// A run that gets the answers
// ---------------------------------------------------------------------------

/// The answer of an approval to what it waits for.
pub open spec fn approval_answer<T: ToolTypes>(
    step: ApprovalStep,
    answers: ApprovalAnswers<T>,
) -> Event<T> {
    match step {
        ApprovalStep::ReviewId => Event::ReviewId(answers.review_id),
        ApprovalStep::PermissionPayload => Event::PermissionPayload(answers.has_payload),
        ApprovalStep::Hooks => Event::HookDecision(answers.hook),
        ApprovalStep::Decision => Event::Decision(answers.decision),
        ApprovalStep::RejectionMessage => Event::Message(answers.message),
        ApprovalStep::TimeoutMessage => Event::Message(answers.message),
    }
}

/// The answer of an attempt to what it waits for.
pub open spec fn attempt_answer<T: ToolTypes>(
    step: AttemptStep<T>,
    answers: AttemptAnswers<T>,
) -> Event<T> {
    match step {
        AttemptStep::NetworkApproval => Event::NetworkApproval(answers.mode),
        AttemptStep::Tool(_) => Event::ToolFinished(answers.result),
        AttemptStep::FinishImmediate(_) => Event::ImmediateFinished(answers.settled),
        AttemptStep::FinishDeferred(_) => Event::DeferredFinished,
        AttemptStep::TakeDeferred(_) => Event::DeferredTaken(answers.deferred),
    }
}

/// The answer to what a run waits for.
pub open spec fn answer<T: ToolTypes>(run: OrchestratorRun<T>, answers: Answers<T>) -> Event<T> {
    match run.phase {
        Phase::ToolRequirement => Event::ToolRequirement(answers.tool_requirement),
        Phase::DefaultRequirement => Event::DefaultRequirement(answers.default_requirement),
        Phase::Approval(approval) => approval_answer(
            approval.step,
            match approval.stage {
                Stage::Initial { .. } => answers.first_approval,
                Stage::Retry { .. } => answers.retry_approval,
            },
        ),
        Phase::SandboxMode => Event::SandboxMode(answers.sandbox_mode),
        Phase::Attempt(attempt) => attempt_answer(
            attempt.step,
            if attempt.escalated {
                answers.retry_attempt
            } else {
                answers.first_attempt
            },
        ),
        Phase::Denied(denied) => match denied.step {
            DenialStep::NetworkContext => Event::NetworkContext(answers.network_context),
            DenialStep::EscalateOnFailure => Event::EscalateOnFailure(answers.escalate_on_failure),
            DenialStep::WantsNoSandboxApproval => Event::WantsNoSandboxApproval(
                answers.wants_no_sandbox_approval,
            ),
            DenialStep::RetryRequirement => Event::RetryRequirement(
                answers.retry_requirement,
            ),
            DenialStep::BypassApproval => Event::BypassApproval(answers.bypass_approval),
        },
        Phase::Done(_) => Event::DeferredFinished,
    }
}

/// The run after it got `count` answers.
pub open spec fn play<T: ToolTypes>(
    run: OrchestratorRun<T>,
    answers: Answers<T>,
    count: nat,
) -> OrchestratorRun<T>
    decreases count,
{
    if count == 0 {
        run
    } else {
        play(run.next(answer(run, answers)), answers, (count - 1) as nat)
    }
}

proof fn lemma_play_on<T: ToolTypes>(
    run: OrchestratorRun<T>,
    answers: Answers<T>,
    first: nat,
    second: nat,
)
    ensures
        play(run, answers, first + second) == play(play(run, answers, first), answers, second),
    decreases first,
{
    if first > 0 {
        let next = run.next(answer(run, answers));
        lemma_play_on(next, answers, (first - 1) as nat, second);
        assert((first + second - 1) as nat == (first - 1) as nat + second);
    }
}

/// An approval comes to a refusal, or to what was to be approved.
proof fn lemma_approval<T: ToolTypes>(
    run: OrchestratorRun<T>,
    answers: Answers<T>,
    stage: Stage<T>,
) -> (count: nat)
    requires
        run.phase == approval_start(stage, run.context.use_guardian),
    ensures
        play(run, answers, count).context == run.context,
        play(run, answers, count).phase == (match refusal(
            match stage {
                Stage::Initial { .. } => answers.first_approval,
                Stage::Retry { .. } => answers.retry_approval,
            },
            run.context.use_guardian,
        ) {
            Some(rejection) => Phase::Done(Outcome::Rejected(rejection)),
            None => after_approval(stage),
        }),
{
    reveal_with_fuel(play, 7);
    let given = match stage {
        Stage::Initial { .. } => answers.first_approval,
        Stage::Retry { .. } => answers.retry_approval,
    };
    let reviewed: nat = if run.context.use_guardian {
        1
    } else {
        0
    };
    let asked: nat = if given.has_payload {
        2
    } else {
        1
    };
    let decided: nat = if given.has_payload && given.hook is Some {
        0
    } else if given.decision is TimedOut {
        2
    } else if run.context.use_guardian && (given.decision is Denied || given.decision is Abort) {
        2
    } else {
        1
    };
    reviewed + asked + decided
}

/// An attempt comes to its result.
proof fn lemma_attempt<T: ToolTypes>(
    run: OrchestratorRun<T>,
    answers: Answers<T>,
) -> (count: nat)
    requires
        run.phase is Attempt,
        run.phase->Attempt_0.step is NetworkApproval,
    ensures
        ({
            let escalated = run.phase->Attempt_0.escalated;
            let given = if escalated {
                answers.retry_attempt
            } else {
                answers.first_attempt
            };
            &&& play(run, answers, count).context == run.context
            &&& play(run, answers, count).phase == after_attempt::<T>(
                escalated,
                attempt_result(given),
                attempt_deferred(given),
                run.context.managed_network_active,
            )
        }),
{
    reveal_with_fuel(play, 4);
    let given = if run.phase->Attempt_0.escalated {
        answers.retry_attempt
    } else {
        answers.first_attempt
    };
    if given.mode is None {
        2
    } else {
        3
    }
}

/// A denial stands, or comes to an approval of the retry, or to the retry.
proof fn lemma_denied<T: ToolTypes>(
    run: OrchestratorRun<T>,
    answers: Answers<T>,
    denial: SandboxDenial<T>,
) -> (count: nat)
    requires
        run.phase == after_denial(denial, run.context.managed_network_active),
    ensures
        ({
            let network = denied_network(denial, run.context, answers);
            &&& play(run, answers, count).context == run.context
            &&& play(run, answers, count).phase == (if !may_retry(denial, run.context, answers) {
                Phase::Done(Outcome::Failed(ToolError::SandboxDenied(denial)))
            } else if answers.bypass_approval && network is None {
                attempt_start(true, SandboxType::Unsandboxed)
            } else {
                approval_start(Stage::Retry { denial, network }, run.context.use_guardian)
            })
        }),
{
    reveal_with_fuel(play, 6);
    let network = denied_network(denial, run.context, answers);
    let read: nat = if denial.network_policy_decision is Some {
        1
    } else {
        0
    };
    if denial.network_policy_decision is Some && !run.context.managed_network_active {
        0
    } else if denial.network_policy_decision is Some && network is None {
        1
    } else if !answers.escalate_on_failure {
        read + 1
    } else if answers.wants_no_sandbox_approval {
        read + 3
    } else if !(run.context.approval_on_request && network is Some) {
        read + 2
    } else if !(answers.retry_requirement is NeedsApproval) {
        read + 3
    } else {
        read + 4
    }
}

/// From its first attempt on, a run comes to its outcome.
proof fn lemma_attempts<T: ToolTypes>(
    run: OrchestratorRun<T>,
    answers: Answers<T>,
) -> (count: nat)
    requires
        run.phase is SandboxMode,
    ensures
        play(run, answers, count).phase == Phase::<T>::Done(
            attempts_outcome(run.context, answers),
        ),
{
    reveal_with_fuel(play, 2);
    let started = play(run, answers, 1);
    let a = lemma_attempt(started, answers);
    lemma_play_on(run, answers, 1, a);
    let attempted = play(run, answers, 1 + a);
    match attempt_result(answers.first_attempt) {
        Err(ToolError::SandboxDenied(denial)) => {
            let b = lemma_denied(attempted, answers, denial);
            lemma_play_on(run, answers, 1 + a, b);
            let resolved = play(run, answers, 1 + a + b);
            if !may_retry(denial, run.context, answers) {
                1 + a + b
            } else if answers.bypass_approval && denied_network(
                denial,
                run.context,
                answers,
            ) is None {
                let d = lemma_attempt(resolved, answers);
                lemma_play_on(run, answers, 1 + a + b, d);
                1 + a + b + d
            } else {
                let network = denied_network(denial, run.context, answers);
                let c = lemma_approval(resolved, answers, Stage::Retry { denial, network });
                lemma_play_on(run, answers, 1 + a + b, c);
                let approved = play(run, answers, 1 + a + b + c);
                if refusal(answers.retry_approval, run.context.use_guardian) is Some {
                    1 + a + b + c
                } else {
                    let d = lemma_attempt(approved, answers);
                    lemma_play_on(run, answers, 1 + a + b + c, d);
                    1 + a + b + c + d
                }
            }
        },
        _ => 1 + a,
    }
}

/// A run that gets an answer to everything it asks comes to the outcome that
/// the answers tell.
pub proof fn a_run_comes_to_its_outcome<T: ToolTypes>(context: RunContext, answers: Answers<T>)
    ensures
        exists|count: nat| #[trigger]
            play(OrchestratorRun::<T>::initial(context), answers, count).phase == Phase::<T>::Done(
                outcome(context, answers),
            ),
{
    reveal_with_fuel(play, 3);
    let start = OrchestratorRun::<T>::initial(context);
    let asked: nat = if answers.tool_requirement is Some {
        1
    } else {
        2
    };
    let required = play(start, answers, asked);
    let count: nat = match requirement(answers) {
        ExecApprovalRequirement::Forbidden { .. } => asked,
        ExecApprovalRequirement::Skip => {
            let a = lemma_attempts(required, answers);
            lemma_play_on(start, answers, asked, a);
            asked + a
        },
        ExecApprovalRequirement::NeedsApproval { reason } => {
            let a = lemma_approval(required, answers, Stage::Initial { reason });
            lemma_play_on(start, answers, asked, a);
            if refusal(answers.first_approval, context.use_guardian) is Some {
                asked + a
            } else {
                let b = lemma_attempts(play(start, answers, asked + a), answers);
                lemma_play_on(start, answers, asked + a, b);
                asked + a + b
            }
        },
    };
    assert(play(start, answers, count).phase == Phase::<T>::Done(outcome(context, answers)));
}

} // verus!
