//! Central place for approvals, sandbox selection and retry semantics. Drives
//! one sequence for every tool: approval, then an attempt in the selected
//! sandbox, then, where the sandbox denied it, a retry outside the sandbox.
//!
//! A run is a state machine. It says what is to be done next and takes the
//! answer; doing it is left to the caller.

use vstd::prelude::*;
use vstd::string::*;

use crate::json::{copy_text, opt_string_view};
use crate::text::concat3;

verus! {

/// What tools produce, and what the machinery around them hands through.
pub trait ToolTypes {
    /// What a tool returns.
    type Output;

    /// What a tool put out before the sandbox stopped it.
    type DeniedOutput;

    /// What the network policy decided.
    type NetworkDecision;

    /// A failure of a tool that is no denial by the sandbox.
    type Failure;

    /// A network approval that is settled after the run.
    type DeferredApproval;

    /// What an approval changes in the execution policy.
    type ExecPolicyAmendment;

    /// What a decision changes in the network policy, but for whether it allows
    /// or denies.
    type NetworkPolicyAmendment;

    /// What is known of a network access, but for its host.
    type NetworkDetails;
}

// ---------------------------------------------------------------------------
// What goes in and out
// ---------------------------------------------------------------------------

/// What is known of a run when it starts.
#[derive(Debug, Clone, PartialEq)]
pub struct RunContext {
    /// The id of the tool call.
    pub call_id: String,
    /// Whether approvals are asked of the guardian, which answers by itself.
    pub use_guardian: bool,
    /// Whether the approval policy is to ask when the model requests it.
    pub approval_on_request: bool,
    /// Whether network access goes through the managed proxy.
    pub managed_network_active: bool,
}

/// Whether a tool call has to be approved.
#[derive(Debug, Clone, PartialEq)]
pub enum ExecApprovalRequirement {
    Skip,
    NeedsApproval { reason: Option<String> },
    Forbidden { reason: String },
}

/// What a permission hook decided.
#[derive(Debug, Clone, PartialEq)]
pub enum PermissionRequestDecision {
    Allow,
    Deny { message: String },
}

/// What an amendment of the network policy does.
#[derive(Debug, Clone, Copy, PartialEq, Eq, Structural)]
pub enum NetworkPolicyRuleAction {
    Allow,
    Deny,
}

/// What the guardian or the user decided.
pub enum ReviewDecision<T: ToolTypes> {
    Approved,
    ApprovedExecpolicyAmendment(T::ExecPolicyAmendment),
    ApprovedForSession,
    NetworkPolicyAmendment {
        action: NetworkPolicyRuleAction,
        amendment: T::NetworkPolicyAmendment,
    },
    Denied,
    TimedOut,
    Abort,
}

/// Where a decision came from.
#[derive(Debug, Clone, Copy, PartialEq, Eq, Structural)]
pub enum ToolDecisionSource {
    Config,
    AutomatedReviewer,
    User,
}

/// A decision to be recorded, with where it came from.
pub struct DecisionRecord<T: ToolTypes> {
    pub decision: ReviewDecision<T>,
    pub source: ToolDecisionSource,
}

/// Whether a tool wants its first attempt outside the sandbox.
#[derive(Debug, Clone, Copy, PartialEq, Eq, Structural)]
pub enum SandboxOverride {
    NoOverride,
    BypassSandboxFirstAttempt,
}

/// When a network approval is settled.
#[derive(Debug, Clone, Copy, PartialEq, Eq, Structural)]
pub enum NetworkApprovalMode {
    /// As soon as the tool is done.
    Immediate,
    /// After the run.
    Deferred,
}

/// What a network access was asked for.
pub struct NetworkApprovalContext<T: ToolTypes> {
    pub host: String,
    pub details: T::NetworkDetails,
}

/// The sandbox of an attempt.
#[derive(Debug, Clone, Copy, PartialEq, Eq, Structural)]
pub enum SandboxType {
    /// No sandbox.
    Unsandboxed,
    /// The one that the sandbox manager selects for the turn.
    Selected,
}

/// How a tool is to be attempted.
#[derive(Debug, Clone, Copy, PartialEq, Eq, Structural)]
pub struct SandboxAttempt {
    pub sandbox: SandboxType,
    pub enforce_managed_network: bool,
    /// Whether the attempt is given the sandbox helper of the turn.
    pub with_linux_sandbox_exe: bool,
}

/// What the sandbox stopped.
pub struct SandboxDenial<T: ToolTypes> {
    pub output: T::DeniedOutput,
    pub network_policy_decision: Option<T::NetworkDecision>,
}

/// Why a tool call came to nothing.
pub enum ToolError<T: ToolTypes> {
    Rejected(String),
    SandboxDenied(SandboxDenial<T>),
    Failed(T::Failure),
}

/// What a tool call came to.
pub struct OrchestratorRunResult<T: ToolTypes> {
    pub output: T::Output,
    pub deferred_network_approval: Option<T::DeferredApproval>,
}

/// Why a tool call was rejected.
pub enum Rejection {
    /// It is forbidden.
    Forbidden(String),
    /// A hook said so.
    ByHook(String),
    /// The guardian said so.
    ByGuardian(String),
    /// Nobody answered in time.
    TimedOut(String),
    /// The user said so.
    ByUser,
}

/// What is to be done next.
#[derive(Debug, Clone, PartialEq)]
pub enum Action {
    /// Ask the tool what approval it requires.
    AskToolRequirement,
    /// Work out what approval the policies require.
    ComputeDefaultRequirement,
    /// Make an id for a review.
    NewReviewId,
    /// Ask the tool whether it has something to show to permission hooks.
    AskPermissionPayload,
    /// Run the permission hooks.
    RunPermissionHooks { run_id: String },
    /// Ask for approval; of a network access, where there is a host.
    RequestApproval {
        review_id: Option<String>,
        retry_reason: Option<String>,
        network_host: Option<String>,
    },
    /// Get the words of the guardian's rejection.
    GetRejectionMessage { review_id: String },
    /// Get the words for a review that timed out.
    GetTimeoutMessage,
    /// Ask the tool for the sandbox of its first attempt.
    AskSandboxMode,
    /// Begin the network approval of an attempt.
    BeginNetworkApproval { managed_network_active: bool },
    /// Run the tool.
    RunTool { attempt: SandboxAttempt },
    /// Settle the network approval.
    FinishImmediateNetworkApproval,
    /// Settle the network approval that was to be deferred.
    FinishDeferredNetworkApproval,
    /// Hand out the network approval that is to be deferred.
    TakeDeferredNetworkApproval,
    /// Tell what the network decision was about.
    ReadNetworkContext,
    /// Ask the tool whether it is retried after a denial.
    AskEscalateOnFailure,
    /// Ask the tool whether approval may be asked for a retry outside the sandbox.
    AskWantsNoSandboxApproval,
    /// Work out what approval the policies require, now that a retry is in question.
    ComputeRetryRequirement,
    /// Ask the tool whether a retry goes without approval.
    AskBypassApproval { already_approved: bool },
    /// Nothing; the run is over.
    Finish,
}

/// The answer to an action.
pub enum Event<T: ToolTypes> {
    ToolRequirement(Option<ExecApprovalRequirement>),
    DefaultRequirement(ExecApprovalRequirement),
    ReviewId(String),
    PermissionPayload(bool),
    HookDecision(Option<PermissionRequestDecision>),
    Decision(ReviewDecision<T>),
    Message(String),
    SandboxMode(SandboxOverride),
    NetworkApproval(Option<NetworkApprovalMode>),
    ToolFinished(Result<T::Output, ToolError<T>>),
    ImmediateFinished(Result<(), ToolError<T>>),
    DeferredFinished,
    DeferredTaken(Option<T::DeferredApproval>),
    NetworkContext(Option<NetworkApprovalContext<T>>),
    EscalateOnFailure(bool),
    WantsNoSandboxApproval(bool),
    RetryRequirement(ExecApprovalRequirement),
    BypassApproval(bool),
}

// ---------------------------------------------------------------------------
// The state of a run
// ---------------------------------------------------------------------------

/// What an approval is asked for.
pub enum Stage<T: ToolTypes> {
    /// The first attempt.
    Initial { reason: Option<String> },
    /// The retry of what the sandbox stopped.
    Retry { denial: SandboxDenial<T>, network: Option<NetworkApprovalContext<T>> },
}

/// How far an approval is.
#[derive(Clone, Copy, PartialEq, Eq, Structural)]
pub enum ApprovalStep {
    ReviewId,
    PermissionPayload,
    Hooks,
    Decision,
    RejectionMessage,
    TimeoutMessage,
}

/// An approval under way.
pub struct Approval<T: ToolTypes> {
    pub stage: Stage<T>,
    pub review_id: Option<String>,
    pub step: ApprovalStep,
}

/// How far an attempt is.
pub enum AttemptStep<T: ToolTypes> {
    NetworkApproval,
    Tool(Option<NetworkApprovalMode>),
    FinishImmediate(Result<T::Output, ToolError<T>>),
    FinishDeferred(ToolError<T>),
    TakeDeferred(T::Output),
}

/// An attempt under way.
pub struct Attempt<T: ToolTypes> {
    /// Whether it is the retry.
    pub escalated: bool,
    pub sandbox: SandboxType,
    pub step: AttemptStep<T>,
}

/// What is still to be found out about a denial.
#[derive(Clone, Copy, PartialEq, Eq, Structural)]
pub enum DenialStep {
    NetworkContext,
    EscalateOnFailure,
    WantsNoSandboxApproval,
    RetryRequirement,
    BypassApproval,
}

/// A denial that may lead to a retry.
pub struct Denied<T: ToolTypes> {
    pub denial: SandboxDenial<T>,
    pub network: Option<NetworkApprovalContext<T>>,
    pub step: DenialStep,
}

/// What a run came to.
pub enum Outcome<T: ToolTypes> {
    Completed(OrchestratorRunResult<T>),
    Rejected(Rejection),
    Failed(ToolError<T>),
}

/// How far a run is.
pub enum Phase<T: ToolTypes> {
    ToolRequirement,
    DefaultRequirement,
    Approval(Approval<T>),
    SandboxMode,
    Attempt(Attempt<T>),
    Denied(Denied<T>),
    Done(Outcome<T>),
}

/// A run of a tool.
pub struct OrchestratorRun<T: ToolTypes> {
    pub context: RunContext,
    /// Whether the first attempt was approved.
    pub already_approved: bool,
    pub phase: Phase<T>,
}

/// Starts runs.
pub struct ToolOrchestrator {}

// ---------------------------------------------------------------------------
// What follows what
// ---------------------------------------------------------------------------

/// Whether a decision lets the tool run.
pub open spec fn lets_run<T: ToolTypes>(decision: ReviewDecision<T>) -> bool {
    match decision {
        ReviewDecision::Approved => true,
        ReviewDecision::ApprovedExecpolicyAmendment(_) => true,
        ReviewDecision::ApprovedForSession => true,
        ReviewDecision::NetworkPolicyAmendment { action, .. } => action
            == NetworkPolicyRuleAction::Allow,
        ReviewDecision::Denied => false,
        ReviewDecision::TimedOut => false,
        ReviewDecision::Abort => false,
    }
}

/// Where an approval starts: with an id for the review, if there is to be one.
pub open spec fn approval_start<T: ToolTypes>(stage: Stage<T>, use_guardian: bool) -> Phase<T> {
    Phase::Approval(
        Approval {
            stage,
            review_id: None,
            step: if use_guardian {
                ApprovalStep::ReviewId
            } else {
                ApprovalStep::PermissionPayload
            },
        },
    )
}

/// Where an attempt starts.
pub open spec fn attempt_start<T: ToolTypes>(escalated: bool, sandbox: SandboxType) -> Phase<T> {
    Phase::Attempt(Attempt { escalated, sandbox, step: AttemptStep::NetworkApproval })
}

/// What follows an approval that was given.
pub open spec fn after_approval<T: ToolTypes>(stage: Stage<T>) -> Phase<T> {
    match stage {
        Stage::Initial { .. } => Phase::SandboxMode,
        Stage::Retry { .. } => attempt_start(true, SandboxType::Unsandboxed),
    }
}

/// What follows from what approval is required.
pub open spec fn after_requirement<T: ToolTypes>(
    requirement: ExecApprovalRequirement,
    use_guardian: bool,
) -> Phase<T> {
    match requirement {
        ExecApprovalRequirement::Skip => Phase::SandboxMode,
        ExecApprovalRequirement::Forbidden { reason } => Phase::Done(
            Outcome::Rejected(Rejection::Forbidden(reason)),
        ),
        ExecApprovalRequirement::NeedsApproval { reason } => approval_start(
            Stage::Initial { reason },
            use_guardian,
        ),
    }
}

/// The decision to be recorded with what approval is required: that none is.
pub open spec fn requirement_record<T: ToolTypes>(requirement: ExecApprovalRequirement) -> Option<
    DecisionRecord<T>,
> {
    match requirement {
        ExecApprovalRequirement::Skip => Some(
            DecisionRecord {
                decision: ReviewDecision::Approved,
                source: ToolDecisionSource::Config,
            },
        ),
        _ => None,
    }
}

/// The decision to be recorded with an answer to an approval: what a hook
/// decided, or what the guardian or the user did.
pub open spec fn approval_record<T: ToolTypes>(
    approval: Approval<T>,
    event: Event<T>,
    use_guardian: bool,
) -> Option<DecisionRecord<T>> {
    match (approval.step, event) {
        (ApprovalStep::Hooks, Event::HookDecision(Some(decision))) => Some(
            DecisionRecord {
                decision: if decision is Allow {
                    ReviewDecision::Approved
                } else {
                    ReviewDecision::Denied
                },
                source: ToolDecisionSource::Config,
            },
        ),
        (ApprovalStep::Decision, Event::Decision(decision)) => Some(
            DecisionRecord {
                decision,
                source: if use_guardian {
                    ToolDecisionSource::AutomatedReviewer
                } else {
                    ToolDecisionSource::User
                },
            },
        ),
        _ => None,
    }
}

/// What follows a review. A rejection by the guardian is given in its
/// own words.
pub open spec fn after_decision<T: ToolTypes>(
    approval: Approval<T>,
    decision: ReviewDecision<T>,
) -> Phase<T> {
    if lets_run(decision) {
        after_approval(approval.stage)
    } else if decision is TimedOut {
        Phase::Approval(Approval { step: ApprovalStep::TimeoutMessage, ..approval })
    } else if approval.review_id is Some && !(decision is NetworkPolicyAmendment) {
        Phase::Approval(Approval { step: ApprovalStep::RejectionMessage, ..approval })
    } else {
        Phase::Done(Outcome::Rejected(Rejection::ByUser))
    }
}

/// How an approval goes on. Permission hooks come first; others are asked
/// only where they leave it open.
pub open spec fn approval_next<T: ToolTypes>(approval: Approval<T>, event: Event<T>) -> Phase<T> {
    match (approval.step, event) {
        (ApprovalStep::ReviewId, Event::ReviewId(id)) => Phase::Approval(
            Approval {
                review_id: Some(id),
                step: ApprovalStep::PermissionPayload,
                ..approval
            },
        ),
        (ApprovalStep::PermissionPayload, Event::PermissionPayload(has_payload)) => Phase::Approval(
            Approval {
                step: if has_payload {
                    ApprovalStep::Hooks
                } else {
                    ApprovalStep::Decision
                },
                ..approval
            },
        ),
        (ApprovalStep::Hooks, Event::HookDecision(decision)) => match decision {
            Some(PermissionRequestDecision::Allow) => after_approval(approval.stage),
            Some(PermissionRequestDecision::Deny { message }) => Phase::Done(
                Outcome::Rejected(Rejection::ByHook(message)),
            ),
            None => Phase::Approval(Approval { step: ApprovalStep::Decision, ..approval }),
        },
        (ApprovalStep::Decision, Event::Decision(decision)) => after_decision(approval, decision),
        (ApprovalStep::RejectionMessage, Event::Message(message)) => Phase::Done(
            Outcome::Rejected(Rejection::ByGuardian(message)),
        ),
        (ApprovalStep::TimeoutMessage, Event::Message(message)) => Phase::Done(
            Outcome::Rejected(Rejection::TimedOut(message)),
        ),
        _ => Phase::Approval(approval),
    }
}

/// What follows a denial by the sandbox: it stands where the network policy
/// decided and nothing can be asked about it, and else may lead to a retry.
pub open spec fn after_denial<T: ToolTypes>(
    denial: SandboxDenial<T>,
    managed_network_active: bool,
) -> Phase<T> {
    if denial.network_policy_decision is None {
        Phase::Denied(Denied { denial, network: None, step: DenialStep::EscalateOnFailure })
    } else if managed_network_active {
        Phase::Denied(Denied { denial, network: None, step: DenialStep::NetworkContext })
    } else {
        Phase::Done(Outcome::Failed(ToolError::SandboxDenied(denial)))
    }
}

/// What follows an attempt. Only a denial of the first one may be retried.
pub open spec fn after_attempt<T: ToolTypes>(
    escalated: bool,
    result: Result<T::Output, ToolError<T>>,
    deferred: Option<T::DeferredApproval>,
    managed_network_active: bool,
) -> Phase<T> {
    match result {
        Ok(output) => Phase::Done(
            Outcome::Completed(
                OrchestratorRunResult { output, deferred_network_approval: deferred },
            ),
        ),
        Err(ToolError::SandboxDenied(denial)) => if escalated {
            Phase::Done(Outcome::Failed(ToolError::SandboxDenied(denial)))
        } else {
            after_denial(denial, managed_network_active)
        },
        Err(error) => Phase::Done(Outcome::Failed(error)),
    }
}

/// How an attempt goes on. An immediate network approval is settled once the
/// tool is done, and its failure is the attempt's; a deferred one is handed on
/// with a success and settled after a failure.
pub open spec fn attempt_next<T: ToolTypes>(
    attempt: Attempt<T>,
    event: Event<T>,
    managed_network_active: bool,
) -> Phase<T> {
    match (attempt.step, event) {
        (AttemptStep::NetworkApproval, Event::NetworkApproval(mode)) => Phase::Attempt(
            Attempt { step: AttemptStep::Tool(mode), ..attempt },
        ),
        (AttemptStep::Tool(mode), Event::ToolFinished(result)) => match (mode, result) {
            (None, result) => after_attempt(
                attempt.escalated,
                result,
                None,
                managed_network_active,
            ),
            (Some(NetworkApprovalMode::Immediate), result) => Phase::Attempt(
                Attempt { step: AttemptStep::FinishImmediate(result), ..attempt },
            ),
            (Some(NetworkApprovalMode::Deferred), Ok(output)) => Phase::Attempt(
                Attempt { step: AttemptStep::TakeDeferred(output), ..attempt },
            ),
            (Some(NetworkApprovalMode::Deferred), Err(error)) => Phase::Attempt(
                Attempt { step: AttemptStep::FinishDeferred(error), ..attempt },
            ),
        },
        (AttemptStep::FinishImmediate(result), Event::ImmediateFinished(settled)) => after_attempt(
            attempt.escalated,
            match settled {
                Ok(_) => result,
                Err(error) => Err(error),
            },
            None,
            managed_network_active,
        ),
        (AttemptStep::FinishDeferred(error), Event::DeferredFinished) => after_attempt(
            attempt.escalated,
            Err(error),
            None,
            managed_network_active,
        ),
        (AttemptStep::TakeDeferred(output), Event::DeferredTaken(deferred)) => after_attempt(
            attempt.escalated,
            Ok(output),
            deferred,
            managed_network_active,
        ),
        _ => Phase::Attempt(attempt),
    }
}

/// The denial stands.
pub open spec fn denial_stands<T: ToolTypes>(denied: Denied<T>) -> Phase<T> {
    Phase::Done(Outcome::Failed(ToolError::SandboxDenied(denied.denial)))
}

/// How a denial goes on: it stands unless the network decision can be asked
/// about, the tool is retried after a denial, and asking is allowed; then a
/// retry is approved or goes without approval.
pub open spec fn denied_next<T: ToolTypes>(
    denied: Denied<T>,
    event: Event<T>,
    context: RunContext,
) -> Phase<T> {
    match (denied.step, event) {
        (DenialStep::NetworkContext, Event::NetworkContext(network)) => if network is Some {
            Phase::Denied(Denied { network, step: DenialStep::EscalateOnFailure, ..denied })
        } else {
            denial_stands(denied)
        },
        (DenialStep::EscalateOnFailure, Event::EscalateOnFailure(escalates)) => if escalates {
            Phase::Denied(Denied { step: DenialStep::WantsNoSandboxApproval, ..denied })
        } else {
            denial_stands(denied)
        },
        (DenialStep::WantsNoSandboxApproval, Event::WantsNoSandboxApproval(wants)) => if wants {
            Phase::Denied(Denied { step: DenialStep::BypassApproval, ..denied })
        } else if context.approval_on_request && denied.network is Some {
            Phase::Denied(Denied { step: DenialStep::RetryRequirement, ..denied })
        } else {
            denial_stands(denied)
        },
        (DenialStep::RetryRequirement, Event::RetryRequirement(requirement)) => if requirement
            is NeedsApproval {
            Phase::Denied(Denied { step: DenialStep::BypassApproval, ..denied })
        } else {
            denial_stands(denied)
        },
        (DenialStep::BypassApproval, Event::BypassApproval(bypass)) => if bypass
            && denied.network is None {
            attempt_start(true, SandboxType::Unsandboxed)
        } else {
            approval_start(
                Stage::Retry { denial: denied.denial, network: denied.network },
                context.use_guardian,
            )
        },
        _ => Phase::Denied(denied),
    }
}

impl<T: ToolTypes> OrchestratorRun<T> {
    /// The run at its start.
    pub open spec fn initial(context: RunContext) -> OrchestratorRun<T> {
        OrchestratorRun { context, already_approved: false, phase: Phase::ToolRequirement }
    }

    /// How far the run is after an answer. What does not answer the pending
    /// action changes nothing.
    pub open spec fn next_phase(self, event: Event<T>) -> Phase<T> {
        match self.phase {
            Phase::ToolRequirement => match event {
                Event::ToolRequirement(Some(requirement)) => after_requirement(
                    requirement,
                    self.context.use_guardian,
                ),
                Event::ToolRequirement(None) => Phase::DefaultRequirement,
                _ => self.phase,
            },
            Phase::DefaultRequirement => match event {
                Event::DefaultRequirement(requirement) => after_requirement(
                    requirement,
                    self.context.use_guardian,
                ),
                _ => self.phase,
            },
            Phase::Approval(approval) => approval_next(approval, event),
            Phase::SandboxMode => match event {
                Event::SandboxMode(SandboxOverride::BypassSandboxFirstAttempt) => attempt_start(
                    false,
                    SandboxType::Unsandboxed,
                ),
                Event::SandboxMode(SandboxOverride::NoOverride) => attempt_start(
                    false,
                    SandboxType::Selected,
                ),
                _ => self.phase,
            },
            Phase::Attempt(attempt) => attempt_next(
                attempt,
                event,
                self.context.managed_network_active,
            ),
            Phase::Denied(denied) => denied_next(denied, event, self.context),
            Phase::Done(_) => self.phase,
        }
    }

    /// The run after an answer. An approval of the first attempt is remembered.
    pub open spec fn next(self, event: Event<T>) -> OrchestratorRun<T> {
        let phase = self.next_phase(event);
        OrchestratorRun {
            context: self.context,
            already_approved: self.already_approved || (self.phase is Approval
                && phase is SandboxMode),
            phase,
        }
    }

    /// The decision to be recorded with an answer.
    pub open spec fn record(self, event: Event<T>) -> Option<DecisionRecord<T>> {
        match (self.phase, event) {
            (Phase::ToolRequirement, Event::ToolRequirement(Some(requirement))) =>
                requirement_record(requirement),
            (Phase::DefaultRequirement, Event::DefaultRequirement(requirement)) =>
                requirement_record(requirement),
            (Phase::Approval(approval), event) => approval_record(
                approval,
                event,
                self.context.use_guardian,
            ),
            _ => None,
        }
    }
}

// ---------------------------------------------------------------------------
// What is to be done
// ---------------------------------------------------------------------------

/// What is to be done next.
pub enum ActionModel {
    AskToolRequirement,
    ComputeDefaultRequirement,
    NewReviewId,
    AskPermissionPayload,
    RunPermissionHooks { run_id: Seq<char> },
    RequestApproval {
        review_id: Option<Seq<char>>,
        retry_reason: Option<Seq<char>>,
        network_host: Option<Seq<char>>,
    },
    GetRejectionMessage { review_id: Seq<char> },
    GetTimeoutMessage,
    AskSandboxMode,
    BeginNetworkApproval { managed_network_active: bool },
    RunTool { attempt: SandboxAttempt },
    FinishImmediateNetworkApproval,
    FinishDeferredNetworkApproval,
    TakeDeferredNetworkApproval,
    ReadNetworkContext,
    AskEscalateOnFailure,
    AskWantsNoSandboxApproval,
    ComputeRetryRequirement,
    AskBypassApproval { already_approved: bool },
    Finish,
}

/// The host that a network access was asked for, if one was.
pub open spec fn host_chars<T: ToolTypes>(network: Option<NetworkApprovalContext<T>>) -> Option<
    Seq<char>,
> {
    match network {
        Some(context) => Some(context.host@),
        None => None,
    }
}

impl Action {
    pub open spec fn view(self) -> ActionModel {
        match self {
            Action::AskToolRequirement => ActionModel::AskToolRequirement,
            Action::ComputeDefaultRequirement => ActionModel::ComputeDefaultRequirement,
            Action::NewReviewId => ActionModel::NewReviewId,
            Action::AskPermissionPayload => ActionModel::AskPermissionPayload,
            Action::RunPermissionHooks { run_id } => ActionModel::RunPermissionHooks {
                run_id: run_id@,
            },
            Action::RequestApproval {
                review_id,
                retry_reason,
                network_host,
            } => ActionModel::RequestApproval {
                review_id: opt_string_view(review_id),
                retry_reason: opt_string_view(retry_reason),
                network_host: opt_string_view(network_host),
            },
            Action::GetRejectionMessage { review_id } => ActionModel::GetRejectionMessage {
                review_id: review_id@,
            },
            Action::GetTimeoutMessage => ActionModel::GetTimeoutMessage,
            Action::AskSandboxMode => ActionModel::AskSandboxMode,
            Action::BeginNetworkApproval {
                managed_network_active,
            } => ActionModel::BeginNetworkApproval { managed_network_active },
            Action::RunTool { attempt } => ActionModel::RunTool { attempt },
            Action::FinishImmediateNetworkApproval => ActionModel::FinishImmediateNetworkApproval,
            Action::FinishDeferredNetworkApproval => ActionModel::FinishDeferredNetworkApproval,
            Action::TakeDeferredNetworkApproval => ActionModel::TakeDeferredNetworkApproval,
            Action::ReadNetworkContext => ActionModel::ReadNetworkContext,
            Action::AskEscalateOnFailure => ActionModel::AskEscalateOnFailure,
            Action::AskWantsNoSandboxApproval => ActionModel::AskWantsNoSandboxApproval,
            Action::ComputeRetryRequirement => ActionModel::ComputeRetryRequirement,
            Action::AskBypassApproval { already_approved } => ActionModel::AskBypassApproval {
                already_approved,
            },
            Action::Finish => ActionModel::Finish,
        }
    }
}

/// What the user is asked where a retry is about a network access.
pub open spec fn network_reason(host: Seq<char>) -> Seq<char> {
    "Network access to \""@ + host + "\" is blocked by policy."@
}

/// What the user is asked where a retry is about anything else.
pub open spec fn denial_reason() -> Seq<char> {
    "command failed; retry without sandbox?"@
}

/// Why approval is asked.
pub open spec fn approval_reason<T: ToolTypes>(stage: Stage<T>) -> Option<Seq<char>> {
    match stage {
        Stage::Initial { reason } => opt_string_view(reason),
        Stage::Retry { network, .. } => match network {
            Some(context) => Some(network_reason(context.host@)),
            None => Some(denial_reason()),
        },
    }
}

/// The name of a run of the permission hooks.
pub open spec fn hook_run_id<T: ToolTypes>(stage: Stage<T>, call_id: Seq<char>) -> Seq<char> {
    match stage {
        Stage::Initial { .. } => call_id,
        Stage::Retry { .. } => call_id + ":retry"@,
    }
}

/// What an approval waits for.
pub open spec fn approval_action<T: ToolTypes>(
    approval: Approval<T>,
    call_id: Seq<char>,
) -> ActionModel {
    match approval.step {
        ApprovalStep::ReviewId => ActionModel::NewReviewId,
        ApprovalStep::PermissionPayload => ActionModel::AskPermissionPayload,
        ApprovalStep::Hooks => ActionModel::RunPermissionHooks {
            run_id: hook_run_id(approval.stage, call_id),
        },
        ApprovalStep::Decision => ActionModel::RequestApproval {
            review_id: opt_string_view(approval.review_id),
            retry_reason: approval_reason(approval.stage),
            network_host: match approval.stage {
                Stage::Initial { .. } => None,
                Stage::Retry { network, .. } => host_chars(network),
            },
        },
        ApprovalStep::RejectionMessage => ActionModel::GetRejectionMessage {
            review_id: match approval.review_id {
                Some(id) => id@,
                None => Seq::empty(),
            },
        },
        ApprovalStep::TimeoutMessage => ActionModel::GetTimeoutMessage,
    }
}

/// How an attempt runs the tool: the retry gets no sandbox helper.
pub open spec fn attempt_settings<T: ToolTypes>(
    attempt: Attempt<T>,
    managed_network_active: bool,
) -> SandboxAttempt {
    SandboxAttempt {
        sandbox: attempt.sandbox,
        enforce_managed_network: managed_network_active,
        with_linux_sandbox_exe: !attempt.escalated,
    }
}

impl<T: ToolTypes> OrchestratorRun<T> {
    /// What the run waits for.
    pub open spec fn action(self) -> ActionModel {
        match self.phase {
            Phase::ToolRequirement => ActionModel::AskToolRequirement,
            Phase::DefaultRequirement => ActionModel::ComputeDefaultRequirement,
            Phase::Approval(approval) => approval_action(approval, self.context.call_id@),
            Phase::SandboxMode => ActionModel::AskSandboxMode,
            Phase::Attempt(attempt) => match attempt.step {
                AttemptStep::NetworkApproval => ActionModel::BeginNetworkApproval {
                    managed_network_active: self.context.managed_network_active,
                },
                AttemptStep::Tool(_) => ActionModel::RunTool {
                    attempt: attempt_settings(attempt, self.context.managed_network_active),
                },
                AttemptStep::FinishImmediate(_) => ActionModel::FinishImmediateNetworkApproval,
                AttemptStep::FinishDeferred(_) => ActionModel::FinishDeferredNetworkApproval,
                AttemptStep::TakeDeferred(_) => ActionModel::TakeDeferredNetworkApproval,
            },
            Phase::Denied(denied) => match denied.step {
                DenialStep::NetworkContext => ActionModel::ReadNetworkContext,
                DenialStep::EscalateOnFailure => ActionModel::AskEscalateOnFailure,
                DenialStep::WantsNoSandboxApproval => ActionModel::AskWantsNoSandboxApproval,
                DenialStep::RetryRequirement => ActionModel::ComputeRetryRequirement,
                DenialStep::BypassApproval => ActionModel::AskBypassApproval {
                    already_approved: self.already_approved,
                },
            },
            Phase::Done(_) => ActionModel::Finish,
        }
    }
}

/// What the user is asked after a denial. The words do not depend on what the
/// tool put out.
pub fn build_denial_reason_from_output<O>(_output: &O) -> (r: String)
    ensures
        r@ == denial_reason(),
{
    "command failed; retry without sandbox?".to_string()
}

fn approval_request<T: ToolTypes>(approval: &Approval<T>) -> (r: Action)
    requires
        approval.step == ApprovalStep::Decision,
    ensures
        r@ == approval_action(*approval, Seq::empty()),
{
    let review_id = copy_text(&approval.review_id);
    match &approval.stage {
        Stage::Initial { reason } => Action::RequestApproval {
            review_id,
            retry_reason: copy_text(reason),
            network_host: None,
        },
        Stage::Retry { denial, network } => match network {
            Some(context) => Action::RequestApproval {
                review_id,
                retry_reason: Some(
                    concat3(
                        "Network access to \"",
                        context.host.as_str(),
                        "\" is blocked by policy.",
                    ),
                ),
                network_host: Some(context.host.clone()),
            },
            None => Action::RequestApproval {
                review_id,
                retry_reason: Some(build_denial_reason_from_output(&denial.output)),
                network_host: None,
            },
        },
    }
}

fn pending_approval<T: ToolTypes>(approval: &Approval<T>, call_id: &str) -> (r: Action)
    ensures
        r@ == approval_action(*approval, call_id@),
{
    match approval.step {
        ApprovalStep::ReviewId => Action::NewReviewId,
        ApprovalStep::PermissionPayload => Action::AskPermissionPayload,
        ApprovalStep::Hooks => {
            let mut run_id = call_id.to_string();
            if let Stage::Retry { .. } = &approval.stage {
                run_id.append(":retry");
            }
            Action::RunPermissionHooks { run_id }
        },
        ApprovalStep::Decision => approval_request(approval),
        ApprovalStep::RejectionMessage => Action::GetRejectionMessage {
            review_id: match &approval.review_id {
                Some(id) => id.clone(),
                None => String::new(),
            },
        },
        ApprovalStep::TimeoutMessage => Action::GetTimeoutMessage,
    }
}

impl<T: ToolTypes> OrchestratorRun<T> {
    /// What is to be done next.
    pub fn pending(&self) -> (r: Action)
        ensures
            r@ == self.action(),
    {
        match &self.phase {
            Phase::ToolRequirement => Action::AskToolRequirement,
            Phase::DefaultRequirement => Action::ComputeDefaultRequirement,
            Phase::Approval(approval) => pending_approval(approval, self.context.call_id.as_str()),
            Phase::SandboxMode => Action::AskSandboxMode,
            Phase::Attempt(attempt) => match &attempt.step {
                AttemptStep::NetworkApproval => Action::BeginNetworkApproval {
                    managed_network_active: self.context.managed_network_active,
                },
                AttemptStep::Tool(_) => Action::RunTool {
                    attempt: SandboxAttempt {
                        sandbox: attempt.sandbox,
                        enforce_managed_network: self.context.managed_network_active,
                        with_linux_sandbox_exe: !attempt.escalated,
                    },
                },
                AttemptStep::FinishImmediate(_) => Action::FinishImmediateNetworkApproval,
                AttemptStep::FinishDeferred(_) => Action::FinishDeferredNetworkApproval,
                AttemptStep::TakeDeferred(_) => Action::TakeDeferredNetworkApproval,
            },
            Phase::Denied(denied) => match denied.step {
                DenialStep::NetworkContext => Action::ReadNetworkContext,
                DenialStep::EscalateOnFailure => Action::AskEscalateOnFailure,
                DenialStep::WantsNoSandboxApproval => Action::AskWantsNoSandboxApproval,
                DenialStep::RetryRequirement => Action::ComputeRetryRequirement,
                DenialStep::BypassApproval => Action::AskBypassApproval {
                    already_approved: self.already_approved,
                },
            },
            Phase::Done(_) => Action::Finish,
        }
    }
}

// ---------------------------------------------------------------------------
// The steps of a run
// ---------------------------------------------------------------------------

fn start_approval<T: ToolTypes>(stage: Stage<T>, use_guardian: bool) -> (r: Phase<T>)
    ensures
        r == approval_start(stage, use_guardian),
{
    let step = if use_guardian {
        ApprovalStep::ReviewId
    } else {
        ApprovalStep::PermissionPayload
    };
    Phase::Approval(Approval { stage, review_id: None, step })
}

fn start_attempt<T: ToolTypes>(escalated: bool, sandbox: SandboxType) -> (r: Phase<T>)
    ensures
        r == attempt_start::<T>(escalated, sandbox),
{
    Phase::Attempt(Attempt { escalated, sandbox, step: AttemptStep::NetworkApproval })
}

fn approved<T: ToolTypes>(stage: Stage<T>) -> (r: Phase<T>)
    ensures
        r == after_approval(stage),
{
    match stage {
        Stage::Initial { .. } => Phase::SandboxMode,
        Stage::Retry { .. } => start_attempt(true, SandboxType::Unsandboxed),
    }
}

/// What follows from what approval is required, and what decision is to be
/// recorded with it.
pub fn resolve_requirement<T: ToolTypes>(
    requirement: ExecApprovalRequirement,
    use_guardian: bool,
) -> (r: (Phase<T>, Option<DecisionRecord<T>>))
    ensures
        r.0 == after_requirement::<T>(requirement, use_guardian),
        r.1 == requirement_record::<T>(requirement),
{
    match requirement {
        ExecApprovalRequirement::Skip => {
            let record = DecisionRecord {
                decision: ReviewDecision::Approved,
                source: ToolDecisionSource::Config,
            };
            (Phase::SandboxMode, Some(record))
        },
        ExecApprovalRequirement::Forbidden { reason } => (
            Phase::Done(Outcome::Rejected(Rejection::Forbidden(reason))),
            None,
        ),
        ExecApprovalRequirement::NeedsApproval { reason } => (
            start_approval(Stage::Initial { reason }, use_guardian),
            None,
        ),
    }
}

fn reviewed<T: ToolTypes>(approval: Approval<T>, decision: &ReviewDecision<T>) -> (r: Phase<T>)
    ensures
        r == after_decision(approval, *decision),
{
    match decision {
        ReviewDecision::Denied | ReviewDecision::Abort => if approval.review_id.is_some() {
            Phase::Approval(Approval { step: ApprovalStep::RejectionMessage, ..approval })
        } else {
            Phase::Done(Outcome::Rejected(Rejection::ByUser))
        },
        ReviewDecision::TimedOut => Phase::Approval(
            Approval { step: ApprovalStep::TimeoutMessage, ..approval },
        ),
        ReviewDecision::Approved
        | ReviewDecision::ApprovedExecpolicyAmendment(_)
        | ReviewDecision::ApprovedForSession => approved(approval.stage),
        ReviewDecision::NetworkPolicyAmendment { action, .. } => match action {
            NetworkPolicyRuleAction::Allow => approved(approval.stage),
            NetworkPolicyRuleAction::Deny => Phase::Done(Outcome::Rejected(Rejection::ByUser)),
        },
    }
}

fn hook_record<T: ToolTypes>(decision: ReviewDecision<T>) -> (r: Option<DecisionRecord<T>>)
    ensures
        r == Some(DecisionRecord { decision, source: ToolDecisionSource::Config }),
{
    Some(DecisionRecord { decision, source: ToolDecisionSource::Config })
}

/// How an approval goes on, and what decision is to be recorded with that.
pub fn request_approval<T: ToolTypes>(
    approval: Approval<T>,
    event: Event<T>,
    use_guardian: bool,
) -> (r: (Phase<T>, Option<DecisionRecord<T>>))
    ensures
        r.0 == approval_next(approval, event),
        r.1 == approval_record(approval, event, use_guardian),
{
    match (approval.step, event) {
        (ApprovalStep::ReviewId, Event::ReviewId(id)) => {
            let next = Approval {
                stage: approval.stage,
                review_id: Some(id),
                step: ApprovalStep::PermissionPayload,
            };
            (Phase::Approval(next), None)
        },
        (ApprovalStep::PermissionPayload, Event::PermissionPayload(has_payload)) => {
            let step = if has_payload {
                ApprovalStep::Hooks
            } else {
                ApprovalStep::Decision
            };
            (Phase::Approval(Approval { step, ..approval }), None)
        },
        (ApprovalStep::Hooks, Event::HookDecision(decision)) => match decision {
            Some(PermissionRequestDecision::Allow) => (
                approved(approval.stage),
                hook_record(ReviewDecision::Approved),
            ),
            Some(PermissionRequestDecision::Deny { message }) => (
                Phase::Done(Outcome::Rejected(Rejection::ByHook(message))),
                hook_record(ReviewDecision::Denied),
            ),
            None => (Phase::Approval(Approval { step: ApprovalStep::Decision, ..approval }), None),
        },
        (ApprovalStep::Decision, Event::Decision(decision)) => {
            let source = if use_guardian {
                ToolDecisionSource::AutomatedReviewer
            } else {
                ToolDecisionSource::User
            };
            (reviewed(approval, &decision), Some(DecisionRecord { decision, source }))
        },
        (ApprovalStep::RejectionMessage, Event::Message(message)) => (
            Phase::Done(Outcome::Rejected(Rejection::ByGuardian(message))),
            None,
        ),
        (ApprovalStep::TimeoutMessage, Event::Message(message)) => (
            Phase::Done(Outcome::Rejected(Rejection::TimedOut(message))),
            None,
        ),
        _ => (Phase::Approval(approval), None),
    }
}

fn denied<T: ToolTypes>(denial: SandboxDenial<T>, managed_network_active: bool) -> (r: Phase<T>)
    ensures
        r == after_denial(denial, managed_network_active),
{
    if denial.network_policy_decision.is_none() {
        Phase::Denied(Denied { denial, network: None, step: DenialStep::EscalateOnFailure })
    } else if managed_network_active {
        Phase::Denied(Denied { denial, network: None, step: DenialStep::NetworkContext })
    } else {
        Phase::Done(Outcome::Failed(ToolError::SandboxDenied(denial)))
    }
}

fn attempted<T: ToolTypes>(
    escalated: bool,
    result: Result<T::Output, ToolError<T>>,
    deferred: Option<T::DeferredApproval>,
    managed_network_active: bool,
) -> (r: Phase<T>)
    ensures
        r == after_attempt::<T>(escalated, result, deferred, managed_network_active),
{
    match result {
        Ok(output) => Phase::Done(
            Outcome::Completed(
                OrchestratorRunResult { output, deferred_network_approval: deferred },
            ),
        ),
        Err(ToolError::SandboxDenied(denial)) => if escalated {
            Phase::Done(Outcome::Failed(ToolError::SandboxDenied(denial)))
        } else {
            denied(denial, managed_network_active)
        },
        Err(error) => Phase::Done(Outcome::Failed(error)),
    }
}

/// How an attempt goes on.
pub fn run_attempt<T: ToolTypes>(
    attempt: Attempt<T>,
    event: Event<T>,
    managed_network_active: bool,
) -> (r: Phase<T>)
    ensures
        r == attempt_next(attempt, event, managed_network_active),
{
    let Attempt { escalated, sandbox, step } = attempt;
    match (step, event) {
        (AttemptStep::NetworkApproval, Event::NetworkApproval(mode)) => Phase::Attempt(
            Attempt { escalated, sandbox, step: AttemptStep::Tool(mode) },
        ),
        (AttemptStep::Tool(mode), Event::ToolFinished(result)) => match (mode, result) {
            (None, result) => attempted(escalated, result, None, managed_network_active),
            (Some(NetworkApprovalMode::Immediate), result) => Phase::Attempt(
                Attempt { escalated, sandbox, step: AttemptStep::FinishImmediate(result) },
            ),
            (Some(NetworkApprovalMode::Deferred), Ok(output)) => Phase::Attempt(
                Attempt { escalated, sandbox, step: AttemptStep::TakeDeferred(output) },
            ),
            (Some(NetworkApprovalMode::Deferred), Err(error)) => Phase::Attempt(
                Attempt { escalated, sandbox, step: AttemptStep::FinishDeferred(error) },
            ),
        },
        (AttemptStep::FinishImmediate(result), Event::ImmediateFinished(settled)) => {
            let result = match settled {
                Ok(_) => result,
                Err(error) => Err(error),
            };
            attempted(escalated, result, None, managed_network_active)
        },
        (AttemptStep::FinishDeferred(error), Event::DeferredFinished) => attempted(
            escalated,
            Err(error),
            None,
            managed_network_active,
        ),
        (AttemptStep::TakeDeferred(output), Event::DeferredTaken(deferred)) => attempted(
            escalated,
            Ok(output),
            deferred,
            managed_network_active,
        ),
        (step, _) => Phase::Attempt(Attempt { escalated, sandbox, step }),
    }
}

fn stands<T: ToolTypes>(denied: Denied<T>) -> (r: Phase<T>)
    ensures
        r == denial_stands(denied),
{
    Phase::Done(Outcome::Failed(ToolError::SandboxDenied(denied.denial)))
}

/// How a denial goes on.
pub fn resolve_denial<T: ToolTypes>(
    denied: Denied<T>,
    event: Event<T>,
    context: &RunContext,
) -> (r: Phase<T>)
    ensures
        r == denied_next(denied, event, *context),
{
    match (denied.step, event) {
        (DenialStep::NetworkContext, Event::NetworkContext(network)) => if network.is_some() {
            Phase::Denied(
                Denied { denial: denied.denial, network, step: DenialStep::EscalateOnFailure },
            )
        } else {
            stands(denied)
        },
        (DenialStep::EscalateOnFailure, Event::EscalateOnFailure(escalates)) => if escalates {
            Phase::Denied(Denied { step: DenialStep::WantsNoSandboxApproval, ..denied })
        } else {
            stands(denied)
        },
        (DenialStep::WantsNoSandboxApproval, Event::WantsNoSandboxApproval(wants)) => if wants {
            Phase::Denied(Denied { step: DenialStep::BypassApproval, ..denied })
        } else if context.approval_on_request && denied.network.is_some() {
            Phase::Denied(Denied { step: DenialStep::RetryRequirement, ..denied })
        } else {
            stands(denied)
        },
        (DenialStep::RetryRequirement, Event::RetryRequirement(requirement)) => match requirement {
            ExecApprovalRequirement::NeedsApproval { .. } => Phase::Denied(
                Denied { step: DenialStep::BypassApproval, ..denied },
            ),
            _ => stands(denied),
        },
        (DenialStep::BypassApproval, Event::BypassApproval(bypass)) => if bypass
            && denied.network.is_none() {
            start_attempt(true, SandboxType::Unsandboxed)
        } else {
            start_approval(
                Stage::Retry { denial: denied.denial, network: denied.network },
                context.use_guardian,
            )
        },
        _ => Phase::Denied(denied),
    }
}

impl<T: ToolTypes> OrchestratorRun<T> {
    /// Takes an answer, and says what decision is to be recorded with it.
    pub fn advance(self, event: Event<T>) -> (r: (OrchestratorRun<T>, Option<DecisionRecord<T>>))
        ensures
            r.0 == self.next(event),
            r.1 == self.record(event),
    {
        let OrchestratorRun { context, already_approved, phase } = self;
        let mut approved_now = false;
        let (next, record) = match phase {
            Phase::ToolRequirement => match event {
                Event::ToolRequirement(Some(requirement)) => resolve_requirement(
                    requirement,
                    context.use_guardian,
                ),
                Event::ToolRequirement(None) => (Phase::DefaultRequirement, None),
                _ => (Phase::ToolRequirement, None),
            },
            Phase::DefaultRequirement => match event {
                Event::DefaultRequirement(requirement) => resolve_requirement(
                    requirement,
                    context.use_guardian,
                ),
                _ => (Phase::DefaultRequirement, None),
            },
            Phase::Approval(approval) => {
                let (next, record) = request_approval(approval, event, context.use_guardian);
                if let Phase::SandboxMode = &next {
                    approved_now = true;
                }
                (next, record)
            },
            Phase::SandboxMode => match event {
                Event::SandboxMode(SandboxOverride::BypassSandboxFirstAttempt) => (
                    start_attempt(false, SandboxType::Unsandboxed),
                    None,
                ),
                Event::SandboxMode(SandboxOverride::NoOverride) => (
                    start_attempt(false, SandboxType::Selected),
                    None,
                ),
                _ => (Phase::SandboxMode, None),
            },
            Phase::Attempt(attempt) => (
                run_attempt(attempt, event, context.managed_network_active),
                None,
            ),
            Phase::Denied(denied) => (resolve_denial(denied, event, &context), None),
            Phase::Done(outcome) => (Phase::Done(outcome), None),
        };
        let run = OrchestratorRun {
            context,
            already_approved: already_approved || approved_now,
            phase: next,
        };
        (run, record)
    }

    /// The network decision that the run asks about, if it does.
    pub fn network_decision(&self) -> (r: Option<&T::NetworkDecision>)
        ensures
            match (self.phase, r) {
                (Phase::Denied(denied), r) => match denied.denial.network_policy_decision {
                    Some(decision) => r == Some(&decision),
                    None => r is None,
                },
                (_, r) => r is None,
            },
    {
        match &self.phase {
            Phase::Denied(denied) => denied.denial.network_policy_decision.as_ref(),
            _ => None,
        }
    }

    /// The network access that the run asks approval of, if it does.
    pub fn network_approval_context(&self) -> (r: Option<&NetworkApprovalContext<T>>)
        ensures
            match self.phase {
                Phase::Approval(approval) => match approval.stage {
                    Stage::Retry { network: Some(context), .. } => r == Some(&context),
                    _ => r is None,
                },
                _ => r is None,
            },
    {
        match &self.phase {
            Phase::Approval(approval) => match &approval.stage {
                Stage::Retry { network, .. } => network.as_ref(),
                Stage::Initial { .. } => None,
            },
            _ => None,
        }
    }

    /// What the run came to, or the run itself where it is not over.
    pub fn finish(self) -> (r: Result<Outcome<T>, OrchestratorRun<T>>)
        ensures
            match self.phase {
                Phase::Done(outcome) => r == Ok::<Outcome<T>, OrchestratorRun<T>>(outcome),
                _ => r == Err::<Outcome<T>, OrchestratorRun<T>>(self),
            },
    {
        let OrchestratorRun { context, already_approved, phase } = self;
        match phase {
            Phase::Done(outcome) => Ok(outcome),
            phase => Err(OrchestratorRun { context, already_approved, phase }),
        }
    }
}

impl Rejection {
    /// The rejection in words.
    pub open spec fn words(self) -> Seq<char> {
        match self {
            Rejection::Forbidden(reason) => reason@,
            Rejection::ByHook(message) => message@,
            Rejection::ByGuardian(message) => message@,
            Rejection::TimedOut(message) => message@,
            Rejection::ByUser => "rejected by user"@,
        }
    }

    /// The rejection in words.
    pub fn message(self) -> (r: String)
        ensures
            r@ == self.words(),
    {
        match self {
            Rejection::Forbidden(reason) => reason,
            Rejection::ByHook(message) => message,
            Rejection::ByGuardian(message) => message,
            Rejection::TimedOut(message) => message,
            Rejection::ByUser => "rejected by user".to_string(),
        }
    }
}

impl<T: ToolTypes> Outcome<T> {
    /// The outcome as a result.
    pub fn into_result(self) -> (r: Result<OrchestratorRunResult<T>, ToolError<T>>)
        ensures
            match (self, r) {
                (Outcome::Completed(result), Ok(r)) => r == result,
                (Outcome::Rejected(rejection), Err(ToolError::Rejected(message))) => message@
                    == rejection.words(),
                (Outcome::Failed(error), Err(r)) => r == error,
                _ => false,
            },
    {
        match self {
            Outcome::Completed(result) => Ok(result),
            Outcome::Rejected(rejection) => Err(ToolError::Rejected(rejection.message())),
            Outcome::Failed(error) => Err(error),
        }
    }
}

impl ToolOrchestrator {
    /// Ready to start runs.
    pub fn new() -> (r: ToolOrchestrator)
        ensures
            r == (ToolOrchestrator {}),
    {
        ToolOrchestrator {}
    }

    /// Starts the run of a tool.
    pub fn run<T: ToolTypes>(&mut self, context: RunContext) -> (r: OrchestratorRun<T>)
        ensures
            r == OrchestratorRun::<T>::initial(context),
    {
        OrchestratorRun { context, already_approved: false, phase: Phase::ToolRequirement }
    }
}

} // verus!
