use external_control::orchestrator::{
    build_denial_reason_from_output, Action, DecisionRecord, Event, ExecApprovalRequirement,
    NetworkApprovalContext, NetworkApprovalMode, NetworkPolicyRuleAction, OrchestratorRun,
    OrchestratorRunResult, PermissionRequestDecision, ReviewDecision, RunContext, SandboxAttempt,
    SandboxDenial, SandboxOverride, SandboxType, ToolDecisionSource, ToolError, ToolOrchestrator,
    ToolTypes,
};

struct Shell;

impl ToolTypes for Shell {
    type Output = &'static str;
    type DeniedOutput = &'static str;
    type NetworkDecision = &'static str;
    type Failure = &'static str;
    type DeferredApproval = u32;
    type ExecPolicyAmendment = &'static str;
    type NetworkPolicyAmendment = &'static str;
    type NetworkDetails = &'static str;
}

type Run = OrchestratorRun<Shell>;
type Answer = Event<Shell>;
type Decision = ReviewDecision<Shell>;
type Network = NetworkApprovalContext<Shell>;

const ALLOW: Decision = ReviewDecision::NetworkPolicyAmendment {
    action: NetworkPolicyRuleAction::Allow,
    amendment: "example.com",
};

const DENY: Decision = ReviewDecision::NetworkPolicyAmendment {
    action: NetworkPolicyRuleAction::Deny,
    amendment: "example.com",
};

/// A decision in words, with what it changes.
fn words(decision: &Decision) -> String {
    match decision {
        ReviewDecision::Approved => "approved".to_string(),
        ReviewDecision::ApprovedExecpolicyAmendment(amendment) => format!("approved: {amendment}"),
        ReviewDecision::ApprovedForSession => "approved for session".to_string(),
        ReviewDecision::NetworkPolicyAmendment { action, amendment } => {
            format!("{action:?}: {amendment}")
        }
        ReviewDecision::Denied => "denied".to_string(),
        ReviewDecision::TimedOut => "timed out".to_string(),
        ReviewDecision::Abort => "abort".to_string(),
    }
}

fn context(use_guardian: bool, approval_on_request: bool, managed_network_active: bool) -> RunContext {
    RunContext {
        call_id: "call".to_string(),
        use_guardian,
        approval_on_request,
        managed_network_active,
    }
}

fn plain() -> RunContext {
    context(false, false, false)
}

/// Answers what a run waits for, one by one, and notes what is recorded.
struct Driver {
    run: Run,
    records: Vec<(String, ToolDecisionSource)>,
}

impl Driver {
    fn new(context: RunContext) -> Driver {
        Driver { run: ToolOrchestrator::new().run(context), records: vec![] }
    }

    fn answer(mut self, asked: Action, answer: Answer) -> Driver {
        assert_eq!(self.run.pending(), asked);
        let (run, record) = self.run.advance(answer);
        self.records.extend(record.map(|r: DecisionRecord<Shell>| (words(&r.decision), r.source)));
        Driver { run, records: self.records }
    }

    fn required(self, requirement: ExecApprovalRequirement) -> Driver {
        self.answer(Action::AskToolRequirement, Event::ToolRequirement(Some(requirement)))
    }

    fn skip(self) -> Driver {
        self.required(ExecApprovalRequirement::Skip)
    }

    fn needs_approval(self) -> Driver {
        self.required(ExecApprovalRequirement::NeedsApproval { reason: Some("why".to_string()) })
            .answer(Action::AskPermissionPayload, Event::PermissionPayload(false))
    }

    fn first_decision(self, decision: Decision) -> Driver {
        self.needs_approval().answer(
            Action::RequestApproval {
                review_id: None,
                retry_reason: Some("why".to_string()),
                network_host: None,
            },
            Event::Decision(decision),
        )
    }

    fn sandboxed(self) -> Driver {
        self.answer(Action::AskSandboxMode, Event::SandboxMode(SandboxOverride::NoOverride))
    }

    fn attempt(
        self,
        sandbox: SandboxType,
        managed: bool,
        mode: Option<NetworkApprovalMode>,
        result: Result<&'static str, ToolError<Shell>>,
    ) -> Driver {
        let escalated = false;
        self.attempt_as(sandbox, managed, escalated, mode, result)
    }

    fn retry(
        self,
        managed: bool,
        mode: Option<NetworkApprovalMode>,
        result: Result<&'static str, ToolError<Shell>>,
    ) -> Driver {
        self.attempt_as(SandboxType::Unsandboxed, managed, true, mode, result)
    }

    fn attempt_as(
        self,
        sandbox: SandboxType,
        managed: bool,
        escalated: bool,
        mode: Option<NetworkApprovalMode>,
        result: Result<&'static str, ToolError<Shell>>,
    ) -> Driver {
        self.answer(
            Action::BeginNetworkApproval { managed_network_active: managed },
            Event::NetworkApproval(mode),
        )
        .answer(
            Action::RunTool {
                attempt: SandboxAttempt {
                    sandbox,
                    enforce_managed_network: managed,
                    with_linux_sandbox_exe: !escalated,
                },
            },
            Event::ToolFinished(result),
        )
    }

    fn escalates(self) -> Driver {
        self.answer(Action::AskEscalateOnFailure, Event::EscalateOnFailure(true))
    }

    fn wants(self, wants: bool) -> Driver {
        self.answer(Action::AskWantsNoSandboxApproval, Event::WantsNoSandboxApproval(wants))
    }

    fn bypass(self, already_approved: bool, bypass: bool) -> Driver {
        self.answer(
            Action::AskBypassApproval { already_approved },
            Event::BypassApproval(bypass),
        )
    }

    fn finish(self) -> Result<OrchestratorRunResult<Shell>, ToolError<Shell>> {
        assert_eq!(self.run.pending(), Action::Finish);
        match self.run.finish() {
            Ok(outcome) => outcome.into_result(),
            Err(_) => panic!("not over"),
        }
    }

    fn rejection(self) -> String {
        match self.finish() {
            Err(ToolError::Rejected(message)) => message,
            _ => panic!("not rejected"),
        }
    }

    fn success(self) -> (&'static str, Option<u32>) {
        match self.finish() {
            Ok(result) => (result.output, result.deferred_network_approval),
            Err(_) => panic!("no success"),
        }
    }

    fn denial(self) -> (&'static str, Option<&'static str>) {
        match self.finish() {
            Err(ToolError::SandboxDenied(denial)) => {
                (denial.output, denial.network_policy_decision)
            }
            _ => panic!("not denied"),
        }
    }
}

fn denied(decision: Option<&'static str>) -> Result<&'static str, ToolError<Shell>> {
    Err(ToolError::SandboxDenied(SandboxDenial {
        output: "stderr",
        network_policy_decision: decision,
    }))
}

fn network(host: &str) -> Option<Network> {
    Some(NetworkApprovalContext { host: host.to_string(), details: "https" })
}

fn approval_needed() -> ExecApprovalRequirement {
    ExecApprovalRequirement::NeedsApproval { reason: None }
}

fn record(decision: Decision, source: ToolDecisionSource) -> (String, ToolDecisionSource) {
    (words(&decision), source)
}

#[test]
fn a_tool_that_needs_no_approval_just_runs() {
    let driver = Driver::new(plain()).skip();
    assert_eq!(driver.records, [record(ReviewDecision::Approved, ToolDecisionSource::Config)]);
    let driver = driver.sandboxed().attempt(SandboxType::Selected, false, None, Ok("out"));
    assert_eq!(driver.records.len(), 1);
    assert_eq!(driver.success(), ("out", None));
}

#[test]
fn the_default_requirement_counts_where_the_tool_has_none() {
    let driver = Driver::new(plain())
        .answer(Action::AskToolRequirement, Event::ToolRequirement(None))
        .answer(
            Action::ComputeDefaultRequirement,
            Event::DefaultRequirement(ExecApprovalRequirement::Skip),
        );
    assert_eq!(driver.records, [record(ReviewDecision::Approved, ToolDecisionSource::Config)]);
    assert_eq!(driver.run.pending(), Action::AskSandboxMode);
}

#[test]
fn a_forbidden_tool_is_rejected_with_the_reason() {
    let forbidden = || ExecApprovalRequirement::Forbidden { reason: "no shells".to_string() };
    let driver = Driver::new(plain()).required(forbidden());
    assert!(driver.records.is_empty());
    assert_eq!(driver.rejection(), "no shells");
    let driver = Driver::new(plain())
        .answer(Action::AskToolRequirement, Event::ToolRequirement(None))
        .answer(
            Action::ComputeDefaultRequirement,
            Event::DefaultRequirement(forbidden()),
        );
    assert_eq!(driver.rejection(), "no shells");
}

#[test]
fn decisions_let_the_tool_run_or_not() {
    for decision in [
        ReviewDecision::Approved,
        ReviewDecision::ApprovedExecpolicyAmendment("ls"),
        ReviewDecision::ApprovedForSession,
        ALLOW,
    ] {
        let recorded = words(&decision);
        let driver = Driver::new(plain()).first_decision(decision);
        assert_eq!(driver.records, [(recorded, ToolDecisionSource::User)]);
        assert_eq!(driver.run.pending(), Action::AskSandboxMode);
    }
    for decision in [ReviewDecision::Denied, ReviewDecision::Abort, DENY] {
        let recorded = words(&decision);
        let driver = Driver::new(plain()).first_decision(decision);
        assert_eq!(driver.records, [(recorded, ToolDecisionSource::User)]);
        assert_eq!(driver.rejection(), "rejected by user");
    }
    let driver = Driver::new(plain())
        .first_decision(ReviewDecision::TimedOut)
        .answer(Action::GetTimeoutMessage, Event::Message("too late".to_string()));
    assert_eq!(driver.rejection(), "too late");
}

fn reviewed(decision: Decision) -> Driver {
    Driver::new(context(true, false, false))
        .required(ExecApprovalRequirement::NeedsApproval { reason: None })
        .answer(Action::NewReviewId, Event::ReviewId("rev".to_string()))
        .answer(Action::AskPermissionPayload, Event::PermissionPayload(false))
        .answer(
            Action::RequestApproval {
                review_id: Some("rev".to_string()),
                retry_reason: None,
                network_host: None,
            },
            Event::Decision(decision),
        )
}

#[test]
fn the_guardian_rejects_in_its_own_words() {
    for decision in [ReviewDecision::Denied, ReviewDecision::Abort] {
        let recorded = words(&decision);
        let driver = reviewed(decision);
        assert_eq!(driver.records, [(recorded, ToolDecisionSource::AutomatedReviewer)]);
        let driver = driver.answer(
            Action::GetRejectionMessage { review_id: "rev".to_string() },
            Event::Message("too risky".to_string()),
        );
        assert_eq!(driver.rejection(), "too risky");
    }
    assert_eq!(reviewed(DENY).rejection(), "rejected by user");
    let driver = reviewed(ReviewDecision::TimedOut)
        .answer(Action::GetTimeoutMessage, Event::Message("too late".to_string()));
    assert_eq!(driver.rejection(), "too late");
    assert_eq!(reviewed(ReviewDecision::Approved).run.pending(), Action::AskSandboxMode);
}

fn hooked(decision: Option<PermissionRequestDecision>) -> Driver {
    Driver::new(plain())
        .required(ExecApprovalRequirement::NeedsApproval { reason: None })
        .answer(Action::AskPermissionPayload, Event::PermissionPayload(true))
        .answer(
            Action::RunPermissionHooks { run_id: "call".to_string() },
            Event::HookDecision(decision),
        )
}

#[test]
fn hooks_decide_before_anyone_is_asked() {
    let allowed = hooked(Some(PermissionRequestDecision::Allow));
    assert_eq!(allowed.records, [record(ReviewDecision::Approved, ToolDecisionSource::Config)]);
    assert_eq!(allowed.run.pending(), Action::AskSandboxMode);
    assert!(allowed.run.already_approved);
    let refused = hooked(Some(PermissionRequestDecision::Deny { message: "not here".to_string() }));
    assert_eq!(refused.records, [record(ReviewDecision::Denied, ToolDecisionSource::Config)]);
    assert_eq!(refused.rejection(), "not here");
    let open = hooked(None);
    assert!(open.records.is_empty());
    assert_eq!(
        open.run.pending(),
        Action::RequestApproval {
            review_id: None,
            retry_reason: None,
            network_host: None,
        }
    );
}

#[test]
fn a_tool_may_want_no_sandbox_from_the_start() {
    let driver = Driver::new(plain())
        .skip()
        .answer(
            Action::AskSandboxMode,
            Event::SandboxMode(SandboxOverride::BypassSandboxFirstAttempt),
        )
        .attempt(SandboxType::Unsandboxed, false, None, Ok("out"));
    assert_eq!(driver.success(), ("out", None));
}

#[test]
fn a_failure_that_is_no_denial_is_final() {
    let driver = Driver::new(plain()).skip().sandboxed().attempt(
        SandboxType::Selected,
        false,
        None,
        Err(ToolError::Failed("crash")),
    );
    match driver.finish() {
        Err(ToolError::Failed(failure)) => assert_eq!(failure, "crash"),
        _ => panic!("no failure"),
    }
    let driver = Driver::new(plain()).skip().sandboxed().attempt(
        SandboxType::Selected,
        false,
        None,
        Err(ToolError::Rejected("by the tool".to_string())),
    );
    assert_eq!(driver.rejection(), "by the tool");
}

fn immediate(
    result: Result<&'static str, ToolError<Shell>>,
    settled: Result<(), ToolError<Shell>>,
) -> Driver {
    Driver::new(context(false, false, true))
        .skip()
        .sandboxed()
        .attempt(SandboxType::Selected, true, Some(NetworkApprovalMode::Immediate), result)
        .answer(Action::FinishImmediateNetworkApproval, Event::ImmediateFinished(settled))
}

#[test]
fn an_immediate_network_approval_is_settled_with_the_attempt() {
    assert_eq!(immediate(Ok("out"), Ok(())).success(), ("out", None));
    match immediate(Ok("out"), Err(ToolError::Failed("blocked"))).finish() {
        Err(ToolError::Failed(failure)) => assert_eq!(failure, "blocked"),
        _ => panic!("no failure"),
    }
    match immediate(Err(ToolError::Failed("crash")), Ok(())).finish() {
        Err(ToolError::Failed(failure)) => assert_eq!(failure, "crash"),
        _ => panic!("no failure"),
    }
    let denial = Err(ToolError::SandboxDenied(SandboxDenial {
        output: "late",
        network_policy_decision: None,
    }));
    assert_eq!(immediate(Ok("out"), denial).run.pending(), Action::AskEscalateOnFailure);
}

#[test]
fn a_deferred_network_approval_is_handed_on_with_a_success_only() {
    let deferred = |result| {
        Driver::new(context(false, false, true)).skip().sandboxed().attempt(
            SandboxType::Selected,
            true,
            Some(NetworkApprovalMode::Deferred),
            result,
        )
    };
    let kept = deferred(Ok("out"))
        .answer(Action::TakeDeferredNetworkApproval, Event::DeferredTaken(Some(9)));
    assert_eq!(kept.success(), ("out", Some(9)));
    let none = deferred(Ok("out"))
        .answer(Action::TakeDeferredNetworkApproval, Event::DeferredTaken(None));
    assert_eq!(none.success(), ("out", None));
    let failed = deferred(Err(ToolError::Failed("crash")))
        .answer(Action::FinishDeferredNetworkApproval, Event::DeferredFinished);
    match failed.finish() {
        Err(ToolError::Failed(failure)) => assert_eq!(failure, "crash"),
        _ => panic!("no failure"),
    }
}

#[test]
fn a_denial_stands_where_the_tool_is_not_retried() {
    let driver = Driver::new(plain())
        .skip()
        .sandboxed()
        .attempt(SandboxType::Selected, false, None, denied(None))
        .answer(Action::AskEscalateOnFailure, Event::EscalateOnFailure(false));
    assert_eq!(driver.denial(), ("stderr", None));
}

#[test]
fn a_denial_stands_where_asking_is_not_allowed() {
    let driver = Driver::new(context(false, true, false))
        .skip()
        .sandboxed()
        .attempt(SandboxType::Selected, false, None, denied(None))
        .escalates()
        .wants(false);
    assert_eq!(driver.denial(), ("stderr", None));
}

#[test]
fn a_network_denial_stands_where_nothing_is_known_of_it() {
    let driver = Driver::new(plain())
        .skip()
        .sandboxed()
        .attempt(SandboxType::Selected, false, None, denied(Some("policy")));
    assert_eq!(driver.denial(), ("stderr", Some("policy")));
    let driver = Driver::new(context(false, false, true))
        .skip()
        .sandboxed()
        .attempt(SandboxType::Selected, true, None, denied(Some("policy")));
    assert_eq!(driver.run.network_decision(), Some(&"policy"));
    let driver = driver.answer(Action::ReadNetworkContext, Event::NetworkContext(None));
    assert_eq!(driver.denial(), ("stderr", Some("policy")));
}

#[test]
fn an_approved_tool_may_be_retried_without_approval() {
    let driver = Driver::new(plain())
        .first_decision(ReviewDecision::Approved)
        .sandboxed()
        .attempt(SandboxType::Selected, false, None, denied(None))
        .escalates()
        .wants(true)
        .bypass(true, true)
        .retry(false, None, Ok("at last"));
    assert_eq!(driver.records.len(), 1);
    assert_eq!(driver.success(), ("at last", None));
}

fn asked_again(decision: Decision) -> Driver {
    Driver::new(plain())
        .skip()
        .sandboxed()
        .attempt(SandboxType::Selected, false, None, denied(None))
        .escalates()
        .wants(true)
        .bypass(false, false)
        .answer(Action::AskPermissionPayload, Event::PermissionPayload(true))
        .answer(
            Action::RunPermissionHooks { run_id: "call:retry".to_string() },
            Event::HookDecision(None),
        )
        .answer(
            Action::RequestApproval {
                review_id: None,
                retry_reason: Some("command failed; retry without sandbox?".to_string()),
                network_host: None,
            },
            Event::Decision(decision),
        )
}

#[test]
fn a_retry_is_approved_first() {
    let approved = asked_again(ReviewDecision::ApprovedForSession);
    assert_eq!(
        approved.records,
        [
            record(ReviewDecision::Approved, ToolDecisionSource::Config),
            record(ReviewDecision::ApprovedForSession, ToolDecisionSource::User),
        ]
    );
    assert!(!approved.run.already_approved);
    assert_eq!(approved.retry(false, None, Ok("ok")).success(), ("ok", None));
    assert_eq!(asked_again(ReviewDecision::Denied).rejection(), "rejected by user");
    let late = asked_again(ReviewDecision::TimedOut)
        .answer(Action::GetTimeoutMessage, Event::Message("too late".to_string()));
    assert_eq!(late.rejection(), "too late");
}

#[test]
fn a_retry_is_the_last_attempt() {
    let driver = asked_again(ReviewDecision::Approved).retry(false, None, denied(Some("again")));
    assert_eq!(driver.denial(), ("stderr", Some("again")));
    let driver =
        asked_again(ReviewDecision::Approved).retry(false, None, Err(ToolError::Failed("crash")));
    match driver.finish() {
        Err(ToolError::Failed(failure)) => assert_eq!(failure, "crash"),
        _ => panic!("no failure"),
    }
}

#[test]
fn network_access_is_asked_for_by_host_even_after_an_approval() {
    let driver = Driver::new(context(true, true, true))
        .skip()
        .sandboxed()
        .attempt(SandboxType::Selected, true, None, denied(Some("policy")))
        .answer(Action::ReadNetworkContext, Event::NetworkContext(network("example.com")))
        .escalates()
        .wants(false)
        .answer(Action::ComputeRetryRequirement, Event::RetryRequirement(approval_needed()))
        .bypass(false, true)
        .answer(Action::NewReviewId, Event::ReviewId("rev".to_string()))
        .answer(Action::AskPermissionPayload, Event::PermissionPayload(false));
    let asked = driver.run.network_approval_context().unwrap();
    assert_eq!((asked.host.as_str(), asked.details), ("example.com", "https"));
    let driver = driver
        .answer(
            Action::RequestApproval {
                review_id: Some("rev".to_string()),
                retry_reason: Some(
                    "Network access to \"example.com\" is blocked by policy.".to_string(),
                ),
                network_host: Some("example.com".to_string()),
            },
            Event::Decision(ALLOW),
        )
        .retry(true, Some(NetworkApprovalMode::Deferred), Ok("fetched"))
        .answer(Action::TakeDeferredNetworkApproval, Event::DeferredTaken(Some(4)));
    assert_eq!(driver.success(), ("fetched", Some(4)));
}

#[test]
fn network_access_is_not_asked_for_where_the_policy_needs_no_approval() {
    let asked = |context| {
        Driver::new(context)
            .skip()
            .sandboxed()
            .attempt(SandboxType::Selected, true, None, denied(Some("policy")))
            .answer(Action::ReadNetworkContext, Event::NetworkContext(network("h")))
            .escalates()
            .wants(false)
    };
    for requirement in [
        ExecApprovalRequirement::Skip,
        ExecApprovalRequirement::Forbidden { reason: "no".to_string() },
    ] {
        let driver = asked(context(false, true, true))
            .answer(Action::ComputeRetryRequirement, Event::RetryRequirement(requirement));
        assert_eq!(driver.denial(), ("stderr", Some("policy")));
    }
    assert_eq!(asked(context(false, false, true)).denial(), ("stderr", Some("policy")));
}

#[test]
fn what_was_not_asked_for_changes_nothing() {
    let driver = Driver::new(plain());
    let (run, record) = driver.run.advance(Event::Decision(ReviewDecision::Approved));
    assert_eq!(run.pending(), Action::AskToolRequirement);
    assert!(record.is_none());
    let run = match run.finish() {
        Err(run) => run,
        Ok(_) => panic!("over"),
    };
    assert!(run.network_decision().is_none());
    assert!(run.network_approval_context().is_none());
    let (run, record) = run.advance(Event::ToolRequirement(Some(
        ExecApprovalRequirement::Forbidden { reason: "no".to_string() },
    )));
    assert!(record.is_none());
    let (run, _) = run.advance(Event::ToolFinished(Ok("out")));
    assert_eq!(run.pending(), Action::Finish);
}

#[test]
fn the_longest_run_takes_all_the_answers_allowed() {
    let reason = "command failed; retry without sandbox?".to_string();
    let mut answers = 0;
    let mut run: Run = ToolOrchestrator::new().run(context(true, true, true));
    let mut decisions = vec![ALLOW, ReviewDecision::Approved];
    let mut results = vec![Err(ToolError::Failed("crash")), denied(Some("policy"))];
    loop {
        let event = match run.pending() {
            Action::AskToolRequirement => Event::ToolRequirement(None),
            Action::ComputeDefaultRequirement => Event::DefaultRequirement(
                ExecApprovalRequirement::NeedsApproval { reason: Some(reason.clone()) },
            ),
            Action::NewReviewId => Event::ReviewId("rev".to_string()),
            Action::AskPermissionPayload => Event::PermissionPayload(true),
            Action::RunPermissionHooks { .. } => Event::HookDecision(None),
            Action::RequestApproval { .. } => Event::Decision(decisions.pop().unwrap()),
            Action::AskSandboxMode => Event::SandboxMode(SandboxOverride::NoOverride),
            Action::BeginNetworkApproval { .. } => {
                Event::NetworkApproval(Some(NetworkApprovalMode::Deferred))
            }
            Action::RunTool { .. } => Event::ToolFinished(results.pop().unwrap()),
            Action::FinishDeferredNetworkApproval => Event::DeferredFinished,
            Action::ReadNetworkContext => Event::NetworkContext(network("h")),
            Action::AskEscalateOnFailure => Event::EscalateOnFailure(true),
            Action::AskWantsNoSandboxApproval => Event::WantsNoSandboxApproval(false),
            Action::ComputeRetryRequirement => Event::RetryRequirement(approval_needed()),
            Action::AskBypassApproval { already_approved } => Event::BypassApproval(already_approved),
            Action::Finish => break,
            other => panic!("{:?}", other),
        };
        answers += 1;
        run = run.advance(event).0;
    }
    assert_eq!(answers, 22);
}

#[test]
fn the_question_after_a_denial_is_always_the_same() {
    assert_eq!(build_denial_reason_from_output(&"a"), "command failed; retry without sandbox?");
    assert_eq!(build_denial_reason_from_output(&7), "command failed; retry without sandbox?");
}
