use eth_agent::agent::{
    AgentError, AgentRun, EthAgent, RunAction, RunEvent, Stage, Waiting, MAX_PLAN_ATTEMPTS, NO_RESULT,
};
use eth_agent::profile::Profile;
use eth_agent::types::UserPrompt;

const BALANCE_PLAN: &str = "```json\n{\"number_of_steps\": 1, \"steps\": [{\"step_number\": 1, \"agent_name\": \"ethereum_agent\", \"agent_prompt\": \"Get the balance of Alice\"}]}\n```";

const MYSTERY_PLAN: &str = "{\"number_of_steps\": 1, \"steps\": [{\"step_number\": 1, \"agent_name\": \"mystery_agent\", \"agent_prompt\": \"Do magic\"}]}";

const TWO_STEP_PLAN: &str = "{\"number_of_steps\": 2, \"steps\": [{\"step_number\": 1, \"agent_name\": \"search_agent\", \"agent_prompt\": \"Find the price of ETH\"}, {\"step_number\": 2, \"agent_name\": \"ethereum_agent\", \"agent_prompt\": \"Send 1 ETH from Alice to Bob\"}]}";

fn agent() -> EthAgent {
    EthAgent::new("brave-key", "planner-model", "executor-model", "judge-model", 70)
}

fn prompt(text: &str) -> UserPrompt {
    UserPrompt::new("prompt-1".to_string(), text.to_string(), 1_700_000_000_000)
}

fn begin(text: &str) -> AgentRun {
    let (run, action) = agent().run(prompt(text));
    match action {
        RunAction::AskPlanner { request } => assert_eq!(request, text),
        other => panic!("unexpected {:?}", other),
    }
    run
}

fn verdict(score: u32) -> RunEvent {
    RunEvent::JudgeReplied(format!("{{\"score\": {}, \"reasoning\": \"checked\"}}", score))
}

#[test]
fn agent_keeps_its_settings() {
    let agent = EthAgent::new("key", "plan", "exec", "eval", 55);
    assert_eq!(agent.brave_search_api_key(), "key");
    assert_eq!(agent.planning_model(), "plan");
    assert_eq!(agent.execution_model(), "exec");
    assert_eq!(agent.evaluation_model(), "eval");
    assert_eq!(agent.evaluation_threshold(), 55);
}

#[test]
fn run_begins_by_asking_for_a_plan() {
    let run = begin("What is the balance of Alice?");
    assert_eq!(run.stage(), Stage::Planning);
    assert_eq!(run.attempts(), 1);
    assert!(run.plan().is_none());
    assert!(run.transcript().is_empty());
    assert!(!run.is_over());
}

#[test]
fn balance_of_alice_in_one_step() {
    let run = begin("What is the balance of Alice?");
    let (run, action) = run.step(RunEvent::PlannerReplied(BALANCE_PLAN.to_string()));
    assert!(matches!(action, RunAction::OpenSession));
    assert_eq!(run.stage(), Stage::Executing(Waiting::Session));
    assert_eq!(run.plan().unwrap().steps.len(), 1);
    assert_eq!(run.plan().unwrap().max_steps, 1);
    assert_eq!(run.plan().unwrap().current_step, 0);
    assert_eq!(run.plan().unwrap().prompt.natural_language, "What is the balance of Alice?");
    assert!(!run.plan().unwrap().id.is_empty());

    let (run, action) = run.step(RunEvent::SessionOpened);
    match action {
        RunAction::AskProfile { profile, request, max_turns } => {
            assert_eq!(profile, Profile::Ledger);
            assert_eq!(request, "Get the balance of AlicePrevious steps: ");
            assert_eq!(max_turns, 1);
        }
        other => panic!("unexpected {:?}", other),
    }
    assert_eq!(run.stage(), Stage::Executing(Waiting::Profile));

    let (run, action) = run.step(RunEvent::ProfileReplied("Alice holds 10000 ETH".to_string()));
    match action {
        RunAction::AskJudge { request } => assert_eq!(
            request,
            "Evaluate the following result: Alice holds 10000 ETH against the current agent prompt: Get the balance of Alice and user prompt: What is the balance of Alice?"
        ),
        other => panic!("unexpected {:?}", other),
    }
    assert_eq!(run.stage(), Stage::Executing(Waiting::Verdict));
    assert_eq!(run.transcript().len(), 1);

    let (run, action) = run.step(verdict(90));
    match action {
        RunAction::Succeed(result) => {
            assert_eq!(result.result, "Alice holds 10000 ETH");
            assert_eq!(result.error_message, None);
        }
        other => panic!("unexpected {:?}", other),
    }
    assert_eq!(run.stage(), Stage::Succeeded);
    assert_eq!(run.attempts(), 1);
    assert!(run.is_over());
}

#[test]
fn unknown_profile_is_replanned() {
    let run = begin("Do something");
    let (run, _) = run.step(RunEvent::PlannerReplied(MYSTERY_PLAN.to_string()));
    let (run, action) = run.step(RunEvent::SessionOpened);
    match action {
        RunAction::AskPlanner { request } => assert_eq!(
            request,
            "This a replan request. The user prompt is: Do something and the replan reason is: Unknown agent name: mystery_agent"
        ),
        other => panic!("unexpected {:?}", other),
    }
    assert_eq!(run.stage(), Stage::Planning);
    assert_eq!(run.attempts(), 2);
    assert!(run.plan().is_none());
    assert!(run.transcript().is_empty());

    let (run, _) = run.step(RunEvent::PlannerReplied(BALANCE_PLAN.to_string()));
    let (run, _) = run.step(RunEvent::SessionOpened);
    let (run, _) = run.step(RunEvent::ProfileReplied("42".to_string()));
    let (run, action) = run.step(verdict(70));
    match action {
        RunAction::Succeed(result) => {
            assert_eq!(result.result, "42");
            assert_eq!(result.error_message, None);
        }
        other => panic!("unexpected {:?}", other),
    }
    assert_eq!(run.stage(), Stage::Succeeded);
    assert_eq!(run.attempts(), 2);
}

#[test]
fn malformed_plan_is_fatal() {
    let run = begin("Do something");
    let expected = serde_json::from_str::<serde_json::Value>("Sorry, no plan.")
        .unwrap_err()
        .to_string();
    let (run, action) = run.step(RunEvent::PlannerReplied("Sorry, no plan.".to_string()));
    match action {
        RunAction::Fail(AgentError::Planning(message)) => assert_eq!(message, expected),
        other => panic!("unexpected {:?}", other),
    }
    assert_eq!(run.stage(), Stage::Failed);
    assert_eq!(run.attempts(), 1);
    let (run, action) = run.step(RunEvent::PlannerReplied(BALANCE_PLAN.to_string()));
    assert!(matches!(action, RunAction::Halt));
    assert_eq!(run.stage(), Stage::Failed);
}

#[test]
fn plan_of_another_shape_is_fatal() {
    let run = begin("Do something");
    let (run, action) = run.step(RunEvent::PlannerReplied("{\"steps\": []}".to_string()));
    match action {
        RunAction::Fail(AgentError::Planning(message)) => {
            assert_eq!(message, "reply does not have the expected JSON shape")
        }
        other => panic!("unexpected {:?}", other),
    }
    assert_eq!(run.stage(), Stage::Failed);
}

#[test]
fn planner_failure_is_fatal() {
    let run = begin("Do something");
    let (run, action) = run.step(RunEvent::PlannerFailed("connection refused".to_string()));
    match action {
        RunAction::Fail(error) => {
            assert!(matches!(error, AgentError::Planning(_)));
            assert_eq!(error.message(), "connection refused");
        }
        other => panic!("unexpected {:?}", other),
    }
    assert_eq!(run.stage(), Stage::Failed);
}

#[test]
fn three_failed_attempts_end_the_run() {
    let mut run = begin("Do something");
    for attempt in 1..=3u32 {
        assert_eq!(run.attempts(), attempt);
        let (next, _) = run.step(RunEvent::PlannerReplied(BALANCE_PLAN.to_string()));
        let (next, _) = next.step(RunEvent::SessionOpened);
        let (next, _) = next.step(RunEvent::ProfileReplied("nonsense".to_string()));
        let (next, action) = next.step(verdict(10));
        if attempt < 3 {
            match action {
                RunAction::AskPlanner { request } => assert_eq!(
                    request,
                    "This a replan request. The user prompt is: Do something and the replan reason is: Evaluation score is below threshold: 10"
                ),
                other => panic!("unexpected {:?}", other),
            }
            assert_eq!(next.stage(), Stage::Planning);
        } else {
            match action {
                RunAction::Fail(error) => {
                    assert!(matches!(error, AgentError::MaxRetries));
                    assert_eq!(error.message(), "Agent loop failed with max retries");
                }
                other => panic!("unexpected {:?}", other),
            }
            assert_eq!(next.stage(), Stage::Failed);
        }
        run = next;
    }
    assert_eq!(run.attempts(), MAX_PLAN_ATTEMPTS);
    let (run, action) = run.step(RunEvent::PlannerReplied(BALANCE_PLAN.to_string()));
    assert!(matches!(action, RunAction::Halt));
    assert_eq!(run.attempts(), 3);
}

#[test]
fn missing_tool_server_is_fatal() {
    let run = begin("What is the balance of Alice?");
    let (run, _) = run.step(RunEvent::PlannerReplied(BALANCE_PLAN.to_string()));
    let (run, action) = run.step(RunEvent::SessionFailed(
        "Failed to start foundry-mcp server: No such file or directory".to_string(),
    ));
    match action {
        RunAction::Fail(error) => {
            match &error {
                AgentError::Execution(message) => assert_eq!(
                    message,
                    "MCP client initialization failed: Failed to start foundry-mcp server: No such file or directory"
                ),
                other => panic!("unexpected {:?}", other),
            }
            assert_eq!(
                error.message(),
                "Agent loop failed: MCP client initialization failed: Failed to start foundry-mcp server: No such file or directory"
            );
        }
        other => panic!("unexpected {:?}", other),
    }
    assert_eq!(run.stage(), Stage::Failed);
    assert!(run.transcript().is_empty());
    assert_eq!(run.attempts(), 1);
}

#[test]
fn later_steps_see_earlier_results() {
    let run = begin("Send the price of one ETH");
    let (run, _) = run.step(RunEvent::PlannerReplied(TWO_STEP_PLAN.to_string()));
    let (run, action) = run.step(RunEvent::SessionOpened);
    match action {
        RunAction::AskProfile { profile, request, max_turns } => {
            assert_eq!(profile, Profile::Search);
            assert_eq!(request, "Find the price of ETHPrevious steps: ");
            assert_eq!(max_turns, 3);
        }
        other => panic!("unexpected {:?}", other),
    }
    let (run, _) = run.step(RunEvent::ProfileReplied("ETH is at 3000 USD".to_string()));
    let (run, action) = run.step(verdict(100));
    match action {
        RunAction::AskProfile { profile, request, max_turns } => {
            assert_eq!(profile, Profile::Ledger);
            assert_eq!(request, "Send 1 ETH from Alice to BobPrevious steps: ETH is at 3000 USD");
            assert_eq!(max_turns, 1);
        }
        other => panic!("unexpected {:?}", other),
    }
    let (run, action) = run.step(RunEvent::ProfileReplied("Sent, hash 0xabc".to_string()));
    match action {
        RunAction::AskJudge { request } => assert_eq!(
            request,
            "Evaluate the following result: Sent, hash 0xabc against the current agent prompt: Send 1 ETH from Alice to Bob and user prompt: Send the price of one ETH"
        ),
        other => panic!("unexpected {:?}", other),
    }
    assert_eq!(run.transcript().len(), 2);
    let (run, action) = run.step(verdict(70));
    match action {
        RunAction::Succeed(result) => assert_eq!(result.result, "Sent, hash 0xabc"),
        other => panic!("unexpected {:?}", other),
    }
    assert!(run.is_over());
}

#[test]
fn score_just_below_threshold_replans() {
    let run = begin("Q");
    let (run, _) = run.step(RunEvent::PlannerReplied(BALANCE_PLAN.to_string()));
    let (run, _) = run.step(RunEvent::SessionOpened);
    let (run, _) = run.step(RunEvent::ProfileReplied("r".to_string()));
    let (run, action) = run.step(verdict(69));
    match action {
        RunAction::AskPlanner { request } => {
            assert!(request.ends_with("Evaluation score is below threshold: 69"))
        }
        other => panic!("unexpected {:?}", other),
    }
    assert_eq!(run.attempts(), 2);
}

#[test]
fn unreadable_verdict_replans() {
    let run = begin("Q");
    let (run, _) = run.step(RunEvent::PlannerReplied(BALANCE_PLAN.to_string()));
    let (run, _) = run.step(RunEvent::SessionOpened);
    let (run, _) = run.step(RunEvent::ProfileReplied("r".to_string()));
    let (run, action) = run.step(RunEvent::JudgeReplied("I like it".to_string()));
    match action {
        RunAction::AskPlanner { request } => assert_eq!(
            request,
            "This a replan request. The user prompt is: Q and the replan reason is: Evaluation failed"
        ),
        other => panic!("unexpected {:?}", other),
    }
    assert_eq!(run.stage(), Stage::Planning);
}

#[test]
fn judge_failure_replans() {
    let run = begin("Q");
    let (run, _) = run.step(RunEvent::PlannerReplied(BALANCE_PLAN.to_string()));
    let (run, _) = run.step(RunEvent::SessionOpened);
    let (run, _) = run.step(RunEvent::ProfileReplied("r".to_string()));
    let (run, action) = run.step(RunEvent::JudgeFailed("timeout".to_string()));
    match action {
        RunAction::AskPlanner { request } => assert!(request.ends_with("Evaluation failed")),
        other => panic!("unexpected {:?}", other),
    }
    assert_eq!(run.attempts(), 2);
}

#[test]
fn profile_failure_is_fatal() {
    let run = begin("Q");
    let (run, _) = run.step(RunEvent::PlannerReplied(BALANCE_PLAN.to_string()));
    let (run, _) = run.step(RunEvent::SessionOpened);
    let (run, action) = run.step(RunEvent::ProfileFailed("tool exited".to_string()));
    match action {
        RunAction::Fail(error) => assert_eq!(
            error.message(),
            "Agent loop failed: Failed to get response from ethereum agent: tool exited"
        ),
        other => panic!("unexpected {:?}", other),
    }
    assert_eq!(run.stage(), Stage::Failed);

    let run = begin("Q");
    let (run, _) = run.step(RunEvent::PlannerReplied(TWO_STEP_PLAN.to_string()));
    let (run, _) = run.step(RunEvent::SessionOpened);
    let (_, action) = run.step(RunEvent::ProfileFailed("rate limited".to_string()));
    match action {
        RunAction::Fail(error) => assert_eq!(
            error.message(),
            "Agent loop failed: Failed to get response from search agent: rate limited"
        ),
        other => panic!("unexpected {:?}", other),
    }
}

#[test]
fn plan_without_steps_yields_the_placeholder() {
    let run = begin("Q");
    let (run, _) = run.step(RunEvent::PlannerReplied("{\"number_of_steps\": 0, \"steps\": []}".to_string()));
    let (run, action) = run.step(RunEvent::SessionOpened);
    match action {
        RunAction::Succeed(result) => {
            assert_eq!(result.result, "Failed to get response from agent");
            assert_eq!(result.result, NO_RESULT);
        }
        other => panic!("unexpected {:?}", other),
    }
    assert_eq!(run.stage(), Stage::Succeeded);
}

#[test]
fn event_out_of_turn_fails_the_run() {
    let run = begin("Q");
    let (run, action) = run.step(RunEvent::SessionOpened);
    match action {
        RunAction::Fail(error) => {
            assert!(matches!(error, AgentError::OutOfTurn));
            assert_eq!(error.message(), "Event does not answer the pending request");
        }
        other => panic!("unexpected {:?}", other),
    }
    assert_eq!(run.stage(), Stage::Failed);

    let run = begin("Q");
    let (run, _) = run.step(RunEvent::PlannerReplied(BALANCE_PLAN.to_string()));
    let (run, action) = run.step(verdict(100));
    assert!(matches!(action, RunAction::Fail(AgentError::OutOfTurn)));
    assert!(run.is_over());
}

#[test]
fn attempts_never_pass_three() {
    let events = [
        RunEvent::PlannerReplied(MYSTERY_PLAN.to_string()),
        RunEvent::SessionOpened,
        RunEvent::PlannerReplied(MYSTERY_PLAN.to_string()),
        RunEvent::SessionOpened,
        RunEvent::PlannerReplied(MYSTERY_PLAN.to_string()),
        RunEvent::SessionOpened,
        RunEvent::PlannerReplied(MYSTERY_PLAN.to_string()),
        RunEvent::SessionOpened,
    ];
    let (mut run, _) = agent().run(prompt("Q"));
    let mut asked = 1;
    for event in events {
        let (next, action) = run.step(event);
        if matches!(action, RunAction::AskPlanner { .. }) {
            asked += 1;
        }
        assert!(next.attempts() <= 3);
        assert_eq!(next.attempts(), asked);
        run = next;
    }
    assert_eq!(asked, 3);
    assert_eq!(run.stage(), Stage::Failed);
}
