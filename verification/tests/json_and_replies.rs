use eth_agent::evaluator::{
    decode_verdict, evaluate, evaluation_request, passes, read_verdict, JUDGE_INSTRUCTIONS, MAX_SCORE,
};
use eth_agent::json::{parse_json, Json, JsonNumber, Member};
use eth_agent::planner::{
    decode_plan, decode_step, numbered_well, plan_request, read_plan, PLANNER_INSTRUCTIONS,
};
use eth_agent::reply::{get_number, get_text, read_reply, ReplyError};
use eth_agent::types::{AgentPlan, AgentPlanResponse, AgentStep, UserPrompt};

fn step(number: u32, name: &str, prompt: &str) -> AgentStep {
    AgentStep { step_number: number, agent_name: name.to_string(), agent_prompt: prompt.to_string() }
}

#[test]
fn parse_reads_every_kind_of_value() {
    let json = parse_json(
        "{\"n\": null, \"t\": true, \"u\": 18446744073709551615, \"i\": -5, \"f\": 1.5, \"s\": \"x\", \"a\": [1, \"two\"], \"o\": {\"k\": false}}",
    )
    .unwrap();
    assert!(matches!(json.field("n"), Some(Json::Null)));
    assert!(matches!(json.field("t"), Some(Json::Bool(true))));
    assert!(matches!(json.field("u"), Some(Json::Number(JsonNumber::Unsigned(u64::MAX)))));
    assert!(matches!(json.field("i"), Some(Json::Number(JsonNumber::Negative(-5)))));
    match json.field("f") {
        Some(Json::Number(JsonNumber::Fraction(text))) => assert_eq!(text, "1.5"),
        other => panic!("unexpected {:?}", other),
    }
    assert_eq!(json.field("s").unwrap().as_text().unwrap(), "x");
    let items = json.field("a").unwrap().items().unwrap();
    assert_eq!(items.len(), 2);
    assert_eq!(items[0].as_u64(), Some(1));
    assert_eq!(items[1].as_text().unwrap(), "two");
    assert!(matches!(json.field("o").unwrap().field("k"), Some(Json::Bool(false))));
    assert!(json.field("missing").is_none());
}

#[test]
fn parse_differs_from_its_input() {
    match parse_json("\"text\"").unwrap() {
        Json::Text(text) => assert_eq!(text, "text"),
        other => panic!("unexpected {:?}", other),
    }
    assert!(matches!(parse_json(" 12 ").unwrap(), Json::Number(JsonNumber::Unsigned(12))));
}

#[test]
fn parse_reports_the_readers_message() {
    let expected = serde_json::from_str::<serde_json::Value>("{\"a\": ").unwrap_err().to_string();
    assert_eq!(parse_json("{\"a\": ").unwrap_err(), expected);
    assert!(parse_json("").is_err());
    assert!(parse_json("{} trailing").is_err());
}

#[test]
fn big_integers_are_fractions() {
    match parse_json("18446744073709551616").unwrap() {
        Json::Number(JsonNumber::Fraction(_)) => {}
        other => panic!("unexpected {:?}", other),
    }
}

#[test]
fn accessors_refuse_other_kinds() {
    let text = Json::Text("5".to_string());
    assert_eq!(text.as_u64(), None);
    assert!(text.items().is_none());
    assert!(text.field("x").is_none());
    let number = Json::Number(JsonNumber::Unsigned(5));
    assert!(number.as_text().is_none());
    assert_eq!(Json::Number(JsonNumber::Negative(-1)).as_u64(), None);
    assert_eq!(Json::Number(JsonNumber::Negative(3)).as_u64(), Some(3));
    assert_eq!(Json::Number(JsonNumber::Fraction("1.0".to_string())).as_u64(), None);
    assert_eq!(Json::Null.as_u64(), None);
    assert_eq!(Json::Array(vec![]).items().unwrap().len(), 0);
}

#[test]
fn later_member_of_a_name_counts() {
    let object = Json::Object(vec![
        Member { name: "a".to_string(), value: Json::Number(JsonNumber::Unsigned(1)) },
        Member { name: "b".to_string(), value: Json::Null },
        Member { name: "a".to_string(), value: Json::Number(JsonNumber::Unsigned(2)) },
    ]);
    assert_eq!(object.field("a").unwrap().as_u64(), Some(2));
    assert!(matches!(object.field("b"), Some(Json::Null)));
}

#[test]
fn read_reply_looks_inside_the_fence() {
    let json = read_reply("Sure!\n```json\n{\"score\": 3}\n```").unwrap();
    assert_eq!(get_number(&json, "score"), Some(3));
    assert!(read_reply("Sure! {\"score\": 3}").is_err());
}

#[test]
fn number_and_text_members() {
    let json = parse_json("{\"n\": 4294967295, \"big\": 4294967296, \"neg\": -1, \"s\": \"t\"}").unwrap();
    assert_eq!(get_number(&json, "n"), Some(4294967295));
    assert_eq!(get_number(&json, "big"), None);
    assert_eq!(get_number(&json, "neg"), None);
    assert_eq!(get_number(&json, "s"), None);
    assert_eq!(get_number(&json, "none"), None);
    assert_eq!(get_text(&json, "s"), Some("t".to_string()));
    assert_eq!(get_text(&json, "n"), None);
    assert_eq!(get_text(&json, "none"), None);
}

#[test]
fn reply_error_messages() {
    assert_eq!(ReplyError::Syntax("bad".to_string()).message(), "bad");
    assert_eq!(ReplyError::Schema.message(), "reply does not have the expected JSON shape");
}

#[test]
fn plan_request_is_the_prompt_at_first() {
    assert_eq!(plan_request("Send 1 ETH", None), "Send 1 ETH");
}

#[test]
fn plan_request_carries_the_reason() {
    let reason = "Evaluation failed".to_string();
    assert_eq!(
        plan_request("Send 1 ETH", Some(&reason)),
        "This a replan request. The user prompt is: Send 1 ETH and the replan reason is: Evaluation failed"
    );
}

#[test]
fn planner_instructions_name_the_profiles() {
    assert!(PLANNER_INSTRUCTIONS.contains("ethereum_agent"));
    assert!(PLANNER_INSTRUCTIONS.contains("search_agent"));
    assert!(PLANNER_INSTRUCTIONS.contains("\"number_of_steps\": 1-10"));
}

#[test]
fn read_plan_takes_a_fenced_plan() {
    let reply = "```json\n{\"number_of_steps\": 2, \"steps\": [{\"step_number\": 1, \"agent_name\": \"search_agent\", \"agent_prompt\": \"Find the price\"}, {\"step_number\": 2, \"agent_name\": \"ethereum_agent\", \"agent_prompt\": \"Send it\", \"note\": 1}]}\n```";
    let plan = read_plan(reply).unwrap();
    assert_eq!(plan.number_of_steps, 2);
    assert_eq!(plan.steps.len(), 2);
    assert_eq!(plan.steps[0].step_number, 1);
    assert_eq!(plan.steps[0].agent_name, "search_agent");
    assert_eq!(plan.steps[0].agent_prompt, "Find the price");
    assert_eq!(plan.steps[1].step_number, 2);
    assert_eq!(plan.steps[1].agent_name, "ethereum_agent");
    assert_eq!(plan.steps[1].agent_prompt, "Send it");
}

#[test]
fn read_plan_reads_a_bare_plan_like_a_fenced_one() {
    let bare = "{\"number_of_steps\": 1, \"steps\": [{\"step_number\": 1, \"agent_name\": \"a\", \"agent_prompt\": \"p\"}]}";
    let fenced = format!("```json{}```", bare);
    let one = read_plan(bare).unwrap();
    let two = read_plan(&fenced).unwrap();
    assert_eq!(one.number_of_steps, two.number_of_steps);
    assert_eq!(one.steps.len(), two.steps.len());
    assert_eq!(one.steps[0].agent_name, two.steps[0].agent_name);
    assert_eq!(one.steps[0].agent_prompt, two.steps[0].agent_prompt);
}

#[test]
fn read_plan_takes_a_plan_behind_a_bare_fence() {
    let reply = "```{\"number_of_steps\":1,\"steps\":[{\"step_number\":1,\"agent_name\":\"search_agent\",\"agent_prompt\":\"s\"}]}```";
    let plan = read_plan(reply).unwrap();
    assert_eq!(plan.number_of_steps, 1);
    assert_eq!(plan.steps.len(), 1);
    assert_eq!(plan.steps[0].step_number, 1);
    assert_eq!(plan.steps[0].agent_name, "search_agent");
    assert_eq!(plan.steps[0].agent_prompt, "s");
}

#[test]
fn read_plan_looks_at_the_first_block_only() {
    let body = "{\"number_of_steps\": 0, \"steps\": []}";
    for reply in [
        format!("Plan:\n```json\n{}\n```\nAlternative:\n```json\nnonsense\n```", body),
        format!("Plan:\n```\n{}\n```\n```\n{{\"number_of_steps\": 9, \"steps\": []}}\n```", body),
    ] {
        let plan = read_plan(&reply).unwrap();
        assert_eq!(plan.number_of_steps, 0);
        assert!(plan.steps.is_empty());
    }
}

#[test]
fn read_plan_tolerates_a_wrong_count() {
    let plan = read_plan("{\"number_of_steps\": 7, \"steps\": []}").unwrap();
    assert_eq!(plan.number_of_steps, 7);
    assert_eq!(plan.steps.len(), 0);
}

#[test]
fn read_plan_refuses_what_is_not_json() {
    let expected = serde_json::from_str::<serde_json::Value>("I cannot plan this.")
        .unwrap_err()
        .to_string();
    match read_plan("I cannot plan this.") {
        Err(ReplyError::Syntax(message)) => assert_eq!(message, expected),
        other => panic!("unexpected {:?}", other),
    }
}

#[test]
fn read_plan_refuses_other_shapes() {
    let cases = [
        "[]",
        "{}",
        "{\"steps\": []}",
        "{\"number_of_steps\": 1}",
        "{\"number_of_steps\": \"1\", \"steps\": []}",
        "{\"number_of_steps\": 1.0, \"steps\": []}",
        "{\"number_of_steps\": -1, \"steps\": []}",
        "{\"number_of_steps\": 4294967296, \"steps\": []}",
        "{\"number_of_steps\": 1, \"steps\": {}}",
        "{\"number_of_steps\": 1, \"steps\": [1]}",
        "{\"number_of_steps\": 1, \"steps\": [{\"step_number\": 1, \"agent_name\": \"a\"}]}",
        "{\"number_of_steps\": 1, \"steps\": [{\"step_number\": 1, \"agent_name\": 2, \"agent_prompt\": \"p\"}]}",
        "{\"number_of_steps\": 1, \"steps\": [{\"step_number\": \"1\", \"agent_name\": \"a\", \"agent_prompt\": \"p\"}]}",
    ];
    for case in cases {
        assert!(matches!(read_plan(case), Err(ReplyError::Schema)), "{}", case);
    }
}

#[test]
fn read_plan_refuses_bad_numbering() {
    let from_zero = "{\"number_of_steps\": 1, \"steps\": [{\"step_number\": 0, \"agent_name\": \"a\", \"agent_prompt\": \"p\"}]}";
    assert!(matches!(read_plan(from_zero), Err(ReplyError::Schema)));
    let repeated = "{\"number_of_steps\": 2, \"steps\": [{\"step_number\": 1, \"agent_name\": \"a\", \"agent_prompt\": \"p\"}, {\"step_number\": 1, \"agent_name\": \"a\", \"agent_prompt\": \"p\"}]}";
    assert!(matches!(read_plan(repeated), Err(ReplyError::Schema)));
}

#[test]
fn numbering_starts_at_one_and_ascends() {
    assert!(numbered_well(&vec![]));
    assert!(numbered_well(&vec![step(1, "a", "p")]));
    assert!(numbered_well(&vec![step(1, "a", "p"), step(2, "a", "p"), step(5, "a", "p")]));
    assert!(!numbered_well(&vec![step(2, "a", "p")]));
    assert!(!numbered_well(&vec![step(1, "a", "p"), step(3, "a", "p"), step(2, "a", "p")]));
    assert!(!numbered_well(&vec![step(1, "a", "p"), step(2, "a", "p"), step(2, "a", "p")]));
}

#[test]
fn decode_step_and_plan_from_documents() {
    let json = parse_json("{\"step_number\": 3, \"agent_name\": \"n\", \"agent_prompt\": \"p\"}").unwrap();
    let decoded = decode_step(&json).unwrap();
    assert_eq!(decoded.step_number, 3);
    assert_eq!(decoded.agent_name, "n");
    assert_eq!(decoded.agent_prompt, "p");
    assert!(decode_step(&Json::Null).is_none());
    let plan = decode_plan(&parse_json("{\"number_of_steps\": 0, \"steps\": []}").unwrap()).unwrap();
    assert_eq!(plan.number_of_steps, 0);
    assert!(decode_plan(&Json::Array(vec![])).is_none());
}

#[test]
fn plan_keeps_steps_and_declared_count() {
    let prompt = UserPrompt::new("prompt".to_string(), "Do it".to_string(), 1700000000000);
    let response = AgentPlanResponse { number_of_steps: 5, steps: vec![step(1, "a", "p")] };
    let plan = AgentPlan::from_response("plan-1".to_string(), prompt, response);
    assert_eq!(plan.id, "plan-1");
    assert_eq!(plan.prompt.natural_language, "Do it");
    assert_eq!(plan.steps.len(), 1);
    assert_eq!(plan.max_steps, 5);
    assert_eq!(plan.current_step, 0);
}

#[test]
fn evaluation_request_names_result_step_and_prompt() {
    assert_eq!(
        evaluation_request("42 ETH", "Get the balance", "What is the balance of Alice?"),
        "Evaluate the following result: 42 ETH against the current agent prompt: Get the balance and user prompt: What is the balance of Alice?"
    );
}

#[test]
fn judge_instructions_ask_for_a_score() {
    assert!(JUDGE_INSTRUCTIONS.contains("\"score\": 0-100"));
    assert_eq!(MAX_SCORE, 100);
}

#[test]
fn read_verdict_takes_score_and_reasoning() {
    let verdict = read_verdict("```json\n{\"score\": 85, \"reasoning\": \"Matches\", \"extra\": []}\n```").unwrap();
    assert_eq!(verdict.score, 85);
    assert_eq!(verdict.reasoning, "Matches");
    let bare = read_verdict("I would say:\n```\n{\"score\": 71, \"reasoning\": \"Fine\"}\n```\nDone.").unwrap();
    assert_eq!(bare.score, 71);
    assert_eq!(bare.reasoning, "Fine");
    let lowest = read_verdict("{\"score\": 0, \"reasoning\": \"\"}").unwrap();
    assert_eq!(lowest.score, 0);
    let highest = read_verdict("{\"score\": 100, \"reasoning\": \"\"}").unwrap();
    assert_eq!(highest.score, 100);
}

#[test]
fn read_verdict_refuses_bad_replies() {
    assert!(matches!(read_verdict("no json"), Err(ReplyError::Syntax(_))));
    assert!(matches!(read_verdict("{\"score\": 101, \"reasoning\": \"\"}"), Err(ReplyError::Schema)));
    assert!(matches!(read_verdict("{\"score\": 85}"), Err(ReplyError::Schema)));
    assert!(matches!(read_verdict("{\"reasoning\": \"x\"}"), Err(ReplyError::Schema)));
    assert!(matches!(read_verdict("{\"score\": 85.5, \"reasoning\": \"x\"}"), Err(ReplyError::Schema)));
    assert!(matches!(read_verdict("{\"score\": \"85\", \"reasoning\": \"x\"}"), Err(ReplyError::Schema)));
    assert!(decode_verdict(&Json::Null).is_none());
}

#[test]
fn threshold_is_inclusive() {
    assert!(passes(70, 70));
    assert!(passes(71, 70));
    assert!(!passes(69, 70));
    assert!(passes(0, 0));
    assert!(!passes(100, 101));
}

#[test]
fn evaluate_builds_the_result() {
    let evaluation = evaluate("plan-9", "What?", "{\"score\": 77, \"reasoning\": \"fine\"}").unwrap();
    assert_eq!(evaluation.plan_id, "plan-9");
    assert_eq!(evaluation.original_prompt, "What?");
    assert_eq!(evaluation.score, 77);
    assert_eq!(evaluation.reasoning, "fine");
    assert!(matches!(evaluate("plan-9", "What?", "{}"), Err(ReplyError::Schema)));
}
