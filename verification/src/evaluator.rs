//! The judge: what it is asked about a step's result, how its reply becomes
//! a verdict, and when a verdict lets the step pass.

use vstd::prelude::*;
use vstd::string::*;
use crate::fence::{fence, lemma_ends_at_fence, opening, plain, told_apart};
use crate::json::{Json, JsonTree};
use crate::reply::{
    carried, get_number, get_text, law_fence_is_transparent, number_field, read_reply,
    text_field, ReplyError, ReplyErrorView,
};
use crate::types::{EvaluationResult, EvaluationScoreResponse, EvaluationView, ScoreView};

verus! {

/// What the judge is told before every request.
pub const JUDGE_INSTRUCTIONS: &'static str = "
        You are an evaluator of agent execution results.
        You will be given a result from an agent and an agent prompt that the agent was given, and a user prompt that the agent was given.
        You will need to evaluate the result and determine if it is aligned with the agent prompt and user prompt.
        You will need to return a score between 0 and 100.

        You should only output a valid JSON object in the following format:
        {{
            \"score\": 0-100,
            \"reasoning\": \"Reasoning for the score\"
        }}
        ";

/// The highest score that a verdict may give.
pub const MAX_SCORE: u32 = 100;

/// What the judge is asked about a step's result.
pub open spec fn judging_request(
    result: Seq<char>,
    agent_prompt: Seq<char>,
    user_prompt: Seq<char>,
) -> Seq<char> {
    "Evaluate the following result: "@ + result + " against the current agent prompt: "@
        + agent_prompt + " and user prompt: "@ + user_prompt
}

/// What the judge is asked about a step's result.
pub fn evaluation_request(result: &str, agent_prompt: &str, user_prompt: &str) -> (request: String)
    ensures
        request@ == judging_request(result@, agent_prompt@, user_prompt@),
{
    let mut request = String::from_str("Evaluate the following result: ");
    request.append(result);
    request.append(" against the current agent prompt: ");
    request.append(agent_prompt);
    request.append(" and user prompt: ");
    request.append(user_prompt);
    request
}

/// The verdict that a tree describes: an object with a number `score` of at
/// most 100 and a string `reasoning`. Other members are passed over.
pub open spec fn verdict_of(tree: JsonTree) -> Option<ScoreView> {
    match (number_field(tree, "score"@), text_field(tree, "reasoning"@)) {
        (Some(score), Some(reasoning)) => if score <= MAX_SCORE {
            Some(ScoreView { score, reasoning })
        } else {
            None
        },
        _ => None,
    }
}

/// What a judge's reply is read as.
pub open spec fn verdict_reading(reply: Seq<char>) -> Result<ScoreView, ReplyErrorView> {
    match carried(reply) {
        Err(message) => Err(ReplyErrorView::Syntax(message)),
        Ok(tree) => match verdict_of(tree) {
            Some(verdict) => Ok(verdict),
            None => Err(ReplyErrorView::Schema),
        },
    }
}

/// Whether a score lets a step pass: it does where it reaches the threshold.
pub open spec fn accepts(score: u32, threshold: u32) -> bool {
    score >= threshold
}

/// The verdict is read from the first fenced block of the judge's reply
/// alone, as the plan is from the planner's.
pub proof fn law_verdict_from_first_block(
    before: Seq<char>,
    tagged: bool,
    body: Seq<char>,
    after: Seq<char>,
)
    requires
        plain(before),
        plain(body),
        told_apart(tagged, body),
    ensures
        verdict_reading(before + opening(tagged) + body + fence() + after) == verdict_reading(
            body,
        ),
{
    lemma_ends_at_fence(before);
    lemma_ends_at_fence(body);
    law_fence_is_transparent(before, tagged, body, after);
}

/// The verdict that a document describes.
pub fn decode_verdict(json: &Json) -> (verdict: Option<EvaluationScoreResponse>)
    ensures
        match verdict {
            Some(verdict) => verdict_of(json@) == Some(verdict@),
            None => verdict_of(json@) is None,
        },
{
    let score = match get_number(json, "score") {
        Some(number) => number,
        None => { return None; },
    };
    let reasoning = match get_text(json, "reasoning") {
        Some(text) => text,
        None => { return None; },
    };
    if score > MAX_SCORE {
        return None;
    }
    Some(EvaluationScoreResponse { score, reasoning })
}

/// Reads a judge's reply. The payload must be JSON and describe a verdict.
pub fn read_verdict(reply: &str) -> (outcome: Result<EvaluationScoreResponse, ReplyError>)
    ensures
        match outcome {
            Ok(verdict) => verdict_reading(reply@) == Ok::<ScoreView, ReplyErrorView>(verdict@),
            Err(error) => verdict_reading(reply@) == Err::<ScoreView, ReplyErrorView>(error@),
        },
{
    match read_reply(reply) {
        Err(message) => Err(ReplyError::Syntax(message)),
        Ok(json) => match decode_verdict(&json) {
            Some(verdict) => Ok(verdict),
            None => Err(ReplyError::Schema),
        },
    }
}

/// Whether a score lets a step pass.
pub fn passes(score: u32, threshold: u32) -> (pass: bool)
    ensures
        pass == accepts(score, threshold),
        score < threshold ==> !pass,
        score >= threshold ==> pass,
{
    score >= threshold
}

/// The verdict on a step of the plan `plan_id`, from the judge's reply.
pub fn evaluate(plan_id: &str, original_prompt: &str, reply: &str) -> (outcome: Result<
    EvaluationResult,
    ReplyError,
>)
    ensures
        match (outcome, verdict_reading(reply@)) {
            (Ok(evaluation), Ok(verdict)) => evaluation@ == (EvaluationView {
                plan_id: plan_id@,
                original_prompt: original_prompt@,
                score: verdict.score,
                reasoning: verdict.reasoning,
            }) && evaluation.score <= MAX_SCORE,
            (Err(error), Err(expected)) => error@ == expected,
            _ => false,
        },
{
    match read_verdict(reply) {
        Ok(verdict) => Ok(
            EvaluationResult {
                plan_id: plan_id.to_owned(),
                original_prompt: original_prompt.to_owned(),
                score: verdict.score,
                reasoning: verdict.reasoning,
            },
        ),
        Err(error) => Err(error),
    }
}

} // verus!
