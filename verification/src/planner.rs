//! The planner: what it is asked, and how its reply becomes a plan.

use vstd::prelude::*;
use vstd::string::*;
use crate::fence::{fence, lemma_ends_at_fence, opening, plain, told_apart};
use crate::json::{Json, JsonTree};
use crate::reply::{
    carried, get_number, get_text, law_fence_is_transparent, number_field, read_reply,
    text_field, ReplyError, ReplyErrorView,
};
use crate::types::{
    step_views, AgentPlan, AgentPlanResponse, AgentStep, PlanResponseView, PlanView, StepView,
    UserPrompt,
};

verus! {

/// What the planner is told before every request.
pub const PLANNER_INSTRUCTIONS: &'static str = "
        You are a helpful assistant that creates execution plans for Ethereum transactions.

        The output MUST be a valid JSON object in the following format:
        {{
            \"number_of_steps\": 1-10,
            \"steps\": [
                {{
                    \"step_number\": 1-10,
                    \"agent_name\": \"ethereum_agent\",
                    \"agent_prompt\": \"Prompt for the agent to execute\",
                }}
            ]
        }}


        Sub-agents:
        - ethereum_agent: An agent that can send transactions to the Ethereum network, with the following tools:
            - send_transaction: Send a transaction to the Ethereum network
            - validate_address: Validate an Ethereum address
            - balance: Get the balance of an Ethereum address
            - get_contract_code: Get the contract code of an Ethereum address
        - search_agent: An agent that can search the web for information
            - search: Search the web for information
        

        Example prompt:
        - Send 0.001 ETH from Alice to Bob
        - What is the balance of Alice?
        - What is the current price of ETH?

        Known addresses:
        Alice: 0xf39Fd6e51aad88F6F4ce6aB8827279cffFb92266
        Bob: 0x70997970C51812dc3A010C7d01b50e0d17dc79C8

        ";

/// What the planner is asked: the user's words, or, after a failed attempt,
/// the user's words together with the reason for the new plan.
pub open spec fn planning_request(prompt: Seq<char>, reason: Option<Seq<char>>) -> Seq<char> {
    match reason {
        None => prompt,
        Some(reason) => "This a replan request. The user prompt is: "@ + prompt
            + " and the replan reason is: "@ + reason,
    }
}

/// What the planner is asked.
pub fn plan_request(prompt: &str, reason: Option<&String>) -> (request: String)
    ensures
        request@ == planning_request(
            prompt@,
            match reason {
                Some(reason) => Some(reason@),
                None => None,
            },
        ),
{
    match reason {
        None => prompt.to_owned(),
        Some(reason) => {
            let mut request = String::from_str("This a replan request. The user prompt is: ");
            request.append(prompt);
            request.append(" and the replan reason is: ");
            request.append(reason.as_str());
            request
        },
    }
}

/// The step that a tree describes: an object with a number `step_number`
/// and strings `agent_name` and `agent_prompt`. Other members are passed over.
pub open spec fn step_of(tree: JsonTree) -> Option<StepView> {
    match (
        number_field(tree, "step_number"@),
        text_field(tree, "agent_name"@),
        text_field(tree, "agent_prompt"@),
    ) {
        (Some(step_number), Some(agent_name), Some(agent_prompt)) => Some(
            StepView { step_number, agent_name, agent_prompt },
        ),
        _ => None,
    }
}

/// The steps that the trees describe, where each describes one.
pub open spec fn steps_of(items: Seq<JsonTree>) -> Option<Seq<StepView>> {
    if forall|i: int| 0 <= i < items.len() ==> (#[trigger] step_of(items[i])) is Some {
        Some(Seq::new(items.len(), |i: int| step_of(items[i])->0))
    } else {
        None
    }
}

/// The plan that a tree describes: an object with a number
/// `number_of_steps` and an array `steps` of steps.
pub open spec fn plan_of(tree: JsonTree) -> Option<PlanResponseView> {
    match (number_field(tree, "number_of_steps"@), tree.field("steps"@)) {
        (Some(number_of_steps), Some(list)) => match list.items() {
            Some(items) => match steps_of(items) {
                Some(steps) => Some(PlanResponseView { number_of_steps, steps }),
                None => None,
            },
            None => None,
        },
        _ => None,
    }
}

/// Whether the steps are numbered from 1 in ascending order.
pub open spec fn well_numbered(steps: Seq<StepView>) -> bool {
    &&& steps.len() > 0 ==> steps[0].step_number == 1
    &&& forall|i: int, j: int|
        0 <= i < j < steps.len() ==> steps[i].step_number < steps[j].step_number
}

/// What a planner's reply is read as: the plan that its payload describes,
/// where that is JSON, describes a plan, and numbers the steps well.
pub open spec fn plan_reading(reply: Seq<char>) -> Result<PlanResponseView, ReplyErrorView> {
    match carried(reply) {
        Err(message) => Err(ReplyErrorView::Syntax(message)),
        Ok(tree) => match plan_of(tree) {
            Some(plan) => if well_numbered(plan.steps) {
                Ok(plan)
            } else {
                Err(ReplyErrorView::Schema)
            },
            None => Err(ReplyErrorView::Schema),
        },
    }
}

/// The plan is read from the first fenced block of the planner's reply
/// alone: a reply that holds a block between plain texts is read as the
/// block's contents are read when they come bare.
pub proof fn law_plan_from_first_block(
    before: Seq<char>,
    tagged: bool,
    body: Seq<char>,
    after: Seq<char>,
)
    requires
        plain(before),
        plain(body),
        told_apart(tagged, body),
    ensures
        plan_reading(before + opening(tagged) + body + fence() + after) == plan_reading(body),
{
    lemma_ends_at_fence(before);
    lemma_ends_at_fence(body);
    law_fence_is_transparent(before, tagged, body, after);
}

/// The step that a document describes.
pub fn decode_step(json: &Json) -> (step: Option<AgentStep>)
    ensures
        match step {
            Some(step) => step_of(json@) == Some(step@),
            None => step_of(json@) is None,
        },
{
    let step_number = match get_number(json, "step_number") {
        Some(number) => number,
        None => { return None; },
    };
    let agent_name = match get_text(json, "agent_name") {
        Some(text) => text,
        None => { return None; },
    };
    let agent_prompt = match get_text(json, "agent_prompt") {
        Some(text) => text,
        None => { return None; },
    };
    Some(AgentStep { step_number, agent_name, agent_prompt })
}

/// The plan that a document describes.
pub fn decode_plan(json: &Json) -> (plan: Option<AgentPlanResponse>)
    ensures
        match plan {
            Some(plan) => plan_of(json@) == Some(plan@),
            None => plan_of(json@) is None,
        },
{
    let number_of_steps = match get_number(json, "number_of_steps") {
        Some(number) => number,
        None => { return None; },
    };
    let items = match json.field("steps") {
        Some(list) => match list.items() {
            Some(items) => items,
            None => { return None; },
        },
        None => { return None; },
    };
    let ghost trees = json@.field("steps"@)->0.items()->0;
    let mut steps: Vec<AgentStep> = Vec::new();
    let mut i: usize = 0;
    while i < items.len()
        invariant
            i <= items.len(),
            number_field(json@, "number_of_steps"@) == Some(number_of_steps),
            json@.field("steps"@) is Some,
            json@.field("steps"@)->0.items() == Some(trees),
            trees.len() == items.len(),
            forall|k: int| 0 <= k < items.len() ==> trees[k] == #[trigger] items[k]@,
            steps.len() == i,
            forall|k: int| 0 <= k < i ==> step_of(trees[k]) == Some(#[trigger] steps[k]@),
        decreases items.len() - i,
    {
        match decode_step(&items[i]) {
            Some(step) => {
                steps.push(step);
            },
            None => {
                assert(step_of(trees[i as int]) is None);
                return None;
            },
        }
        i += 1;
    }
    proof {
        assert forall|k: int| 0 <= k < trees.len() implies (#[trigger] step_of(trees[k]))
            is Some by {
            assert(step_of(trees[k]) == Some(steps[k]@));
        }
        assert(steps_of(trees)->0 =~= step_views(steps@));
    }
    Some(AgentPlanResponse { number_of_steps, steps })
}

/// Whether the steps are numbered from 1 in ascending order.
pub fn numbered_well(steps: &Vec<AgentStep>) -> (well: bool)
    ensures
        well == well_numbered(step_views(steps@)),
{
    if steps.len() == 0 {
        return true;
    }
    if steps[0].step_number != 1 {
        return false;
    }
    let ghost views = step_views(steps@);
    let mut k: usize = 1;
    while k < steps.len()
        invariant
            1 <= k <= steps.len(),
            views == step_views(steps@),
            forall|i: int, j: int| 0 <= i < j < k ==> views[i].step_number < views[j].step_number,
        decreases steps.len() - k,
    {
        if steps[k - 1].step_number >= steps[k].step_number {
            assert(!(views[k - 1].step_number < views[k as int].step_number));
            return false;
        }
        assert forall|i: int, j: int| 0 <= i < j < k + 1 implies views[i].step_number
            < views[j].step_number by {
            if j == k {
                if i < k - 1 {
                    assert(views[i].step_number < views[k - 1].step_number);
                }
            }
        }
        k += 1;
    }
    true
}

/// Reads a planner's reply. The payload must be JSON, describe a plan, and
/// number its steps from 1 in ascending order.
pub fn read_plan(reply: &str) -> (outcome: Result<AgentPlanResponse, ReplyError>)
    ensures
        match outcome {
            Ok(plan) => plan_reading(reply@) == Ok::<PlanResponseView, ReplyErrorView>(plan@),
            Err(error) => plan_reading(reply@) == Err::<PlanResponseView, ReplyErrorView>(error@),
        },
{
    match read_reply(reply) {
        Err(message) => Err(ReplyError::Syntax(message)),
        Ok(json) => match decode_plan(&json) {
            Some(plan) => if numbered_well(&plan.steps) {
                Ok(plan)
            } else {
                Err(ReplyError::Schema)
            },
            None => Err(ReplyError::Schema),
        },
    }
}

impl AgentPlan {
    /// The plan for one attempt, from what the planner wrote. The steps are
    /// taken as they are; the declared number is kept beside them.
    pub fn from_response(id: String, prompt: UserPrompt, response: AgentPlanResponse) -> (plan:
        Self)
        ensures
            plan@ == (PlanView {
                id: id@,
                prompt: prompt@,
                steps: response@.steps,
                max_steps: response.number_of_steps,
                current_step: 0,
            }),
    {
        AgentPlan {
            id,
            prompt,
            steps: response.steps,
            max_steps: response.number_of_steps,
            current_step: 0,
        }
    }
}

} // verus!
