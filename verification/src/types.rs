//! The data that a run works on: the prompt, the plan and its steps, the
//! judge's verdict and the outcome of an attempt.

use vstd::prelude::*;
use vstd::string::*;

verus! {

/// A user's request. Not changed once made.
#[derive(Debug)]
pub struct UserPrompt {
    pub id: String,
    /// The request in the user's words.
    pub natural_language: String,
    /// When the request was made, in milliseconds since the Unix epoch.
    pub timestamp: i64,
    /// Free-form context. No name occurs twice.
    pub context: Vec<ContextEntry>,
}

/// One entry of a prompt's context.
#[derive(Debug)]
pub struct ContextEntry {
    pub name: String,
    /// The entry's value, as JSON text.
    pub value: String,
}

/// What a run hands back on success.
#[derive(Debug)]
pub struct AgentResult {
    pub error_message: Option<String>,
    pub result: String,
}

/// One step of a plan.
#[derive(Debug)]
pub struct AgentStep {
    /// The step's place in the plan, counted from 1.
    pub step_number: u32,
    /// The name of the capability profile that is to take the step.
    pub agent_name: String,
    /// What the profile is asked to do.
    pub agent_prompt: String,
}

#[derive(Debug)]
pub enum StepStatus {
    Planned,
    Executing,
    Completed,
    Failed(String),
    Skipped,
}

/// A plan as the planner writes it.
#[derive(Debug)]
pub struct AgentPlanResponse {
    /// The number of steps that the planner declares.
    pub number_of_steps: u32,
    pub steps: Vec<AgentStep>,
}

/// A plan for one attempt. A new attempt gets a new plan.
#[derive(Debug)]
pub struct AgentPlan {
    pub id: String,
    pub prompt: UserPrompt,
    pub steps: Vec<AgentStep>,
    /// The number of steps that the planner declared. It may differ from the
    /// number of steps at hand; the steps at hand are what is executed.
    pub max_steps: u32,
    /// A progress counter. Nothing advances it.
    pub current_step: u32,
}

/// Why an attempt failed, and whether a new plan may be tried.
#[derive(Debug)]
pub struct AgentPlanError {
    pub error_message: String,
    pub replan: bool,
}

#[derive(Debug)]
pub enum PlanStatus {
    Planning,
    Executing,
    Completed,
    Failed(String),
    MaxStepsReached,
}

/// A verdict as the judge writes it.
#[derive(Debug)]
pub struct EvaluationScoreResponse {
    pub score: u32,
    pub reasoning: String,
}

/// The judge's verdict on one step's result.
#[derive(Debug)]
pub struct EvaluationResult {
    pub plan_id: String,
    pub original_prompt: String,
    /// From 0 to 100. A step passes where the score is at least the threshold.
    pub score: u32,
    pub reasoning: String,
}

#[derive(Debug)]
pub struct Goal {
    pub id: String,
    pub description: String,
    pub success_criteria: Vec<String>,
    pub constraints: Vec<String>,
    pub priority: Priority,
}

#[derive(Debug, Clone, Copy, PartialEq, Eq, Structural)]
pub enum Priority {
    Low,
    Medium,
    High,
    Critical,
}

#[derive(Debug)]
pub struct Deviation {
    pub id: String,
    pub goal_id: String,
    pub description: String,
    pub severity: DeviationSeverity,
    /// In milliseconds since the Unix epoch.
    pub detected_at: i64,
    pub correction_attempts: Vec<CorrectionAttempt>,
}

#[derive(Debug, Clone, Copy, PartialEq, Eq, Structural)]
pub enum DeviationSeverity {
    Low,
    Medium,
    High,
    Critical,
}

#[derive(Debug)]
pub struct CorrectionAttempt {
    pub id: String,
    pub description: String,
    /// In milliseconds since the Unix epoch.
    pub timestamp: i64,
    pub success: bool,
    pub error_message: Option<String>,
}

/// What a [`ContextEntry`] stands for.
pub struct EntryView {
    pub name: Seq<char>,
    pub value: Seq<char>,
}

/// What a [`UserPrompt`] stands for.
pub struct PromptView {
    pub id: Seq<char>,
    pub natural_language: Seq<char>,
    pub timestamp: i64,
    pub context: Seq<EntryView>,
}

impl View for ContextEntry {
    type V = EntryView;

    open spec fn view(&self) -> EntryView {
        EntryView { name: self.name@, value: self.value@ }
    }
}

impl View for UserPrompt {
    type V = PromptView;

    open spec fn view(&self) -> PromptView {
        PromptView {
            id: self.id@,
            natural_language: self.natural_language@,
            timestamp: self.timestamp,
            context: Seq::new(self.context@.len(), |i: int| self.context@[i]@),
        }
    }
}

impl Clone for UserPrompt {
    fn clone(&self) -> (copy: Self)
        ensures
            copy@ == self@,
    {
        let mut context: Vec<ContextEntry> = Vec::new();
        let mut i: usize = 0;
        while i < self.context.len()
            invariant
                i <= self.context.len(),
                context.len() == i,
                forall|k: int| 0 <= k < i ==> (#[trigger] context[k])@ == self.context[k]@,
            decreases self.context.len() - i,
        {
            context.push(
                ContextEntry {
                    name: self.context[i].name.clone(),
                    value: self.context[i].value.clone(),
                },
            );
            i += 1;
        }
        let copy = UserPrompt {
            id: self.id.clone(),
            natural_language: self.natural_language.clone(),
            timestamp: self.timestamp,
            context,
        };
        assert(copy@.context =~= self@.context);
        copy
    }
}

/// The value of the entry called `name`, where there is one.
pub open spec fn context_of(entries: Seq<ContextEntry>, name: Seq<char>) -> Option<Seq<char>>
    decreases entries.len(),
{
    if entries.len() == 0 {
        None
    } else if entries.last().name@ == name {
        Some(entries.last().value@)
    } else {
        context_of(entries.drop_last(), name)
    }
}

/// Whether no name occurs twice among the entries.
pub open spec fn distinct_names(entries: Seq<ContextEntry>) -> bool {
    forall|i: int, j: int|
        0 <= i < j < entries.len() ==> (#[trigger] entries[i]).name@ != (
        #[trigger] entries[j]).name@
}

impl UserPrompt {
    /// Whether the prompt is as it should be: no name occurs twice in its
    /// context.
    pub open spec fn well_formed(&self) -> bool {
        distinct_names(self.context@)
    }

    /// A prompt without context.
    pub fn new(id: String, natural_language: String, timestamp: i64) -> (prompt: Self)
        ensures
            prompt.well_formed(),
            prompt.id == id,
            prompt.natural_language == natural_language,
            prompt.timestamp == timestamp,
            prompt.context@.len() == 0,
    {
        UserPrompt { id, natural_language, timestamp, context: Vec::new() }
    }

    /// The value of the context entry called `name`, where there is one.
    pub fn context_value(&self, name: &str) -> (value: Option<&String>)
        ensures
            maybe_ref(value) == context_of(self.context@, name@),
    {
        let mut i: usize = self.context.len();
        proof {
            assert(self.context@.subrange(0, i as int) =~= self.context@);
        }
        while i > 0
            invariant
                i <= self.context.len(),
                context_of(self.context@, name@) == context_of(
                    self.context@.subrange(0, i as int),
                    name@,
                ),
            decreases i,
        {
            i -= 1;
            proof {
                let upto = self.context@.subrange(0, i + 1);
                assert(upto.last() == self.context@[i as int]);
                assert(upto.drop_last() =~= self.context@.subrange(0, i as int));
            }
            if crate::text::equal(self.context[i].name.as_str(), name) {
                return Some(&self.context[i].value);
            }
        }
        None
    }

    /// The prompt with the context entry `name` set to `value`. An entry of
    /// that name is replaced; the other entries stay.
    pub fn with_context(self, name: String, value: String) -> (prompt: Self)
        requires
            self.well_formed(),
        ensures
            prompt.well_formed(),
            prompt.id == self.id,
            prompt.natural_language == self.natural_language,
            prompt.timestamp == self.timestamp,
            context_of(prompt.context@, name@) == Some(value@),
            forall|other: Seq<char>|
                other != name@ ==> context_of(prompt.context@, other) == context_of(
                    self.context@,
                    other,
                ),
    {
        let UserPrompt { id, natural_language, timestamp, context } = self;
        let mut kept: Vec<ContextEntry> = Vec::new();
        let mut i: usize = 0;
        while i < context.len()
            invariant
                i <= context.len(),
                distinct_names(context@),
                distinct_names(kept@),
                forall|k: int|
                    0 <= k < kept.len() ==> (#[trigger] kept[k]).name@ != name@ && has_name(
                        context@.subrange(0, i as int),
                        kept[k].name@,
                    ),
                forall|other: Seq<char>|
                    other != name@ ==> context_of(kept@, other) == context_of(
                        context@.subrange(0, i as int),
                        other,
                    ),
            decreases context.len() - i,
        {
            let entry = &context[i];
            let ghost upto = context@.subrange(0, i as int);
            let ghost next = context@.subrange(0, i + 1);
            let ghost old_kept = kept@;
            proof {
                assert(next.last() == context@[i as int]);
                assert(next.drop_last() =~= upto);
                assert forall|held: Seq<char>| has_name(upto, held) implies has_name(
                    next,
                    held,
                ) by {
                    let m = choose|m: int|
                        0 <= m < upto.len() && (#[trigger] upto[m]).name@ == held;
                    assert(next[m].name@ == held);
                }
            }
            if !crate::text::equal(entry.name.as_str(), name.as_str()) {
                kept.push(ContextEntry { name: entry.name.clone(), value: entry.value.clone() });
                proof {
                    assert(kept@.drop_last() =~= old_kept);
                    assert(next[i as int].name@ == entry.name@);
                    assert(has_name(next, entry.name@));
                    assert forall|a: int, b: int| 0 <= a < b < kept.len() implies (
                    #[trigger] kept[a]).name@ != (#[trigger] kept[b]).name@ by {
                        if b == kept.len() - 1 {
                            assert(has_name(upto, old_kept[a].name@));
                            let m = choose|m: int|
                                0 <= m < upto.len() && (#[trigger] upto[m]).name@
                                    == old_kept[a].name@;
                            assert(context@[m].name@ != context@[i as int].name@);
                        } else {
                            assert(old_kept[a].name@ != old_kept[b].name@);
                        }
                    }
                }
            }
            proof {
                assert forall|other: Seq<char>| other != name@ implies context_of(kept@, other)
                    == context_of(next, other) by {
                    assert(context_of(old_kept, other) == context_of(upto, other));
                    if entry.name@ != name@ {
                        assert(kept@.last().name@ == entry.name@);
                        assert(kept@.last().value@ == entry.value@);
                    }
                }
            }
            i += 1;
        }
        proof {
            assert(context@.subrange(0, context.len() as int) =~= context@);
        }
        let ghost old_kept = kept@;
        kept.push(ContextEntry { name, value });
        proof {
            assert(kept@.drop_last() =~= old_kept);
            assert forall|other: Seq<char>| other != name@ implies context_of(kept@, other)
                == context_of(context@, other) by {
                assert(context_of(old_kept, other) == context_of(context@, other));
            }
            assert forall|a: int, b: int| 0 <= a < b < kept.len() implies (#[trigger] kept[a]).name@
                != (#[trigger] kept[b]).name@ by {
                if b < kept.len() - 1 {
                    assert(old_kept[a].name@ != old_kept[b].name@);
                }
            }
        }
        UserPrompt { id, natural_language, timestamp, context: kept }
    }
}

/// Whether an entry of the name `name` is among the entries.
pub open spec fn has_name(entries: Seq<ContextEntry>, name: Seq<char>) -> bool {
    exists|m: int| 0 <= m < entries.len() && (#[trigger] entries[m]).name@ == name
}

/// The view of the string, where there is one.
pub open spec fn maybe_ref(text: Option<&String>) -> Option<Seq<char>> {
    match text {
        Some(text) => Some(text@),
        None => None,
    }
}

/// What an [`AgentStep`] stands for.
pub struct StepView {
    pub step_number: u32,
    pub agent_name: Seq<char>,
    pub agent_prompt: Seq<char>,
}

impl View for AgentStep {
    type V = StepView;

    open spec fn view(&self) -> StepView {
        StepView {
            step_number: self.step_number,
            agent_name: self.agent_name@,
            agent_prompt: self.agent_prompt@,
        }
    }
}

/// The views of `steps`, in order.
pub open spec fn step_views(steps: Seq<AgentStep>) -> Seq<StepView> {
    Seq::new(steps.len(), |i: int| steps[i]@)
}

impl Clone for AgentStep {
    fn clone(&self) -> (copy: Self)
        ensures
            copy@ == self@,
    {
        AgentStep {
            step_number: self.step_number,
            agent_name: self.agent_name.clone(),
            agent_prompt: self.agent_prompt.clone(),
        }
    }
}

/// What an [`AgentPlanResponse`] stands for.
pub struct PlanResponseView {
    pub number_of_steps: u32,
    pub steps: Seq<StepView>,
}

impl View for AgentPlanResponse {
    type V = PlanResponseView;

    open spec fn view(&self) -> PlanResponseView {
        PlanResponseView { number_of_steps: self.number_of_steps, steps: step_views(self.steps@) }
    }
}

/// What an [`AgentPlan`] stands for.
pub struct PlanView {
    pub id: Seq<char>,
    pub prompt: PromptView,
    pub steps: Seq<StepView>,
    pub max_steps: u32,
    pub current_step: u32,
}

impl View for AgentPlan {
    type V = PlanView;

    open spec fn view(&self) -> PlanView {
        PlanView {
            id: self.id@,
            prompt: self.prompt@,
            steps: step_views(self.steps@),
            max_steps: self.max_steps,
            current_step: self.current_step,
        }
    }
}

/// What an [`AgentResult`] stands for.
pub struct ResultView {
    pub error_message: Option<Seq<char>>,
    pub result: Seq<char>,
}

impl View for AgentResult {
    type V = ResultView;

    open spec fn view(&self) -> ResultView {
        ResultView {
            error_message: match self.error_message {
                Some(message) => Some(message@),
                None => None,
            },
            result: self.result@,
        }
    }
}

/// What an [`AgentPlanError`] stands for.
pub struct PlanErrorView {
    pub error_message: Seq<char>,
    pub replan: bool,
}

impl View for AgentPlanError {
    type V = PlanErrorView;

    open spec fn view(&self) -> PlanErrorView {
        PlanErrorView { error_message: self.error_message@, replan: self.replan }
    }
}

/// What an [`EvaluationScoreResponse`] stands for.
pub struct ScoreView {
    pub score: u32,
    pub reasoning: Seq<char>,
}

impl View for EvaluationScoreResponse {
    type V = ScoreView;

    open spec fn view(&self) -> ScoreView {
        ScoreView { score: self.score, reasoning: self.reasoning@ }
    }
}

/// What an [`EvaluationResult`] stands for.
pub struct EvaluationView {
    pub plan_id: Seq<char>,
    pub original_prompt: Seq<char>,
    pub score: u32,
    pub reasoning: Seq<char>,
}

impl View for EvaluationResult {
    type V = EvaluationView;

    open spec fn view(&self) -> EvaluationView {
        EvaluationView {
            plan_id: self.plan_id@,
            original_prompt: self.original_prompt@,
            score: self.score,
            reasoning: self.reasoning@,
        }
    }
}

} // verus!
