//! The agent and the course of one run.
//!
//! A run plans, executes the plan step by step, has every result judged, and
//! plans anew where an attempt fails in a way that a new plan may mend. The
//! work outside (completions, the tool server) is the caller's: a run hands
//! out one [`RunAction`] at a time and takes the outcome back as a
//! [`RunEvent`].

use vstd::prelude::*;
use vstd::string::*;
use crate::evaluator::{
    accepts, evaluate, evaluation_request, judging_request, passes, verdict_reading,
};
use crate::ident::fresh_id;
use crate::planner::{plan_reading, plan_request, planning_request, read_plan, well_numbered};
use crate::profile::{route, routed, Profile};
use crate::text::{decimal, decimal_text, join_lines, join_with_newlines, views};
use crate::reply::ReplyError;
use crate::types::{
    step_views, AgentPlan, AgentPlanError, AgentResult, EvaluationResult, PlanErrorView,
    PromptView, ResultView, StepView, UserPrompt,
};

verus! {

/// The most plans that one run may ask for.
pub const MAX_PLAN_ATTEMPTS: u32 = 3;

/// The result of a plan without steps.
pub const NO_RESULT: &'static str = "Failed to get response from agent";

/// The agent's settings.
#[derive(Debug)]
pub struct EthAgent {
    brave_search_api_key: String,
    planning_model: String,
    execution_model: String,
    evaluation_model: String,
    evaluation_threshold: u32,
}

/// What an executing run waits for.
#[derive(Debug, Clone, Copy, PartialEq, Eq, Structural)]
pub enum Waiting {
    /// The tool server session.
    Session,
    /// A profile's reply to the step at hand.
    Profile,
    /// The judge's reply on the step at hand.
    Verdict,
}

/// Where a run stands.
#[derive(Debug, Clone, Copy, PartialEq, Eq, Structural)]
pub enum Stage {
    /// A plan was asked for.
    Planning,
    /// A plan is being executed.
    Executing(Waiting),
    Succeeded,
    Failed,
}

/// Why a run failed.
#[derive(Debug)]
pub enum AgentError {
    /// No plan could be had: the planner failed, or its reply was no plan.
    Planning(String),
    /// An attempt failed in a way that no new plan can mend.
    Execution(String),
    /// The last plan that the run may ask for failed too.
    MaxRetries,
    /// An event came that does not answer what the run had asked for.
    OutOfTurn,
}

/// What an [`AgentError`] stands for.
pub enum ErrorView {
    Planning(Seq<char>),
    Execution(Seq<char>),
    MaxRetries,
    OutOfTurn,
}

impl View for AgentError {
    type V = ErrorView;

    open spec fn view(&self) -> ErrorView {
        match self {
            AgentError::Planning(message) => ErrorView::Planning(message@),
            AgentError::Execution(message) => ErrorView::Execution(message@),
            AgentError::MaxRetries => ErrorView::MaxRetries,
            AgentError::OutOfTurn => ErrorView::OutOfTurn,
        }
    }
}

impl ErrorView {
    /// The error in words.
    pub open spec fn message(self) -> Seq<char> {
        match self {
            ErrorView::Planning(message) => message,
            ErrorView::Execution(message) => "Agent loop failed: "@ + message,
            ErrorView::MaxRetries => "Agent loop failed with max retries"@,
            ErrorView::OutOfTurn => "Event does not answer the pending request"@,
        }
    }
}

impl AgentError {
    /// The error in words.
    pub fn message(&self) -> (text: String)
        ensures
            text@ == self@.message(),
    {
        match self {
            AgentError::Planning(message) => message.clone(),
            AgentError::Execution(message) => crate::text::joined(
                "Agent loop failed: ",
                message.as_str(),
            ),
            AgentError::MaxRetries => "Agent loop failed with max retries".to_owned(),
            AgentError::OutOfTurn => "Event does not answer the pending request".to_owned(),
        }
    }
}

/// What came of the work that a run asked for.
#[derive(Debug)]
pub enum RunEvent {
    /// The planner's reply.
    PlannerReplied(String),
    /// The planner could not be had. Holds the reason.
    PlannerFailed(String),
    /// The tool server session stands.
    SessionOpened,
    /// The tool server session could not be had. Holds the reason.
    SessionFailed(String),
    /// The profile's reply to the step.
    ProfileReplied(String),
    /// The profile, or a tool that it called, failed. Holds the reason.
    ProfileFailed(String),
    /// The judge's reply.
    JudgeReplied(String),
    /// The judge could not be had. Holds the reason.
    JudgeFailed(String),
}

/// What a [`RunEvent`] stands for.
pub enum EventView {
    PlannerReplied(Seq<char>),
    PlannerFailed(Seq<char>),
    SessionOpened,
    SessionFailed(Seq<char>),
    ProfileReplied(Seq<char>),
    ProfileFailed(Seq<char>),
    JudgeReplied(Seq<char>),
    JudgeFailed(Seq<char>),
}

impl View for RunEvent {
    type V = EventView;

    open spec fn view(&self) -> EventView {
        match self {
            RunEvent::PlannerReplied(text) => EventView::PlannerReplied(text@),
            RunEvent::PlannerFailed(text) => EventView::PlannerFailed(text@),
            RunEvent::SessionOpened => EventView::SessionOpened,
            RunEvent::SessionFailed(text) => EventView::SessionFailed(text@),
            RunEvent::ProfileReplied(text) => EventView::ProfileReplied(text@),
            RunEvent::ProfileFailed(text) => EventView::ProfileFailed(text@),
            RunEvent::JudgeReplied(text) => EventView::JudgeReplied(text@),
            RunEvent::JudgeFailed(text) => EventView::JudgeFailed(text@),
        }
    }
}

/// What a run asks its caller to do next.
#[derive(Debug)]
pub enum RunAction {
    /// Ask the planner for a plan.
    AskPlanner { request: String },
    /// Open the tool server session and bind the profiles to it.
    OpenSession,
    /// Ask a profile to take a step, within `max_turns` tool-use turns.
    AskProfile { profile: Profile, request: String, max_turns: u32 },
    /// Ask the judge for a verdict on the step's result.
    AskJudge { request: String },
    /// The run has succeeded with this result.
    Succeed(AgentResult),
    /// The run has failed with this error.
    Fail(AgentError),
    /// The run was over before the event came.
    Halt,
}

/// What a [`RunAction`] stands for.
pub enum ActionView {
    AskPlanner { request: Seq<char> },
    OpenSession,
    AskProfile { profile: Profile, request: Seq<char>, max_turns: u32 },
    AskJudge { request: Seq<char> },
    Succeed(ResultView),
    Fail(ErrorView),
    Halt,
}

impl View for RunAction {
    type V = ActionView;

    open spec fn view(&self) -> ActionView {
        match self {
            RunAction::AskPlanner { request } => ActionView::AskPlanner { request: request@ },
            RunAction::OpenSession => ActionView::OpenSession,
            RunAction::AskProfile { profile, request, max_turns } => ActionView::AskProfile {
                profile: *profile,
                request: request@,
                max_turns: *max_turns,
            },
            RunAction::AskJudge { request } => ActionView::AskJudge { request: request@ },
            RunAction::Succeed(result) => ActionView::Succeed(result@),
            RunAction::Fail(error) => ActionView::Fail(error@),
            RunAction::Halt => ActionView::Halt,
        }
    }
}

/// One run of the agent on one prompt.
#[derive(Debug)]
pub struct AgentRun {
    prompt: UserPrompt,
    threshold: u32,
    attempts: u32,
    stage: Stage,
    plan: Option<AgentPlan>,
    cursor: usize,
    transcript: Vec<String>,
    reason: Option<String>,
}

/// What an [`AgentRun`] stands for.
pub struct RunView {
    /// The prompt that the run works on.
    pub prompt: PromptView,
    /// The score that a step's result must reach.
    pub threshold: u32,
    /// The number of plans asked for so far.
    pub attempts: nat,
    pub stage: Stage,
    /// The steps of the plan at hand; none while there is no plan.
    pub steps: Seq<StepView>,
    /// The number of steps that the plan at hand declares, while there is a
    /// plan. The steps at hand are executed, however many are declared.
    pub declared: Option<u32>,
    /// The index of the step at hand.
    pub cursor: nat,
    /// The results of the steps taken in this attempt, in order.
    pub transcript: Seq<Seq<char>>,
    /// Why the last failed attempt failed, where a new plan could mend it.
    pub reason: Option<Seq<char>>,
}

/// A run after a transition, and what it asks for.
pub struct Turn {
    pub run: RunView,
    pub action: ActionView,
}

/// What a profile is asked for a step: the step's prompt, then the results
/// of the earlier steps, one per line.
pub open spec fn step_request(agent_prompt: Seq<char>, transcript: Seq<Seq<char>>) -> Seq<char> {
    agent_prompt + "Previous steps: "@ + join_lines(transcript)
}

impl RunView {
    /// What holds of every run.
    pub open spec fn wf(self) -> bool {
        &&& 1 <= self.attempts <= MAX_PLAN_ATTEMPTS
        &&& well_numbered(self.steps)
        &&& match self.stage {
            Stage::Planning => self.steps.len() == 0 && self.declared is None && self.cursor == 0
                && self.transcript.len() == 0,
            Stage::Executing(Waiting::Session) => self.cursor == 0 && self.transcript.len() == 0,
            Stage::Executing(Waiting::Profile) => {
                &&& self.cursor < self.steps.len()
                &&& self.transcript.len() == self.cursor
                &&& routed(self.steps[self.cursor as int].agent_name) is Some
            },
            Stage::Executing(Waiting::Verdict) => {
                &&& self.cursor < self.steps.len()
                &&& self.transcript.len() == self.cursor + 1
                &&& routed(self.steps[self.cursor as int].agent_name) is Some
            },
            Stage::Succeeded | Stage::Failed => true,
        }
    }

    /// The run at its start: the first plan is asked for.
    pub open spec fn start(prompt: PromptView, threshold: u32) -> Turn {
        Turn {
            run: RunView {
                prompt,
                threshold,
                attempts: 1,
                stage: Stage::Planning,
                steps: Seq::empty(),
                declared: None,
                cursor: 0,
                transcript: Seq::empty(),
                reason: None,
            },
            action: ActionView::AskPlanner {
                request: planning_request(prompt.natural_language, None),
            },
        }
    }

    /// The run fails for good.
    pub open spec fn fail(self, error: ErrorView) -> Turn {
        Turn { run: RunView { stage: Stage::Failed, ..self }, action: ActionView::Fail(error) }
    }

    /// The attempt at hand ends in failure. Where a new plan may mend it and
    /// the run may still ask for one, it does, and hands the reason on;
    /// else the run fails.
    pub open spec fn end_attempt(self, error: PlanErrorView) -> Turn {
        if !error.replan {
            self.fail(ErrorView::Execution(error.error_message))
        } else if self.attempts < MAX_PLAN_ATTEMPTS {
            Turn {
                run: RunView {
                    attempts: self.attempts + 1,
                    stage: Stage::Planning,
                    steps: Seq::empty(),
                    declared: None,
                    cursor: 0,
                    transcript: Seq::empty(),
                    reason: Some(error.error_message),
                    ..self
                },
                action: ActionView::AskPlanner {
                    request: planning_request(
                        self.prompt.natural_language,
                        Some(error.error_message),
                    ),
                },
            }
        } else {
            RunView { reason: Some(error.error_message), ..self }.fail(ErrorView::MaxRetries)
        }
    }

    /// The step at the cursor begins: it is routed to its profile. With no
    /// step left, the run succeeds with the last result.
    pub open spec fn begin_step(self) -> Turn {
        if self.cursor >= self.steps.len() {
            Turn {
                run: RunView { stage: Stage::Succeeded, ..self },
                action: ActionView::Succeed(
                    ResultView {
                        error_message: None,
                        result: if self.transcript.len() > 0 {
                            self.transcript.last()
                        } else {
                            NO_RESULT@
                        },
                    },
                ),
            }
        } else {
            let step = self.steps[self.cursor as int];
            match routed(step.agent_name) {
                None => self.end_attempt(
                    PlanErrorView {
                        error_message: "Unknown agent name: "@ + step.agent_name,
                        replan: true,
                    },
                ),
                Some(profile) => Turn {
                    run: RunView { stage: Stage::Executing(Waiting::Profile), ..self },
                    action: ActionView::AskProfile {
                        profile,
                        request: step_request(step.agent_prompt, self.transcript),
                        max_turns: profile.spec_max_turns(),
                    },
                },
            }
        }
    }

    /// The run after an event, and what it asks for next.
    pub open spec fn next(self, event: EventView) -> Turn {
        match self.stage {
            Stage::Planning => match event {
                EventView::PlannerFailed(message) => self.fail(ErrorView::Planning(message)),
                EventView::PlannerReplied(reply) => match plan_reading(reply) {
                    Err(error) => self.fail(ErrorView::Planning(error.message())),
                    Ok(plan) => Turn {
                        run: RunView {
                            stage: Stage::Executing(Waiting::Session),
                            steps: plan.steps,
                            declared: Some(plan.number_of_steps),
                            ..self
                        },
                        action: ActionView::OpenSession,
                    },
                },
                _ => self.fail(ErrorView::OutOfTurn),
            },
            Stage::Executing(Waiting::Session) => match event {
                EventView::SessionOpened => self.begin_step(),
                EventView::SessionFailed(message) => self.end_attempt(
                    PlanErrorView {
                        error_message: "MCP client initialization failed: "@ + message,
                        replan: false,
                    },
                ),
                _ => self.fail(ErrorView::OutOfTurn),
            },
            Stage::Executing(Waiting::Profile) => match event {
                EventView::ProfileReplied(reply) => Turn {
                    run: RunView {
                        stage: Stage::Executing(Waiting::Verdict),
                        transcript: self.transcript.push(reply),
                        ..self
                    },
                    action: ActionView::AskJudge {
                        request: judging_request(
                            reply,
                            self.steps[self.cursor as int].agent_prompt,
                            self.prompt.natural_language,
                        ),
                    },
                },
                EventView::ProfileFailed(message) => self.end_attempt(
                    PlanErrorView {
                        error_message: "Failed to get response from "@ + routed(
                            self.steps[self.cursor as int].agent_name,
                        )->0.spec_label() + " agent: "@ + message,
                        replan: false,
                    },
                ),
                _ => self.fail(ErrorView::OutOfTurn),
            },
            Stage::Executing(Waiting::Verdict) => match event {
                EventView::JudgeReplied(reply) => match verdict_reading(reply) {
                    Ok(verdict) => if accepts(verdict.score, self.threshold) {
                        RunView { cursor: self.cursor + 1, ..self }.begin_step()
                    } else {
                        self.end_attempt(
                            PlanErrorView {
                                error_message: "Evaluation score is below threshold: "@ + decimal(
                                    verdict.score as nat,
                                ),
                                replan: true,
                            },
                        )
                    },
                    Err(_) => self.end_attempt(
                        PlanErrorView { error_message: "Evaluation failed"@, replan: true },
                    ),
                },
                EventView::JudgeFailed(_) => self.end_attempt(
                    PlanErrorView { error_message: "Evaluation failed"@, replan: true },
                ),
                _ => self.fail(ErrorView::OutOfTurn),
            },
            Stage::Succeeded | Stage::Failed => Turn { run: self, action: ActionView::Halt },
        }
    }
}

/// What an [`EthAgent`] stands for.
pub struct AgentView {
    pub brave_search_api_key: Seq<char>,
    pub planning_model: Seq<char>,
    pub execution_model: Seq<char>,
    pub evaluation_model: Seq<char>,
    pub evaluation_threshold: u32,
}

impl View for EthAgent {
    type V = AgentView;

    closed spec fn view(&self) -> AgentView {
        AgentView {
            brave_search_api_key: self.brave_search_api_key@,
            planning_model: self.planning_model@,
            execution_model: self.execution_model@,
            evaluation_model: self.evaluation_model@,
            evaluation_threshold: self.evaluation_threshold,
        }
    }
}

impl EthAgent {
    /// An agent with the given search credential, the names of the models
    /// that plan, execute and judge, and the score that a step's result
    /// must reach.
    pub fn new(
        brave_search_api_key: &str,
        planning_model: &str,
        execution_model: &str,
        evaluation_model: &str,
        evaluation_threshold: u32,
    ) -> (agent: Self)
        ensures
            agent@ == (AgentView {
                brave_search_api_key: brave_search_api_key@,
                planning_model: planning_model@,
                execution_model: execution_model@,
                evaluation_model: evaluation_model@,
                evaluation_threshold,
            }),
    {
        EthAgent {
            brave_search_api_key: brave_search_api_key.to_owned(),
            planning_model: planning_model.to_owned(),
            execution_model: execution_model.to_owned(),
            evaluation_model: evaluation_model.to_owned(),
            evaluation_threshold,
        }
    }

    /// The credential for the search provider.
    pub fn brave_search_api_key(&self) -> (key: &String)
        ensures
            key@ == self@.brave_search_api_key,
    {
        &self.brave_search_api_key
    }

    /// The name of the model that plans.
    pub fn planning_model(&self) -> (model: &String)
        ensures
            model@ == self@.planning_model,
    {
        &self.planning_model
    }

    /// The name of the model that takes the steps.
    pub fn execution_model(&self) -> (model: &String)
        ensures
            model@ == self@.execution_model,
    {
        &self.execution_model
    }

    /// The name of the model that judges.
    pub fn evaluation_model(&self) -> (model: &String)
        ensures
            model@ == self@.evaluation_model,
    {
        &self.evaluation_model
    }

    /// The score that a step's result must reach.
    pub fn evaluation_threshold(&self) -> (threshold: u32)
        ensures
            threshold == self@.evaluation_threshold,
    {
        self.evaluation_threshold
    }

    /// Begins a run on `prompt`: the run, and its first request, which asks
    /// the planner for the first plan.
    pub fn run(&self, prompt: UserPrompt) -> (turn: (AgentRun, RunAction))
        ensures
            (Turn { run: turn.0@, action: turn.1@ }) == RunView::start(
                prompt@,
                self@.evaluation_threshold,
            ),
    {
        let request = plan_request(prompt.natural_language.as_str(), None);
        let run = AgentRun {
            prompt,
            threshold: self.evaluation_threshold,
            attempts: 1,
            stage: Stage::Planning,
            plan: None,
            cursor: 0,
            transcript: Vec::new(),
            reason: None,
        };
        assert(run@.transcript =~= Seq::empty());
        (run, RunAction::AskPlanner { request })
    }
}

impl View for AgentRun {
    type V = RunView;

    closed spec fn view(&self) -> RunView {
        RunView {
            prompt: self.prompt@,
            threshold: self.threshold,
            attempts: self.attempts as nat,
            stage: self.stage,
            steps: match self.plan {
                Some(plan) => step_views(plan.steps@),
                None => Seq::empty(),
            },
            declared: match self.plan {
                Some(plan) => Some(plan.max_steps),
                None => None,
            },
            cursor: self.cursor as nat,
            transcript: views(self.transcript@),
            reason: match self.reason {
                Some(reason) => Some(reason@),
                None => None,
            },
        }
    }
}

impl AgentRun {
    #[verifier::type_invariant]
    spec fn well_formed(self) -> bool {
        &&& self@.wf()
        &&& self.plan matches Some(plan) ==> plan.prompt@ == self.prompt@ && plan.current_step == 0
    }

    /// Where the run stands.
    pub fn stage(&self) -> (stage: Stage)
        ensures
            stage == self@.stage,
    {
        self.stage
    }

    /// The number of plans asked for so far.
    pub fn attempts(&self) -> (attempts: u32)
        ensures
            attempts == self@.attempts,
            1 <= attempts <= MAX_PLAN_ATTEMPTS,
    {
        proof {
            use_type_invariant(self);
        }
        self.attempts
    }

    /// The plan at hand. It is for the run's prompt, holds the steps at
    /// hand and the number of steps declared, and its progress counter is 0.
    pub fn plan(&self) -> (plan: Option<&AgentPlan>)
        ensures
            match plan {
                Some(plan) => {
                    &&& plan@.prompt == self@.prompt
                    &&& plan@.steps == self@.steps
                    &&& self@.declared == Some(plan.max_steps)
                    &&& plan.current_step == 0
                },
                None => self@.steps.len() == 0 && self@.declared is None,
            },
    {
        proof {
            use_type_invariant(self);
        }
        self.plan.as_ref()
    }

    /// The prompt that the run works on.
    pub fn prompt(&self) -> (prompt: &UserPrompt)
        ensures
            prompt@ == self@.prompt,
    {
        &self.prompt
    }

    /// Why the last failed attempt failed, where a new plan could mend it.
    pub fn replan_reason(&self) -> (reason: Option<&String>)
        ensures
            crate::types::maybe_ref(reason) == self@.reason,
    {
        self.reason.as_ref()
    }

    /// The results of the steps taken in this attempt, in order.
    pub fn transcript(&self) -> (transcript: &Vec<String>)
        ensures
            views(transcript@) == self@.transcript,
    {
        &self.transcript
    }

    /// Whether the run is over.
    pub fn is_over(&self) -> (over: bool)
        ensures
            over == (self@.stage == Stage::Succeeded || self@.stage == Stage::Failed),
    {
        match self.stage {
            Stage::Succeeded => true,
            Stage::Failed => true,
            _ => false,
        }
    }

    /// The verdict that the judge's reply gives on the step at hand.
    fn judge(&self, reply: &str) -> (outcome: Result<EvaluationResult, ReplyError>)
        ensures
            match (outcome, verdict_reading(reply@)) {
                (Ok(evaluation), Ok(verdict)) => evaluation.score == verdict.score
                    && evaluation.original_prompt@ == self@.prompt.natural_language,
                (Err(error), Err(expected)) => error@ == expected,
                _ => false,
            },
    {
        let plan_id: &str = match &self.plan {
            Some(plan) => plan.id.as_str(),
            None => "",
        };
        evaluate(plan_id, self.prompt.natural_language.as_str(), reply)
    }

    fn fail(self, error: AgentError) -> (turn: (AgentRun, RunAction))
        ensures
            (Turn { run: turn.0@, action: turn.1@ }) == self@.fail(error@),
    {
        proof {
            use_type_invariant(&self);
        }
        let AgentRun { prompt, threshold, attempts, stage, plan, cursor, transcript, reason } =
            self;
        let run = AgentRun {
            prompt,
            threshold,
            attempts,
            stage: Stage::Failed,
            plan,
            cursor,
            transcript,
            reason,
        };
        (run, RunAction::Fail(error))
    }

    fn end_attempt(self, error: AgentPlanError) -> (turn: (AgentRun, RunAction))
        ensures
            (Turn { run: turn.0@, action: turn.1@ }) == self@.end_attempt(error@),
    {
        proof {
            use_type_invariant(&self);
        }
        if !error.replan {
            return self.fail(AgentError::Execution(error.error_message));
        }
        let AgentRun { prompt, threshold, attempts, stage, plan, cursor, transcript, reason } =
            self;
        if attempts < MAX_PLAN_ATTEMPTS {
            let request = plan_request(
                prompt.natural_language.as_str(),
                Some(&error.error_message),
            );
            let run = AgentRun {
                prompt,
                threshold,
                attempts: attempts + 1,
                stage: Stage::Planning,
                plan: None,
                cursor: 0,
                transcript: Vec::new(),
                reason: Some(error.error_message),
            };
            assert(run@.transcript =~= Seq::empty());
            (run, RunAction::AskPlanner { request })
        } else {
            let run = AgentRun {
                prompt,
                threshold,
                attempts,
                stage: Stage::Failed,
                plan,
                cursor,
                transcript,
                reason: Some(error.error_message),
            };
            (run, RunAction::Fail(AgentError::MaxRetries))
        }
    }

    /// Begins the step at `at`, of a run that has taken the steps before it.
    fn begin_step(self, at: usize) -> (turn: (AgentRun, RunAction))
        requires
            self@.transcript.len() == at,
        ensures
            (Turn { run: turn.0@, action: turn.1@ }) == (RunView { cursor: at as nat, ..self@ })
                .begin_step(),
    {
        proof {
            use_type_invariant(&self);
        }
        let total: usize = match &self.plan {
            Some(plan) => plan.steps.len(),
            None => 0,
        };
        if at >= total {
            let result = if self.transcript.len() > 0 {
                self.transcript[self.transcript.len() - 1].clone()
            } else {
                NO_RESULT.to_owned()
            };
            let AgentRun { prompt, threshold, attempts, stage, plan, cursor, transcript, reason } =
                self;
            let run = AgentRun {
                prompt,
                threshold,
                attempts,
                stage: Stage::Succeeded,
                plan,
                cursor: at,
                transcript,
                reason,
            };
            return (run, RunAction::Succeed(AgentResult { error_message: None, result }));
        }
        let routing = match &self.plan {
            Some(plan) => {
                let step = &plan.steps[at];
                match route(step.agent_name.as_str()) {
                    Some(profile) => {
                        let mut request = String::from_str(step.agent_prompt.as_str());
                        request.append("Previous steps: ");
                        let earlier = join_with_newlines(&self.transcript);
                        request.append(earlier.as_str());
                        Ok((profile, request))
                    },
                    None => Err(
                        crate::text::joined("Unknown agent name: ", step.agent_name.as_str()),
                    ),
                }
            },
            None => Err(String::new()),
        };
        match routing {
            Ok((profile, request)) => {
                let AgentRun {
                    prompt,
                    threshold,
                    attempts,
                    stage,
                    plan,
                    cursor,
                    transcript,
                    reason,
                } = self;
                let run = AgentRun {
                    prompt,
                    threshold,
                    attempts,
                    stage: Stage::Executing(Waiting::Profile),
                    plan,
                    cursor: at,
                    transcript,
                    reason,
                };
                (run, RunAction::AskProfile { profile, request, max_turns: profile.max_turns() })
            },
            Err(error_message) => {
                let AgentRun {
                    prompt,
                    threshold,
                    attempts,
                    stage,
                    plan,
                    cursor,
                    transcript,
                    reason,
                } = self;
                let run = AgentRun {
                    prompt,
                    threshold,
                    attempts,
                    stage: Stage::Failed,
                    plan,
                    cursor: at,
                    transcript,
                    reason,
                };
                run.end_attempt(AgentPlanError { error_message, replan: true })
            },
        }
    }

    /// Takes the outcome of what the run asked for last, and says what it
    /// asks for next. An event that does not answer the pending request fails
    /// the run; a run that is over stays as it is.
    pub fn step(self, event: RunEvent) -> (turn: (AgentRun, RunAction))
        ensures
            (Turn { run: turn.0@, action: turn.1@ }) == self@.next(event@),
    {
        proof {
            use_type_invariant(&self);
        }
        match self.stage {
            Stage::Planning => match event {
                RunEvent::PlannerFailed(message) => self.fail(AgentError::Planning(message)),
                RunEvent::PlannerReplied(reply) => match read_plan(reply.as_str()) {
                    Err(error) => self.fail(AgentError::Planning(error.message())),
                    Ok(response) => {
                        let drafted = AgentPlan::from_response(
                            fresh_id(),
                            self.prompt.clone(),
                            response,
                        );
                        let AgentRun {
                            prompt,
                            threshold,
                            attempts,
                            stage,
                            plan,
                            cursor,
                            transcript,
                            reason,
                        } = self;
                        let run = AgentRun {
                            prompt,
                            threshold,
                            attempts,
                            stage: Stage::Executing(Waiting::Session),
                            plan: Some(drafted),
                            cursor,
                            transcript,
                            reason,
                        };
                        (run, RunAction::OpenSession)
                    },
                },
                _ => self.fail(AgentError::OutOfTurn),
            },
            Stage::Executing(Waiting::Session) => match event {
                RunEvent::SessionOpened => self.begin_step(0),
                RunEvent::SessionFailed(message) => {
                    let error_message = crate::text::joined(
                        "MCP client initialization failed: ",
                        message.as_str(),
                    );
                    self.end_attempt(AgentPlanError { error_message, replan: false })
                },
                _ => self.fail(AgentError::OutOfTurn),
            },
            Stage::Executing(Waiting::Profile) => match event {
                RunEvent::ProfileReplied(reply) => {
                    let request = match &self.plan {
                        Some(plan) => evaluation_request(
                            reply.as_str(),
                            plan.steps[self.cursor].agent_prompt.as_str(),
                            self.prompt.natural_language.as_str(),
                        ),
                        None => String::new(),
                    };
                    let AgentRun {
                        prompt,
                        threshold,
                        attempts,
                        stage,
                        plan,
                        cursor,
                        transcript,
                        reason,
                    } = self;
                    let mut transcript = transcript;
                    let ghost before = views(transcript@);
                    transcript.push(reply);
                    assert(views(transcript@) =~= before.push(reply@));
                    let run = AgentRun {
                        prompt,
                        threshold,
                        attempts,
                        stage: Stage::Executing(Waiting::Verdict),
                        plan,
                        cursor,
                        transcript,
                        reason,
                    };
                    (run, RunAction::AskJudge { request })
                },
                RunEvent::ProfileFailed(message) => {
                    let label = match &self.plan {
                        Some(plan) => match route(plan.steps[self.cursor].agent_name.as_str()) {
                            Some(profile) => profile.label(),
                            None => "",
                        },
                        None => "",
                    };
                    let mut error_message = String::from_str("Failed to get response from ");
                    error_message.append(label);
                    error_message.append(" agent: ");
                    error_message.append(message.as_str());
                    self.end_attempt(AgentPlanError { error_message, replan: false })
                },
                _ => self.fail(AgentError::OutOfTurn),
            },
            Stage::Executing(Waiting::Verdict) => match event {
                RunEvent::JudgeReplied(reply) => match self.judge(reply.as_str()) {
                    Ok(verdict) => if passes(verdict.score, self.threshold) {
                        let taken: usize = self.transcript.len();
                        self.begin_step(taken)
                    } else {
                        let score = decimal_text(verdict.score as u64);
                        let error_message = crate::text::joined(
                            "Evaluation score is below threshold: ",
                            score.as_str(),
                        );
                        self.end_attempt(AgentPlanError { error_message, replan: true })
                    },
                    Err(_) => self.end_attempt(
                        AgentPlanError {
                            error_message: "Evaluation failed".to_owned(),
                            replan: true,
                        },
                    ),
                },
                RunEvent::JudgeFailed(_) => self.end_attempt(
                    AgentPlanError { error_message: "Evaluation failed".to_owned(), replan: true },
                ),
                _ => self.fail(AgentError::OutOfTurn),
            },
            Stage::Succeeded => (self, RunAction::Halt),
            Stage::Failed => (self, RunAction::Halt),
        }
    }
}

impl RunView {
    /// The run after a sequence of events.
    pub open spec fn after(self, events: Seq<EventView>) -> RunView
        decreases events.len(),
    {
        if events.len() == 0 {
            self
        } else {
            self.after(events.drop_last()).next(events.last()).run
        }
    }

    /// How often the run asks the planner for a plan in answer to the events.
    pub open spec fn plans_asked(self, events: Seq<EventView>) -> nat
        decreases events.len(),
    {
        if events.len() == 0 {
            0
        } else {
            let earlier = self.plans_asked(events.drop_last());
            if self.after(events.drop_last()).next(events.last()).action is AskPlanner {
                earlier + 1
            } else {
                earlier
            }
        }
    }
}

/// A transition keeps a run well formed, and leaves the prompt and the
/// threshold as they are. It asks for a plan exactly where it counts one
/// more attempt; no other transition changes the count. A new attempt
/// begins without plan and with an empty transcript; within an attempt
/// the plan stays as it was drafted and the transcript only grows.
pub proof fn law_transition(run: RunView, event: EventView)
    requires
        run.wf(),
    ensures
        run.next(event).run.wf(),
        run.next(event).run.prompt == run.prompt,
        run.next(event).run.threshold == run.threshold,
        run.next(event).action is AskPlanner ==> {
            &&& run.next(event).run.attempts == run.attempts + 1
            &&& run.next(event).run.stage == Stage::Planning
            &&& run.next(event).run.steps.len() == 0
            &&& run.next(event).run.transcript.len() == 0
        },
        !(run.next(event).action is AskPlanner) ==> {
            &&& run.next(event).run.attempts == run.attempts
            &&& run.transcript.is_prefix_of(run.next(event).run.transcript)
            &&& run.next(event).run.transcript.len() <= run.transcript.len() + 1
        },
        run.stage != Stage::Planning && !(run.next(event).action is AskPlanner) ==> run.next(
            event,
        ).run.steps == run.steps,
{
    assert(well_numbered(Seq::<StepView>::empty()));
}

/// Whatever happens, a run counts at most three planning attempts, and it
/// has asked the planner exactly as often as it counts: a fourth plan is
/// never asked for.
pub proof fn law_attempts_bounded(prompt: PromptView, threshold: u32, events: Seq<EventView>)
    ensures
        RunView::start(prompt, threshold).action is AskPlanner,
        RunView::start(prompt, threshold).run.after(events).wf(),
        RunView::start(prompt, threshold).run.after(events).attempts <= MAX_PLAN_ATTEMPTS,
        1 + RunView::start(prompt, threshold).run.plans_asked(events) == RunView::start(
            prompt,
            threshold,
        ).run.after(events).attempts,
    decreases events.len(),
{
    let first = RunView::start(prompt, threshold).run;
    if events.len() == 0 {
        assert(well_numbered(Seq::<StepView>::empty()));
    } else {
        law_attempts_bounded(prompt, threshold, events.drop_last());
        law_transition(first.after(events.drop_last()), events.last());
    }
}

/// The judge's score decides a step. Below the threshold the attempt ends
/// in a failure that a new plan may mend; from the threshold up the step is
/// accepted and the run goes on behind it.
pub proof fn law_score_decides(run: RunView, reply: Seq<char>)
    requires
        run.wf(),
        run.stage == Stage::Executing(Waiting::Verdict),
        verdict_reading(reply) is Ok,
    ensures
        ({
            let score = verdict_reading(reply)->Ok_0.score;
            let turn = run.next(EventView::JudgeReplied(reply));
            &&& score < run.threshold ==> turn == run.end_attempt(
                PlanErrorView {
                    error_message: "Evaluation score is below threshold: "@ + decimal(score as nat),
                    replan: true,
                },
            )
            &&& score < run.threshold ==> turn.run.stage != Stage::Succeeded && !(turn.action
                is Succeed)
            &&& score < run.threshold && run.attempts < MAX_PLAN_ATTEMPTS ==> turn.run.stage
                == Stage::Planning
            &&& score >= run.threshold ==> turn == (RunView { cursor: run.cursor + 1, ..run })
                .begin_step()
            &&& score >= run.threshold && run.cursor + 1 == run.steps.len() ==> turn.action
                == ActionView::Succeed(
                ResultView { error_message: None, result: run.transcript.last() },
            )
        }),
{
}

/// A run succeeds only when no step is left: with the last step's result
/// accepted by the judge, or on a session for a plan without steps. Its
/// result is then the last entry of the transcript, or the placeholder
/// where nothing was transcribed.
pub proof fn law_success(run: RunView, event: EventView)
    requires
        run.wf(),
        run.next(event).action is Succeed,
    ensures
        run.next(event).run.stage == Stage::Succeeded,
        run.next(event).run.transcript == run.transcript,
        run.next(event).run.cursor == run.steps.len(),
        run.next(event).action->Succeed_0 == (ResultView {
            error_message: None,
            result: if run.transcript.len() > 0 {
                run.transcript.last()
            } else {
                NO_RESULT@
            },
        }),
        run.stage == Stage::Executing(Waiting::Verdict) || run.stage == Stage::Executing(
            Waiting::Session,
        ),
        run.stage == Stage::Executing(Waiting::Verdict) ==> {
            &&& event matches EventView::JudgeReplied(reply)
            &&& verdict_reading(reply) matches Ok(verdict)
            &&& verdict.score >= run.threshold
            &&& run.transcript.len() == run.steps.len()
        },
        run.stage == Stage::Executing(Waiting::Session) ==> event is SessionOpened
            && run.steps.len() == 0,
{
}

/// A failure to plan is never answered with a new plan: the run fails.
pub proof fn law_planning_failure_is_final(run: RunView, event: EventView)
    requires
        run.wf(),
        run.stage == Stage::Planning,
        event is PlannerFailed || (event matches EventView::PlannerReplied(reply) && plan_reading(
            reply,
        ) is Err),
    ensures
        run.next(event).run.stage == Stage::Failed,
        run.next(event).action matches ActionView::Fail(ErrorView::Planning(_)),
        run.next(event).run.attempts == run.attempts,
{
}

/// Without a tool server session no step is taken: the run fails at once,
/// whatever the plan, and no new plan is asked for.
pub proof fn law_no_session_no_step(run: RunView, reason: Seq<char>)
    requires
        run.wf(),
        run.stage == Stage::Executing(Waiting::Session),
    ensures
        run.next(EventView::SessionFailed(reason)).run.stage == Stage::Failed,
        run.next(EventView::SessionFailed(reason)).run.transcript.len() == 0,
        run.next(EventView::SessionFailed(reason)).action == ActionView::Fail(
            ErrorView::Execution("MCP client initialization failed: "@ + reason),
        ),
{
}

/// A step that names no known profile ends the attempt in a failure that a
/// new plan may mend; the reason names the profile.
pub proof fn law_unknown_profile_replans(run: RunView)
    requires
        run.wf(),
        run.cursor < run.steps.len(),
        routed(run.steps[run.cursor as int].agent_name) is None,
    ensures
        run.begin_step() == run.end_attempt(
            PlanErrorView {
                error_message: "Unknown agent name: "@ + run.steps[run.cursor as int].agent_name,
                replan: true,
            },
        ),
        run.attempts < MAX_PLAN_ATTEMPTS ==> run.begin_step().action == (ActionView::AskPlanner {
            request: planning_request(
                run.prompt.natural_language,
                Some("Unknown agent name: "@ + run.steps[run.cursor as int].agent_name),
            ),
        }),
        run.attempts >= MAX_PLAN_ATTEMPTS ==> run.begin_step().action == ActionView::Fail(
            ErrorView::MaxRetries,
        ),
{
}

/// A run that is over stays over: it takes no further action.
pub proof fn law_over_is_over(run: RunView, event: EventView)
    requires
        run.stage == Stage::Succeeded || run.stage == Stage::Failed,
    ensures
        run.next(event) == (Turn { run, action: ActionView::Halt }),
{
}

} // verus!
