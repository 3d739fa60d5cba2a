//! The orchestrator: the registry of tool executors and the dispatch of tool
//! calls behind the consent gate.
//!
//! A dispatch is a transition function, as the operations of the consent
//! engine are. The orchestrator decides; the caller verifies the consent,
//! runs the executor against the deadline, and comes back with what happened.

use std::collections::HashMap;
use vstd::prelude::*;
use vstd::string::*;
use crate::consent::{ConsentError, ConsentErrorView};
use crate::engine::ConsentEngine;
use crate::error::{CybulousError, CybulousErrorView};
use crate::registry::Registry;
use crate::text::optional_text;
use crate::time::elapsed_millis;

verus! {

/// How the execution of a tool call ended.
#[derive(Debug, Clone, Copy, PartialEq, Eq, Structural)]
pub enum ExecutionStatus {
    /// Execution succeeded.
    Success,
    /// Execution failed.
    Failed,
    /// Execution timed out.
    Timeout,
    /// Consent not granted.
    ConsentDenied,
}

/// The context in which a tool is called.
#[derive(Debug, Clone)]
pub struct ExecutionContext {
    /// Session identifier.
    pub session_id: uuid::Uuid,
    /// Consent proof presented with the call.
    pub consent_proof: String,
    /// Biophysical signature hash.
    pub biophysical_hash: Option<String>,
    /// Additional metadata.
    pub metadata: HashMap<String, String>,
}

/// What an [`ExecutionContext`] holds.
pub struct ExecutionContextView {
    pub session_id: uuid::Uuid,
    pub consent_proof: Seq<char>,
    pub biophysical_hash: Option<Seq<char>>,
    pub metadata: HashMap<String, String>,
}

impl View for ExecutionContext {
    type V = ExecutionContextView;

    open spec fn view(&self) -> ExecutionContextView {
        ExecutionContextView {
            session_id: self.session_id,
            consent_proof: self.consent_proof@,
            biophysical_hash: optional_text(self.biophysical_hash),
            metadata: self.metadata,
        }
    }
}

/// A request to run a tool.
#[derive(Debug, Clone)]
pub struct ToolCall {
    /// Unique identifier of the call.
    pub id: uuid::Uuid,
    /// Name of the tool to run.
    pub tool_name: String,
    /// Input parameters for the tool.
    pub parameters: serde_json::Value,
    /// User making the request.
    pub user_id: String,
    /// Execution context.
    pub context: ExecutionContext,
    /// Deadline of the execution, in milliseconds.
    pub timeout_ms: u64,
}

/// What a [`ToolCall`] holds.
pub struct ToolCallView {
    pub id: uuid::Uuid,
    pub tool_name: Seq<char>,
    pub parameters: serde_json::Value,
    pub user_id: Seq<char>,
    pub context: ExecutionContextView,
    pub timeout_ms: u64,
}

impl View for ToolCall {
    type V = ToolCallView;

    open spec fn view(&self) -> ToolCallView {
        ToolCallView {
            id: self.id,
            tool_name: self.tool_name@,
            parameters: self.parameters,
            user_id: self.user_id@,
            context: self.context@,
            timeout_ms: self.timeout_ms,
        }
    }
}

impl ToolCall {
    /// The user and the consent proof on which the consent engine is asked
    /// about this call.
    pub fn consent_question(&self) -> (question: (&str, &str))
        ensures
            question.0@ == self@.user_id,
            question.1@ == self@.context.consent_proof,
            (question.0@, question.1@) == consent_question(self@),
    {
        (self.user_id.as_str(), self.context.consent_proof.as_str())
    }
}

/// The answer to a tool call.
#[derive(Debug, Clone)]
pub struct ToolResponse {
    /// The call this response answers.
    pub call_id: uuid::Uuid,
    /// How the execution ended.
    pub status: ExecutionStatus,
    /// Result payload.
    pub result: Option<serde_json::Value>,
    /// Error message.
    pub error: Option<String>,
    /// Duration of the execution in milliseconds.
    pub duration_ms: u64,
}

/// What a [`ToolResponse`] holds.
pub struct ToolResponseView {
    pub call_id: uuid::Uuid,
    pub status: ExecutionStatus,
    pub result: Option<serde_json::Value>,
    pub error: Option<Seq<char>>,
    pub duration_ms: u64,
}

impl View for ToolResponse {
    type V = ToolResponseView;

    open spec fn view(&self) -> ToolResponseView {
        ToolResponseView {
            call_id: self.call_id,
            status: self.status,
            result: self.result,
            error: optional_text(self.error),
            duration_ms: self.duration_ms,
        }
    }
}

impl ToolResponseView {
    /// The invariant of a response: a success carries a result and no error,
    /// every other status carries an error and no result.
    pub open spec fn well_formed(self) -> bool {
        if self.status == ExecutionStatus::Success {
            self.result is Some && self.error is None
        } else {
            self.result is None && self.error is Some
        }
    }
}

impl ToolResponse {
    /// Whether the response meets the invariant of responses.
    pub fn is_well_formed(&self) -> (ok: bool)
        ensures
            ok == self@.well_formed(),
    {
        match self.status {
            ExecutionStatus::Success => self.result.is_some() && self.error.is_none(),
            _ => self.result.is_none() && self.error.is_some(),
        }
    }
}

/// The response to a call that was refused at the consent gate for `reason`,
/// `elapsed_ms` after the dispatch began.
pub open spec fn denied(call: ToolCallView, reason: Seq<char>, elapsed_ms: u64) -> ToolResponseView {
    ToolResponseView {
        call_id: call.id,
        status: ExecutionStatus::ConsentDenied,
        result: None,
        error: Some(reason),
        duration_ms: elapsed_ms,
    }
}

/// The response to a call whose executor failed for `reason`, `elapsed_ms`
/// after the dispatch began.
pub open spec fn failed(call: ToolCallView, reason: Seq<char>, elapsed_ms: u64) -> ToolResponseView {
    ToolResponseView {
        call_id: call.id,
        status: ExecutionStatus::Failed,
        result: None,
        error: Some(reason),
        duration_ms: elapsed_ms,
    }
}

/// The response to a call whose deadline passed before its executor was
/// done. The duration reported is the deadline itself.
pub open spec fn timed_out(call: ToolCallView) -> ToolResponseView {
    ToolResponseView {
        call_id: call.id,
        status: ExecutionStatus::Timeout,
        result: None,
        error: Some("Execution timeout"@),
        duration_ms: call.timeout_ms,
    }
}

/// The response to a call that succeeded with `result`, `elapsed_ms` after
/// the dispatch began.
pub open spec fn succeeded(
    call: ToolCallView,
    result: serde_json::Value,
    elapsed_ms: u64,
) -> ToolResponseView {
    ToolResponseView {
        call_id: call.id,
        status: ExecutionStatus::Success,
        result: Some(result),
        error: None,
        duration_ms: elapsed_ms,
    }
}

/// Why an answer without a result counts as a failure: the error that the
/// answer carries, or, where it carries none, that no result was returned.
pub open spec fn missing_result_reason(answer: ToolResponseView) -> Seq<char> {
    match answer.error {
        Some(reason) => reason,
        None => "Executor returned no result"@,
    }
}

/// The response to a call whose executor answered `elapsed_ms` after the
/// dispatch began.
///
/// Of the answer only the result is taken over, and the error where there is
/// no result. An answer with a result is a success of the call, whatever
/// status, call and duration the answer names and whether or not it carries
/// an error beside the result. An answer without a result is a failure of the
/// call, for the reason [`missing_result_reason`] gives.
pub open spec fn completed(
    call: ToolCallView,
    answer: ToolResponseView,
    elapsed_ms: u64,
) -> ToolResponseView {
    match answer.result {
        Some(result) => succeeded(call, result, elapsed_ms),
        None => failed(call, missing_result_reason(answer), elapsed_ms),
    }
}

/// The user and the consent proof on which the consent engine is asked about
/// a call: the user of the call, and the proof in the context of the call.
pub open spec fn consent_question(call: ToolCallView) -> (Seq<char>, Seq<char>) {
    (call.user_id, call.context.consent_proof)
}

/// The consent gate: the verdict of the consent engine, as leave to go on or
/// as the refusal that denies the call. Only a verdict of `true` gives leave;
/// an error of the engine refuses as a verdict of `false` does.
pub open spec fn consent_gate(verdict: Result<bool, ConsentErrorView>) -> Result<
    (),
    CybulousErrorView,
> {
    match verdict {
        Ok(true) => Ok(()),
        Ok(false) => Err(CybulousErrorView::ConsentError("Consent verification failed"@)),
        Err(error) => Err(
            CybulousErrorView::ConsentError("Consent check error: "@ + error.message()),
        ),
    }
}

/// The verdict of the consent engine on a call.
pub open spec fn verdict_view(verdict: Result<bool, ConsentError>) -> Result<
    bool,
    ConsentErrorView,
> {
    match verdict {
        Ok(accepted) => Ok(accepted),
        Err(error) => Err(error@),
    }
}

/// What an executor did with a call.
pub open spec fn outcome_view(outcome: Result<ToolResponse, CybulousError>) -> Result<
    ToolResponseView,
    CybulousErrorView,
> {
    match outcome {
        Ok(response) => Ok(response@),
        Err(error) => Err(error@),
    }
}

/// What the orchestrator reads of an executor.
///
/// An executor is registered under the name it declares. Running it is the
/// business of whoever drives the dispatch.
pub trait ToolExecutor {
    /// The name of the tool.
    fn name(&self) -> &str;

    /// Whether the tool supports the capability `capability`. The
    /// orchestrator dispatches by name and does not ask.
    fn supports_capability(&self, capability: &str) -> bool;
}

/// What has happened so far in dispatching a call.
#[derive(Debug)]
pub enum DispatchInput {
    /// Nothing yet: `call` is to be dispatched.
    Start { call: ToolCall },
    /// The consent engine has given its verdict on the call.
    ConsentChecked {
        call: ToolCall,
        started: std::time::Instant,
        verdict: Result<bool, ConsentError>,
    },
    /// The executor was done before the deadline.
    Completed {
        call: ToolCall,
        started: std::time::Instant,
        outcome: Result<ToolResponse, CybulousError>,
    },
    /// The deadline passed before the executor was done.
    TimedOut { call: ToolCall },
}

/// What a [`DispatchInput`] holds.
pub enum DispatchInputView {
    Start { call: ToolCallView },
    ConsentChecked {
        call: ToolCallView,
        started: std::time::Instant,
        verdict: Result<bool, ConsentErrorView>,
    },
    Completed {
        call: ToolCallView,
        started: std::time::Instant,
        outcome: Result<ToolResponseView, CybulousErrorView>,
    },
    TimedOut { call: ToolCallView },
}

impl View for DispatchInput {
    type V = DispatchInputView;

    open spec fn view(&self) -> DispatchInputView {
        match self {
            DispatchInput::Start { call } => DispatchInputView::Start { call: call@ },
            DispatchInput::ConsentChecked {
                call,
                started,
                verdict,
            } => DispatchInputView::ConsentChecked {
                call: call@,
                started: *started,
                verdict: verdict_view(*verdict),
            },
            DispatchInput::Completed { call, started, outcome } => DispatchInputView::Completed {
                call: call@,
                started: *started,
                outcome: outcome_view(*outcome),
            },
            DispatchInput::TimedOut { call } => DispatchInputView::TimedOut { call: call@ },
        }
    }
}

/// What to do next in dispatching a call.
#[derive(Debug)]
pub enum DispatchStep<'a, E> {
    /// Ask the consent engine whether the user of `call` has consented, on
    /// the proof that the call presents ([`ToolCall::consent_question`]).
    VerifyConsent { call: ToolCall, started: std::time::Instant },
    /// Run `executor` on `call`, and stop waiting for it when the deadline of
    /// the call has passed.
    Invoke { call: ToolCall, started: std::time::Instant, executor: &'a E },
    /// The dispatch has ended.
    Done(Result<ToolResponse, CybulousError>),
}

/// What a [`DispatchStep`] holds.
pub enum DispatchStepView<E> {
    VerifyConsent { call: ToolCallView, started: std::time::Instant },
    Invoke { call: ToolCallView, started: std::time::Instant, executor: E },
    Done(Result<ToolResponseView, CybulousErrorView>),
}

impl<'a, E> View for DispatchStep<'a, E> {
    type V = DispatchStepView<E>;

    open spec fn view(&self) -> DispatchStepView<E> {
        match self {
            DispatchStep::VerifyConsent { call, started } => DispatchStepView::VerifyConsent {
                call: call@,
                started: *started,
            },
            DispatchStep::Invoke { call, started, executor } => DispatchStepView::Invoke {
                call: call@,
                started: *started,
                executor: **executor,
            },
            DispatchStep::Done(outcome) => DispatchStepView::Done(outcome_view(*outcome)),
        }
    }
}

/// The orchestrator: a registry of executors behind a consent engine.
pub struct Orchestrator<E: ToolExecutor> {
    executors: Registry<E>,
    consent_engine: ConsentEngine,
    max_concurrent: usize,
}

impl<E: ToolExecutor> Orchestrator<E> {
    /// The registered tools: every registered name, with its executor.
    pub closed spec fn tools(&self) -> Map<Seq<char>, E> {
        self.executors@
    }

    /// The consent engine the orchestrator was made with.
    pub closed spec fn engine(&self) -> ConsentEngine {
        self.consent_engine
    }

    /// The number of concurrent dispatches the orchestrator was made for.
    pub closed spec fn capacity(&self) -> usize {
        self.max_concurrent
    }

    /// Makes an orchestrator without tools. `max_concurrent` is the number of
    /// concurrent dispatches it is meant for; the orchestrator records the
    /// number and does not enforce it.
    pub fn new(consent_engine: ConsentEngine, max_concurrent: usize) -> (orchestrator: Self)
        ensures
            orchestrator.tools() == Map::<Seq<char>, E>::empty(),
            orchestrator.engine() == consent_engine,
            orchestrator.capacity() == max_concurrent,
    {
        Orchestrator { executors: Registry::new(), consent_engine, max_concurrent }
    }

    /// The consent engine the orchestrator was made with.
    pub fn consent_engine(&self) -> (engine: &ConsentEngine)
        ensures
            *engine == self.engine(),
    {
        &self.consent_engine
    }

    /// The number of concurrent dispatches the orchestrator was made for.
    pub fn max_concurrent(&self) -> (capacity: usize)
        ensures
            capacity == self.capacity(),
    {
        self.max_concurrent
    }

    /// Registers `executor` under `name`. An executor registered under that
    /// name before is replaced; `replaced` says whether there was one.
    pub fn register_as(&mut self, name: String, executor: E) -> (replaced: bool)
        ensures
            final(self).tools() == old(self).tools().insert(name@, executor),
            final(self).engine() == old(self).engine(),
            final(self).capacity() == old(self).capacity(),
            replaced == old(self).tools().contains_key(name@),
    {
        self.executors.insert(name, executor)
    }

    /// Registers `executor` under the name it declares. An executor
    /// registered under that name before is replaced, which is no error:
    /// registering always succeeds.
    ///
    /// The name is asked of the executor once. The key of the registration is
    /// the name the executor gave: one of the names that [`ToolExecutor::name`]
    /// can return for this executor.
    pub fn register_executor(&mut self, executor: E) -> (outcome: Result<(), CybulousError>)
        ensures
            outcome is Ok,
            exists|declared: &str|
                #[trigger] call_ensures(E::name, (&executor,), declared) && final(self).tools()
                    == old(self).tools().insert(declared@, executor),
            final(self).engine() == old(self).engine(),
            final(self).capacity() == old(self).capacity(),
    {
        let declared = executor.name();
        let name = declared.to_owned();
        assert(call_ensures(E::name, (&executor,), declared));
        self.register_as(name, executor);
        assert(self.tools() == old(self).tools().insert(declared@, executor));
        Ok(())
    }

    /// Whether a tool is registered under `name`.
    pub fn is_registered(&self, name: &str) -> (registered: bool)
        ensures
            registered == self.tools().contains_key(name@),
    {
        self.executors.contains(name)
    }

    /// The names of the registered tools, each once.
    pub fn list_tools(&self) -> (names: Vec<String>)
        ensures
            forall|name: Seq<char>|
                self.tools().contains_key(name) <==> exists|i: int|
                    0 <= i < names.len() && #[trigger] names[i]@ == name,
            forall|i: int, j: int| 0 <= i < j < names.len() ==> names[i]@ != names[j]@,
    {
        self.executors.names()
    }

    /// The transition function of a dispatch.
    ///
    /// The dispatch begins by reading the stopwatch (`reading`) and asking
    /// for the consent verdict. A verdict other than `true` ends it with a
    /// denial, before any executor is looked up. With leave given, a call to
    /// a tool that is not registered ends it with an orchestration failure,
    /// and a call to a registered tool asks for the executor to be run. What
    /// the executor did, or that the deadline passed first, ends the dispatch
    /// with the response. `elapsed_ms` is the time the stopwatch shows when a
    /// response is made.
    pub open spec fn dispatch_step(
        &self,
        input: DispatchInputView,
        reading: std::time::Instant,
        elapsed_ms: u64,
    ) -> DispatchStepView<E> {
        match input {
            DispatchInputView::Start { call } => DispatchStepView::VerifyConsent {
                call,
                started: reading,
            },
            DispatchInputView::ConsentChecked { call, started, verdict } => match consent_gate(
                verdict,
            ) {
                Err(refusal) => DispatchStepView::Done(
                    Ok(denied(call, refusal.message(), elapsed_ms)),
                ),
                Ok(()) => if self.tools().contains_key(call.tool_name) {
                    DispatchStepView::Invoke {
                        call,
                        started,
                        executor: self.tools()[call.tool_name],
                    }
                } else {
                    DispatchStepView::Done(
                        Err(
                            CybulousErrorView::OrchestrationFailed(
                                "Unknown tool: "@ + call.tool_name,
                            ),
                        ),
                    )
                },
            },
            DispatchInputView::Completed { call, started, outcome } => match outcome {
                Ok(answer) => DispatchStepView::Done(Ok(completed(call, answer, elapsed_ms))),
                Err(error) => DispatchStepView::Done(
                    Ok(failed(call, error.message(), elapsed_ms)),
                ),
            },
            DispatchInputView::TimedOut { call } => DispatchStepView::Done(Ok(timed_out(call))),
        }
    }

    /// Passes the verdict of the consent engine through the consent gate.
    pub fn verify_consent(verdict: Result<bool, ConsentError>) -> (leave: Result<
        (),
        CybulousError,
    >)
        ensures
            outcome_unit_view(leave) == consent_gate(verdict_view(verdict)),
    {
        match verdict {
            Ok(true) => Ok(()),
            Ok(false) => Err(
                CybulousError::ConsentError(String::from_str("Consent verification failed")),
            ),
            Err(error) => {
                let mut detail = String::from_str("Consent check error: ");
                detail.append(error.message().as_str());
                Err(CybulousError::ConsentError(detail))
            },
        }
    }

    /// The step after the verdict of the consent engine.
    fn after_consent(
        &self,
        call: ToolCall,
        started: std::time::Instant,
        verdict: Result<bool, ConsentError>,
        elapsed_ms: u64,
    ) -> (step: DispatchStep<'_, E>)
        ensures
            forall|reading: std::time::Instant|
                step@ == #[trigger] self.dispatch_step(
                    DispatchInputView::ConsentChecked {
                        call: call@,
                        started,
                        verdict: verdict_view(verdict),
                    },
                    reading,
                    elapsed_ms,
                ),
    {
        match Self::verify_consent(verdict) {
            Err(refusal) => DispatchStep::Done(
                Ok(
                    ToolResponse {
                        call_id: call.id,
                        status: ExecutionStatus::ConsentDenied,
                        result: None,
                        error: Some(refusal.message()),
                        duration_ms: elapsed_ms,
                    },
                ),
            ),
            Ok(()) => match self.executors.get(call.tool_name.as_str()) {
                Some(executor) => DispatchStep::Invoke { call, started, executor },
                None => {
                    let mut detail = String::from_str("Unknown tool: ");
                    detail.append(call.tool_name.as_str());
                    DispatchStep::Done(Err(CybulousError::OrchestrationFailed(detail)))
                },
            },
        }
    }

    /// The response to `call` whose executor answered with `answer`,
    /// `elapsed_ms` after the dispatch began.
    pub fn settle(call: &ToolCall, answer: ToolResponse, elapsed_ms: u64) -> (response:
        ToolResponse)
        ensures
            response@ == completed(call@, answer@, elapsed_ms),
    {
        match answer.result {
            Some(result) => ToolResponse {
                call_id: call.id,
                status: ExecutionStatus::Success,
                result: Some(result),
                error: None,
                duration_ms: elapsed_ms,
            },
            None => {
                let reason = match answer.error {
                    Some(reason) => reason,
                    None => String::from_str("Executor returned no result"),
                };
                ToolResponse {
                    call_id: call.id,
                    status: ExecutionStatus::Failed,
                    result: None,
                    error: Some(reason),
                    duration_ms: elapsed_ms,
                }
            },
        }
    }

    /// The step after the executor was done.
    fn after_execution(
        &self,
        call: ToolCall,
        started: std::time::Instant,
        outcome: Result<ToolResponse, CybulousError>,
        elapsed_ms: u64,
    ) -> (step: DispatchStep<'_, E>)
        ensures
            forall|reading: std::time::Instant|
                step@ == #[trigger] self.dispatch_step(
                    DispatchInputView::Completed {
                        call: call@,
                        started,
                        outcome: outcome_view(outcome),
                    },
                    reading,
                    elapsed_ms,
                ),
    {
        match outcome {
            Ok(answer) => DispatchStep::Done(Ok(Self::settle(&call, answer, elapsed_ms))),
            Err(error) => DispatchStep::Done(
                Ok(
                    ToolResponse {
                        call_id: call.id,
                        status: ExecutionStatus::Failed,
                        result: None,
                        error: Some(error.message()),
                        duration_ms: elapsed_ms,
                    },
                ),
            ),
        }
    }

    /// The step after the deadline passed.
    fn after_deadline(&self, call: ToolCall) -> (step: DispatchStep<'_, E>)
        ensures
            forall|reading: std::time::Instant, elapsed_ms: u64|
                step@ == #[trigger] self.dispatch_step(
                    DispatchInputView::TimedOut { call: call@ },
                    reading,
                    elapsed_ms,
                ),
    {
        DispatchStep::Done(
            Ok(
                ToolResponse {
                    call_id: call.id,
                    status: ExecutionStatus::Timeout,
                    result: None,
                    error: Some(String::from_str("Execution timeout")),
                    duration_ms: call.timeout_ms,
                },
            ),
        )
    }

    /// Takes one step of a dispatch, with the stopwatch readings given by
    /// the caller.
    pub fn advance_dispatch(
        &self,
        input: DispatchInput,
        reading: std::time::Instant,
        elapsed_ms: u64,
    ) -> (step: DispatchStep<'_, E>)
        ensures
            step@ == self.dispatch_step(input@, reading, elapsed_ms),
    {
        match input {
            DispatchInput::Start { call } => DispatchStep::VerifyConsent { call, started: reading },
            DispatchInput::ConsentChecked { call, started, verdict } => self.after_consent(
                call,
                started,
                verdict,
                elapsed_ms,
            ),
            DispatchInput::Completed { call, started, outcome } => self.after_execution(
                call,
                started,
                outcome,
                elapsed_ms,
            ),
            DispatchInput::TimedOut { call } => self.after_deadline(call),
        }
    }

    /// Takes one step of a dispatch.
    ///
    /// The step is the one [`Self::dispatch_step`] gives for the reading of
    /// the stopwatch taken when the dispatch begins, and for the time the
    /// stopwatch shows when a response is made.
    pub fn execute_tool(&self, input: DispatchInput) -> (step: DispatchStep<'_, E>)
        ensures
            exists|reading: std::time::Instant, elapsed_ms: u64|
                step@ == #[trigger] self.dispatch_step(input@, reading, elapsed_ms),
    {
        match input {
            DispatchInput::Start { call } => {
                let reading = std::time::Instant::now();
                let step = DispatchStep::VerifyConsent { call, started: reading };
                assert(step@ == self.dispatch_step(input@, reading, 0));
                step
            },
            DispatchInput::ConsentChecked { call, started, verdict } => {
                let elapsed_ms = elapsed_millis(&started);
                let step = self.after_consent(call, started, verdict, elapsed_ms);
                assert(step@ == self.dispatch_step(input@, started, elapsed_ms));
                step
            },
            DispatchInput::Completed { call, started, outcome } => {
                let elapsed_ms = elapsed_millis(&started);
                let step = self.after_execution(call, started, outcome, elapsed_ms);
                assert(step@ == self.dispatch_step(input@, started, elapsed_ms));
                step
            },
            DispatchInput::TimedOut { call } => {
                let ghost reading: std::time::Instant = arbitrary();
                let step = self.after_deadline(call);
                assert(step@ == self.dispatch_step(input@, reading, 0));
                step
            },
        }
    }
}

/// Leave to go on, or the refusal.
pub open spec fn outcome_unit_view(leave: Result<(), CybulousError>) -> Result<
    (),
    CybulousErrorView,
> {
    match leave {
        Ok(()) => Ok(()),
        Err(error) => Err(error@),
    }
}

impl DispatchInputView {
    /// How far the dispatch has come with this input.
    pub open spec fn stage(self) -> nat {
        match self {
            DispatchInputView::Start { .. } => 0,
            DispatchInputView::ConsentChecked { .. } => 1,
            DispatchInputView::Completed { .. } => 2,
            DispatchInputView::TimedOut { .. } => 2,
        }
    }
}

impl<E> DispatchStepView<E> {
    /// The stage of the input that answers this step; past every input where
    /// the dispatch has ended.
    pub open spec fn stage(self) -> nat {
        match self {
            DispatchStepView::VerifyConsent { .. } => 1,
            DispatchStepView::Invoke { .. } => 2,
            DispatchStepView::Done(_) => 3,
        }
    }
}

/// Every step of a dispatch leads on: the step asks for an answer of a later
/// stage than the input it was taken on, or ends the dispatch. A dispatch is
/// over after three steps at most.
pub proof fn law_dispatch_leads_on<E: ToolExecutor>(
    orchestrator: Orchestrator<E>,
    input: DispatchInputView,
    reading: std::time::Instant,
    elapsed_ms: u64,
)
    ensures
        input.stage() < orchestrator.dispatch_step(input, reading, elapsed_ms).stage() <= 3,
{
}

/// Of two executors registered under one name only the second is kept, as
/// if the first had never been registered; every other name keeps its
/// executor.
pub proof fn law_last_registration_wins<E>(
    tools: Map<Seq<char>, E>,
    name: Seq<char>,
    first: E,
    second: E,
)
    ensures
        tools.insert(name, first).insert(name, second) == tools.insert(name, second),
        tools.insert(name, first).insert(name, second)[name] == second,
        tools.insert(name, first).insert(name, second).dom() == tools.dom().insert(name),
        forall|other: Seq<char>|
            other != name && tools.contains_key(other) ==> #[trigger] tools.insert(
                name,
                first,
            ).insert(name, second)[other] == tools[other],
{
    assert(tools.insert(name, first).insert(name, second) =~= tools.insert(name, second));
    assert(tools.insert(name, first).insert(name, second).dom() =~= tools.dom().insert(name));
}

/// A call without leave of the consent gate is denied: whatever the verdict
/// other than `true`, and whether or not the tool is registered, the dispatch
/// ends with a response of status `ConsentDenied` that carries no result,
/// names the call, and reports the time that had passed. No executor is
/// asked to run.
pub proof fn law_denied_call_invokes_nothing<E: ToolExecutor>(
    orchestrator: Orchestrator<E>,
    call: ToolCallView,
    started: std::time::Instant,
    verdict: Result<bool, ConsentErrorView>,
    reading: std::time::Instant,
    elapsed_ms: u64,
)
    requires
        verdict != Ok::<bool, ConsentErrorView>(true),
    ensures
        orchestrator.dispatch_step(
            DispatchInputView::ConsentChecked { call, started, verdict },
            reading,
            elapsed_ms,
        ) matches DispatchStepView::Done(Ok(response)) && ({
            &&& response.status == ExecutionStatus::ConsentDenied
            &&& response.result is None
            &&& response.error is Some
            &&& response.call_id == call.id
            &&& response.duration_ms == elapsed_ms
            &&& response.well_formed()
        }),
{
}

/// An executor is asked to run only on the verdict `true`, only for the call
/// the verdict was given on, and it is the executor registered under the
/// name of the tool that the call names.
pub proof fn law_invocation_needs_consent<E: ToolExecutor>(
    orchestrator: Orchestrator<E>,
    input: DispatchInputView,
    reading: std::time::Instant,
    elapsed_ms: u64,
)
    requires
        orchestrator.dispatch_step(input, reading, elapsed_ms) is Invoke,
    ensures
        input matches DispatchInputView::ConsentChecked { call, started, verdict } && ({
            &&& verdict == Ok::<bool, ConsentErrorView>(true)
            &&& orchestrator.tools().contains_key(call.tool_name)
            &&& orchestrator.dispatch_step(input, reading, elapsed_ms) == (
            DispatchStepView::Invoke {
                call,
                started,
                executor: orchestrator.tools()[call.tool_name],
            })
        }),
{
}

/// With leave given, a call to a tool that is not registered ends the
/// dispatch with an orchestration failure that names the tool, and not with
/// a response.
pub proof fn law_unknown_tool_is_an_error<E: ToolExecutor>(
    orchestrator: Orchestrator<E>,
    call: ToolCallView,
    started: std::time::Instant,
    reading: std::time::Instant,
    elapsed_ms: u64,
)
    requires
        !orchestrator.tools().contains_key(call.tool_name),
    ensures
        orchestrator.dispatch_step(
            DispatchInputView::ConsentChecked { call, started, verdict: Ok(true) },
            reading,
            elapsed_ms,
        ) == DispatchStepView::<E>::Done(
            Err(CybulousErrorView::OrchestrationFailed("Unknown tool: "@ + call.tool_name)),
        ),
{
}

/// A deadline that passes first ends the dispatch with a response of status
/// `Timeout` that carries no result and reports the deadline as its
/// duration, whatever time has really passed.
pub proof fn law_timeout_reports_the_deadline<E: ToolExecutor>(
    orchestrator: Orchestrator<E>,
    call: ToolCallView,
    reading: std::time::Instant,
    elapsed_ms: u64,
)
    ensures
        orchestrator.dispatch_step(DispatchInputView::TimedOut { call }, reading, elapsed_ms)
            matches DispatchStepView::Done(Ok(response)) && ({
            &&& response.status == ExecutionStatus::Timeout
            &&& response.result is None
            &&& response.error == Some("Execution timeout"@)
            &&& response.call_id == call.id
            &&& response.duration_ms == call.timeout_ms
            &&& response.well_formed()
        }),
{
}

/// An executor that fails before the deadline ends the dispatch with a
/// response, not with an error: its status is `Failed`, it carries the
/// message of the failure and no result, and it reports the time that had
/// passed.
pub proof fn law_executor_failure_is_a_response<E: ToolExecutor>(
    orchestrator: Orchestrator<E>,
    call: ToolCallView,
    started: std::time::Instant,
    error: CybulousErrorView,
    reading: std::time::Instant,
    elapsed_ms: u64,
)
    ensures
        orchestrator.dispatch_step(
            DispatchInputView::Completed { call, started, outcome: Err(error) },
            reading,
            elapsed_ms,
        ) matches DispatchStepView::Done(Ok(response)) && ({
            &&& response.status == ExecutionStatus::Failed
            &&& response.result is None
            &&& response.error == Some(error.message())
            &&& response.call_id == call.id
            &&& response.duration_ms == elapsed_ms
            &&& response.well_formed()
        }),
{
}

/// An executor that answers with a result before the deadline ends the
/// dispatch with a success of the call: the status is `Success`, the result
/// is the one of the answer, there is no error, the call named is the call
/// dispatched, and the duration is the time that had passed. What else the
/// answer says of itself does not count.
pub proof fn law_executor_answer_is_a_success<E: ToolExecutor>(
    orchestrator: Orchestrator<E>,
    call: ToolCallView,
    started: std::time::Instant,
    answer: ToolResponseView,
    reading: std::time::Instant,
    elapsed_ms: u64,
)
    requires
        answer.result is Some,
    ensures
        orchestrator.dispatch_step(
            DispatchInputView::Completed { call, started, outcome: Ok(answer) },
            reading,
            elapsed_ms,
        ) == DispatchStepView::<E>::Done(
            Ok(
                ToolResponseView {
                    call_id: call.id,
                    status: ExecutionStatus::Success,
                    result: answer.result,
                    error: None,
                    duration_ms: elapsed_ms,
                },
            ),
        ),
{
}

/// An executor that answers without a result before the deadline ends the
/// dispatch with a failure of the call, which carries the error of the
/// answer or, where the answer has none, says that no result was returned.
pub proof fn law_answer_without_result_is_a_failure<E: ToolExecutor>(
    orchestrator: Orchestrator<E>,
    call: ToolCallView,
    started: std::time::Instant,
    answer: ToolResponseView,
    reading: std::time::Instant,
    elapsed_ms: u64,
)
    requires
        answer.result is None,
    ensures
        orchestrator.dispatch_step(
            DispatchInputView::Completed { call, started, outcome: Ok(answer) },
            reading,
            elapsed_ms,
        ) == DispatchStepView::<E>::Done(
            Ok(
                ToolResponseView {
                    call_id: call.id,
                    status: ExecutionStatus::Failed,
                    result: None,
                    error: Some(missing_result_reason(answer)),
                    duration_ms: elapsed_ms,
                },
            ),
        ),
{
}

impl DispatchInputView {
    /// The call that is being dispatched.
    pub open spec fn call(self) -> ToolCallView {
        match self {
            DispatchInputView::Start { call } => call,
            DispatchInputView::ConsentChecked { call, .. } => call,
            DispatchInputView::Completed { call, .. } => call,
            DispatchInputView::TimedOut { call } => call,
        }
    }
}

/// Every response of a dispatch is well-formed and answers the call that was
/// dispatched: it names that call, it carries a result exactly if its status
/// is `Success`, and an error exactly if it is not. Every request of a
/// dispatch is about the call that was dispatched, and the consent engine is
/// asked on the user and the consent proof of that call.
pub proof fn law_every_response_answers_the_call<E: ToolExecutor>(
    orchestrator: Orchestrator<E>,
    input: DispatchInputView,
    reading: std::time::Instant,
    elapsed_ms: u64,
)
    ensures
        orchestrator.dispatch_step(input, reading, elapsed_ms) matches DispatchStepView::Done(
            Ok(response),
        ) ==> {
            &&& response.call_id == input.call().id
            &&& response.well_formed()
            &&& response.result is Some <==> response.status == ExecutionStatus::Success
            &&& response.error is None <==> response.status == ExecutionStatus::Success
        },
        orchestrator.dispatch_step(input, reading, elapsed_ms) matches DispatchStepView::VerifyConsent {
            call,
            ..
        } ==> call == input.call() && consent_question(call) == (
            input.call().user_id,
            input.call().context.consent_proof,
        ),
        orchestrator.dispatch_step(input, reading, elapsed_ms) matches DispatchStepView::Invoke {
            call,
            ..
        } ==> call == input.call(),
{
}

/// A dispatch ends with an error, and not with a response, exactly where
/// leave has been given at the consent gate and no tool is registered under
/// the name that the call names.
pub proof fn law_only_an_unknown_tool_is_an_error<E: ToolExecutor>(
    orchestrator: Orchestrator<E>,
    input: DispatchInputView,
    reading: std::time::Instant,
    elapsed_ms: u64,
)
    ensures
        orchestrator.dispatch_step(input, reading, elapsed_ms) matches DispatchStepView::Done(
            Err(_),
        ) <==> (input matches DispatchInputView::ConsentChecked { call, verdict, .. } && verdict
            == Ok::<bool, ConsentErrorView>(true) && !orchestrator.tools().contains_key(
            call.tool_name,
        )),
{
}

} // verus!
