//! The course of one invocation.
//!
//! Answering a request takes two pieces of outside work, resolving the
//! input and running the engine, and a decision before, between and after
//! them. The decisions are [`Handler::step`]: it is told what happened and
//! says what to do next. Whoever drives the handler does what it says and
//! reports back, until it is told to respond.
//!
//! ```text
//! AwaitingRequest --request, text body--> ResolvingInput --resolved--> Calculating
//!        |                                      |                          |
//!        | other body                           | failed                   | engine returned
//!        v                                      v                          v
//!                                          Responded
//! ```

use crate::correlation::{clone_optional, correlation_of, resolve_correlation_id, InvocationContext};
use crate::outcome::{
    is_loggable, optional_text, outcome_of_error, outcome_of_resolution_failure, status_of,
    DomainErrorKind, Outcome, OutcomeModel, ResolutionFailure,
};
use vstd::prelude::*;
use vstd::string::*;
use vstd::utf8::*;

verus! {

/// The body of a request, by shape.
#[derive(Debug)]
pub enum RequestBody {
    Empty,
    Text(String),
    Binary(Vec<u8>),
}

/// How far an invocation has come.
#[derive(Clone, Copy, Debug, PartialEq, Eq, Structural)]
pub enum Phase {
    AwaitingRequest,
    ResolvingInput,
    Calculating,
    Responded,
}

/// Something that happened and that the handler has to be told.
#[derive(Debug)]
pub enum Event {
    /// The request arrived.
    RequestReceived { context: InvocationContext, body: RequestBody },
    /// Input resolution ended, with the adjusted input or a failure.
    InputResolved(Result<Vec<u8>, ResolutionFailure>),
    /// The engine returned: a result as JSON text, no result, or an error.
    EngineReturned(Result<Option<String>, DomainErrorKind>),
}

/// What the handler wants done next.
#[derive(Debug)]
pub enum Action {
    /// Resolve these request bytes, then report `InputResolved`.
    ResolveInput(Vec<u8>),
    /// Run the engine on this input, then report `EngineReturned`.
    RunEngine(Vec<u8>),
    /// Answer the request with the response to `outcome`, after writing the
    /// outcome to the error log if `log` is set.
    Respond { outcome: Outcome, correlation_id: Option<String>, log: bool },
    /// The event does not belong to the handler's phase; nothing changed.
    Refuse,
}

/// The mathematical value of an [`Action`].
pub enum ActionModel {
    ResolveInput(Seq<u8>),
    RunEngine(Seq<u8>),
    Respond { outcome: OutcomeModel, correlation_id: Option<Seq<char>>, log: bool },
    Refuse,
}

impl View for Action {
    type V = ActionModel;

    open spec fn view(&self) -> ActionModel {
        match *self {
            Action::ResolveInput(bytes) => ActionModel::ResolveInput(bytes@),
            Action::RunEngine(bytes) => ActionModel::RunEngine(bytes@),
            Action::Respond { outcome, correlation_id, log } => ActionModel::Respond {
                outcome: outcome@,
                correlation_id: optional_text(correlation_id),
                log,
            },
            Action::Refuse => ActionModel::Refuse,
        }
    }
}

/// The mathematical value of a [`Handler`].
pub struct HandlerModel {
    pub phase: Phase,
    pub correlation_id: Option<Seq<char>>,
}

/// The message for a body that is not text.
pub open spec fn non_text_detail() -> Seq<char> {
    "Non-text inputs are not accepted"@
}

/// The bytes that a request body hands to input resolution. An empty body
/// stands for empty text; a binary body hands over nothing.
pub open spec fn request_input(body: RequestBody) -> Option<Seq<u8>> {
    match body {
        RequestBody::Empty => Some(Seq::empty()),
        RequestBody::Text(text) => Some(encode_utf8(text@)),
        RequestBody::Binary(_) => None,
    }
}

/// The outcome that the engine's return value stands for.
pub open spec fn outcome_of_engine_result(
    result: Result<Option<String>, DomainErrorKind>,
) -> OutcomeModel {
    match result {
        Ok(Some(data)) => OutcomeModel::Success(data@),
        Ok(None) => OutcomeModel::NoResultAvailable,
        Err(error) => outcome_of_error(error@),
    }
}

/// The action that answers the request with `outcome`.
pub open spec fn respond_with(outcome: OutcomeModel, correlation_id: Option<Seq<char>>) -> ActionModel {
    ActionModel::Respond { outcome, correlation_id, log: is_loggable(outcome) }
}

/// The handler after `event`, and the action it asks for.
pub open spec fn step_result(handler: HandlerModel, event: Event) -> (HandlerModel, ActionModel) {
    match (handler.phase, event) {
        (Phase::AwaitingRequest, Event::RequestReceived { context, body }) => {
            let id = correlation_of(context);
            match request_input(body) {
                Some(bytes) => (
                    HandlerModel { phase: Phase::ResolvingInput, correlation_id: id },
                    ActionModel::ResolveInput(bytes),
                ),
                None => (
                    HandlerModel { phase: Phase::Responded, correlation_id: id },
                    respond_with(OutcomeModel::UnsupportedBodyShape(non_text_detail()), id),
                ),
            }
        },
        (Phase::ResolvingInput, Event::InputResolved(Ok(input))) => (
            HandlerModel { phase: Phase::Calculating, ..handler },
            ActionModel::RunEngine(input@),
        ),
        (Phase::ResolvingInput, Event::InputResolved(Err(failure))) => (
            HandlerModel { phase: Phase::Responded, ..handler },
            respond_with(outcome_of_resolution_failure(failure@), handler.correlation_id),
        ),
        (Phase::Calculating, Event::EngineReturned(result)) => (
            HandlerModel { phase: Phase::Responded, ..handler },
            respond_with(outcome_of_engine_result(result), handler.correlation_id),
        ),
        _ => (handler, ActionModel::Refuse),
    }
}

/// The state of one invocation: its phase and, once the request is in, its
/// request identifier.
#[derive(Debug)]
pub struct Handler {
    phase: Phase,
    correlation_id: Option<String>,
}

impl View for Handler {
    type V = HandlerModel;

    closed spec fn view(&self) -> HandlerModel {
        HandlerModel { phase: self.phase, correlation_id: optional_text(self.correlation_id) }
    }
}

impl Handler {
    /// A handler that awaits its request.
    pub fn new() -> (handler: Handler)
        ensures
            handler@ == (HandlerModel { phase: Phase::AwaitingRequest, correlation_id: None }),
    {
        Handler { phase: Phase::AwaitingRequest, correlation_id: None }
    }

    pub fn phase(&self) -> (phase: Phase)
        ensures
            phase == self@.phase,
    {
        self.phase
    }

    /// The action that answers the request with `outcome`.
    fn respond(&self, outcome: Outcome) -> (action: Action)
        ensures
            action@ == respond_with(outcome@, self@.correlation_id),
    {
        let log = outcome.loggable();
        Action::Respond { outcome, correlation_id: clone_optional(&self.correlation_id), log }
    }

    /// Takes note of `event` and says what to do next.
    pub fn step(&mut self, event: Event) -> (action: Action)
        ensures
            (final(self)@, action@) == step_result(old(self)@, event),
    {
        match self.phase {
            Phase::AwaitingRequest => match event {
                Event::RequestReceived { context, body } => {
                    self.correlation_id = resolve_correlation_id(context);
                    match body {
                        RequestBody::Empty => {
                            self.phase = Phase::ResolvingInput;
                            Action::ResolveInput(Vec::new())
                        },
                        RequestBody::Text(text) => {
                            self.phase = Phase::ResolvingInput;
                            Action::ResolveInput(text.as_str().as_bytes_vec())
                        },
                        RequestBody::Binary(_) => {
                            self.phase = Phase::Responded;
                            self.respond(
                                Outcome::UnsupportedBodyShape(
                                    "Non-text inputs are not accepted".to_string(),
                                ),
                            )
                        },
                    }
                },
                _ => Action::Refuse,
            },
            Phase::ResolvingInput => match event {
                Event::InputResolved(Ok(input)) => {
                    self.phase = Phase::Calculating;
                    Action::RunEngine(input)
                },
                Event::InputResolved(Err(failure)) => {
                    self.phase = Phase::Responded;
                    self.respond(Outcome::from_resolution_failure(failure))
                },
                _ => Action::Refuse,
            },
            Phase::Calculating => match event {
                Event::EngineReturned(Ok(Some(data))) => {
                    self.phase = Phase::Responded;
                    self.respond(Outcome::Success(data))
                },
                Event::EngineReturned(Ok(None)) => {
                    self.phase = Phase::Responded;
                    self.respond(Outcome::NoResultAvailable)
                },
                Event::EngineReturned(Err(error)) => {
                    self.phase = Phase::Responded;
                    self.respond(Outcome::from_error(error))
                },
                _ => Action::Refuse,
            },
            Phase::Responded => Action::Refuse,
        }
    }
}

/// The engine is run only on input that was resolved: the one step that
/// asks for it is a successful resolution reported while input is being
/// resolved, and it passes that input on unchanged.
pub proof fn lemma_engine_runs_only_on_resolved_input(handler: HandlerModel, event: Event)
    requires
        step_result(handler, event).1 is RunEngine,
    ensures
        handler.phase == Phase::ResolvingInput,
        event matches Event::InputResolved(Ok(input)) && step_result(handler, event).1
            == ActionModel::RunEngine(input@),
        step_result(handler, event).0.phase == Phase::Calculating,
{
}

/// A request whose body is not text is answered at once as an unsupported
/// body, which is status 415, and the invocation is over: no later event
/// makes the handler ask for anything, so the engine is never run.
pub proof fn lemma_binary_body_never_reaches_engine(
    context: InvocationContext,
    bytes: Vec<u8>,
    later: Event,
)
    ensures
        ({
            let start = HandlerModel { phase: Phase::AwaitingRequest, correlation_id: None };
            let request = Event::RequestReceived { context, body: RequestBody::Binary(bytes) };
            let (after, action) = step_result(start, request);
            &&& action == respond_with(
                OutcomeModel::UnsupportedBodyShape(non_text_detail()),
                correlation_of(context),
            )
            &&& status_of(action->outcome) == 415
            &&& action->log == false
            &&& after.phase == Phase::Responded
            &&& step_result(after, later) == (after, ActionModel::Refuse)
        }),
{
}

/// An event moves the handler forward by one phase or not at all, and the
/// request identifier, once taken from the request, stays.
pub proof fn lemma_phases_run_in_order(handler: HandlerModel, event: Event)
    ensures
        ({
            let (after, action) = step_result(handler, event);
            &&& action is Refuse <==> after == handler
            &&& action is ResolveInput ==> handler.phase == Phase::AwaitingRequest && after.phase
                == Phase::ResolvingInput
            &&& action is Respond <==> after.phase == Phase::Responded && handler.phase
                != Phase::Responded
            &&& handler.phase != Phase::AwaitingRequest ==> after.correlation_id
                == handler.correlation_id
            &&& action matches ActionModel::Respond { outcome, correlation_id, log }
                ==> correlation_id == after.correlation_id && log == is_loggable(outcome)
        }),
{
}

} // verus!
