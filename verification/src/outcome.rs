//! The closed set of ways an invocation can end, and what each means for
//! the response: its status code, its message, and whether it is logged.

use vstd::prelude::*;

verus! {

/// The view of an optional string.
pub open spec fn optional_text(text: Option<String>) -> Option<Seq<char>> {
    match text {
        Some(t) => Some(t@),
        None => None,
    }
}

/// An error reported by the calculation engine, with its message.
#[derive(Debug)]
pub enum DomainErrorKind {
    /// The input was invalid.
    InvalidRequest(String),
    /// The engine panicked outside the calculation proper.
    WrapperPanic(String),
    /// The calculation failed.
    CalculationFailure(String),
    /// The calculation panicked.
    CalculationPanic(String),
    /// The results could not be post-processed.
    PostprocessingFailure(String),
    /// The input asks for something that is not implemented.
    NotImplemented(String),
    /// The shape of the input is not supported.
    UnsupportedBody(String),
    /// Any other error.
    Unclassified(String),
}

/// The mathematical value of a [`DomainErrorKind`].
pub enum DomainErrorModel {
    InvalidRequest(Seq<char>),
    WrapperPanic(Seq<char>),
    CalculationFailure(Seq<char>),
    CalculationPanic(Seq<char>),
    PostprocessingFailure(Seq<char>),
    NotImplemented(Seq<char>),
    UnsupportedBody(Seq<char>),
    Unclassified(Seq<char>),
}

impl View for DomainErrorKind {
    type V = DomainErrorModel;

    open spec fn view(&self) -> DomainErrorModel {
        match *self {
            DomainErrorKind::InvalidRequest(m) => DomainErrorModel::InvalidRequest(m@),
            DomainErrorKind::WrapperPanic(m) => DomainErrorModel::WrapperPanic(m@),
            DomainErrorKind::CalculationFailure(m) => DomainErrorModel::CalculationFailure(m@),
            DomainErrorKind::CalculationPanic(m) => DomainErrorModel::CalculationPanic(m@),
            DomainErrorKind::PostprocessingFailure(m) => DomainErrorModel::PostprocessingFailure(
                m@,
            ),
            DomainErrorKind::NotImplemented(m) => DomainErrorModel::NotImplemented(m@),
            DomainErrorKind::UnsupportedBody(m) => DomainErrorModel::UnsupportedBody(m@),
            DomainErrorKind::Unclassified(m) => DomainErrorModel::Unclassified(m@),
        }
    }
}

/// Why the input could not be resolved before the engine ran.
#[derive(Debug)]
pub enum ResolutionFailure {
    /// The request itself was invalid.
    InvalidRequest(String),
    /// Resolution failed for any other reason.
    Other(String),
}

/// The mathematical value of a [`ResolutionFailure`].
pub enum ResolutionFailureModel {
    InvalidRequest(Seq<char>),
    Other(Seq<char>),
}

impl View for ResolutionFailure {
    type V = ResolutionFailureModel;

    open spec fn view(&self) -> ResolutionFailureModel {
        match *self {
            ResolutionFailure::InvalidRequest(m) => ResolutionFailureModel::InvalidRequest(m@),
            ResolutionFailure::Other(m) => ResolutionFailureModel::Other(m@),
        }
    }
}

/// How an invocation ended.
#[derive(Debug)]
pub enum Outcome {
    /// The engine produced a result; the payload is that result as JSON text.
    Success(String),
    /// The engine ran and had no result to give.
    NoResultAvailable,
    InvalidRequest(String),
    UnsupportedBodyShape(String),
    InputResolutionFailure(String),
    EngineInternalFailure(String),
    NotImplemented(String),
}

/// The mathematical value of an [`Outcome`].
pub enum OutcomeModel {
    Success(Seq<char>),
    NoResultAvailable,
    InvalidRequest(Seq<char>),
    UnsupportedBodyShape(Seq<char>),
    InputResolutionFailure(Seq<char>),
    EngineInternalFailure(Seq<char>),
    NotImplemented(Seq<char>),
}

impl View for Outcome {
    type V = OutcomeModel;

    open spec fn view(&self) -> OutcomeModel {
        match *self {
            Outcome::Success(data) => OutcomeModel::Success(data@),
            Outcome::NoResultAvailable => OutcomeModel::NoResultAvailable,
            Outcome::InvalidRequest(m) => OutcomeModel::InvalidRequest(m@),
            Outcome::UnsupportedBodyShape(m) => OutcomeModel::UnsupportedBodyShape(m@),
            Outcome::InputResolutionFailure(m) => OutcomeModel::InputResolutionFailure(m@),
            Outcome::EngineInternalFailure(m) => OutcomeModel::EngineInternalFailure(m@),
            Outcome::NotImplemented(m) => OutcomeModel::NotImplemented(m@),
        }
    }
}

/// The message of a response that has no result to give.
pub open spec fn no_result_detail() -> Seq<char> {
    "Calculation response not available"@
}

/// What goes before the cause of a failed input resolution.
pub open spec fn resolution_failure_prefix() -> Seq<char> {
    "Error resolving products from PCDB: "@
}

/// The outcome that an engine error stands for.
pub open spec fn outcome_of_error(error: DomainErrorModel) -> OutcomeModel {
    match error {
        DomainErrorModel::InvalidRequest(m) => OutcomeModel::InvalidRequest(m),
        DomainErrorModel::WrapperPanic(m) => OutcomeModel::EngineInternalFailure(m),
        DomainErrorModel::CalculationFailure(m) => OutcomeModel::EngineInternalFailure(m),
        DomainErrorModel::CalculationPanic(m) => OutcomeModel::EngineInternalFailure(m),
        DomainErrorModel::PostprocessingFailure(m) => OutcomeModel::EngineInternalFailure(m),
        DomainErrorModel::NotImplemented(m) => OutcomeModel::NotImplemented(m),
        DomainErrorModel::UnsupportedBody(m) => OutcomeModel::UnsupportedBodyShape(m),
        DomainErrorModel::Unclassified(m) => OutcomeModel::EngineInternalFailure(m),
    }
}

/// The outcome that a failed input resolution stands for: an invalid request
/// keeps its own message, any other cause is named as a resolution failure.
pub open spec fn outcome_of_resolution_failure(failure: ResolutionFailureModel) -> OutcomeModel {
    match failure {
        ResolutionFailureModel::InvalidRequest(m) => OutcomeModel::InvalidRequest(m),
        ResolutionFailureModel::Other(m) => OutcomeModel::InputResolutionFailure(
            resolution_failure_prefix() + m,
        ),
    }
}

/// The status code of the response to `outcome`.
pub open spec fn status_of(outcome: OutcomeModel) -> u16 {
    match outcome {
        OutcomeModel::Success(_) => 200,
        OutcomeModel::NoResultAvailable => 503,
        OutcomeModel::InvalidRequest(_) => 422,
        OutcomeModel::UnsupportedBodyShape(_) => 415,
        OutcomeModel::InputResolutionFailure(_) => 422,
        OutcomeModel::EngineInternalFailure(_) => 500,
        OutcomeModel::NotImplemented(_) => 501,
    }
}

/// The message of the response to `outcome`; a success has none.
pub open spec fn detail_of(outcome: OutcomeModel) -> Option<Seq<char>> {
    match outcome {
        OutcomeModel::Success(_) => None,
        OutcomeModel::NoResultAvailable => Some(no_result_detail()),
        OutcomeModel::InvalidRequest(m) => Some(m),
        OutcomeModel::UnsupportedBodyShape(m) => Some(m),
        OutcomeModel::InputResolutionFailure(m) => Some(m),
        OutcomeModel::EngineInternalFailure(m) => Some(m),
        OutcomeModel::NotImplemented(m) => Some(m),
    }
}

/// Whether `outcome` is reported to the error log as well as to the caller.
pub open spec fn is_loggable(outcome: OutcomeModel) -> bool {
    outcome is EngineInternalFailure || outcome is NotImplemented
}

/// What an outcome means for the response.
#[derive(Debug)]
pub struct Classification {
    pub status: u16,
    pub detail: Option<String>,
    pub loggable: bool,
}

impl Outcome {
    /// The outcome that the engine's error `error` stands for.
    pub fn from_error(error: DomainErrorKind) -> (outcome: Outcome)
        ensures
            outcome@ == outcome_of_error(error@),
    {
        match error {
            DomainErrorKind::InvalidRequest(m) => Outcome::InvalidRequest(m),
            DomainErrorKind::WrapperPanic(m) => Outcome::EngineInternalFailure(m),
            DomainErrorKind::CalculationFailure(m) => Outcome::EngineInternalFailure(m),
            DomainErrorKind::CalculationPanic(m) => Outcome::EngineInternalFailure(m),
            DomainErrorKind::PostprocessingFailure(m) => Outcome::EngineInternalFailure(m),
            DomainErrorKind::NotImplemented(m) => Outcome::NotImplemented(m),
            DomainErrorKind::UnsupportedBody(m) => Outcome::UnsupportedBodyShape(m),
            DomainErrorKind::Unclassified(m) => Outcome::EngineInternalFailure(m),
        }
    }

    /// The outcome that a failed input resolution stands for.
    pub fn from_resolution_failure(failure: ResolutionFailure) -> (outcome: Outcome)
        ensures
            outcome@ == outcome_of_resolution_failure(failure@),
    {
        match failure {
            ResolutionFailure::InvalidRequest(m) => Outcome::InvalidRequest(m),
            ResolutionFailure::Other(m) => {
                let mut wrapped = "Error resolving products from PCDB: ".to_string();
                wrapped.append(m.as_str());
                Outcome::InputResolutionFailure(wrapped)
            },
        }
    }

    /// The status code of the response to this outcome.
    pub fn status(&self) -> (status: u16)
        ensures
            status == status_of(self@),
    {
        match self {
            Outcome::Success(_) => 200,
            Outcome::NoResultAvailable => 503,
            Outcome::InvalidRequest(_) => 422,
            Outcome::UnsupportedBodyShape(_) => 415,
            Outcome::InputResolutionFailure(_) => 422,
            Outcome::EngineInternalFailure(_) => 500,
            Outcome::NotImplemented(_) => 501,
        }
    }

    /// Whether this outcome is also reported to the error log.
    pub fn loggable(&self) -> (loggable: bool)
        ensures
            loggable == is_loggable(self@),
    {
        match self {
            Outcome::EngineInternalFailure(_) => true,
            Outcome::NotImplemented(_) => true,
            _ => false,
        }
    }

    /// Status, message and log flag of the response to this outcome.
    pub fn classify(&self) -> (class: Classification)
        ensures
            class.status == status_of(self@),
            optional_text(class.detail) == detail_of(self@),
            class.loggable == is_loggable(self@),
    {
        let detail = match self {
            Outcome::Success(_) => None,
            Outcome::NoResultAvailable => Some("Calculation response not available".to_string()),
            Outcome::InvalidRequest(m) => Some(m.clone()),
            Outcome::UnsupportedBodyShape(m) => Some(m.clone()),
            Outcome::InputResolutionFailure(m) => Some(m.clone()),
            Outcome::EngineInternalFailure(m) => Some(m.clone()),
            Outcome::NotImplemented(m) => Some(m.clone()),
        };
        Classification { status: self.status(), detail, loggable: self.loggable() }
    }
}

/// The status code says which class of outcome it answers: 200 only a
/// success, 503 only the absence of a result, 415 only an unsupported body,
/// 501 only a missing feature, 500 only an internal failure, and 422 an
/// invalid request or a failed input resolution.
pub proof fn lemma_status_tells_class(outcome: OutcomeModel)
    ensures
        status_of(outcome) == 200 <==> outcome is Success,
        status_of(outcome) == 503 <==> outcome is NoResultAvailable,
        status_of(outcome) == 415 <==> outcome is UnsupportedBodyShape,
        status_of(outcome) == 501 <==> outcome is NotImplemented,
        status_of(outcome) == 500 <==> outcome is EngineInternalFailure,
        status_of(outcome) == 422 <==> outcome is InvalidRequest || outcome
            is InputResolutionFailure,
        is_loggable(outcome) <==> status_of(outcome) == 500 || status_of(outcome) == 501,
        detail_of(outcome) is None <==> outcome is Success,
{
}

} // verus!
