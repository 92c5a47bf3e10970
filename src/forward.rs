use vstd::prelude::*;
use vstd::string::StringExecFns;
use crate::record::{EventModel, NormalizedEvent, ParseError};

verus! {

/// Where events go: the collector's URL, or none to run observe-only.
#[derive(Clone, Debug, PartialEq, Eq)]
pub struct ForwarderConfig {
    pub endpoint: Option<String>,
}

/// What came back from one POST to the collector.
#[derive(Clone, Copy, Debug, PartialEq, Eq, Structural)]
pub enum HttpOutcome {
    /// The collector answered with this status code.
    Status(u16),
    /// No answer: the connection or the transfer failed.
    Transport,
}

/// Why one event did not reach the collector.
#[derive(Clone, Copy, Debug, PartialEq, Eq, Structural)]
pub enum ForwardError {
    Network,
    Rejected(u16),
}

/// A status code of the success class.
pub open spec fn is_success(code: u16) -> bool {
    200 <= code && code <= 299
}

pub open spec fn forward_result_spec(outcome: HttpOutcome) -> Result<(), ForwardError> {
    match outcome {
        HttpOutcome::Status(c) => if is_success(c) {
            Ok(())
        } else {
            Err(ForwardError::Rejected(c))
        },
        HttpOutcome::Transport => Err(ForwardError::Network),
    }
}

/// Judges one delivery: a success status is delivered, any other status is a
/// rejection, and no answer is a network failure.
pub fn forward_result(outcome: HttpOutcome) -> (r: Result<(), ForwardError>)
    ensures
        r == forward_result_spec(outcome),
{
    match outcome {
        HttpOutcome::Status(c) => if 200 <= c && c <= 299 {
            Ok(())
        } else {
            Err(ForwardError::Rejected(c))
        },
        HttpOutcome::Transport => Err(ForwardError::Network),
    }
}

/// What to do with the outcome of one line.
#[derive(Debug, PartialEq, Eq)]
pub enum Action {
    /// The line gave no event: note why and go on with the next line.
    Skip(ParseError),
    /// No collector is configured: note the event and send nothing.
    Observe(NormalizedEvent),
    /// POST the event to the collector at `url`.
    Deliver { url: String, event: NormalizedEvent },
}

pub enum ActionModel {
    Skip(ParseError),
    Observe(EventModel),
    Deliver { url: Seq<char>, event: EventModel },
}

impl View for Action {
    type V = ActionModel;

    open spec fn view(&self) -> ActionModel {
        match self {
            Action::Skip(e) => ActionModel::Skip(*e),
            Action::Observe(ev) => ActionModel::Observe(ev@),
            Action::Deliver { url, event } => ActionModel::Deliver { url: url@, event: event@ },
        }
    }
}

pub open spec fn endpoint_of(c: ForwarderConfig) -> Option<Seq<char>> {
    match c.endpoint {
        Some(u) => Some(u@),
        None => None,
    }
}

/// The action for a line's outcome under a configured endpoint, or none.
pub open spec fn action_spec(
    endpoint: Option<Seq<char>>,
    outcome: Result<EventModel, ParseError>,
) -> ActionModel {
    match outcome {
        Err(e) => ActionModel::Skip(e),
        Ok(ev) => match endpoint {
            None => ActionModel::Observe(ev),
            Some(u) => ActionModel::Deliver { url: u, event: ev },
        },
    }
}

/// Decides what happens to the outcome of one line: failures are skipped, events
/// are delivered where a collector is configured and only observed otherwise.
pub fn next_action(config: &ForwarderConfig, outcome: Result<NormalizedEvent, ParseError>) -> (r:
    Action)
    ensures
        r@ == action_spec(
            endpoint_of(*config),
            match outcome {
                Ok(e) => Ok(e@),
                Err(x) => Err(x),
            },
        ),
{
    match outcome {
        Err(e) => Action::Skip(e),
        Ok(event) => match &config.endpoint {
            None => Action::Observe(event),
            Some(u) => Action::Deliver { url: String::from_str(u.as_str()), event },
        },
    }
}

/// With no collector configured no action ever sends anything, so forwarding can
/// neither issue a network call nor fail.
pub proof fn lemma_no_endpoint_no_delivery(outcome: Result<EventModel, ParseError>)
    ensures
        !(action_spec(None, outcome) is Deliver),
        outcome is Ok ==> action_spec(None, outcome) == ActionModel::Observe(outcome->Ok_0),
{
}

} // verus!
