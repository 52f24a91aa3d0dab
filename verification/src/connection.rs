//! One call of the service, from the query to what it resolves to.
//!
//! A call passes through four stages. It is built once its query has become
//! the address of a request. It is in flight while that one request is out and
//! its body is gathered and read. It is decoded once the envelope of the reply
//! has arrived. It is resolved when the envelope has been classified or a
//! step before has failed. The library decides; sending and receiving are the
//! caller's, who tells the pipeline what happened and learns what to do next.

use vstd::prelude::*;
use crate::error::{DecodeError, GeocodingError, RequestError};
use crate::query::{DegeocodeQuery, GeocodeQuery, Pair};
use crate::reply::{Reply, ReplyResult};
use crate::wire::{form_encode, form_urlencoded, request_text, with_query};

verus! {

/// The address of the service, without parameters.
pub open spec fn endpoint() -> Seq<char> {
    "https://maps.google.com/maps/api/geocode/json"@
}

/// The address of the request that carries `pairs`: the endpoint with the
/// form encoding of the parameters as its query.
pub open spec fn request_for(pairs: Seq<Pair>) -> Result<Seq<char>, RequestError> {
    match form_urlencoded(pairs) {
        None => Err(RequestError::Parameters),
        Some(query) => request_text(endpoint(), query),
    }
}

/// What the caller reports to a pipeline.
#[derive(Debug, PartialEq, Eq)]
pub enum Event {
    /// The caller is ready to send.
    Start,
    /// The body arrived and was read as this envelope.
    Envelope(ReplyResult),
    /// The transport failed; the text says how.
    TransportFailed(String),
    /// The body arrived and could not be read.
    DecodeFailed(DecodeError),
    /// The caller did what the last action asked and has nothing to report.
    Continue,
}

/// What a pipeline asks of the caller.
#[derive(Debug, PartialEq, Eq)]
pub enum Action {
    /// Send one GET request to this address, gather the whole body and read
    /// it; then report the envelope or the failure.
    Fetch(String),
    /// Nothing is to be done outside; report `Continue`.
    Proceed,
    /// The call is over; take the outcome.
    Finish,
    /// The event does not belong to the stage; it was ignored.
    Ignore,
}

/// One call of the service, at one of its stages.
#[derive(Debug, PartialEq, Eq)]
pub enum Pipeline {
    /// The request is built and has not been sent.
    Built {
        /// The address of the request.
        url: String,
    },
    /// The request is out.
    InFlight,
    /// The envelope of the reply has arrived.
    Decoded {
        /// The envelope.
        envelope: ReplyResult,
    },
    /// The call is over.
    Resolved {
        /// The replies, or why there are none.
        outcome: Result<Vec<Reply>, GeocodingError>,
    },
}

/// The outcome that an envelope resolves to.
pub open spec fn resolution(envelope: ReplyResult) -> Result<Seq<Reply>, GeocodingError> {
    match envelope.outcome() {
        Ok(replies) => Ok(replies),
        Err(failure) => Err(GeocodingError::Api(failure)),
    }
}

/// Whether `outcome` is `resolved`: the same replies, or the same failure.
pub open spec fn resolves_to(
    outcome: Result<Vec<Reply>, GeocodingError>,
    resolved: Result<Seq<Reply>, GeocodingError>,
) -> bool {
    match outcome {
        Ok(replies) => resolved == Ok::<Seq<Reply>, GeocodingError>(replies@),
        Err(failure) => resolved == Err::<Seq<Reply>, GeocodingError>(failure),
    }
}

impl Pipeline {
    /// Whether a step from the stage `self` under `event` may end in the
    /// stage `next` with the request `action`.
    ///
    /// A built call starts and asks for its one request. A call in flight
    /// takes the envelope, or resolves to the failure that is reported. A
    /// decoded call resolves to what its envelope comes to. A resolved call
    /// stays as it is. Every other event leaves the stage as it is.
    pub open spec fn steps_to(self, event: Event, next: Pipeline, action: Action) -> bool {
        match (self, event) {
            (Pipeline::Built { url }, Event::Start) => {
                &&& next == Pipeline::InFlight
                &&& action == Action::Fetch(url)
            },
            (Pipeline::InFlight, Event::Envelope(envelope)) => {
                &&& next == (Pipeline::Decoded { envelope })
                &&& action == Action::Proceed
            },
            (Pipeline::InFlight, Event::TransportFailed(how)) => {
                &&& next == (Pipeline::Resolved { outcome: Err(GeocodingError::Transport(how)) })
                &&& action == Action::Finish
            },
            (Pipeline::InFlight, Event::DecodeFailed(why)) => {
                &&& next == (Pipeline::Resolved { outcome: Err(GeocodingError::Decode(why)) })
                &&& action == Action::Finish
            },
            (Pipeline::Decoded { envelope }, Event::Continue) => {
                &&& next matches Pipeline::Resolved { outcome }
                &&& resolves_to(outcome, resolution(envelope))
                &&& action == Action::Finish
            },
            (Pipeline::Resolved { outcome }, _) => {
                &&& next == self
                &&& action == Action::Finish
            },
            _ => {
                &&& next == self
                &&& action == Action::Ignore
            },
        }
    }

    /// The place of the stage among the four: 0 for built up to 3 for
    /// resolved.
    pub open spec fn rank(self) -> nat {
        match self {
            Pipeline::Built { .. } => 0,
            Pipeline::InFlight => 1,
            Pipeline::Decoded { .. } => 2,
            Pipeline::Resolved { .. } => 3,
        }
    }

    /// Whether the call is over.
    pub fn is_resolved(&self) -> (over: bool)
        ensures
            over == (self is Resolved),
    {
        match self {
            Pipeline::Resolved { .. } => true,
            _ => false,
        }
    }

    /// Takes one step: the stage after `event`, and what the caller is to do
    /// next.
    pub fn step(self, event: Event) -> (stepped: (Pipeline, Action))
        ensures
            self.steps_to(event, stepped.0, stepped.1),
    {
        match self {
            Pipeline::Built { url } => match event {
                Event::Start => (Pipeline::InFlight, Action::Fetch(url)),
                _ => (Pipeline::Built { url }, Action::Ignore),
            },
            Pipeline::InFlight => match event {
                Event::Envelope(envelope) => (Pipeline::Decoded { envelope }, Action::Proceed),
                Event::TransportFailed(how) => (
                    Pipeline::Resolved { outcome: Err(GeocodingError::Transport(how)) },
                    Action::Finish,
                ),
                Event::DecodeFailed(why) => (
                    Pipeline::Resolved { outcome: Err(GeocodingError::Decode(why)) },
                    Action::Finish,
                ),
                _ => (Pipeline::InFlight, Action::Ignore),
            },
            Pipeline::Decoded { envelope } => match event {
                Event::Continue => {
                    let outcome = match envelope.resolve() {
                        Ok(replies) => Ok(replies),
                        Err(failure) => Err(GeocodingError::Api(failure)),
                    };
                    (Pipeline::Resolved { outcome }, Action::Finish)
                },
                _ => (Pipeline::Decoded { envelope }, Action::Ignore),
            },
            Pipeline::Resolved { outcome } => (Pipeline::Resolved { outcome }, Action::Finish),
        }
    }

    /// The outcome of a call that is over.
    pub fn into_outcome(self) -> (outcome: Option<Result<Vec<Reply>, GeocodingError>>)
        ensures
            match self {
                Pipeline::Resolved { outcome: held } => outcome == Some(held),
                _ => outcome.is_none(),
            },
    {
        match self {
            Pipeline::Resolved { outcome } => Some(outcome),
            _ => None,
        }
    }
}

/// A request is asked for once in a call: only the step that starts a built
/// call asks for one, and it leaves the call in flight.
pub proof fn lemma_one_request(stage: Pipeline, event: Event, next: Pipeline, action: Action)
    requires
        stage.steps_to(event, next, action),
        action is Fetch,
    ensures
        stage matches Pipeline::Built { url } && action == Action::Fetch(url),
        event is Start,
        next is InFlight,
{
}

/// A call that is over stays over, with the same outcome.
pub proof fn lemma_resolved_stays(stage: Pipeline, event: Event, next: Pipeline, action: Action)
    requires
        stage.steps_to(event, next, action),
        stage is Resolved,
    ensures
        next == stage,
        action is Finish,
{
}

/// A call whose envelope arrives resolves, two steps later, to what the
/// envelope comes to: the replies of a success, or the failure that its status
/// names.
pub proof fn lemma_envelope_resolves(
    envelope: ReplyResult,
    decoded: Pipeline,
    first: Action,
    resolved: Pipeline,
    second: Action,
)
    requires
        Pipeline::InFlight.steps_to(Event::Envelope(envelope), decoded, first),
        decoded.steps_to(Event::Continue, resolved, second),
    ensures
        first is Proceed,
        second is Finish,
        resolved matches Pipeline::Resolved { outcome } && resolves_to(
            outcome,
            resolution(envelope),
        ),
{
}

/// A step never leads back: after it the call is at the same stage or at a
/// later one.
pub proof fn lemma_steps_forward(stage: Pipeline, event: Event, next: Pipeline, action: Action)
    requires
        stage.steps_to(event, next, action),
    ensures
        stage.rank() <= next.rank(),
{
}

/// The entry to the service. It holds nothing: every call is on its own.
#[derive(Clone, Copy, Debug, PartialEq, Eq, Structural)]
pub struct Connection {}

impl Connection {
    /// The address of the service, without parameters.
    pub fn url() -> (address: &'static str)
        ensures
            address@ == endpoint(),
    {
        "https://maps.google.com/maps/api/geocode/json"
    }

    /// A connection to the service.
    pub fn new() -> (connection: Self)
        ensures
            connection == (Connection {  }),
    {
        Connection {  }
    }

    /// The call that asks for the addresses at the point of `query`.
    pub fn degeocode(&self, query: &DegeocodeQuery) -> (call: Pipeline)
        ensures
            Connection::begins(call, query@.pairs()),
    {
        self.get(&query.to_pairs())
    }

    /// The call that asks for the coordinates of the place of `query`.
    pub fn geocode(&self, query: &GeocodeQuery) -> (call: Pipeline)
        ensures
            Connection::begins(call, query@.pairs()),
    {
        self.get(&query.to_pairs())
    }

    /// Whether `call` is the beginning of the call with the parameters
    /// `pairs`: built, with the address of its request, or resolved to the
    /// reason why there is no such address.
    pub open spec fn begins(call: Pipeline, pairs: Seq<Pair>) -> bool {
        match request_for(pairs) {
            Ok(address) => call matches Pipeline::Built { url } && url@ == address,
            Err(why) => call == (Pipeline::Resolved { outcome: Err(GeocodingError::Request(why)) }),
        }
    }

    /// The call with the parameters `pairs`.
    pub fn get(&self, pairs: &Vec<(String, String)>) -> (call: Pipeline)
        ensures
            Connection::begins(call, pairs.deep_view()),
    {
        match form_encode(pairs) {
            Err(_) => Pipeline::Resolved {
                outcome: Err(GeocodingError::Request(RequestError::Parameters)),
            },
            Ok(query) => match with_query(Connection::url(), query.as_str()) {
                Err(why) => Pipeline::Resolved { outcome: Err(GeocodingError::Request(why)) },
                Ok(url) => Pipeline::Built { url },
            },
        }
    }
}

} // verus!
