//! What the service answers: the envelope of a reply and the results in it.

use vstd::prelude::*;
use crate::address_type::Type;
use crate::api_set::ApiSet;
use crate::coordinates::{Coordinates, Viewport};
use crate::error::{ApiStatusError, DecodeError};
use crate::location_type::LocationType;
use crate::status::StatusCode;
use crate::tag::{FromLabel, Tagged};

verus! {

/// One component of an address that was taken apart.
#[derive(Debug, PartialEq, Eq)]
pub struct AddressComponent {
    long_name: String,
    short_name: String,
    types: ApiSet<Type>,
}

impl AddressComponent {
    /// The component with the given names and types.
    pub fn new(long_name: String, short_name: String, types: ApiSet<Type>) -> (component: Self)
        ensures
            component.long_name_text() == long_name@,
            component.short_name_text() == short_name@,
            component.types_held() == types,
    {
        AddressComponent { long_name, short_name, types }
    }

    /// The full name of the component.
    pub closed spec fn long_name_text(&self) -> Seq<char> {
        self.long_name@
    }

    /// The abbreviated name of the component.
    pub closed spec fn short_name_text(&self) -> Seq<char> {
        self.short_name@
    }

    /// The types of the component.
    pub closed spec fn types_held(&self) -> ApiSet<Type> {
        self.types
    }

    /// The full name of the component, such as "Alaska".
    pub fn long_name(&self) -> (name: &str)
        ensures
            name@ == self.long_name_text(),
    {
        self.long_name.as_str()
    }

    /// The abbreviated name of the component, such as "AK".
    pub fn short_name(&self) -> (name: &str)
        ensures
            name@ == self.short_name_text(),
    {
        self.short_name.as_str()
    }

    /// The types of the component.
    pub fn types(&self) -> (types: &ApiSet<Type>)
        ensures
            *types == self.types_held(),
    {
        &self.types
    }
}

/// Where a result lies.
#[derive(Debug, PartialEq, Eq)]
pub struct Geometry {
    /// The point of the result.
    pub location: Coordinates,
    /// What the point refers to.
    pub location_type: LocationType,
    /// The box that frames the result for display.
    pub viewport: Viewport,
    /// The box that contains the whole result, where the service names one.
    pub bounds: Option<Viewport>,
}

/// The address of a result, as a person would read it.
#[derive(Debug, PartialEq, Eq)]
pub struct FormattedAddress(String);

impl View for FormattedAddress {
    type V = Seq<char>;

    closed spec fn view(&self) -> Seq<char> {
        self.0@
    }
}

impl FormattedAddress {
    /// The address with the text `text`.
    pub fn new(text: String) -> (address: Self)
        ensures
            address@ == text@,
    {
        FormattedAddress(text)
    }

    /// The text of the address.
    pub fn as_str(&self) -> (text: &str)
        ensures
            text@ == self@,
    {
        self.0.as_str()
    }

    /// The text of the address.
    pub fn to_string(&self) -> (text: String)
        ensures
            text@ == self@,
    {
        self.0.clone()
    }
}

/// The identifier under which other services of the same provider know a
/// place. It is taken as it comes.
#[derive(Debug, PartialEq, Eq, Hash)]
pub struct PlaceId(String);

impl View for PlaceId {
    type V = Seq<char>;

    closed spec fn view(&self) -> Seq<char> {
        self.0@
    }
}

impl PlaceId {
    /// The identifier with the text `text`.
    pub fn new(text: String) -> (id: Self)
        ensures
            id@ == text@,
    {
        PlaceId(text)
    }

    /// The text of the identifier.
    pub fn as_str(&self) -> (text: &str)
        ensures
            text@ == self@,
    {
        self.0.as_str()
    }
}

/// One result of a query.
#[derive(Debug, PartialEq, Eq)]
pub struct Reply {
    /// The components of the address, in the order of the service.
    pub address_components: Vec<AddressComponent>,
    /// The address as a person would read it.
    pub formatted_address: FormattedAddress,
    /// Where the result lies.
    pub geometry: Geometry,
    /// The identifier of the place.
    pub place_id: PlaceId,
    /// The localities of a postal code, where the result is a postal code
    /// with more than one.
    pub postcode_localities: Option<Vec<String>>,
    /// The types of the result.
    pub types: ApiSet<Type>,
}

/// The envelope of a reply: its status, the message that may explain it, and
/// its results.
#[derive(Debug, PartialEq, Eq)]
pub struct ReplyResult {
    /// What the service says about a failure, where it says anything.
    pub error_message: Option<String>,
    /// The results, best match first. They count only under a status that is
    /// a success.
    pub results: Vec<Reply>,
    /// The status of the reply.
    pub status: StatusCode,
}

impl ReplyResult {
    /// What the envelope comes to: under `OK` its results, under
    /// `ZERO_RESULTS` no results, and under any other status the failure with
    /// that status and the message of the envelope.
    pub open spec fn outcome(self) -> Result<Seq<Reply>, ApiStatusError> {
        match self.status {
            StatusCode::Okay => Ok(self.results@),
            StatusCode::ZeroResults => Ok(Seq::empty()),
            _ => Err(ApiStatusError { status: self.status, message: self.error_message }),
        }
    }

    /// Classifies the envelope by its status: the results of a success, or
    /// the failure that the status names.
    pub fn resolve(self) -> (resolved: Result<Vec<Reply>, ApiStatusError>)
        ensures
            match resolved {
                Ok(replies) => self.outcome() == Ok::<Seq<Reply>, ApiStatusError>(replies@),
                Err(failure) => self.outcome() == Err::<Seq<Reply>, ApiStatusError>(failure),
            },
    {
        match self.status {
            StatusCode::Okay => Ok(self.results),
            StatusCode::ZeroResults => Ok(Vec::new()),
            _ => Err(ApiStatusError { status: self.status, message: self.error_message }),
        }
    }
}

/// A reply that found nothing is a success without results, whatever else
/// its envelope holds.
pub proof fn lemma_zero_results_succeeds(envelope: ReplyResult)
    requires
        envelope.status == StatusCode::ZeroResults,
    ensures
        envelope.outcome() == Ok::<Seq<Reply>, ApiStatusError>(Seq::empty()),
{
}

/// A reply with a failure status is that failure, whatever results its
/// envelope holds: the failure has the status and the message of the envelope.
pub proof fn lemma_failure_keeps_status(envelope: ReplyResult)
    requires
        !envelope.status.is_success(),
    ensures
        envelope.outcome() == Err::<Seq<Reply>, ApiStatusError>(
            ApiStatusError { status: envelope.status, message: envelope.error_message },
        ),
{
}

/// A reply with a success status is never a failure.
pub proof fn lemma_success_has_replies(envelope: ReplyResult)
    requires
        envelope.status.is_success(),
    ensures
        envelope.outcome() is Ok,
        envelope.status == StatusCode::Okay ==> envelope.outcome().unwrap() == envelope.results@,
{
}

/// The tag that `label` names in the catalog `T`, or the label as an unknown
/// tag.
pub fn decode_tag<T: FromLabel>(label: &str) -> (decoded: Result<T, DecodeError>)
    ensures
        match decoded {
            Ok(tag) => tag.label() == label@,
            Err(DecodeError::UnknownTag(text)) => {
                &&& text@ == label@
                &&& forall|tag: T| #[trigger] tag.label() != label@
            },
            Err(_) => false,
        },
{
    match T::from_label(label) {
        Some(tag) => Ok(tag),
        None => Err(DecodeError::UnknownTag(String::from_str(label))),
    }
}

/// The point that a reply names by the decimal numbers `lat` and `lng`, or
/// the reason why it names none.
pub fn decode_location(lat: &str, lng: &str) -> (decoded: Result<Coordinates, DecodeError>)
    ensures
        match decoded {
            Ok(point) => {
                &&& Coordinates::refusal(lat@, lng@).is_none()
                &&& point.latitude_text() == lat@
                &&& point.longitude_text() == lng@
            },
            Err(DecodeError::Location(reason)) => Coordinates::refusal(lat@, lng@) == Some(reason),
            Err(_) => false,
        },
{
    match Coordinates::try_new(lat, lng) {
        Ok(point) => Ok(point),
        Err(reason) => Err(DecodeError::Location(reason)),
    }
}

/// The location of each reply, in the order of the replies.
pub fn locations(replies: Vec<Reply>) -> (points: Vec<Coordinates>)
    ensures
        points@ == replies@.map_values(|reply: Reply| reply.geometry.location),
{
    let ghost all = replies@;
    let mut points: Vec<Coordinates> = Vec::new();
    for reply in it: replies
        invariant
            it.seq() == all,
            points@ == all.take(it.index() as int).map_values(
                |reply: Reply| reply.geometry.location,
            ),
    {
        let ghost before = points@;
        points.push(reply.geometry.location);
        assert(points@ =~= all.take(it.index() + 1).map_values(
            |reply: Reply| reply.geometry.location,
        ));
    }
    assert(all.take(all.len() as int) =~= all);
    points
}

/// The formatted address of each reply, in the order of the replies.
pub fn addresses(replies: Vec<Reply>) -> (texts: Vec<FormattedAddress>)
    ensures
        texts@ == replies@.map_values(|reply: Reply| reply.formatted_address),
{
    let ghost all = replies@;
    let mut texts: Vec<FormattedAddress> = Vec::new();
    for reply in it: replies
        invariant
            it.seq() == all,
            texts@ == all.take(it.index() as int).map_values(
                |reply: Reply| reply.formatted_address,
            ),
    {
        texts.push(reply.formatted_address);
        assert(texts@ =~= all.take(it.index() + 1).map_values(
            |reply: Reply| reply.formatted_address,
        ));
    }
    assert(all.take(all.len() as int) =~= all);
    texts
}

} // verus!
