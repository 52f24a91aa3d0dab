//! What can go wrong between a query and its replies.

use vstd::prelude::*;
use crate::status::StatusCode;

verus! {

/// Why a pair of texts is no coordinate: the first of the two that is no
/// angle of its kind.
#[derive(Clone, Copy, Debug, PartialEq, Eq, Hash, Structural)]
pub enum ConstructionError {
    /// The latitude is no decimal number between -90 and 90.
    Latitude,
    /// The longitude is no decimal number between -180 and 180.
    Longitude,
}

/// Why no request could be made of a query.
#[derive(Clone, Copy, Debug, PartialEq, Eq, Hash, Structural)]
pub enum RequestError {
    /// The parameters have no form encoding.
    Parameters,
    /// The endpoint is no address.
    Endpoint,
    /// The endpoint or the encoded parameters are longer than an address can
    /// take.
    TooLong,
}

/// Why a body that arrived is no reply.
#[derive(Debug, PartialEq, Eq)]
pub enum DecodeError {
    /// The body is not of the shape of a reply; the text says why.
    Malformed(String),
    /// A tag that its catalog does not list.
    UnknownTag(String),
    /// A location that is no coordinate.
    Location(ConstructionError),
}

/// A reply whose status is a failure: the status and what the service said
/// about it.
#[derive(Debug, PartialEq, Eq)]
pub struct ApiStatusError {
    /// The status of the reply, one that is no success.
    pub status: StatusCode,
    /// The message of the reply, if it had one.
    pub message: Option<String>,
}

/// Why a call gave no replies.
#[derive(Debug, PartialEq, Eq)]
pub enum GeocodingError {
    /// A coordinate could not be built; nothing was sent.
    Construction(ConstructionError),
    /// The request could not be built; nothing was sent.
    Request(RequestError),
    /// The transport failed; the text says how.
    Transport(String),
    /// The body that arrived could not be decoded.
    Decode(DecodeError),
    /// The service answered with a failure status.
    Api(ApiStatusError),
}

impl From<ConstructionError> for GeocodingError {
    /// The failure of a call that ends before anything is sent.
    fn from(reason: ConstructionError) -> (error: GeocodingError) {
        GeocodingError::Construction(reason)
    }
}

impl vstd::std_specs::convert::FromSpecImpl<ConstructionError> for GeocodingError {
    open spec fn obeys_from_spec() -> bool {
        true
    }

    open spec fn from_spec(reason: ConstructionError) -> GeocodingError {
        GeocodingError::Construction(reason)
    }
}

} // verus!
