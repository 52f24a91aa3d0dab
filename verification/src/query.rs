//! The two kinds of question that the service answers, and their parameters.
//!
//! A query is built from what it must have; each further setting returns the
//! query with that setting, and a setting made twice keeps the later value. A
//! query is sent as a list of named parameters, in which a setting that was
//! never made does not occur.

use vstd::prelude::*;
use crate::address_type::Type;
use crate::api_set::{joined, tokens, ApiSet};
use crate::component::ComponentFilterRule;
use crate::coordinates::{Coordinates, Viewport};
use crate::error::GeocodingError;
use crate::language::Language;
use crate::location_type::LocationType;
use crate::region::Region;
use crate::tag::Tagged;

verus! {

/// A named parameter of a request, as texts.
pub type Pair = (Seq<char>, Seq<char>);

/// What a forward search looks for: a free text, or a set of rules. It is
/// always one of the two.
#[derive(Debug, PartialEq, Eq)]
pub enum Place {
    /// An address in free text.
    Address {
        /// The address, in the form that the postal service of its country
        /// uses.
        address: String,
    },
    /// An address given by rules on its components.
    ComponentFilter {
        /// The rules, all of which a result has to meet.
        components: ApiSet<ComponentFilterRule>,
    },
}

impl Place {
    /// The parameter that names the place: `address` with the text, or
    /// `components` with the rules joined by `|`.
    pub open spec fn pair(self) -> Pair {
        match self {
            Place::Address { address } => ("address"@, address@),
            Place::ComponentFilter { components } => (
                "components"@,
                joined(tokens(components@), seq!['|']),
            ),
        }
    }

    /// The parameter that names the place.
    pub fn to_pair(&self) -> (pair: (String, String))
        ensures
            pair.deep_view() == self.pair(),
    {
        match self {
            Place::Address { address } => (String::from_str("address"), address.clone()),
            Place::ComponentFilter { components } => (
                String::from_str("components"),
                components.encode(),
            ),
        }
    }
}

impl<'a> From<&'a str> for Place {
    /// The place that the free text `text` names.
    fn from(text: &'a str) -> (place: Place)
        ensures
            place matches Place::Address { address } && address@ == text@,
    {
        Place::Address { address: String::from_str(text) }
    }
}

/// What `from` returns is stated by its own contract: no specification can
/// name the `String` that holds given characters.
impl<'a> vstd::std_specs::convert::FromSpecImpl<&'a str> for Place {
    open spec fn obeys_from_spec() -> bool {
        false
    }

    open spec fn from_spec(text: &'a str) -> Place {
        arbitrary()
    }
}

impl From<String> for Place {
    /// The place that the free text `address` names.
    fn from(address: String) -> (place: Place) {
        Place::Address { address }
    }
}

impl vstd::std_specs::convert::FromSpecImpl<String> for Place {
    open spec fn obeys_from_spec() -> bool {
        true
    }

    open spec fn from_spec(address: String) -> Place {
        Place::Address { address }
    }
}

/// `pairs` with the parameter `key`, where it has a value.
pub open spec fn with_optional(pairs: Seq<Pair>, key: Seq<char>, value: Option<Seq<char>>) -> Seq<
    Pair,
> {
    match value {
        Some(text) => pairs.push((key, text)),
        None => pairs,
    }
}

/// Adds the parameter `key` to `pairs`, where it has a value.
fn push_optional(pairs: &mut Vec<(String, String)>, key: &str, value: Option<String>)
    ensures
        final(pairs).deep_view() == with_optional(
            old(pairs).deep_view(),
            key@,
            match value {
                Some(text) => Some(text@),
                None => None,
            },
        ),
{
    match value {
        Some(text) => {
            let ghost before = pairs.deep_view();
            let ghost added = (key@, text@);
            pairs.push((String::from_str(key), text));
            assert(pairs.deep_view() =~= before.push(added));
        },
        None => {},
    }
}

/// What a forward query holds.
pub struct GeocodeQueryView {
    /// What to look for.
    pub place: Place,
    /// The box towards which results are biased.
    pub bounds: Option<Viewport>,
    /// The language of the reply.
    pub language: Option<Language>,
    /// The region towards which results are biased.
    pub region: Option<Region>,
}

impl GeocodeQueryView {
    /// The parameters of the query: the place, then `bounds`, `language` and
    /// `region` as far as they were set.
    pub open spec fn pairs(self) -> Seq<Pair> {
        let named = seq![self.place.pair()];
        let biased = with_optional(
            named,
            "bounds"@,
            match self.bounds {
                Some(bounds) => Some(bounds.text()),
                None => None,
            },
        );
        let spoken = with_optional(
            biased,
            "language"@,
            match self.language {
                Some(language) => Some(language.label()),
                None => None,
            },
        );
        with_optional(
            spoken,
            "region"@,
            match self.region {
                Some(region) => Some(region.label()),
                None => None,
            },
        )
    }
}

/// Whether one of `pairs` is named `key`.
pub open spec fn has_key(pairs: Seq<Pair>, key: Seq<char>) -> bool {
    exists|i: int| 0 <= i < pairs.len() && (#[trigger] pairs[i]).0 == key
}

/// A forward query names its place once: a query for a free text sends
/// `address` and never `components`, and a query for rules sends `components`
/// and never `address`.
pub proof fn lemma_one_locator(query: GeocodeQueryView)
    ensures
        query.place is Address ==> has_key(query.pairs(), "address"@) && !has_key(
            query.pairs(),
            "components"@,
        ),
        query.place is ComponentFilter ==> has_key(query.pairs(), "components"@) && !has_key(
            query.pairs(),
            "address"@,
        ),
{
    reveal_strlit("address");
    reveal_strlit("components");
    reveal_strlit("bounds");
    reveal_strlit("language");
    reveal_strlit("region");
    // Every two of the five names differ in their first character, but for
    // `language`.
    assert("address"@[0] == 'a');
    assert("components"@[0] == 'c');
    assert("bounds"@[0] == 'b');
    assert("language"@[0] == 'l');
    assert("region"@[0] == 'r');
    let pairs = query.pairs();
    assert(pairs[0] == query.place.pair());
    assert forall|i: int| 1 <= i < pairs.len() implies (#[trigger] pairs[i]).0 != "address"@
        && pairs[i].0 != "components"@ by {
        assert(pairs[i].0 == "bounds"@ || pairs[i].0 == "language"@ || pairs[i].0 == "region"@);
    }
}

/// A forward query: from a place to its coordinates.
#[derive(Debug, PartialEq, Eq)]
pub struct GeocodeQuery {
    place: Place,
    bounds: Option<Viewport>,
    language: Option<Language>,
    region: Option<Region>,
}

impl View for GeocodeQuery {
    type V = GeocodeQueryView;

    closed spec fn view(&self) -> GeocodeQueryView {
        GeocodeQueryView {
            place: self.place,
            bounds: self.bounds,
            language: self.language,
            region: self.region,
        }
    }
}

impl GeocodeQuery {
    /// The query for `place`, with nothing else set.
    pub fn new(place: Place) -> (query: Self)
        ensures
            query@ == (GeocodeQueryView { place, bounds: None, language: None, region: None }),
    {
        GeocodeQuery { place, bounds: None, language: None, region: None }
    }

    /// The query with results biased towards the box `i_bounds`.
    pub fn bounds(self, i_bounds: Viewport) -> (query: Self)
        ensures
            query@ == (GeocodeQueryView { bounds: Some(i_bounds), ..self@ }),
    {
        let mut query = self;
        query.bounds = Some(i_bounds);
        query
    }

    /// The query with replies in the language `i_language`.
    pub fn language(self, i_language: Language) -> (query: Self)
        ensures
            query@ == (GeocodeQueryView { language: Some(i_language), ..self@ }),
    {
        let mut query = self;
        query.language = Some(i_language);
        query
    }

    /// The query with results biased towards the region `i_region`.
    pub fn region(self, i_region: Region) -> (query: Self)
        ensures
            query@ == (GeocodeQueryView { region: Some(i_region), ..self@ }),
    {
        let mut query = self;
        query.region = Some(i_region);
        query
    }

    /// The parameters of the query, in the order in which they are sent.
    pub fn to_pairs(&self) -> (pairs: Vec<(String, String)>)
        ensures
            pairs.deep_view() == self@.pairs(),
    {
        let mut pairs: Vec<(String, String)> = Vec::new();
        let named = self.place.to_pair();
        let ghost first = named.deep_view();
        pairs.push(named);
        assert(pairs.deep_view() =~= seq![first]);
        push_optional(
            &mut pairs,
            "bounds",
            match &self.bounds {
                Some(bounds) => Some(bounds.to_string()),
                None => None,
            },
        );
        push_optional(
            &mut pairs,
            "language",
            match &self.language {
                Some(language) => Some(String::from_str(language.variant_name())),
                None => None,
            },
        );
        push_optional(
            &mut pairs,
            "region",
            match &self.region {
                Some(region) => Some(String::from_str(region.variant_name())),
                None => None,
            },
        );
        pairs
    }
}

impl From<Place> for GeocodeQuery {
    /// The query for `place`, with nothing else set.
    fn from(place: Place) -> (query: GeocodeQuery)
        ensures
            query@ == (GeocodeQueryView { place, bounds: None, language: None, region: None }),
    {
        GeocodeQuery::new(place)
    }
}

impl<'a> From<&'a str> for GeocodeQuery {
    /// The query for the free text `text`, with nothing else set.
    fn from(text: &'a str) -> (query: GeocodeQuery)
        ensures
            query@.place matches Place::Address { address } && address@ == text@,
            query@.bounds is None,
            query@.language is None,
            query@.region is None,
    {
        GeocodeQuery::new(Place::from(text))
    }
}

/// What `from` returns is stated by its own contract: no specification can
/// name the `String` that holds given characters.
impl<'a> vstd::std_specs::convert::FromSpecImpl<&'a str> for GeocodeQuery {
    open spec fn obeys_from_spec() -> bool {
        false
    }

    open spec fn from_spec(text: &'a str) -> GeocodeQuery {
        arbitrary()
    }
}

impl From<String> for GeocodeQuery {
    /// The query for the free text `address`, with nothing else set.
    fn from(address: String) -> (query: GeocodeQuery)
        ensures
            query@ == (GeocodeQueryView {
                place: Place::Address { address },
                bounds: None,
                language: None,
                region: None,
            }),
    {
        GeocodeQuery::new(Place::Address { address })
    }
}

impl vstd::std_specs::convert::FromSpecImpl<String> for GeocodeQuery {
    open spec fn obeys_from_spec() -> bool {
        true
    }

    closed spec fn from_spec(address: String) -> GeocodeQuery {
        GeocodeQuery {
            place: Place::Address { address },
            bounds: None,
            language: None,
            region: None,
        }
    }
}

impl vstd::std_specs::convert::FromSpecImpl<Place> for GeocodeQuery {
    open spec fn obeys_from_spec() -> bool {
        true
    }

    closed spec fn from_spec(place: Place) -> GeocodeQuery {
        GeocodeQuery { place, bounds: None, language: None, region: None }
    }
}

/// What a reverse query holds.
pub struct DegeocodeQueryView {
    /// The point whose address is asked for.
    pub coordinates: Coordinates,
    /// The language of the reply.
    pub language: Option<Language>,
    /// The address types to which the results are confined.
    pub result_type: Option<ApiSet<Type>>,
    /// The location types to which the results are confined.
    pub location_type: Option<ApiSet<LocationType>>,
}

impl DegeocodeQueryView {
    /// The parameters of the query: `latlng`, then `language`, `result_type`
    /// and `location_type` as far as they were set.
    pub open spec fn pairs(self) -> Seq<Pair> {
        let located = seq![("latlng"@, self.coordinates.text())];
        let spoken = with_optional(
            located,
            "language"@,
            match self.language {
                Some(language) => Some(language.label()),
                None => None,
            },
        );
        let typed = with_optional(
            spoken,
            "result_type"@,
            match self.result_type {
                Some(types) => Some(joined(tokens(types@), seq!['|'])),
                None => None,
            },
        );
        with_optional(
            typed,
            "location_type"@,
            match self.location_type {
                Some(types) => Some(joined(tokens(types@), seq!['|'])),
                None => None,
            },
        )
    }
}

/// A reverse query: from coordinates to the addresses nearest to them.
#[derive(Debug, PartialEq, Eq)]
pub struct DegeocodeQuery {
    coordinates: Coordinates,
    language: Option<Language>,
    result_type: Option<ApiSet<Type>>,
    location_type: Option<ApiSet<LocationType>>,
}

impl View for DegeocodeQuery {
    type V = DegeocodeQueryView;

    closed spec fn view(&self) -> DegeocodeQueryView {
        DegeocodeQueryView {
            coordinates: self.coordinates,
            language: self.language,
            result_type: self.result_type,
            location_type: self.location_type,
        }
    }
}

impl DegeocodeQuery {
    /// The query for the point `coordinates`, with nothing else set.
    pub fn new(coordinates: Coordinates) -> (query: Self)
        ensures
            query@ == (DegeocodeQueryView {
                coordinates,
                language: None,
                result_type: None,
                location_type: None,
            }),
    {
        DegeocodeQuery { coordinates, language: None, location_type: None, result_type: None }
    }

    /// The query for the point with the given latitude and longitude, with
    /// nothing else set; or, where the two are no coordinate, the reason.
    pub fn at(latitude: &str, longitude: &str) -> (made: Result<Self, GeocodingError>)
        ensures
            match made {
                Ok(query) => {
                    &&& Coordinates::refusal(latitude@, longitude@).is_none()
                    &&& query@.coordinates.latitude_text() == latitude@
                    &&& query@.coordinates.longitude_text() == longitude@
                    &&& query@.language is None
                    &&& query@.result_type is None
                    &&& query@.location_type is None
                },
                Err(error) => Coordinates::refusal(latitude@, longitude@) matches Some(reason)
                    && error == GeocodingError::Construction(reason),
            },
    {
        match Coordinates::try_new(latitude, longitude) {
            Ok(coordinates) => Ok(DegeocodeQuery::new(coordinates)),
            Err(reason) => Err(GeocodingError::Construction(reason)),
        }
    }

    /// The query with replies in the language `i_language`.
    pub fn language(self, i_language: Language) -> (query: Self)
        ensures
            query@ == (DegeocodeQueryView { language: Some(i_language), ..self@ }),
    {
        let mut query = self;
        query.language = Some(i_language);
        query
    }

    /// The query with results confined to the location types
    /// `i_location_type`.
    pub fn location_type(self, i_location_type: ApiSet<LocationType>) -> (query: Self)
        ensures
            query@ == (DegeocodeQueryView { location_type: Some(i_location_type), ..self@ }),
    {
        let mut query = self;
        query.location_type = Some(i_location_type);
        query
    }

    /// The query with results confined to the address types `i_result_type`.
    pub fn result_type(self, i_result_type: ApiSet<Type>) -> (query: Self)
        ensures
            query@ == (DegeocodeQueryView { result_type: Some(i_result_type), ..self@ }),
    {
        let mut query = self;
        query.result_type = Some(i_result_type);
        query
    }

    /// The parameters of the query, in the order in which they are sent.
    pub fn to_pairs(&self) -> (pairs: Vec<(String, String)>)
        ensures
            pairs.deep_view() == self@.pairs(),
    {
        let mut pairs: Vec<(String, String)> = Vec::new();
        let ghost first = ("latlng"@, self.coordinates.text());
        pairs.push((String::from_str("latlng"), self.coordinates.to_string()));
        assert(pairs.deep_view() =~= seq![first]);
        push_optional(
            &mut pairs,
            "language",
            match &self.language {
                Some(language) => Some(String::from_str(language.variant_name())),
                None => None,
            },
        );
        push_optional(
            &mut pairs,
            "result_type",
            match &self.result_type {
                Some(types) => Some(types.encode()),
                None => None,
            },
        );
        push_optional(
            &mut pairs,
            "location_type",
            match &self.location_type {
                Some(types) => Some(types.encode()),
                None => None,
            },
        );
        pairs
    }
}

impl From<Coordinates> for DegeocodeQuery {
    /// The query for the point `coordinates`, with nothing else set.
    fn from(coordinates: Coordinates) -> (query: DegeocodeQuery)
        ensures
            query@ == (DegeocodeQueryView {
                coordinates,
                language: None,
                result_type: None,
                location_type: None,
            }),
    {
        DegeocodeQuery::new(coordinates)
    }
}

impl vstd::std_specs::convert::FromSpecImpl<Coordinates> for DegeocodeQuery {
    open spec fn obeys_from_spec() -> bool {
        true
    }

    closed spec fn from_spec(coordinates: Coordinates) -> DegeocodeQuery {
        DegeocodeQuery { coordinates, language: None, result_type: None, location_type: None }
    }
}

} // verus!
