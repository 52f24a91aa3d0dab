//! The kinds of feature that an address or one of its components can be.

use vstd::prelude::*;
use crate::tag::{str_eq, FromLabel, SetItem, Tagged};

verus! {

/// The type of an address or of an address component.
#[derive(Clone, Copy, Debug, PartialEq, Eq, Hash, Structural)]
pub enum Type {
    /// A precise street address.
    StreetAddress,
    /// A named route, such as "US 101".
    Route,
    /// A major intersection, usually of two major roads.
    Intersection,
    /// A political entity, usually the area of some civil administration.
    Political,
    /// The national political entity.
    Country,
    /// A first-order civil entity below the country level, such as a state.
    AdministrativeAreaLevel1,
    /// A second-order civil entity below the country level, such as a county.
    AdministrativeAreaLevel2,
    /// A third-order civil entity below the country level.
    AdministrativeAreaLevel3,
    /// A fourth-order civil entity below the country level.
    AdministrativeAreaLevel4,
    /// A fifth-order civil entity below the country level.
    AdministrativeAreaLevel5,
    /// A commonly used alternative name for the entity.
    ColloquialArea,
    /// An incorporated city or town.
    Locality,
    /// A Japanese locality of a specific kind.
    Ward,
    /// A first-order civil entity below a locality.
    Sublocality,
    /// A named neighborhood.
    Neighborhood,
    /// A named location, usually a building or a group of buildings.
    Premise,
    /// A first-order entity below a named location, usually one building of a group.
    Subpremise,
    /// A postal code as used for mail within the country.
    PostalCode,
    /// A prominent natural feature.
    NaturalFeature,
    /// An airport.
    Airport,
    /// A named park.
    Park,
    /// A named point of interest that fits no other category.
    PointOfInterest,
    /// The floor of a building address.
    Floor,
    /// A place that has not been categorized yet.
    Establishment,
    /// A parking lot or parking structure.
    Parking,
    /// A specific postal box.
    PostBox,
    /// A grouping of geographic areas used for mailing addresses.
    PostalTown,
    /// The room of a building address.
    Room,
    /// The precise street number.
    StreetNumber,
    /// A bus stop.
    BusStation,
    /// A train station.
    TrainStation,
    /// A public transit station.
    TransitStation,
}

impl Tagged for Type {
    open spec fn label(&self) -> Seq<char> {
        match self {
            Type::StreetAddress => "street_address"@,
            Type::Route => "route"@,
            Type::Intersection => "intersection"@,
            Type::Political => "political"@,
            Type::Country => "country"@,
            Type::AdministrativeAreaLevel1 => "administrative_area_level_1"@,
            Type::AdministrativeAreaLevel2 => "administrative_area_level_2"@,
            Type::AdministrativeAreaLevel3 => "administrative_area_level_3"@,
            Type::AdministrativeAreaLevel4 => "administrative_area_level_4"@,
            Type::AdministrativeAreaLevel5 => "administrative_area_level_5"@,
            Type::ColloquialArea => "colloquial_area"@,
            Type::Locality => "locality"@,
            Type::Ward => "ward"@,
            Type::Sublocality => "sublocality"@,
            Type::Neighborhood => "neighborhood"@,
            Type::Premise => "premise"@,
            Type::Subpremise => "subpremise"@,
            Type::PostalCode => "postal_code"@,
            Type::NaturalFeature => "natural_feature"@,
            Type::Airport => "airport"@,
            Type::Park => "park"@,
            Type::PointOfInterest => "point_of_interest"@,
            Type::Floor => "floor"@,
            Type::Establishment => "establishment"@,
            Type::Parking => "parking"@,
            Type::PostBox => "post_box"@,
            Type::PostalTown => "postal_town"@,
            Type::Room => "room"@,
            Type::StreetNumber => "street_number"@,
            Type::BusStation => "bus_station"@,
            Type::TrainStation => "train_station"@,
            Type::TransitStation => "transit_station"@,
        }
    }

    fn variant_name(&self) -> (name: &'static str) {
        match self {
            Type::StreetAddress => "street_address",
            Type::Route => "route",
            Type::Intersection => "intersection",
            Type::Political => "political",
            Type::Country => "country",
            Type::AdministrativeAreaLevel1 => "administrative_area_level_1",
            Type::AdministrativeAreaLevel2 => "administrative_area_level_2",
            Type::AdministrativeAreaLevel3 => "administrative_area_level_3",
            Type::AdministrativeAreaLevel4 => "administrative_area_level_4",
            Type::AdministrativeAreaLevel5 => "administrative_area_level_5",
            Type::ColloquialArea => "colloquial_area",
            Type::Locality => "locality",
            Type::Ward => "ward",
            Type::Sublocality => "sublocality",
            Type::Neighborhood => "neighborhood",
            Type::Premise => "premise",
            Type::Subpremise => "subpremise",
            Type::PostalCode => "postal_code",
            Type::NaturalFeature => "natural_feature",
            Type::Airport => "airport",
            Type::Park => "park",
            Type::PointOfInterest => "point_of_interest",
            Type::Floor => "floor",
            Type::Establishment => "establishment",
            Type::Parking => "parking",
            Type::PostBox => "post_box",
            Type::PostalTown => "postal_town",
            Type::Room => "room",
            Type::StreetNumber => "street_number",
            Type::BusStation => "bus_station",
            Type::TrainStation => "train_station",
            Type::TransitStation => "transit_station",
        }
    }
}

impl SetItem for Type {
    open spec fn payload(&self) -> Option<Seq<char>> {
        None
    }

    fn value(&self) -> (v: Option<&str>) {
        None
    }

    proof fn lemma_label_has_no_colon(&self) {
        reveal_strlit("street_address");
        reveal_strlit("route");
        reveal_strlit("intersection");
        reveal_strlit("political");
        reveal_strlit("country");
        reveal_strlit("administrative_area_level_1");
        reveal_strlit("administrative_area_level_2");
        reveal_strlit("administrative_area_level_3");
        reveal_strlit("administrative_area_level_4");
        reveal_strlit("administrative_area_level_5");
        reveal_strlit("colloquial_area");
        reveal_strlit("locality");
        reveal_strlit("ward");
        reveal_strlit("sublocality");
        reveal_strlit("neighborhood");
        reveal_strlit("premise");
        reveal_strlit("subpremise");
        reveal_strlit("postal_code");
        reveal_strlit("natural_feature");
        reveal_strlit("airport");
        reveal_strlit("park");
        reveal_strlit("point_of_interest");
        reveal_strlit("floor");
        reveal_strlit("establishment");
        reveal_strlit("parking");
        reveal_strlit("post_box");
        reveal_strlit("postal_town");
        reveal_strlit("room");
        reveal_strlit("street_number");
        reveal_strlit("bus_station");
        reveal_strlit("train_station");
        reveal_strlit("transit_station");
    }
}

impl FromLabel for Type {
    fn from_label(label: &str) -> (tag: Option<Self>) {
        if str_eq(label, "street_address") {
            Some(Type::StreetAddress)
        } else if str_eq(label, "route") {
            Some(Type::Route)
        } else if str_eq(label, "intersection") {
            Some(Type::Intersection)
        } else if str_eq(label, "political") {
            Some(Type::Political)
        } else if str_eq(label, "country") {
            Some(Type::Country)
        } else if str_eq(label, "administrative_area_level_1") {
            Some(Type::AdministrativeAreaLevel1)
        } else if str_eq(label, "administrative_area_level_2") {
            Some(Type::AdministrativeAreaLevel2)
        } else if str_eq(label, "administrative_area_level_3") {
            Some(Type::AdministrativeAreaLevel3)
        } else if str_eq(label, "administrative_area_level_4") {
            Some(Type::AdministrativeAreaLevel4)
        } else if str_eq(label, "administrative_area_level_5") {
            Some(Type::AdministrativeAreaLevel5)
        } else if str_eq(label, "colloquial_area") {
            Some(Type::ColloquialArea)
        } else if str_eq(label, "locality") {
            Some(Type::Locality)
        } else if str_eq(label, "ward") {
            Some(Type::Ward)
        } else if str_eq(label, "sublocality") {
            Some(Type::Sublocality)
        } else if str_eq(label, "neighborhood") {
            Some(Type::Neighborhood)
        } else if str_eq(label, "premise") {
            Some(Type::Premise)
        } else if str_eq(label, "subpremise") {
            Some(Type::Subpremise)
        } else if str_eq(label, "postal_code") {
            Some(Type::PostalCode)
        } else if str_eq(label, "natural_feature") {
            Some(Type::NaturalFeature)
        } else if str_eq(label, "airport") {
            Some(Type::Airport)
        } else if str_eq(label, "park") {
            Some(Type::Park)
        } else if str_eq(label, "point_of_interest") {
            Some(Type::PointOfInterest)
        } else if str_eq(label, "floor") {
            Some(Type::Floor)
        } else if str_eq(label, "establishment") {
            Some(Type::Establishment)
        } else if str_eq(label, "parking") {
            Some(Type::Parking)
        } else if str_eq(label, "post_box") {
            Some(Type::PostBox)
        } else if str_eq(label, "postal_town") {
            Some(Type::PostalTown)
        } else if str_eq(label, "room") {
            Some(Type::Room)
        } else if str_eq(label, "street_number") {
            Some(Type::StreetNumber)
        } else if str_eq(label, "bus_station") {
            Some(Type::BusStation)
        } else if str_eq(label, "train_station") {
            Some(Type::TrainStation)
        } else if str_eq(label, "transit_station") {
            Some(Type::TransitStation)
        } else {
            None
        }
    }
}

/// Two address types with the same label are the same.
pub proof fn lemma_type_label_injective(a: Type, b: Type)
    requires
        a.label() == b.label(),
    ensures
        a == b,
{
    reveal_strlit("street_address");
    reveal_strlit("route");
    reveal_strlit("intersection");
    reveal_strlit("political");
    reveal_strlit("country");
    reveal_strlit("administrative_area_level_1");
    reveal_strlit("administrative_area_level_2");
    reveal_strlit("administrative_area_level_3");
    reveal_strlit("administrative_area_level_4");
    reveal_strlit("administrative_area_level_5");
    reveal_strlit("colloquial_area");
    reveal_strlit("locality");
    reveal_strlit("ward");
    reveal_strlit("sublocality");
    reveal_strlit("neighborhood");
    reveal_strlit("premise");
    reveal_strlit("subpremise");
    reveal_strlit("postal_code");
    reveal_strlit("natural_feature");
    reveal_strlit("airport");
    reveal_strlit("park");
    reveal_strlit("point_of_interest");
    reveal_strlit("floor");
    reveal_strlit("establishment");
    reveal_strlit("parking");
    reveal_strlit("post_box");
    reveal_strlit("postal_town");
    reveal_strlit("room");
    reveal_strlit("street_number");
    reveal_strlit("bus_station");
    reveal_strlit("train_station");
    reveal_strlit("transit_station");
    // The lengths tell most labels apart; one character settles the rest.
    assert("street_address"@.len() == 14);
    assert("route"@.len() == 5);
    assert("intersection"@.len() == 12);
    assert("political"@.len() == 9);
    assert("country"@.len() == 7);
    assert("administrative_area_level_1"@.len() == 27);
    assert("administrative_area_level_2"@.len() == 27);
    assert("administrative_area_level_3"@.len() == 27);
    assert("administrative_area_level_4"@.len() == 27);
    assert("administrative_area_level_5"@.len() == 27);
    assert("colloquial_area"@.len() == 15);
    assert("locality"@.len() == 8);
    assert("ward"@.len() == 4);
    assert("sublocality"@.len() == 11);
    assert("neighborhood"@.len() == 12);
    assert("premise"@.len() == 7);
    assert("subpremise"@.len() == 10);
    assert("postal_code"@.len() == 11);
    assert("natural_feature"@.len() == 15);
    assert("airport"@.len() == 7);
    assert("park"@.len() == 4);
    assert("point_of_interest"@.len() == 17);
    assert("floor"@.len() == 5);
    assert("establishment"@.len() == 13);
    assert("parking"@.len() == 7);
    assert("post_box"@.len() == 8);
    assert("postal_town"@.len() == 11);
    assert("room"@.len() == 4);
    assert("street_number"@.len() == 13);
    assert("bus_station"@.len() == 11);
    assert("train_station"@.len() == 13);
    assert("transit_station"@.len() == 15);
    assert("ward"@[0] == 'w');
    assert("park"@[0] == 'p');
    assert("room"@[0] == 'r');
    assert("route"@[0] == 'r');
    assert("floor"@[0] == 'f');
    assert("country"@[0] == 'c');
    assert("premise"@[0] == 'p');
    assert("airport"@[0] == 'a');
    assert("parking"@[0] == 'p');
    assert("premise"@[1] == 'r');
    assert("parking"@[1] == 'a');
    assert("locality"@[0] == 'l');
    assert("post_box"@[0] == 'p');
    assert("sublocality"@[0] == 's');
    assert("postal_code"@[0] == 'p');
    assert("postal_town"@[0] == 'p');
    assert("bus_station"@[0] == 'b');
    assert("postal_code"@[7] == 'c');
    assert("postal_town"@[7] == 't');
    assert("intersection"@[0] == 'i');
    assert("neighborhood"@[0] == 'n');
    assert("establishment"@[0] == 'e');
    assert("street_number"@[0] == 's');
    assert("train_station"@[0] == 't');
    assert("colloquial_area"@[0] == 'c');
    assert("natural_feature"@[0] == 'n');
    assert("transit_station"@[0] == 't');
    assert("administrative_area_level_1"@[26] == '1');
    assert("administrative_area_level_2"@[26] == '2');
    assert("administrative_area_level_3"@[26] == '3');
    assert("administrative_area_level_4"@[26] == '4');
    assert("administrative_area_level_5"@[26] == '5');
}

} // verus!
