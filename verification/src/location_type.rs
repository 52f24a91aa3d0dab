//! How precisely a result is located.

use vstd::prelude::*;
use crate::tag::{str_eq, FromLabel, SetItem, Tagged};

verus! {

/// What the location of a geometry refers to.
#[derive(Clone, Copy, Debug, PartialEq, Eq, Hash, Structural)]
pub enum LocationType {
    /// A precise geocode, accurate down to street address precision.
    Rooftop,
    /// An approximation, usually on a road, interpolated between two precise points.
    RangeInterpolated,
    /// The geometric center of a result such as a street or a region.
    GeometricCenter,
    /// An approximate result.
    Approximate,
}

impl Tagged for LocationType {
    open spec fn label(&self) -> Seq<char> {
        match self {
            LocationType::Rooftop => "ROOFTOP"@,
            LocationType::RangeInterpolated => "RANGE_INTERPOLATED"@,
            LocationType::GeometricCenter => "GEOMETRIC_CENTER"@,
            LocationType::Approximate => "APPROXIMATE"@,
        }
    }

    fn variant_name(&self) -> (name: &'static str) {
        match self {
            LocationType::Rooftop => "ROOFTOP",
            LocationType::RangeInterpolated => "RANGE_INTERPOLATED",
            LocationType::GeometricCenter => "GEOMETRIC_CENTER",
            LocationType::Approximate => "APPROXIMATE",
        }
    }
}

impl SetItem for LocationType {
    open spec fn payload(&self) -> Option<Seq<char>> {
        None
    }

    fn value(&self) -> (v: Option<&str>) {
        None
    }

    proof fn lemma_label_has_no_colon(&self) {
        reveal_strlit("ROOFTOP");
        reveal_strlit("RANGE_INTERPOLATED");
        reveal_strlit("GEOMETRIC_CENTER");
        reveal_strlit("APPROXIMATE");
    }
}

impl FromLabel for LocationType {
    fn from_label(label: &str) -> (tag: Option<Self>) {
        if str_eq(label, "ROOFTOP") {
            Some(LocationType::Rooftop)
        } else if str_eq(label, "RANGE_INTERPOLATED") {
            Some(LocationType::RangeInterpolated)
        } else if str_eq(label, "GEOMETRIC_CENTER") {
            Some(LocationType::GeometricCenter)
        } else if str_eq(label, "APPROXIMATE") {
            Some(LocationType::Approximate)
        } else {
            None
        }
    }
}

/// Two location types with the same label are the same.
pub proof fn lemma_location_type_label_injective(a: LocationType, b: LocationType)
    requires
        a.label() == b.label(),
    ensures
        a == b,
{
    reveal_strlit("ROOFTOP");
    reveal_strlit("RANGE_INTERPOLATED");
    reveal_strlit("GEOMETRIC_CENTER");
    reveal_strlit("APPROXIMATE");
    // The lengths tell most labels apart; one character settles the rest.
    assert("ROOFTOP"@.len() == 7);
    assert("RANGE_INTERPOLATED"@.len() == 18);
    assert("GEOMETRIC_CENTER"@.len() == 16);
    assert("APPROXIMATE"@.len() == 11);
}

} // verus!
