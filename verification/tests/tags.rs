use google_geocoding::{
    decode_tag, same_token, to_token, variant_name, ComponentFilterRule, DecodeError, FromLabel,
    Language, LocationType, Region, SetItem, StatusCode, Tagged, Type,
};

fn all_types() -> Vec<(Type, &'static str)> {
    vec![
        (Type::StreetAddress, "street_address"),
        (Type::Route, "route"),
        (Type::Intersection, "intersection"),
        (Type::Political, "political"),
        (Type::Country, "country"),
        (Type::AdministrativeAreaLevel1, "administrative_area_level_1"),
        (Type::AdministrativeAreaLevel2, "administrative_area_level_2"),
        (Type::AdministrativeAreaLevel3, "administrative_area_level_3"),
        (Type::AdministrativeAreaLevel4, "administrative_area_level_4"),
        (Type::AdministrativeAreaLevel5, "administrative_area_level_5"),
        (Type::ColloquialArea, "colloquial_area"),
        (Type::Locality, "locality"),
        (Type::Ward, "ward"),
        (Type::Sublocality, "sublocality"),
        (Type::Neighborhood, "neighborhood"),
        (Type::Premise, "premise"),
        (Type::Subpremise, "subpremise"),
        (Type::PostalCode, "postal_code"),
        (Type::NaturalFeature, "natural_feature"),
        (Type::Airport, "airport"),
        (Type::Park, "park"),
        (Type::PointOfInterest, "point_of_interest"),
        (Type::Floor, "floor"),
        (Type::Establishment, "establishment"),
        (Type::Parking, "parking"),
        (Type::PostBox, "post_box"),
        (Type::PostalTown, "postal_town"),
        (Type::Room, "room"),
        (Type::StreetNumber, "street_number"),
        (Type::BusStation, "bus_station"),
        (Type::TrainStation, "train_station"),
        (Type::TransitStation, "transit_station"),
    ]
}

#[test]
fn type_labels_are_the_catalog() {
    for (tag, label) in all_types() {
        assert_eq!(variant_name(&tag), label);
        assert_eq!(tag.variant_name(), label);
    }
}

#[test]
fn type_labels_read_back() {
    for (tag, label) in all_types() {
        assert_eq!(Type::from_label(label), Some(tag));
        assert_eq!(Type::from_label(variant_name(&tag)), Some(tag));
    }
}

#[test]
fn type_labels_are_distinct() {
    let all = all_types();
    for (i, (_, a)) in all.iter().enumerate() {
        for (j, (_, b)) in all.iter().enumerate() {
            assert_eq!(i == j, a == b);
        }
    }
}

#[test]
fn unknown_type_label_is_refused() {
    assert_eq!(Type::from_label("street"), None);
    assert_eq!(Type::from_label("STREET_ADDRESS"), None);
    assert_eq!(Type::from_label(""), None);
    assert_eq!(Type::from_label("route "), None);
    assert_eq!(Type::from_label("administrative_area_level_6"), None);
    assert_eq!(Type::from_label("caf\u{e9}"), None);
}

#[test]
fn location_type_labels() {
    let all = [
        (LocationType::Rooftop, "ROOFTOP"),
        (LocationType::RangeInterpolated, "RANGE_INTERPOLATED"),
        (LocationType::GeometricCenter, "GEOMETRIC_CENTER"),
        (LocationType::Approximate, "APPROXIMATE"),
    ];
    for (tag, label) in all {
        assert_eq!(variant_name(&tag), label);
        assert_eq!(LocationType::from_label(label), Some(tag));
    }
    assert_eq!(LocationType::from_label("rooftop"), None);
    assert_eq!(LocationType::from_label("EXACT"), None);
}

#[test]
fn status_labels() {
    let all = [
        (StatusCode::Okay, "OK"),
        (StatusCode::ZeroResults, "ZERO_RESULTS"),
        (StatusCode::OverQueryLimit, "OVER_QUERY_LIMIT"),
        (StatusCode::RequestDenied, "REQUEST_DENIED"),
        (StatusCode::InvalidRequest, "INVALID_REQUEST"),
        (StatusCode::UnknownError, "UNKNOWN_ERROR"),
    ];
    for (tag, label) in all {
        assert_eq!(variant_name(&tag), label);
        assert_eq!(StatusCode::from_label(label), Some(tag));
    }
    assert_eq!(StatusCode::from_label("ok"), None);
    assert_eq!(StatusCode::from_label("NOT_FOUND"), None);
}

#[test]
fn status_success_is_ok_or_zero_results() {
    assert!(StatusCode::Okay.succeeded());
    assert!(StatusCode::ZeroResults.succeeded());
    assert!(!StatusCode::OverQueryLimit.succeeded());
    assert!(!StatusCode::RequestDenied.succeeded());
    assert!(!StatusCode::InvalidRequest.succeeded());
    assert!(!StatusCode::UnknownError.succeeded());
}

#[test]
fn status_descriptions() {
    assert_eq!(StatusCode::Okay.to_string(), "No errors occurred");
    assert_eq!(
        StatusCode::ZeroResults.to_string(),
        "Geocode was successful but returned no results."
    );
    assert_eq!(StatusCode::OverQueryLimit.to_string(), "You are over your quota");
    assert_eq!(StatusCode::RequestDenied.to_string(), "Request denied");
    assert_eq!(StatusCode::InvalidRequest.to_string(), "Query component missing");
    assert_eq!(StatusCode::UnknownError.to_string(), "Unknown error");
}

#[test]
fn language_codes() {
    assert_eq!(variant_name(&Language::English), "en");
    assert_eq!(variant_name(&Language::PortugueseBrazil), "pt-BR");
    assert_eq!(variant_name(&Language::Arabic), "ar");
    assert_eq!(variant_name(&Language::Filipino), "fil");
    assert_eq!(variant_name(&Language::ChineseTraditional), "zh-TW");
    assert_eq!(variant_name(&Language::EnglishGreatBritain), "en-GB");
}

#[test]
fn region_codes() {
    assert_eq!(variant_name(&Region::UnitedStates), ".us");
    assert_eq!(variant_name(&Region::AscensionIsland), ".ac");
    assert_eq!(variant_name(&Region::Zimbabwe), ".zw");
    assert_eq!(variant_name(&Region::UnitedKingdom), ".uk");
    assert_eq!(variant_name(&Region::Germany), ".de");
}

#[test]
fn rule_labels_ignore_the_payload() {
    assert_eq!(variant_name(&ComponentFilterRule::PostalCode("94043".to_string())), "postal_code");
    assert_eq!(variant_name(&ComponentFilterRule::PostalCode(String::new())), "postal_code");
    assert_eq!(variant_name(&ComponentFilterRule::Country("US".to_string())), "country");
    assert_eq!(variant_name(&ComponentFilterRule::Country("FR".to_string())), "country");
    assert_eq!(variant_name(&ComponentFilterRule::Route("US 101".to_string())), "route");
    assert_eq!(variant_name(&ComponentFilterRule::Locality("Paris".to_string())), "locality");
    assert_eq!(
        variant_name(&ComponentFilterRule::AdministrativeArea("CA".to_string())),
        "administrative_area"
    );
}

#[test]
fn country_rule_encodes_with_colon() {
    let rule = ComponentFilterRule::Country("US".to_string());
    assert_eq!(to_token(&rule), "country:US");
}

#[test]
fn rules_encode_as_label_colon_value() {
    assert_eq!(to_token(&ComponentFilterRule::PostalCode("94043".to_string())), "postal_code:94043");
    assert_eq!(to_token(&ComponentFilterRule::Route("US 101".to_string())), "route:US 101");
    assert_eq!(to_token(&ComponentFilterRule::Locality("a:b|c".to_string())), "locality:a:b|c");
    assert_eq!(
        to_token(&ComponentFilterRule::AdministrativeArea(String::new())),
        "administrative_area:"
    );
}

#[test]
fn plain_tags_encode_as_their_label() {
    assert_eq!(to_token(&Type::Country), "country");
    assert_eq!(to_token(&LocationType::Rooftop), "ROOFTOP");
    assert_eq!(Type::Country.value(), None);
    assert_eq!(ComponentFilterRule::Country("US".to_string()).value(), Some("US"));
}

#[test]
fn same_token_compares_label_and_payload() {
    let us = ComponentFilterRule::Country("US".to_string());
    let us2 = ComponentFilterRule::Country("US".to_string());
    let fr = ComponentFilterRule::Country("FR".to_string());
    let route = ComponentFilterRule::Route("US".to_string());
    assert!(same_token(&us, &us2));
    assert!(!same_token(&us, &fr));
    assert!(!same_token(&us, &route));
    assert!(same_token(&Type::Park, &Type::Park));
    assert!(!same_token(&Type::Park, &Type::Parking));
}

#[test]
fn rule_clone_is_equal() {
    let rule = ComponentFilterRule::Locality("Mountain View".to_string());
    assert_eq!(rule.clone(), rule);
}

#[test]
fn decode_tag_names_the_unknown_label() {
    assert_eq!(decode_tag::<StatusCode>("OK"), Ok(StatusCode::Okay));
    assert_eq!(decode_tag::<LocationType>("APPROXIMATE"), Ok(LocationType::Approximate));
    assert_eq!(
        decode_tag::<StatusCode>("TEAPOT"),
        Err(DecodeError::UnknownTag("TEAPOT".to_string()))
    );
    assert_eq!(decode_tag::<Type>(""), Err(DecodeError::UnknownTag(String::new())));
}
