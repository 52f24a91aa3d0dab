use google_geocoding::{
    ApiSet, ComponentFilterRule, ConstructionError, Coordinates, DegeocodeQuery, GeocodeQuery,
    GeocodingError, Language, LocationType, Place, Region, Type, Viewport,
};

fn pair(key: &str, value: &str) -> (String, String) {
    (key.to_string(), value.to_string())
}

fn keys(pairs: &[(String, String)]) -> Vec<&str> {
    pairs.iter().map(|p| p.0.as_str()).collect()
}

fn rules() -> ApiSet<ComponentFilterRule> {
    ApiSet::new()
        .with(ComponentFilterRule::Country("US".to_string()))
        .with(ComponentFilterRule::PostalCode("94043".to_string()))
}

fn viewport() -> Viewport {
    Viewport {
        northeast: Coordinates::try_new("34.236144", "-118.500938").unwrap(),
        southwest: Coordinates::try_new("34.172684", "-118.604794").unwrap(),
    }
}

#[test]
fn free_text_is_sent_as_address() {
    let query = GeocodeQuery::new(Place::from("1600 Amphitheatre Pkwy"));
    assert_eq!(query.to_pairs(), vec![pair("address", "1600 Amphitheatre Pkwy")]);
}

#[test]
fn free_text_never_sends_components() {
    let query = GeocodeQuery::new(Place::from("Paris"))
        .bounds(viewport())
        .language(Language::French)
        .region(Region::France);
    let pairs = query.to_pairs();
    assert_eq!(keys(&pairs), vec!["address", "bounds", "language", "region"]);
    assert!(!keys(&pairs).contains(&"components"));
}

#[test]
fn rules_never_send_address() {
    let query = GeocodeQuery::new(Place::ComponentFilter { components: rules() })
        .language(Language::English);
    let pairs = query.to_pairs();
    assert_eq!(
        pairs,
        vec![pair("components", "country:US|postal_code:94043"), pair("language", "en")]
    );
    assert!(!keys(&pairs).contains(&"address"));
}

#[test]
fn unset_fields_are_left_out() {
    let query = GeocodeQuery::new(Place::from("Paris")).region(Region::France);
    assert_eq!(query.to_pairs(), vec![pair("address", "Paris"), pair("region", ".fr")]);
}

#[test]
fn every_field_of_a_forward_query() {
    let query = GeocodeQuery::new(Place::from(String::from("Paris")))
        .region(Region::UnitedStates)
        .language(Language::PortugueseBrazil)
        .bounds(viewport());
    assert_eq!(
        query.to_pairs(),
        vec![
            pair("address", "Paris"),
            pair("bounds", "34.172684,-118.604794|34.236144,-118.500938"),
            pair("language", "pt-BR"),
            pair("region", ".us"),
        ]
    );
}

#[test]
fn the_later_setting_wins() {
    let query = GeocodeQuery::new(Place::from("Paris"))
        .language(Language::German)
        .region(Region::Germany)
        .language(Language::English)
        .region(Region::UnitedKingdom);
    assert_eq!(
        query.to_pairs(),
        vec![pair("address", "Paris"), pair("language", "en"), pair("region", ".uk")]
    );
    let once = GeocodeQuery::new(Place::from("Paris"))
        .language(Language::English)
        .region(Region::UnitedKingdom);
    assert_eq!(query, once);
}

#[test]
fn query_from_place_sets_nothing_else() {
    let query = GeocodeQuery::from(Place::from("Paris"));
    assert_eq!(query, GeocodeQuery::new(Place::from("Paris")));
    assert_eq!(query.to_pairs(), vec![pair("address", "Paris")]);
}

#[test]
fn place_from_text_is_an_address() {
    assert_eq!(Place::from("Paris"), Place::Address { address: "Paris".to_string() });
    assert_eq!(Place::from(String::from("Paris")), Place::Address { address: "Paris".to_string() });
    assert_eq!(Place::from("Paris").to_pair(), pair("address", "Paris"));
    assert_eq!(
        Place::ComponentFilter { components: rules() }.to_pair(),
        pair("components", "country:US|postal_code:94043")
    );
}

#[test]
fn reverse_query_sends_latlng() {
    let point = Coordinates::try_new("37.42241", "-122.08561").unwrap();
    let query = DegeocodeQuery::new(point);
    assert_eq!(query.to_pairs(), vec![pair("latlng", "37.42241,-122.08561")]);
}

#[test]
fn every_field_of_a_reverse_query() {
    let point = Coordinates::try_new("37.42241", "-122.08561").unwrap();
    let query = DegeocodeQuery::new(point)
        .location_type(ApiSet::from_vec(vec![LocationType::Rooftop, LocationType::Approximate]))
        .result_type(ApiSet::from_vec(vec![Type::Country, Type::Locality]))
        .language(Language::Japanese);
    assert_eq!(
        query.to_pairs(),
        vec![
            pair("latlng", "37.42241,-122.08561"),
            pair("language", "ja"),
            pair("result_type", "country|locality"),
            pair("location_type", "ROOFTOP|APPROXIMATE"),
        ]
    );
}

#[test]
fn reverse_query_later_setting_wins() {
    let point = Coordinates::try_new("1", "2").unwrap();
    let query = DegeocodeQuery::new(point)
        .result_type(ApiSet::from_vec(vec![Type::Country]))
        .result_type(ApiSet::from_vec(vec![Type::Route]))
        .language(Language::Thai)
        .language(Language::Dutch);
    assert_eq!(
        query.to_pairs(),
        vec![pair("latlng", "1,2"), pair("language", "nl"), pair("result_type", "route")]
    );
}

#[test]
fn reverse_query_from_point_sets_nothing_else() {
    let point = Coordinates::try_new("1", "2").unwrap();
    assert_eq!(DegeocodeQuery::from(point.clone()), DegeocodeQuery::new(point));
}

#[test]
fn reverse_query_at_two_numbers() {
    let query = DegeocodeQuery::at("37.42241", "-122.08561").unwrap();
    assert_eq!(query.to_pairs(), vec![pair("latlng", "37.42241,-122.08561")]);
    assert_eq!(
        query,
        DegeocodeQuery::new(Coordinates::try_new("37.42241", "-122.08561").unwrap())
    );
}

#[test]
fn reverse_query_off_the_globe_is_refused() {
    assert_eq!(
        DegeocodeQuery::at("91", "0"),
        Err(GeocodingError::Construction(ConstructionError::Latitude))
    );
    assert_eq!(
        DegeocodeQuery::at("0", "181"),
        Err(GeocodingError::Construction(ConstructionError::Longitude))
    );
    assert_eq!(
        GeocodingError::from(ConstructionError::Longitude),
        GeocodingError::Construction(ConstructionError::Longitude)
    );
}

#[test]
fn text_becomes_a_forward_query() {
    assert_eq!(GeocodeQuery::from("Paris"), GeocodeQuery::new(Place::from("Paris")));
    assert_eq!(GeocodeQuery::from(String::from("Paris")), GeocodeQuery::new(Place::from("Paris")));
}
