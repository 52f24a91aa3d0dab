use google_geocoding::{
    addresses, locations, Action, AddressComponent, ApiSet, ApiStatusError, ComponentFilterRule,
    Connection, Coordinates, DecodeError, DegeocodeQuery, Event, FormattedAddress, GeocodeQuery,
    GeocodingError, Geometry, Language, LocationType, Pipeline, Place, PlaceId, Reply,
    ReplyResult, RequestError, StatusCode, Type, Viewport,
};

const ADDRESS: &str = "1600 Amphitheatre Pkwy, Mountain View, CA 94043, USA";
const COORDINATES: (f64, f64) = (37.42241, -122.08561);
const ENDPOINT: &str = "https://maps.google.com/maps/api/geocode/json";

fn point(lat: f64, lon: f64) -> Coordinates {
    Coordinates::try_new(&lat.to_string(), &lon.to_string()).unwrap()
}

fn canned_reply(lat: &str, lng: &str, formatted: &str) -> Reply {
    let types = ApiSet::<Type>::decode(&vec!["street_address".to_string()]).unwrap();
    Reply {
        address_components: vec![
            AddressComponent::new(
                "1600".to_string(),
                "1600".to_string(),
                ApiSet::from_vec(vec![Type::StreetNumber]),
            ),
            AddressComponent::new(
                "California".to_string(),
                "CA".to_string(),
                ApiSet::from_vec(vec![Type::AdministrativeAreaLevel1, Type::Political]),
            ),
        ],
        formatted_address: FormattedAddress::new(formatted.to_string()),
        geometry: Geometry {
            location: Coordinates::try_new(lat, lng).unwrap(),
            location_type: LocationType::Rooftop,
            viewport: Viewport {
                northeast: Coordinates::try_new("37.4237", "-122.0842").unwrap(),
                southwest: Coordinates::try_new("37.4210", "-122.0869").unwrap(),
            },
            bounds: None,
        },
        place_id: PlaceId::new("ChIJ2eUgeAK6j4ARbn5u_wAGqWA".to_string()),
        postcode_localities: None,
        types,
    }
}

fn envelope(status: StatusCode, message: Option<&str>, results: Vec<Reply>) -> ReplyResult {
    ReplyResult { error_message: message.map(|m| m.to_string()), results, status }
}

/// Drives a call to its end, answering its one request with `reply`, and
/// gives the outcome together with the address that was asked for.
fn drive(call: Pipeline, reply: Event) -> (Result<Vec<Reply>, GeocodingError>, Option<String>) {
    let mut reply = Some(reply);
    let mut asked = None;
    let mut call = call;
    let mut event = Event::Start;
    loop {
        let (next, action) = call.step(event);
        call = next;
        event = match action {
            Action::Fetch(url) => {
                assert!(asked.is_none(), "a second request was asked for");
                asked = Some(url);
                reply.take().unwrap()
            }
            Action::Proceed => Event::Continue,
            Action::Finish => return (call.into_outcome().unwrap(), asked),
            Action::Ignore => panic!("the pipeline ignored an event of its own asking"),
        };
    }
}

fn geocode_with(
    place: &str,
    reply: ReplyResult,
) -> Result<Vec<Coordinates>, GeocodingError> {
    let query = GeocodeQuery::from(Place::from(place));
    let (outcome, _) = drive(Connection::new().geocode(&query), Event::Envelope(reply));
    outcome.map(locations)
}

fn degeocode_with(
    coordinates: Coordinates,
    reply: ReplyResult,
) -> Result<Vec<FormattedAddress>, GeocodingError> {
    let query = DegeocodeQuery::from(coordinates);
    let (outcome, _) = drive(Connection::new().degeocode(&query), Event::Envelope(reply));
    outcome.map(addresses)
}

fn one_result() -> ReplyResult {
    envelope(StatusCode::Okay, None, vec![canned_reply("37.4224", "-122.0856", ADDRESS)])
}

#[test]
fn address() {
    degeocode_with(point(COORDINATES.0, COORDINATES.1), one_result()).unwrap();
}

#[test]
fn coordinates() {
    geocode_with(ADDRESS, one_result()).unwrap();
}

#[test]
fn connection_both() {
    let connection = Connection::new();
    let forward = connection.geocode(&GeocodeQuery::from(Place::from(ADDRESS)));
    let backward =
        connection.degeocode(&DegeocodeQuery::from(point(COORDINATES.0, COORDINATES.1)));
    let (first, _) = drive(forward, Event::Envelope(one_result()));
    let (second, _) = drive(backward, Event::Envelope(one_result()));
    assert_eq!(first.unwrap().len(), 1);
    assert_eq!(second.unwrap().len(), 1);
}

#[test]
fn compare() {
    let mut coordinates = geocode_with(ADDRESS, one_result()).unwrap().into_iter();
    let first_coordinates = coordinates.next().unwrap();
    let mut addresses = degeocode_with(first_coordinates, one_result()).unwrap().into_iter();
    let first_address = addresses.next().unwrap();
    assert_eq!(ADDRESS, first_address.as_str());
}

#[test]
fn connection_address() {
    let query = DegeocodeQuery::from(point(COORDINATES.0, COORDINATES.1));
    let (outcome, asked) = drive(Connection::new().degeocode(&query), Event::Envelope(one_result()));
    assert_eq!(asked.unwrap(), format!("{}?latlng=37.42241%2C-122.08561", ENDPOINT));
    assert_eq!(outcome.unwrap(), vec![canned_reply("37.4224", "-122.0856", ADDRESS)]);
}

#[test]
fn connection_coordinates() {
    let query = GeocodeQuery::from(Place::from(ADDRESS));
    let (outcome, asked) = drive(Connection::new().geocode(&query), Event::Envelope(one_result()));
    assert_eq!(
        asked.unwrap(),
        format!(
            "{}?address=1600+Amphitheatre+Pkwy%2C+Mountain+View%2C+CA+94043%2C+USA",
            ENDPOINT
        )
    );
    assert_eq!(outcome.unwrap(), vec![canned_reply("37.4224", "-122.0856", ADDRESS)]);
}

#[test]
fn end_to_end_with_a_canned_reply() {
    let points = geocode_with(ADDRESS, one_result()).unwrap();
    assert_eq!(points.len(), 1);
    assert_eq!(points[0].latitude(), "37.4224");
    assert_eq!(points[0].longitude(), "-122.0856");
    assert_eq!(points[0].latitude().parse::<f64>().unwrap(), 37.4224);
    assert_eq!(points[0].longitude().parse::<f64>().unwrap(), -122.0856);
    let texts = degeocode_with(points[0].clone(), one_result()).unwrap();
    assert_eq!(texts[0].as_str(), ADDRESS);
    assert_eq!(texts[0].to_string(), ADDRESS);
}

#[test]
fn the_endpoint_is_fixed() {
    assert_eq!(Connection::url(), ENDPOINT);
}

#[test]
fn a_built_call_holds_the_request_address() {
    let query = GeocodeQuery::new(Place::ComponentFilter {
        components: ApiSet::new()
            .with(ComponentFilterRule::Country("US".to_string()))
            .with(ComponentFilterRule::PostalCode("94043".to_string())),
    })
    .language(Language::PortugueseBrazil);
    let call = Connection::new().geocode(&query);
    assert_eq!(
        call,
        Pipeline::Built {
            url: format!(
                "{}?components=country%3AUS%7Cpostal_code%3A94043&language=pt-BR",
                ENDPOINT
            )
        }
    );
    assert!(!call.is_resolved());
}

#[test]
fn get_encodes_any_parameters() {
    let pairs = vec![
        ("a b".to_string(), "c&d=e".to_string()),
        ("caf\u{e9}".to_string(), "100%".to_string()),
    ];
    let call = Connection::new().get(&pairs);
    assert_eq!(
        call,
        Pipeline::Built { url: format!("{}?a+b=c%26d%3De&caf%C3%A9=100%25", ENDPOINT) }
    );
    assert_eq!(
        Connection::new().get(&Vec::new()),
        Pipeline::Built { url: format!("{}?", ENDPOINT) }
    );
}

#[test]
fn the_request_address_parses_back_to_the_parameters() {
    let query = GeocodeQuery::from(Place::from(ADDRESS)).language(Language::English);
    let call = Connection::new().geocode(&query);
    let url = match call {
        Pipeline::Built { url } => url,
        other => panic!("not built: {:?}", other),
    };
    let parsed = url::Url::parse(&url).unwrap();
    assert_eq!(parsed.scheme(), "https");
    assert_eq!(parsed.host_str(), Some("maps.google.com"));
    assert_eq!(parsed.path(), "/maps/api/geocode/json");
    let sent: Vec<(String, String)> =
        parsed.query_pairs().map(|(k, v)| (k.into_owned(), v.into_owned())).collect();
    assert_eq!(sent, query.to_pairs());
}

#[test]
fn zero_results_is_a_success_without_results() {
    let (outcome, _) = drive(
        Connection::new().geocode(&GeocodeQuery::from(Place::from("nowhere"))),
        Event::Envelope(envelope(StatusCode::ZeroResults, None, Vec::new())),
    );
    assert_eq!(outcome, Ok(Vec::new()));
    assert_eq!(envelope(StatusCode::ZeroResults, None, Vec::new()).resolve(), Ok(Vec::new()));
    assert_eq!(geocode_with("nowhere", envelope(StatusCode::ZeroResults, None, Vec::new())), Ok(Vec::new()));
}

#[test]
fn zero_results_never_carries_results() {
    let stray = envelope(StatusCode::ZeroResults, Some("odd"), one_result().results);
    assert_eq!(stray.resolve(), Ok(Vec::new()));
}

#[test]
fn over_query_limit_is_that_failure_whatever_the_results() {
    let bare = envelope(StatusCode::OverQueryLimit, None, Vec::new());
    assert_eq!(
        bare.resolve(),
        Err(ApiStatusError { status: StatusCode::OverQueryLimit, message: None })
    );
    let full = envelope(StatusCode::OverQueryLimit, Some("slow down"), one_result().results);
    let (outcome, _) = drive(
        Connection::new().geocode(&GeocodeQuery::from(Place::from(ADDRESS))),
        Event::Envelope(full),
    );
    assert_eq!(
        outcome,
        Err(GeocodingError::Api(ApiStatusError {
            status: StatusCode::OverQueryLimit,
            message: Some("slow down".to_string()),
        }))
    );
}

#[test]
fn every_failure_status_keeps_status_and_message() {
    for status in [
        StatusCode::OverQueryLimit,
        StatusCode::RequestDenied,
        StatusCode::InvalidRequest,
        StatusCode::UnknownError,
    ] {
        let resolved = envelope(status, Some("why"), one_result().results).resolve();
        assert_eq!(resolved, Err(ApiStatusError { status, message: Some("why".to_string()) }));
    }
}

#[test]
fn ok_gives_the_results_in_their_order() {
    let results = vec![
        canned_reply("1", "2", "first"),
        canned_reply("3", "4", "second"),
        canned_reply("5", "6", "third"),
    ];
    let resolved = envelope(StatusCode::Okay, Some("ignored"), results).resolve().unwrap();
    assert_eq!(resolved.len(), 3);
    let texts: Vec<String> = addresses(resolved).iter().map(|a| a.to_string()).collect();
    assert_eq!(texts, vec!["first", "second", "third"]);
}

#[test]
fn projections_keep_the_order() {
    let results = vec![canned_reply("1", "2", "first"), canned_reply("3", "4", "second")];
    let points: Vec<String> = locations(results).iter().map(|p| p.to_string()).collect();
    assert_eq!(points, vec!["1,2", "3,4"]);
    assert!(locations(Vec::new()).is_empty());
    assert!(addresses(Vec::new()).is_empty());
}

#[test]
fn a_transport_failure_resolves_the_call() {
    let (outcome, asked) = drive(
        Connection::new().geocode(&GeocodeQuery::from(Place::from(ADDRESS))),
        Event::TransportFailed("connection reset".to_string()),
    );
    assert!(asked.is_some());
    assert_eq!(outcome, Err(GeocodingError::Transport("connection reset".to_string())));
}

#[test]
fn a_decode_failure_resolves_the_call() {
    let (outcome, _) = drive(
        Connection::new().geocode(&GeocodeQuery::from(Place::from(ADDRESS))),
        Event::DecodeFailed(DecodeError::Malformed("expected value at line 1".to_string())),
    );
    assert_eq!(
        outcome,
        Err(GeocodingError::Decode(DecodeError::Malformed(
            "expected value at line 1".to_string()
        )))
    );
}

#[test]
fn the_stages_follow_one_another() {
    let call = Connection::new().geocode(&GeocodeQuery::from(Place::from("Paris")));
    assert_eq!(call, Pipeline::Built { url: format!("{}?address=Paris", ENDPOINT) });
    let (call, action) = call.step(Event::Start);
    assert_eq!(call, Pipeline::InFlight);
    assert_eq!(action, Action::Fetch(format!("{}?address=Paris", ENDPOINT)));
    let (call, action) = call.step(Event::Envelope(one_result()));
    assert_eq!(call, Pipeline::Decoded { envelope: one_result() });
    assert_eq!(action, Action::Proceed);
    let (call, action) = call.step(Event::Continue);
    assert_eq!(call, Pipeline::Resolved { outcome: Ok(one_result().results) });
    assert_eq!(action, Action::Finish);
    assert!(call.is_resolved());
    assert_eq!(call.into_outcome(), Some(Ok(one_result().results)));
}

#[test]
fn events_out_of_turn_are_ignored() {
    let built = Pipeline::Built { url: "u".to_string() };
    for event in [
        Event::Continue,
        Event::Envelope(one_result()),
        Event::TransportFailed("x".to_string()),
        Event::DecodeFailed(DecodeError::Malformed("x".to_string())),
    ] {
        let (next, action) = Pipeline::Built { url: "u".to_string() }.step(event);
        assert_eq!(next, built);
        assert_eq!(action, Action::Ignore);
    }
    for event in [Event::Start, Event::Continue] {
        let (next, action) = Pipeline::InFlight.step(event);
        assert_eq!(next, Pipeline::InFlight);
        assert_eq!(action, Action::Ignore);
    }
    for event in [
        Event::Start,
        Event::Envelope(one_result()),
        Event::TransportFailed("x".to_string()),
        Event::DecodeFailed(DecodeError::Malformed("x".to_string())),
    ] {
        let (next, action) = Pipeline::Decoded { envelope: one_result() }.step(event);
        assert_eq!(next, Pipeline::Decoded { envelope: one_result() });
        assert_eq!(action, Action::Ignore);
    }
    assert_eq!(Pipeline::InFlight.into_outcome(), None);
    assert_eq!(built.into_outcome(), None);
}

#[test]
fn a_resolved_call_stays_resolved() {
    let over = || Pipeline::Resolved { outcome: Err(GeocodingError::Transport("x".to_string())) };
    for event in [
        Event::Start,
        Event::Continue,
        Event::Envelope(one_result()),
        Event::TransportFailed("y".to_string()),
        Event::DecodeFailed(DecodeError::Malformed("z".to_string())),
    ] {
        let (next, action) = over().step(event);
        assert_eq!(next, over());
        assert_eq!(action, Action::Finish);
    }
}

#[test]
fn address_component_keeps_its_parts() {
    let component = AddressComponent::new(
        "Alaska".to_string(),
        "AK".to_string(),
        ApiSet::from_vec(vec![Type::AdministrativeAreaLevel1, Type::Political]),
    );
    assert_eq!(component.long_name(), "Alaska");
    assert_eq!(component.short_name(), "AK");
    assert_eq!(component.types().encode(), "administrative_area_level_1|political");
    assert_eq!(PlaceId::new("abc".to_string()).as_str(), "abc");
}

#[test]
fn an_overlong_query_makes_no_request() {
    let long = "a".repeat(16_777_217);
    let call = Connection::new().geocode(&GeocodeQuery::from(long));
    assert!(call.is_resolved());
    let (call, action) = call.step(Event::Start);
    assert_eq!(action, Action::Finish);
    assert_eq!(
        call.into_outcome(),
        Some(Err(GeocodingError::Request(RequestError::TooLong)))
    );
}

#[test]
fn a_query_at_the_limit_makes_a_request() {
    let pairs = vec![("k".to_string(), "a".repeat(16_777_216 - 2))];
    let call = Connection::new().get(&pairs);
    match call {
        Pipeline::Built { url } => assert_eq!(url.len(), ENDPOINT.len() + 1 + 16_777_216),
        other => panic!("not built, resolved: {}", other.is_resolved()),
    }
}
