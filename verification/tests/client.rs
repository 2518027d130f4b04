use cities_client::client::REASON_NOT_A_URL;
use cities_client::client::REASON_TOO_LONG;
use cities_client::target::TargetFault;
use cities_client::target::MAX_TARGET_BYTES;
use cities_client::CitiesQuery;
use cities_client::Client;
use cities_client::ClientError;
use cities_client::DistQuery;
use cities_client::Operation;
use cities_client::Request;

#[test]
fn client_keeps_its_base_address() {
    assert_eq!(Client::new("http://h:3000").base_url(), "http://h:3000");
    assert_eq!(Client::new("https://cities.example/api/").base_url(), "https://cities.example/api/");
}

#[test]
fn default_client_is_local() {
    assert_eq!(Client::default().base_url(), "http://localhost:3000");
    assert_eq!(Client::default(), Client::new("http://localhost:3000"));
}

#[test]
fn full_uri_has_one_slash_between_base_and_path() {
    for base in ["http://h:3000", "http://h:3000/"] {
        for path in ["cities", "/cities"] {
            assert_eq!(Client::new(base).get_full_uri(path), "http://h:3000/cities");
        }
    }
}

#[test]
fn operations_have_their_paths_and_names() {
    assert_eq!(Operation::RandomCity.path(), "rand");
    assert_eq!(Operation::Cities.path(), "cities");
    assert_eq!(Operation::Distance.path(), "distance");
    assert_eq!(Operation::CountryOutline.path(), "countries");
    assert_eq!(Operation::RandomCity.name(), "get_random_city");
    assert_eq!(Operation::Cities.name(), "get_cities");
    assert_eq!(Operation::Distance.name(), "get_distance");
    assert_eq!(Operation::CountryOutline.name(), "get_country_outline");
}

#[test]
fn random_city_request_has_no_parameters() {
    assert_eq!(
        Client::default().random_city_request(),
        Ok(Request { operation: Operation::RandomCity, url: "http://localhost:3000/rand".to_string() })
    );
}

#[test]
fn cities_request_carries_the_present_fields() {
    let mut query = CitiesQuery::new();
    query.minimum_population = Some(100000);
    query.limit = Some(2);
    assert_eq!(
        Client::new("http://h:3000/").cities_request(&query),
        Ok(Request {
            operation: Operation::Cities,
            url: "http://h:3000/cities?minimum_population=100000&limit=2".to_string(),
        })
    );
}

#[test]
fn cities_request_of_empty_query_has_no_parameters() {
    assert_eq!(
        Client::new("http://h:3000").cities_request(&CitiesQuery::new()),
        Ok(Request { operation: Operation::Cities, url: "http://h:3000/cities".to_string() })
    );
}

#[test]
fn cities_request_encodes_values() {
    let mut query = CitiesQuery::new();
    query.point = Some("POINT(12.49 41.89)".to_string());
    query.radius = Some(30);
    query.sort_by_random = Some(true);
    assert_eq!(
        Client::new("http://h:3000").cities_request(&query).unwrap().url,
        "http://h:3000/cities?point=POINT%2812.49+41.89%29&radius=30&sort_by_random=true"
    );
}

#[test]
fn distance_request_carries_both_identities() {
    assert_eq!(
        Client::new("http://h:3000").distance_request(&DistQuery::new(17, 4)),
        Ok(Request {
            operation: Operation::Distance,
            url: "http://h:3000/distance?city_id1=17&city_id2=4".to_string(),
        })
    );
}

#[test]
fn country_outline_request_carries_the_code() {
    assert_eq!(
        Client::new("http://h:3000").country_outline_request("ZZ"),
        Ok(Request {
            operation: Operation::CountryOutline,
            url: "http://h:3000/countries?country_code=ZZ".to_string(),
        })
    );
    assert_eq!(
        Client::new("http://h:3000").country_outline_request("a&b=c").unwrap().url,
        "http://h:3000/countries?country_code=a%26b%3Dc"
    );
}

#[test]
fn base_that_is_no_url_is_a_transport_error() {
    assert_eq!(
        Client::new("nowhere").random_city_request(),
        Err(ClientError::TransportError {
            operation: Operation::RandomCity,
            reason: REASON_NOT_A_URL.to_string(),
        })
    );
    assert_eq!(
        Client::new("").distance_request(&DistQuery::new(1, 2)),
        Err(ClientError::TransportError {
            operation: Operation::Distance,
            reason: REASON_NOT_A_URL.to_string(),
        })
    );
}

#[test]
fn request_that_is_too_long_is_a_transport_error() {
    let code = "Z".repeat(MAX_TARGET_BYTES);
    assert_eq!(
        Client::new("http://h:3000").country_outline_request(&code),
        Err(ClientError::TransportError {
            operation: Operation::CountryOutline,
            reason: REASON_TOO_LONG.to_string(),
        })
    );
}

#[test]
fn request_is_made_from_a_target() {
    assert_eq!(
        Request::from_target(Operation::Cities, Ok("http://h/cities".to_string())),
        Ok(Request { operation: Operation::Cities, url: "http://h/cities".to_string() })
    );
    assert_eq!(
        Request::from_target(Operation::Cities, Err(TargetFault::TooLong)),
        Err(ClientError::TransportError {
            operation: Operation::Cities,
            reason: "the request address is too long".to_string(),
        })
    );
    assert_eq!(
        Request::from_target(Operation::Distance, Err(TargetFault::NotAUrl)),
        Err(ClientError::TransportError {
            operation: Operation::Distance,
            reason: "the request address is not an absolute URL".to_string(),
        })
    );
}
