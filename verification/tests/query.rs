use cities_client::query::all_names_distinct;
use cities_client::query::all_names_known;
use cities_client::query::lookup;
use cities_client::CitiesQuery;
use cities_client::ClientError;
use cities_client::DistQuery;

fn pair(name: &str, value: &str) -> (String, String) {
    (name.to_string(), value.to_string())
}

fn full_query() -> CitiesQuery {
    CitiesQuery {
        point: Some("POINT(12.49 41.89)".to_string()),
        radius: Some(250),
        minimum_population: Some(100000),
        country: Some("Côte d'Ivoire".to_string()),
        sort_by_population: Some(true),
        sort_by_random: Some(false),
        limit: Some(2),
    }
}

#[test]
fn empty_query_has_no_parameters() {
    assert_eq!(CitiesQuery::new().to_params(), Vec::<(String, String)>::new());
    assert_eq!(CitiesQuery::default(), CitiesQuery::new());
    assert_eq!(CitiesQuery::new().point, None);
    assert_eq!(CitiesQuery::new().limit, None);
}

#[test]
fn full_query_has_one_parameter_for_each_field() {
    assert_eq!(
        full_query().to_params(),
        vec![
            pair("point", "POINT(12.49 41.89)"),
            pair("radius", "250"),
            pair("minimum_population", "100000"),
            pair("country", "Côte d'Ivoire"),
            pair("sort_by_population", "true"),
            pair("sort_by_random", "false"),
            pair("limit", "2"),
        ]
    );
}

#[test]
fn absent_fields_are_left_out() {
    let mut query = CitiesQuery::new();
    query.minimum_population = Some(100000);
    query.limit = Some(2);
    assert_eq!(query.to_params(), vec![pair("minimum_population", "100000"), pair("limit", "2")]);
}

#[test]
fn zero_and_empty_text_are_sent() {
    let mut query = CitiesQuery::new();
    query.radius = Some(0);
    query.country = Some(String::new());
    query.sort_by_random = Some(false);
    assert_eq!(
        query.to_params(),
        vec![pair("radius", "0"), pair("country", ""), pair("sort_by_random", "false")]
    );
    assert_eq!(CitiesQuery::from_params(&query.to_params()), Some(query));
}

#[test]
fn parameters_are_read_back_as_the_query() {
    let mut some = CitiesQuery::new();
    some.point = Some("12.49,41.89".to_string());
    some.sort_by_random = Some(true);
    let mut other = CitiesQuery::new();
    other.limit = Some(u64::MAX);
    other.sort_by_population = Some(false);
    for query in [CitiesQuery::new(), full_query(), some, other] {
        assert_eq!(CitiesQuery::from_params(&query.to_params()), Some(query));
    }
}

#[test]
fn parameters_are_read_in_any_order() {
    let params = vec![
        pair("limit", "2"),
        pair("country", "IT"),
        pair("minimum_population", "0100"),
    ];
    let mut expected = CitiesQuery::new();
    expected.limit = Some(2);
    expected.country = Some("IT".to_string());
    expected.minimum_population = Some(100);
    assert_eq!(CitiesQuery::from_params(&params), Some(expected));
}

#[test]
fn unknown_parameter_is_refused() {
    assert_eq!(CitiesQuery::from_params(&vec![pair("limit", "2"), pair("offset", "1")]), None);
    assert_eq!(CitiesQuery::from_params(&vec![pair("Limit", "2")]), None);
    assert_eq!(CitiesQuery::from_params(&vec![pair("city_id1", "2")]), None);
}

#[test]
fn repeated_parameter_is_refused() {
    assert_eq!(CitiesQuery::from_params(&vec![pair("limit", "2"), pair("limit", "2")]), None);
    assert_eq!(
        CitiesQuery::from_params(&vec![pair("country", "IT"), pair("limit", "2"), pair("country", "FR")]),
        None
    );
}

#[test]
fn malformed_number_or_flag_is_refused() {
    assert_eq!(CitiesQuery::from_params(&vec![pair("radius", "far")]), None);
    assert_eq!(CitiesQuery::from_params(&vec![pair("minimum_population", "-5")]), None);
    assert_eq!(CitiesQuery::from_params(&vec![pair("limit", "")]), None);
    assert_eq!(CitiesQuery::from_params(&vec![pair("limit", "18446744073709551616")]), None);
    assert_eq!(CitiesQuery::from_params(&vec![pair("sort_by_population", "yes")]), None);
    assert_eq!(CitiesQuery::from_params(&vec![pair("sort_by_random", "TRUE")]), None);
}

#[test]
fn names_are_checked() {
    assert!(all_names_known(&vec![]));
    assert!(all_names_known(&full_query().to_params()));
    assert!(!all_names_known(&vec![pair("limit", "1"), pair("", "1")]));
    assert!(all_names_distinct(&vec![]));
    assert!(all_names_distinct(&full_query().to_params()));
    assert!(all_names_distinct(&vec![pair("a", "1"), pair("b", "1"), pair("c", "1")]));
    assert!(!all_names_distinct(&vec![pair("a", "1"), pair("b", "1"), pair("a", "2")]));
}

#[test]
fn lookup_finds_the_last_value_of_a_name() {
    let params = vec![pair("a", "1"), pair("b", "2"), pair("a", "3")];
    assert_eq!(lookup(&params, "a"), Some(&"3".to_string()));
    assert_eq!(lookup(&params, "b"), Some(&"2".to_string()));
    assert_eq!(lookup(&params, "c"), None);
}

#[test]
fn distance_query_sends_both_identities() {
    assert_eq!(
        DistQuery::new(17, 4).to_params(),
        vec![pair("city_id1", "17"), pair("city_id2", "4")]
    );
    assert_eq!(DistQuery::new(17, 4), DistQuery { city_id1: 17, city_id2: 4 });
}

#[test]
fn distance_query_needs_both_identities() {
    assert_eq!(DistQuery::from_optional(Some(1), Some(2)), Ok(DistQuery { city_id1: 1, city_id2: 2 }));
    assert_eq!(
        DistQuery::from_optional(None, Some(2)),
        Err(ClientError::InvalidQuery { missing: "city_id1".to_string() })
    );
    assert_eq!(
        DistQuery::from_optional(Some(1), None),
        Err(ClientError::InvalidQuery { missing: "city_id2".to_string() })
    );
    assert_eq!(
        DistQuery::from_optional(None, None),
        Err(ClientError::InvalidQuery { missing: "city_id1".to_string() })
    );
}

#[test]
fn point_without_radius_is_sent_as_it_is() {
    let mut query = CitiesQuery::new();
    query.point = Some("POINT(12.49 41.89)".to_string());
    assert_eq!(query.to_params(), vec![pair("point", "POINT(12.49 41.89)")]);
    assert_eq!(CitiesQuery::from_params(&query.to_params()), Some(query));
}

#[test]
fn both_orders_can_be_asked_for() {
    let mut query = CitiesQuery::new();
    query.sort_by_population = Some(true);
    query.sort_by_random = Some(true);
    assert_eq!(
        query.to_params(),
        vec![pair("sort_by_population", "true"), pair("sort_by_random", "true")]
    );
    assert_eq!(CitiesQuery::from_params(&query.to_params()), Some(query));
}
