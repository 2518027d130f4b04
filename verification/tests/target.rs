use cities_client::target::compose;
use cities_client::target::text_bytes;
use cities_client::target::within_limit;
use cities_client::target::TargetFault;
use cities_client::target::MAX_TARGET_BYTES;
use cities_client::CitiesQuery;
use cities_client::Client;

fn pair(name: &str, value: &str) -> (String, String) {
    (name.to_string(), value.to_string())
}

#[test]
fn target_without_parameters_has_no_question_mark() {
    assert_eq!(compose("http://h:3000/rand", &vec![]), Ok("http://h:3000/rand".to_string()));
}

#[test]
fn address_is_written_as_the_url_type_writes_it() {
    assert_eq!(compose("HTTP://Example.COM:80/rand", &vec![]), Ok("http://example.com/rand".to_string()));
    assert_eq!(compose("http://h:3000", &vec![]), Ok("http://h:3000/".to_string()));
    assert_eq!(
        compose("HTTP://Example.COM:80/cities", &vec![pair("limit", "2")]),
        Ok("http://example.com/cities?limit=2".to_string())
    );
}

#[test]
fn target_with_parameters_lists_them_in_order() {
    assert_eq!(
        compose("http://h:3000/cities", &vec![pair("minimum_population", "100000"), pair("limit", "2")]),
        Ok("http://h:3000/cities?minimum_population=100000&limit=2".to_string())
    );
}

#[test]
fn reserved_characters_are_encoded() {
    assert_eq!(
        compose("http://h:3000/cities", &vec![pair("point", "POINT(12.49 41.89)")]),
        Ok("http://h:3000/cities?point=POINT%2812.49+41.89%29".to_string())
    );
    assert_eq!(
        compose("http://h:3000/cities", &vec![pair("country", "a&b=c?d#e/f%g+h")]),
        Ok("http://h:3000/cities?country=a%26b%3Dc%3Fd%23e%2Ff%25g%2Bh".to_string())
    );
    assert_eq!(
        compose("http://h:3000/cities", &vec![pair("country", "Côte d'Ivoire")]),
        Ok("http://h:3000/cities?country=C%C3%B4te+d%27Ivoire".to_string())
    );
}

#[test]
fn empty_value_is_still_a_parameter() {
    assert_eq!(
        compose("http://h:3000/cities", &vec![pair("country", "")]),
        Ok("http://h:3000/cities?country=".to_string())
    );
}

#[test]
fn address_that_is_no_url_is_refused() {
    assert_eq!(compose("/cities", &vec![]), Err(TargetFault::NotAUrl));
    assert_eq!(compose("not a url/cities", &vec![pair("limit", "2")]), Err(TargetFault::NotAUrl));
    assert_eq!(compose("", &vec![]), Err(TargetFault::NotAUrl));
}

#[test]
fn bytes_are_counted_in_utf8() {
    assert_eq!(text_bytes(""), 0);
    assert_eq!(text_bytes("limit"), 5);
    assert_eq!(text_bytes("Zürich"), 7);
    assert_eq!(text_bytes("東京"), 6);
}

#[test]
fn limit_counts_address_and_parameters() {
    let address = "a".repeat(MAX_TARGET_BYTES);
    assert!(within_limit(&address, &vec![]));
    assert!(!within_limit(&address, &vec![pair("", "")]));
    let longer = "a".repeat(MAX_TARGET_BYTES + 1);
    assert!(!within_limit(&longer, &vec![]));
    let shorter = "a".repeat(MAX_TARGET_BYTES - 10);
    assert!(within_limit(&shorter, &vec![pair("abc", "de"), pair("f", "")]));
    assert!(!within_limit(&shorter, &vec![pair("abc", "de"), pair("f", "g")]));
    assert!(within_limit("", &vec![]));
}

#[test]
fn target_that_is_too_long_is_refused() {
    let value = "v".repeat(MAX_TARGET_BYTES);
    assert_eq!(compose("http://h:3000/cities", &vec![pair("country", &value)]), Err(TargetFault::TooLong));
    let address = format!("http://h:3000/{}", "a".repeat(MAX_TARGET_BYTES));
    assert_eq!(compose(&address, &vec![]), Err(TargetFault::TooLong));
}

fn decoded(url: &str) -> Vec<(String, String)> {
    reqwest::Url::parse(url).unwrap().query_pairs().into_owned().collect()
}

#[test]
fn query_survives_the_way_through_a_target() {
    let client = Client::new("http://h:3000");
    let mut plain = CitiesQuery::new();
    plain.minimum_population = Some(100000);
    plain.limit = Some(2);
    let mut reserved = CitiesQuery::new();
    reserved.point = Some("POINT(-0.12 51.5)".to_string());
    reserved.radius = Some(0);
    reserved.country = Some("Trinidad & Tobago = ?#%+/".to_string());
    reserved.sort_by_population = Some(true);
    reserved.sort_by_random = Some(false);
    let mut unicode = CitiesQuery::new();
    unicode.country = Some("Côte d'Ivoire 日本".to_string());
    for query in [CitiesQuery::new(), plain, reserved, unicode] {
        let request = client.cities_request(&query).unwrap();
        assert_eq!(decoded(&request.url), query.to_params());
        assert_eq!(CitiesQuery::from_params(&decoded(&request.url)), Some(query));
    }
}

#[test]
fn target_with_foreign_parameters_is_no_query() {
    assert_eq!(CitiesQuery::from_params(&decoded("http://h:3000/cities?offset=3")), None);
    assert_eq!(CitiesQuery::from_params(&decoded("http://h:3000/cities?limit=1&limit=2")), None);
}
