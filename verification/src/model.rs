//! The records that the service returns, and how they are read from JSON.

use crate::json::as_items;
use crate::json::as_number_text;
use crate::json::json_items;
use crate::json::json_of;
use crate::json::lemma_other_members_kept;
use crate::json::text_member;
use crate::json::unsigned_member;
use crate::json::Json;
use vstd::prelude::*;

verus! {

/// The member that holds the identity of a city.
pub const KEY_ID: &'static str = "id";

/// The member that holds the name of a city.
pub const KEY_NAME: &'static str = "name";

/// The member that holds the population of a city.
pub const KEY_POPULATION: &'static str = "population";

/// The member that holds the point of a city.
pub const KEY_POINT: &'static str = "point";

/// The member that holds the country of a city.
pub const KEY_COUNTRY: &'static str = "country";

/// The member that holds the code of a country.
pub const KEY_CODE: &'static str = "code";

/// The member that holds the outline of a country.
pub const KEY_GEOM_WKT: &'static str = "geom_wkt";

/// One city, as the service describes it.
#[derive(Debug, Clone, PartialEq, Eq)]
pub struct City {
    /// The identity of the city.
    pub id: u64,
    /// Its name.
    pub name: String,
    /// How many people live in it.
    pub population: u64,
    /// Where it lies, in well-known text.
    pub point: String,
    /// The country it belongs to.
    pub country: String,
}

/// A `City` as mathematics.
pub struct CityView {
    pub id: u64,
    pub name: Seq<char>,
    pub population: u64,
    pub point: Seq<char>,
    pub country: Seq<char>,
}

impl View for City {
    type V = CityView;

    open spec fn view(&self) -> CityView {
        CityView {
            id: self.id,
            name: self.name@,
            population: self.population,
            point: self.point@,
            country: self.country@,
        }
    }
}

/// One country, as the service describes it.
#[derive(Debug, Clone, PartialEq, Eq)]
pub struct Country {
    /// The code of the country.
    pub code: String,
    /// Its outline, in well-known text.
    pub geom_wkt: String,
}

/// A `Country` as mathematics.
pub struct CountryView {
    pub code: Seq<char>,
    pub geom_wkt: Seq<char>,
}

impl View for Country {
    type V = CountryView;

    open spec fn view(&self) -> CountryView {
        CountryView { code: self.code@, geom_wkt: self.geom_wkt@ }
    }
}

/// The city that a JSON value describes: an object with the members `id`
/// and `population` as unsigned whole numbers and `name`, `point` and
/// `country` as strings. Other members are passed over.
pub open spec fn city_of(j: Json) -> Option<CityView> {
    match (
        j.unsigned_at(KEY_ID@),
        j.text_at(KEY_NAME@),
        j.unsigned_at(KEY_POPULATION@),
        j.text_at(KEY_POINT@),
        j.text_at(KEY_COUNTRY@),
    ) {
        (Some(id), Some(name), Some(population), Some(point), Some(country)) => Some(
            CityView { id, name, population, point, country },
        ),
        _ => None,
    }
}

/// Whether every value in `items` describes a city.
pub open spec fn all_cities(items: Seq<Json>) -> bool {
    forall|i: int| 0 <= i < items.len() ==> city_of(#[trigger] items[i]) is Some
}

/// The cities that a JSON value describes: an array of cities, in the order
/// of the array.
pub open spec fn cities_of(j: Json) -> Option<Seq<CityView>> {
    match j {
        Json::Array(items) => if all_cities(items) {
            Some(items.map_values(|item: Json| city_of(item)->0))
        } else {
            None
        },
        _ => None,
    }
}

/// The country that a JSON value describes: an object with the members
/// `code` and `geom_wkt` as strings. Other members are passed over.
pub open spec fn country_of(j: Json) -> Option<CountryView> {
    match (j.text_at(KEY_CODE@), j.text_at(KEY_GEOM_WKT@)) {
        (Some(code), Some(geom_wkt)) => Some(CountryView { code, geom_wkt }),
        _ => None,
    }
}

/// The outline of the country that a JSON value describes.
pub open spec fn outline_of(j: Json) -> Option<Seq<char>> {
    match country_of(j) {
        Some(country) => Some(country.geom_wkt),
        None => None,
    }
}

/// The distance that a JSON value holds: the printed form of a number.
pub open spec fn distance_of(j: Json) -> Option<Seq<char>> {
    j.number_text()
}

/// The views of a list of cities, in order.
pub open spec fn city_views(cities: Seq<City>) -> Seq<CityView> {
    cities.map_values(|c: City| c@)
}

/// The view of a city that may be absent.
pub open spec fn city_option_view(city: Option<City>) -> Option<CityView> {
    match city {
        Some(c) => Some(c@),
        None => None,
    }
}

/// The views of cities that may be absent.
pub open spec fn cities_option_view(cities: Option<Vec<City>>) -> Option<Seq<CityView>> {
    match cities {
        Some(list) => Some(city_views(list@)),
        None => None,
    }
}

/// The view of a country that may be absent.
pub open spec fn country_option_view(country: Option<Country>) -> Option<CountryView> {
    match country {
        Some(c) => Some(c@),
        None => None,
    }
}

/// A member that a city does not have makes no difference to the city that
/// an object describes.
pub proof fn lemma_city_ignores_other_members(
    members: Map<Seq<char>, Json>,
    extra: Seq<char>,
    value: Json,
)
    requires
        extra != KEY_ID@,
        extra != KEY_NAME@,
        extra != KEY_POPULATION@,
        extra != KEY_POINT@,
        extra != KEY_COUNTRY@,
    ensures
        city_of(Json::Object(members.insert(extra, value))) == city_of(Json::Object(members)),
{
    lemma_other_members_kept(members, extra, value, KEY_ID@);
    lemma_other_members_kept(members, extra, value, KEY_NAME@);
    lemma_other_members_kept(members, extra, value, KEY_POPULATION@);
    lemma_other_members_kept(members, extra, value, KEY_POINT@);
    lemma_other_members_kept(members, extra, value, KEY_COUNTRY@);
}

/// A member that a country does not have makes no difference to the country
/// that an object describes.
pub proof fn lemma_country_ignores_other_members(
    members: Map<Seq<char>, Json>,
    extra: Seq<char>,
    value: Json,
)
    requires
        extra != KEY_CODE@,
        extra != KEY_GEOM_WKT@,
    ensures
        country_of(Json::Object(members.insert(extra, value))) == country_of(
            Json::Object(members),
        ),
{
    lemma_other_members_kept(members, extra, value, KEY_CODE@);
    lemma_other_members_kept(members, extra, value, KEY_GEOM_WKT@);
}

impl City {
    /// Reads a city from a JSON value: see `city_of`.
    pub fn from_json(value: &serde_json::Value) -> (r: Option<City>)
        ensures
            city_option_view(r) == city_of(json_of(*value)),
    {
        let id = match unsigned_member(value, KEY_ID) {
            Some(n) => n,
            None => { return None; },
        };
        let name = match text_member(value, KEY_NAME) {
            Some(t) => t,
            None => { return None; },
        };
        let population = match unsigned_member(value, KEY_POPULATION) {
            Some(n) => n,
            None => { return None; },
        };
        let point = match text_member(value, KEY_POINT) {
            Some(t) => t,
            None => { return None; },
        };
        let country = match text_member(value, KEY_COUNTRY) {
            Some(t) => t,
            None => { return None; },
        };
        Some(City { id, name, population, point, country })
    }
}

impl Country {
    /// Reads a country from a JSON value: see `country_of`.
    pub fn from_json(value: &serde_json::Value) -> (r: Option<Country>)
        ensures
            country_option_view(r) == country_of(json_of(*value)),
    {
        let code = match text_member(value, KEY_CODE) {
            Some(t) => t,
            None => { return None; },
        };
        let geom_wkt = match text_member(value, KEY_GEOM_WKT) {
            Some(t) => t,
            None => { return None; },
        };
        Some(Country { code, geom_wkt })
    }

    /// The outline of the country, and nothing else of it.
    pub fn into_outline(self) -> (r: String)
        ensures
            r@ == self@.geom_wkt,
    {
        self.geom_wkt
    }
}

/// Reads cities from a JSON value, keeping their order: see `cities_of`.
pub fn cities_from_json(value: &serde_json::Value) -> (r: Option<Vec<City>>)
    ensures
        cities_option_view(r) == cities_of(json_of(*value)),
{
    let items = match as_items(value) {
        Some(items) => items,
        None => { return None; },
    };
    let ghost models = json_items(items@);
    let mut cities: Vec<City> = Vec::new();
    let mut i: usize = 0;
    while i < items.len()
        invariant
            i <= items@.len(),
            models == json_items(items@),
            json_of(*value) == Json::Array(models),
            cities@.len() == i,
            forall|k: int| 0 <= k < i ==> city_of(#[trigger] models[k]) == Some(cities@[k]@),
        decreases items@.len() - i,
    {
        match City::from_json(&items[i]) {
            Some(city) => {
                cities.push(city);
            },
            None => {
                assert(city_of(models[i as int]) is None);
                return None;
            },
        }
        i += 1;
    }
    assert(city_views(cities@) =~= models.map_values(|item: Json| city_of(item)->0));
    Some(cities)
}

/// Reads a distance from a JSON value: the printed form of the number that
/// the value is.
pub fn distance_from_json(value: &serde_json::Value) -> (r: Option<String>)
    ensures
        match r {
            Some(t) => distance_of(json_of(*value)) == Some(t@),
            None => distance_of(json_of(*value)) is None,
        },
{
    as_number_text(value)
}

} // verus!
