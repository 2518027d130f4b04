//! Query descriptors and the request parameters that carry them.

use crate::error::ClientError;
use crate::error::ErrorView;
use crate::text::bool_text;
use crate::text::decimal;
use crate::text::lemma_parse_of_bool;
use crate::text::lemma_parse_of_decimal;
use crate::text::parse_bool;
use crate::text::parse_decimal;
use crate::text::parsed_bool;
use crate::text::parsed_decimal;
use crate::text::render_bool;
use crate::text::render_decimal;
use crate::text::same_text;
use vstd::prelude::*;
use vstd::string::StringExecFns;

verus! {

/// Request parameters as mathematics: name and value pairs, in order.
pub type Params = Seq<(Seq<char>, Seq<char>)>;

/// The name of the parameter for the point to search around.
pub const POINT: &'static str = "point";

/// The name of the parameter for the search radius.
pub const RADIUS: &'static str = "radius";

/// The name of the parameter for the least population.
pub const MINIMUM_POPULATION: &'static str = "minimum_population";

/// The name of the parameter for the country filter.
pub const COUNTRY: &'static str = "country";

/// The name of the parameter that asks for the order by population.
pub const SORT_BY_POPULATION: &'static str = "sort_by_population";

/// The name of the parameter that asks for a random order.
pub const SORT_BY_RANDOM: &'static str = "sort_by_random";

/// The name of the parameter for the largest number of results.
pub const LIMIT: &'static str = "limit";

/// The name of the parameter for the first city of a distance.
pub const CITY_ID1: &'static str = "city_id1";

/// The name of the parameter for the second city of a distance.
pub const CITY_ID2: &'static str = "city_id2";

/// The name of the parameter for the code of a country.
pub const COUNTRY_CODE: &'static str = "country_code";

/// The parameters that a list of owned pairs stands for.
pub open spec fn params_view(pairs: Seq<(String, String)>) -> Params {
    pairs.map_values(|p: (String, String)| (p.0@, p.1@))
}

/// `acc`, followed by the parameter `name` where it has a value.
pub open spec fn with_param(acc: Params, name: Seq<char>, value: Option<Seq<char>>) -> Params {
    match value {
        Some(v) => acc.push((name, v)),
        None => acc,
    }
}

/// The text of a number that may be absent.
pub open spec fn decimal_option(value: Option<u64>) -> Option<Seq<char>> {
    match value {
        Some(n) => Some(decimal(n as nat)),
        None => None,
    }
}

/// The text of a flag that may be absent.
pub open spec fn bool_option(value: Option<bool>) -> Option<Seq<char>> {
    match value {
        Some(b) => Some(bool_text(b)),
        None => None,
    }
}

/// The value of the last parameter called `name`, if there is one.
pub open spec fn value_of(params: Params, name: Seq<char>) -> Option<Seq<char>>
    decreases params.len(),
{
    if params.len() == 0 {
        None
    } else if params.last().0 == name {
        Some(params.last().1)
    } else {
        value_of(params.drop_last(), name)
    }
}

/// Whether no parameter is called `name`.
pub open spec fn absent(params: Params, name: Seq<char>) -> bool {
    forall|i: int| 0 <= i < params.len() ==> (#[trigger] params[i]).0 != name
}

/// Whether no two parameters have the same name.
pub open spec fn names_distinct(params: Params) -> bool {
    forall|i: int, j: int|
        0 <= i < j < params.len() ==> (#[trigger] params[i]).0 != (#[trigger] params[j]).0
}

/// Whether `name` is one of the options of a cities query.
pub open spec fn is_city_option(name: Seq<char>) -> bool {
    ||| name == POINT@
    ||| name == RADIUS@
    ||| name == MINIMUM_POPULATION@
    ||| name == COUNTRY@
    ||| name == SORT_BY_POPULATION@
    ||| name == SORT_BY_RANDOM@
    ||| name == LIMIT@
}

/// Whether every parameter is an option of a cities query.
pub open spec fn names_known(params: Params) -> bool {
    forall|i: int| 0 <= i < params.len() ==> is_city_option((#[trigger] params[i]).0)
}

/// Whether the parameter `name`, where present, reads as a number.
pub open spec fn number_reads(params: Params, name: Seq<char>) -> bool {
    value_of(params, name) matches Some(t) ==> parsed_decimal(t) is Some
}

/// The number that the parameter `name` carries.
pub open spec fn number_at(params: Params, name: Seq<char>) -> Option<u64> {
    match value_of(params, name) {
        Some(t) => parsed_decimal(t),
        None => None,
    }
}

/// Whether the parameter `name`, where present, reads as a flag.
pub open spec fn flag_reads(params: Params, name: Seq<char>) -> bool {
    value_of(params, name) matches Some(t) ==> parsed_bool(t) is Some
}

/// The flag that the parameter `name` carries.
pub open spec fn flag_at(params: Params, name: Seq<char>) -> Option<bool> {
    match value_of(params, name) {
        Some(t) => parsed_bool(t),
        None => None,
    }
}

/// No parameter is called `name` exactly when `name` has no value.
pub proof fn lemma_value_absent(params: Params, name: Seq<char>)
    ensures
        value_of(params, name) is None <==> absent(params, name),
    decreases params.len(),
{
    if params.len() > 0 {
        let rest = params.drop_last();
        lemma_value_absent(rest, name);
        if params.last().0 != name {
            if absent(rest, name) {
                assert forall|i: int| 0 <= i < params.len() implies (#[trigger] params[i]).0
                    != name by {
                    if i < rest.len() {
                        assert(rest[i].0 != name);
                    }
                }
            } else {
                let i = choose|i: int| 0 <= i < rest.len() && (#[trigger] rest[i]).0 == name;
                assert(params[i].0 == name);
            }
        } else {
            assert(params[params.len() - 1].0 == name);
        }
    }
}

/// Where no two parameters share a name, the value of a parameter's name is
/// that parameter's value.
pub proof fn lemma_value_at(params: Params, i: int)
    requires
        names_distinct(params),
        0 <= i < params.len(),
    ensures
        value_of(params, params[i].0) == Some(params[i].1),
    decreases params.len(),
{
    if i < params.len() - 1 {
        let rest = params.drop_last();
        assert(params[params.len() - 1].0 != params[i].0);
        assert forall|a: int, b: int| 0 <= a < b < rest.len() implies (#[trigger] rest[a]).0 != (
        #[trigger] rest[b]).0 by {
            assert(params[a].0 != params[b].0);
        }
        lemma_value_at(rest, i);
    }
}

/// The option names differ from one another: each has a length and a first
/// character that no other shares.
pub proof fn lemma_option_names()
    ensures
        POINT@.len() == 5 && POINT@[0] == 'p',
        RADIUS@.len() == 6,
        MINIMUM_POPULATION@.len() == 18 && MINIMUM_POPULATION@[0] == 'm',
        COUNTRY@.len() == 7,
        SORT_BY_POPULATION@.len() == 18 && SORT_BY_POPULATION@[0] == 's',
        SORT_BY_RANDOM@.len() == 14,
        LIMIT@.len() == 5 && LIMIT@[0] == 'l',
        CITY_ID1@.len() == 8 && CITY_ID1@[7] == '1',
        CITY_ID2@.len() == 8 && CITY_ID2@[7] == '2',
{
    reveal_strlit("point");
    reveal_strlit("radius");
    reveal_strlit("minimum_population");
    reveal_strlit("country");
    reveal_strlit("sort_by_population");
    reveal_strlit("sort_by_random");
    reveal_strlit("limit");
    reveal_strlit("city_id1");
    reveal_strlit("city_id2");
}

/// A request for cities. Every field is optional: one that is `None` is
/// left out of the request, which the service tells apart from a field
/// that is sent as zero or as empty text.
#[derive(Debug, Clone, PartialEq, Eq)]
pub struct CitiesQuery {
    /// The point around which to search, in the text form the service reads.
    pub point: Option<String>,
    /// How far from `point` a city may lie.
    pub radius: Option<u64>,
    /// The least population a city may have.
    pub minimum_population: Option<u64>,
    /// The country a city must lie in.
    pub country: Option<String>,
    /// Whether to order the cities by population.
    pub sort_by_population: Option<bool>,
    /// Whether to order the cities at random. The service decides what
    /// happens when both orders are asked for.
    pub sort_by_random: Option<bool>,
    /// The largest number of cities to return.
    pub limit: Option<u64>,
}

/// A `CitiesQuery` as mathematics.
pub struct CitiesQueryView {
    pub point: Option<Seq<char>>,
    pub radius: Option<u64>,
    pub minimum_population: Option<u64>,
    pub country: Option<Seq<char>>,
    pub sort_by_population: Option<bool>,
    pub sort_by_random: Option<bool>,
    pub limit: Option<u64>,
}

/// The characters of a text that may be absent.
pub open spec fn text_option(value: Option<String>) -> Option<Seq<char>> {
    match value {
        Some(t) => Some(t@),
        None => None,
    }
}

impl View for CitiesQuery {
    type V = CitiesQueryView;

    open spec fn view(&self) -> CitiesQueryView {
        CitiesQueryView {
            point: text_option(self.point),
            radius: self.radius,
            minimum_population: self.minimum_population,
            country: text_option(self.country),
            sort_by_population: self.sort_by_population,
            sort_by_random: self.sort_by_random,
            limit: self.limit,
        }
    }
}

impl CitiesQueryView {
    /// The query that asks for nothing in particular.
    pub open spec fn empty() -> CitiesQueryView {
        CitiesQueryView {
            point: None,
            radius: None,
            minimum_population: None,
            country: None,
            sort_by_population: None,
            sort_by_random: None,
            limit: None,
        }
    }

    /// The parameters of the query: one for each field that is present,
    /// named as the field is, in the order of the fields.
    pub open spec fn params(self) -> Params {
        let p = with_param(Seq::empty(), POINT@, self.point);
        let p = with_param(p, RADIUS@, decimal_option(self.radius));
        let p = with_param(p, MINIMUM_POPULATION@, decimal_option(self.minimum_population));
        let p = with_param(p, COUNTRY@, self.country);
        let p = with_param(p, SORT_BY_POPULATION@, bool_option(self.sort_by_population));
        let p = with_param(p, SORT_BY_RANDOM@, bool_option(self.sort_by_random));
        with_param(p, LIMIT@, decimal_option(self.limit))
    }

    /// How many fields of the query are present.
    pub open spec fn present(self) -> nat {
        let n: nat = 0;
        let n = n + if self.point is Some { 1nat } else { 0nat };
        let n = n + if self.radius is Some { 1nat } else { 0nat };
        let n = n + if self.minimum_population is Some { 1nat } else { 0nat };
        let n = n + if self.country is Some { 1nat } else { 0nat };
        let n = n + if self.sort_by_population is Some { 1nat } else { 0nat };
        let n = n + if self.sort_by_random is Some { 1nat } else { 0nat };
        n + if self.limit is Some { 1nat } else { 0nat }
    }
}

/// Whether `params` can be read as a cities query: every name is an option
/// of such a query, no name comes twice, and each number and flag reads as
/// one.
pub open spec fn params_acceptable(params: Params) -> bool {
    &&& names_known(params)
    &&& names_distinct(params)
    &&& number_reads(params, RADIUS@)
    &&& number_reads(params, MINIMUM_POPULATION@)
    &&& flag_reads(params, SORT_BY_POPULATION@)
    &&& flag_reads(params, SORT_BY_RANDOM@)
    &&& number_reads(params, LIMIT@)
}

/// The cities query that `params` carries, where they can be read as one:
/// each field is what the parameter of its name holds, and absent where
/// there is no such parameter.
pub open spec fn query_of(params: Params) -> Option<CitiesQueryView> {
    if params_acceptable(params) {
        Some(
            CitiesQueryView {
                point: value_of(params, POINT@),
                radius: number_at(params, RADIUS@),
                minimum_population: number_at(params, MINIMUM_POPULATION@),
                country: value_of(params, COUNTRY@),
                sort_by_population: flag_at(params, SORT_BY_POPULATION@),
                sort_by_random: flag_at(params, SORT_BY_RANDOM@),
                limit: number_at(params, LIMIT@),
            },
        )
    } else {
        None
    }
}

/// What one more optional parameter does to a list in which its name does
/// not occur yet.
pub proof fn lemma_with_param(acc: Params, name: Seq<char>, value: Option<Seq<char>>)
    requires
        absent(acc, name),
        names_distinct(acc),
    ensures
        ({
            let next = with_param(acc, name, value);
            &&& names_distinct(next)
            &&& value_of(next, name) == value
            &&& next.len() == acc.len() + if value is Some { 1nat } else { 0nat }
            &&& forall|other: Seq<char>|
                other != name ==> #[trigger] value_of(next, other) == value_of(acc, other)
            &&& forall|other: Seq<char>|
                other != name && absent(acc, other) ==> #[trigger] absent(next, other)
            &&& names_known(acc) && is_city_option(name) ==> names_known(next)
        }),
{
    lemma_value_absent(acc, name);
    match value {
        Some(v) => {
            let next = acc.push((name, v));
            assert(next.drop_last() =~= acc);
            assert(next.last() == (name, v));
        },
        None => {},
    }
}

/// What the parameters of a cities query hold, name by name: each name has
/// the text of its field as its value, or none where the field is absent.
pub proof fn lemma_params_values(q: CitiesQueryView)
    ensures
        names_known(q.params()),
        names_distinct(q.params()),
        q.params().len() == q.present(),
        value_of(q.params(), POINT@) == q.point,
        value_of(q.params(), RADIUS@) == decimal_option(q.radius),
        value_of(q.params(), MINIMUM_POPULATION@) == decimal_option(q.minimum_population),
        value_of(q.params(), COUNTRY@) == q.country,
        value_of(q.params(), SORT_BY_POPULATION@) == bool_option(q.sort_by_population),
        value_of(q.params(), SORT_BY_RANDOM@) == bool_option(q.sort_by_random),
        value_of(q.params(), LIMIT@) == decimal_option(q.limit),
{
    lemma_option_names();
    let none: Params = Seq::empty();
    let to_point = with_param(none, POINT@, q.point);
    let to_radius = with_param(to_point, RADIUS@, decimal_option(q.radius));
    let to_population = with_param(
        to_radius,
        MINIMUM_POPULATION@,
        decimal_option(q.minimum_population),
    );
    let to_country = with_param(to_population, COUNTRY@, q.country);
    let to_sorted = with_param(to_country, SORT_BY_POPULATION@, bool_option(q.sort_by_population));
    let to_random = with_param(to_sorted, SORT_BY_RANDOM@, bool_option(q.sort_by_random));
    let all = with_param(to_random, LIMIT@, decimal_option(q.limit));
    lemma_with_param(none, POINT@, q.point);
    lemma_with_param(to_point, RADIUS@, decimal_option(q.radius));
    lemma_with_param(to_radius, MINIMUM_POPULATION@, decimal_option(q.minimum_population));
    lemma_with_param(to_population, COUNTRY@, q.country);
    lemma_with_param(to_country, SORT_BY_POPULATION@, bool_option(q.sort_by_population));
    lemma_with_param(to_sorted, SORT_BY_RANDOM@, bool_option(q.sort_by_random));
    lemma_with_param(to_random, LIMIT@, decimal_option(q.limit));
    assert(value_of(all, POINT@) == q.point);
    assert(value_of(all, RADIUS@) == decimal_option(q.radius));
    assert(value_of(all, MINIMUM_POPULATION@) == decimal_option(q.minimum_population));
    assert(value_of(all, COUNTRY@) == q.country);
    assert(value_of(all, SORT_BY_POPULATION@) == bool_option(q.sort_by_population));
    assert(value_of(all, SORT_BY_RANDOM@) == bool_option(q.sort_by_random));
}

/// Encoding a cities query and reading the parameters back gives the query:
/// every present field with its value, and nothing for an absent one.
pub proof fn lemma_params_round_trip(q: CitiesQueryView)
    ensures
        query_of(q.params()) == Some(q),
{
    lemma_params_values(q);
    if q.radius is Some {
        lemma_parse_of_decimal(q.radius->0);
    }
    if q.minimum_population is Some {
        lemma_parse_of_decimal(q.minimum_population->0);
    }
    if q.limit is Some {
        lemma_parse_of_decimal(q.limit->0);
    }
    if q.sort_by_population is Some {
        lemma_parse_of_bool(q.sort_by_population->0);
    }
    if q.sort_by_random is Some {
        lemma_parse_of_bool(q.sort_by_random->0);
    }
}

/// The parameters of a cities query are as many as its present fields, no
/// two of them share a name, and a field that is absent has no parameter.
pub proof fn lemma_params_exact(q: CitiesQueryView)
    ensures
        q.params().len() == q.present(),
        names_distinct(q.params()),
        q.point is None ==> absent(q.params(), POINT@),
        q.radius is None ==> absent(q.params(), RADIUS@),
        q.minimum_population is None ==> absent(q.params(), MINIMUM_POPULATION@),
        q.country is None ==> absent(q.params(), COUNTRY@),
        q.sort_by_population is None ==> absent(q.params(), SORT_BY_POPULATION@),
        q.sort_by_random is None ==> absent(q.params(), SORT_BY_RANDOM@),
        q.limit is None ==> absent(q.params(), LIMIT@),
{
    lemma_params_values(q);
    let params = q.params();
    lemma_value_absent(params, POINT@);
    lemma_value_absent(params, RADIUS@);
    lemma_value_absent(params, MINIMUM_POPULATION@);
    lemma_value_absent(params, COUNTRY@);
    lemma_value_absent(params, SORT_BY_POPULATION@);
    lemma_value_absent(params, SORT_BY_RANDOM@);
    lemma_value_absent(params, LIMIT@);
}

/// Appends the parameter `name` with `value`.
pub fn push_param(params: &mut Vec<(String, String)>, name: &str, value: String)
    ensures
        params_view(final(params)@) == params_view(old(params)@).push((name@, value@)),
{
    let ghost before = params@;
    let ghost text = value@;
    params.push((String::from_str(name), value));
    assert(params_view(params@) =~= params_view(before).push((name@, text)));
}

/// Whether `name` is one of the options of a cities query.
pub fn is_city_option_name(name: &str) -> (r: bool)
    ensures
        r == is_city_option(name@),
{
    same_text(name, POINT) || same_text(name, RADIUS) || same_text(name, MINIMUM_POPULATION)
        || same_text(name, COUNTRY) || same_text(name, SORT_BY_POPULATION) || same_text(
        name,
        SORT_BY_RANDOM,
    ) || same_text(name, LIMIT)
}

/// Whether every parameter is an option of a cities query.
pub fn all_names_known(params: &Vec<(String, String)>) -> (r: bool)
    ensures
        r == names_known(params_view(params@)),
{
    let mut i: usize = 0;
    while i < params.len()
        invariant
            i <= params@.len(),
            forall|k: int| 0 <= k < i ==> is_city_option((#[trigger] params_view(params@)[k]).0),
        decreases params@.len() - i,
    {
        if !is_city_option_name(params[i].0.as_str()) {
            assert(!is_city_option(params_view(params@)[i as int].0));
            return false;
        }
        i += 1;
    }
    true
}

/// Whether no two parameters have the same name.
pub fn all_names_distinct(params: &Vec<(String, String)>) -> (r: bool)
    ensures
        r == names_distinct(params_view(params@)),
{
    let ghost view = params_view(params@);
    let mut j: usize = 0;
    while j < params.len()
        invariant
            j <= params@.len(),
            view == params_view(params@),
            forall|a: int, b: int| 0 <= a < b < j ==> (#[trigger] view[a]).0 != (#[trigger] view[b]).0,
        decreases params@.len() - j,
    {
        let mut i: usize = 0;
        while i < j
            invariant
                i <= j < params@.len(),
                view == params_view(params@),
                forall|a: int| 0 <= a < i ==> (#[trigger] view[a]).0 != view[j as int].0,
            decreases j - i,
        {
            if same_text(params[i].0.as_str(), params[j].0.as_str()) {
                assert(view[i as int].0 == view[j as int].0);
                return false;
            }
            i += 1;
        }
        j += 1;
    }
    true
}

/// The value of the last parameter called `name`, if there is one.
pub fn lookup<'a>(params: &'a Vec<(String, String)>, name: &str) -> (r: Option<&'a String>)
    ensures
        text_option_ref(r) == value_of(params_view(params@), name@),
{
    let ghost view = params_view(params@);
    let mut found: Option<&'a String> = None;
    let mut i: usize = 0;
    assert(view.take(0) =~= Seq::empty());
    while i < params.len()
        invariant
            i <= params@.len(),
            view == params_view(params@),
            text_option_ref(found) == value_of(view.take(i as int), name@),
        decreases params@.len() - i,
    {
        proof {
            assert(view.take(i + 1).drop_last() =~= view.take(i as int));
            assert(view.take(i + 1).last() == view[i as int]);
        }
        if same_text(params[i].0.as_str(), name) {
            found = Some(&params[i].1);
        }
        i += 1;
    }
    assert(view.take(i as int) =~= view);
    found
}

/// The characters of a borrowed text that may be absent.
pub open spec fn text_option_ref(value: Option<&String>) -> Option<Seq<char>> {
    match value {
        Some(t) => Some(t@),
        None => None,
    }
}

/// The number that the parameter `name` carries: `Err` where the parameter
/// is present and does not read as a number.
pub fn lookup_number(params: &Vec<(String, String)>, name: &str) -> (r: Result<Option<u64>, ()>)
    ensures
        r is Ok <==> number_reads(params_view(params@), name@),
        r matches Ok(n) ==> n == number_at(params_view(params@), name@),
{
    match lookup(params, name) {
        Some(t) => match parse_decimal(t.as_str()) {
            Some(n) => Ok(Some(n)),
            None => Err(()),
        },
        None => Ok(None),
    }
}

/// The flag that the parameter `name` carries: `Err` where the parameter is
/// present and does not read as a flag.
pub fn lookup_flag(params: &Vec<(String, String)>, name: &str) -> (r: Result<Option<bool>, ()>)
    ensures
        r is Ok <==> flag_reads(params_view(params@), name@),
        r matches Ok(b) ==> b == flag_at(params_view(params@), name@),
{
    match lookup(params, name) {
        Some(t) => match parse_bool(t.as_str()) {
            Some(b) => Ok(Some(b)),
            None => Err(()),
        },
        None => Ok(None),
    }
}

/// The text that the parameter `name` carries.
pub fn lookup_text(params: &Vec<(String, String)>, name: &str) -> (r: Option<String>)
    ensures
        text_option(r) == value_of(params_view(params@), name@),
{
    match lookup(params, name) {
        Some(t) => Some(t.clone()),
        None => None,
    }
}

impl CitiesQuery {
    /// The query that asks for nothing in particular: every field absent.
    pub fn new() -> (q: CitiesQuery)
        ensures
            q@ == CitiesQueryView::empty(),
    {
        CitiesQuery {
            point: None,
            radius: None,
            minimum_population: None,
            country: None,
            sort_by_population: None,
            sort_by_random: None,
            limit: None,
        }
    }

    /// Encodes the query: one parameter for each field that is present,
    /// named as the field is, in the order of the fields; none for a field
    /// that is absent.
    pub fn to_params(&self) -> (params: Vec<(String, String)>)
        ensures
            params_view(params@) == self@.params(),
    {
        let mut params: Vec<(String, String)> = Vec::new();
        assert(params_view(params@) =~= Seq::empty());
        match &self.point {
            Some(p) => push_param(&mut params, POINT, p.clone()),
            None => {},
        }
        match self.radius {
            Some(n) => push_param(&mut params, RADIUS, render_decimal(n)),
            None => {},
        }
        match self.minimum_population {
            Some(n) => push_param(&mut params, MINIMUM_POPULATION, render_decimal(n)),
            None => {},
        }
        match &self.country {
            Some(c) => push_param(&mut params, COUNTRY, c.clone()),
            None => {},
        }
        match self.sort_by_population {
            Some(b) => push_param(&mut params, SORT_BY_POPULATION, render_bool(b)),
            None => {},
        }
        match self.sort_by_random {
            Some(b) => push_param(&mut params, SORT_BY_RANDOM, render_bool(b)),
            None => {},
        }
        match self.limit {
            Some(n) => push_param(&mut params, LIMIT, render_decimal(n)),
            None => {},
        }
        params
    }

    /// Reads a query back from parameters, in whatever order they come.
    /// There is a query exactly when every name is an option of a cities
    /// query, no name comes twice, and each number and flag reads as one.
    pub fn from_params(params: &Vec<(String, String)>) -> (r: Option<CitiesQuery>)
        ensures
            match r {
                Some(q) => query_of(params_view(params@)) == Some(q@),
                None => query_of(params_view(params@)) is None,
            },
    {
        if !all_names_known(params) || !all_names_distinct(params) {
            return None;
        }
        let radius = match lookup_number(params, RADIUS) {
            Ok(n) => n,
            Err(_) => { return None; },
        };
        let minimum_population = match lookup_number(params, MINIMUM_POPULATION) {
            Ok(n) => n,
            Err(_) => { return None; },
        };
        let sort_by_population = match lookup_flag(params, SORT_BY_POPULATION) {
            Ok(b) => b,
            Err(_) => { return None; },
        };
        let sort_by_random = match lookup_flag(params, SORT_BY_RANDOM) {
            Ok(b) => b,
            Err(_) => { return None; },
        };
        let limit = match lookup_number(params, LIMIT) {
            Ok(n) => n,
            Err(_) => { return None; },
        };
        Some(
            CitiesQuery {
                point: lookup_text(params, POINT),
                radius,
                minimum_population,
                country: lookup_text(params, COUNTRY),
                sort_by_population,
                sort_by_random,
                limit,
            },
        )
    }
}

impl Default for CitiesQuery {
    fn default() -> (q: CitiesQuery)
        ensures
            q@ == CitiesQueryView::empty(),
    {
        CitiesQuery::new()
    }
}

/// A request for the distance between two cities. Both are required: a
/// query without one of them cannot be built.
#[derive(Debug, Clone, Copy, PartialEq, Eq)]
pub struct DistQuery {
    /// The identity of the first city.
    pub city_id1: u64,
    /// The identity of the second city.
    pub city_id2: u64,
}

impl DistQuery {
    /// The parameters of the query: the two identities, in order.
    pub open spec fn params(self) -> Params {
        seq![
            (CITY_ID1@, decimal(self.city_id1 as nat)),
            (CITY_ID2@, decimal(self.city_id2 as nat)),
        ]
    }

    /// The query for the distance between the cities `city_id1` and
    /// `city_id2`.
    pub fn new(city_id1: u64, city_id2: u64) -> (q: DistQuery)
        ensures
            q == (DistQuery { city_id1, city_id2 }),
    {
        DistQuery { city_id1, city_id2 }
    }

    /// Builds the query from identities that may be missing. It fails with
    /// `InvalidQuery` exactly when one is missing, and names the first one
    /// that is.
    pub fn from_optional(city_id1: Option<u64>, city_id2: Option<u64>) -> (r: Result<
        DistQuery,
        ClientError,
    >)
        ensures
            r is Ok <==> city_id1 is Some && city_id2 is Some,
            r matches Ok(q) ==> city_id1 == Some(q.city_id1) && city_id2 == Some(q.city_id2),
            r matches Err(e) ==> e@ == (ErrorView::InvalidQuery {
                missing: if city_id1 is None {
                    CITY_ID1@
                } else {
                    CITY_ID2@
                },
            }),
    {
        match (city_id1, city_id2) {
            (Some(a), Some(b)) => Ok(DistQuery { city_id1: a, city_id2: b }),
            (None, _) => Err(ClientError::InvalidQuery { missing: String::from_str(CITY_ID1) }),
            (Some(_), None) => Err(
                ClientError::InvalidQuery { missing: String::from_str(CITY_ID2) },
            ),
        }
    }

    /// Encodes the query: both identities, each under its name.
    pub fn to_params(&self) -> (params: Vec<(String, String)>)
        ensures
            params_view(params@) == self.params(),
    {
        let mut params: Vec<(String, String)> = Vec::new();
        assert(params_view(params@) =~= Seq::empty());
        push_param(&mut params, CITY_ID1, render_decimal(self.city_id1));
        push_param(&mut params, CITY_ID2, render_decimal(self.city_id2));
        assert(params_view(params@) =~= self.params());
        params
    }
}

/// The parameters of a distance query hold both identities, and reading
/// them gives the identities back.
pub proof fn lemma_dist_params(q: DistQuery)
    ensures
        q.params().len() == 2,
        names_distinct(q.params()),
        number_at(q.params(), CITY_ID1@) == Some(q.city_id1),
        number_at(q.params(), CITY_ID2@) == Some(q.city_id2),
{
    lemma_option_names();
    let p = q.params();
    lemma_parse_of_decimal(q.city_id1);
    lemma_parse_of_decimal(q.city_id2);
    let first = seq![(CITY_ID1@, decimal(q.city_id1 as nat))];
    assert(p.drop_last() =~= first);
    assert(value_of(first, CITY_ID1@) == Some(decimal(q.city_id1 as nat)));
    assert(value_of(p, CITY_ID1@) == value_of(first, CITY_ID1@));
}

} // verus!
