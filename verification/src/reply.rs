//! What came back for a request, and what it means for each operation.
//!
//! A reply is read in three steps, the same for every operation. A request
//! that was not answered is a transport error. An answer with a status
//! outside 200..=299 is a remote error, whatever its body holds: the body is
//! not decoded. Only then is the body read as JSON and as the result of the
//! operation; where either fails, or where the body is no text at all, that
//! is a decode error.

use crate::error::ClientError;
use crate::error::ErrorView;
use crate::error::Operation;
use crate::json::json_document;
use crate::json::parse_document;
use crate::json::Json;
use crate::model::cities_from_json;
use crate::model::cities_of;
use crate::model::city_of;
use crate::model::city_views;
use crate::model::distance_from_json;
use crate::model::distance_of;
use crate::model::outline_of;
use crate::model::City;
use crate::model::CityView;
use crate::model::Country;
use vstd::prelude::*;

verus! {

/// What came back for one request.
#[derive(Debug, Clone, PartialEq, Eq)]
pub enum Reply {
    /// Nothing: the request could not be sent, or the answer did not arrive
    /// whole. `reason` says what the transport reported.
    Failed { reason: String },
    /// An answer of the service, with its status and its whole body.
    Received { status: u16, body: String },
    /// An answer of the service whose body is not UTF-8 text.
    Unreadable { status: u16 },
}

/// A `Reply` as mathematics.
pub enum ReplyView {
    Failed { reason: Seq<char> },
    Received { status: u16, body: Seq<char> },
    Unreadable { status: u16 },
}

impl View for Reply {
    type V = ReplyView;

    open spec fn view(&self) -> ReplyView {
        match *self {
            Reply::Failed { reason } => ReplyView::Failed { reason: reason@ },
            Reply::Received { status, body } => ReplyView::Received { status, body: body@ },
            Reply::Unreadable { status } => ReplyView::Unreadable { status },
        }
    }
}

/// Whether a status reports success: it lies in 200..=299.
pub open spec fn status_is_success(status: u16) -> bool {
    200 <= status <= 299
}

/// The message that comes with a failure: the body, where it is not empty.
pub open spec fn message_of(body: Seq<char>) -> Option<Seq<char>> {
    if body.len() == 0 {
        None
    } else {
        Some(body)
    }
}

/// The status and body of an answer that reports success, or the failure
/// that the reply is.
pub open spec fn screened(operation: Operation, reply: ReplyView) -> Result<
    (u16, Seq<char>),
    ErrorView,
> {
    match reply {
        ReplyView::Failed { reason } => Err(ErrorView::TransportError { operation, reason }),
        ReplyView::Received { status, body } => if status_is_success(status) {
            Ok((status, body))
        } else {
            Err(ErrorView::RemoteError { operation, status, message: message_of(body) })
        },
        ReplyView::Unreadable { status } => if status_is_success(status) {
            Err(ErrorView::DecodeError { operation, status })
        } else {
            Err(ErrorView::RemoteError { operation, status, message: None })
        },
    }
}

/// What a body that was answered with `status` delivers: what was read from
/// it, or a decode error that names the operation and the status.
pub open spec fn delivered<T>(operation: Operation, status: u16, read: Option<T>) -> Result<
    T,
    ErrorView,
> {
    match read {
        Some(value) => Ok(value),
        None => Err(ErrorView::DecodeError { operation, status }),
    }
}

/// What a reply means for an operation whose result `read` finds in a JSON
/// document.
pub open spec fn outcome<T>(
    operation: Operation,
    reply: ReplyView,
    read: spec_fn(Json) -> Option<T>,
) -> Result<T, ErrorView> {
    match screened(operation, reply) {
        Ok((status, body)) => delivered(
            operation,
            status,
            match json_document(body) {
                Some(document) => read(document),
                None => None,
            },
        ),
        Err(error) => Err(error),
    }
}

/// A request that was not answered is a transport error with the reason
/// that the transport gave, for every operation.
pub proof fn lemma_unanswered_is_transport_error<T>(
    operation: Operation,
    reason: Seq<char>,
    read: spec_fn(Json) -> Option<T>,
)
    ensures
        outcome(operation, ReplyView::Failed { reason }, read) == Err::<T, ErrorView>(
            ErrorView::TransportError { operation, reason },
        ),
{
}

/// An answer whose status does not report success is a remote error with
/// that status, whatever the body holds: no body is decoded then, not even
/// one that would describe a result.
pub proof fn lemma_remote_error_whatever_the_body<T>(
    operation: Operation,
    status: u16,
    body: Seq<char>,
    read: spec_fn(Json) -> Option<T>,
)
    requires
        !status_is_success(status),
    ensures
        outcome(operation, ReplyView::Received { status, body }, read) == Err::<T, ErrorView>(
            ErrorView::RemoteError { operation, status, message: message_of(body) },
        ),
{
}

/// An answer whose body is not text is a decode error where the status
/// reports success, and a remote error without a message where it does not.
pub proof fn lemma_body_that_is_no_text<T>(
    operation: Operation,
    status: u16,
    read: spec_fn(Json) -> Option<T>,
)
    ensures
        outcome(operation, ReplyView::Unreadable { status }, read) == Err::<T, ErrorView>(
            if status_is_success(status) {
                ErrorView::DecodeError { operation, status }
            } else {
                ErrorView::RemoteError { operation, status, message: None }
            },
        ),
{
}

/// An answer that reports success with a body that is no JSON document, or
/// one in which the result is not found, is a decode error that carries the
/// operation and the status.
pub proof fn lemma_unreadable_body_is_decode_error<T>(
    operation: Operation,
    status: u16,
    body: Seq<char>,
    read: spec_fn(Json) -> Option<T>,
)
    requires
        status_is_success(status),
        json_document(body) matches Some(document) ==> read(document) is None,
    ensures
        outcome(operation, ReplyView::Received { status, body }, read) == Err::<T, ErrorView>(
            ErrorView::DecodeError { operation, status },
        ),
{
}

/// An answer that reports success with a body in which the result is found
/// delivers that result.
pub proof fn lemma_readable_body_is_delivered<T>(
    operation: Operation,
    status: u16,
    body: Seq<char>,
    read: spec_fn(Json) -> Option<T>,
    document: Json,
    value: T,
)
    requires
        status_is_success(status),
        json_document(body) == Some(document),
        read(document) == Some(value),
    ensures
        outcome(operation, ReplyView::Received { status, body }, read) == Ok::<T, ErrorView>(
            value,
        ),
{
}

/// Tells whether `status` reports success.
pub fn is_success(status: u16) -> (r: bool)
    ensures
        r == status_is_success(status),
{
    200 <= status && status <= 299
}

/// Sorts out the replies that are failures by themselves: see `screened`.
pub fn screen<'a>(operation: Operation, reply: &'a Reply) -> (r: Result<
    (u16, &'a str),
    ClientError,
>)
    ensures
        match r {
            Ok((status, body)) => screened(operation, reply@) == Ok::<
                (u16, Seq<char>),
                ErrorView,
            >((status, body@)),
            Err(error) => screened(operation, reply@) == Err::<(u16, Seq<char>), ErrorView>(
                error@,
            ),
        },
{
    match reply {
        Reply::Failed { reason } => Err(
            ClientError::TransportError { operation, reason: reason.clone() },
        ),
        Reply::Received { status, body } => {
            if is_success(*status) {
                Ok((*status, body.as_str()))
            } else {
                let message = if body.as_str().is_empty() {
                    None
                } else {
                    Some(body.clone())
                };
                Err(ClientError::RemoteError { operation, status: *status, message })
            }
        },
        Reply::Unreadable { status } => {
            if is_success(*status) {
                Err(ClientError::DecodeError { operation, status: *status })
            } else {
                Err(ClientError::RemoteError { operation, status: *status, message: None })
            }
        },
    }
}

/// The view of a city or of the failure in its place.
pub open spec fn city_result_view(r: Result<City, ClientError>) -> Result<CityView, ErrorView> {
    match r {
        Ok(city) => Ok(city@),
        Err(error) => Err(error@),
    }
}

/// The views of cities or of the failure in their place.
pub open spec fn cities_result_view(r: Result<Vec<City>, ClientError>) -> Result<
    Seq<CityView>,
    ErrorView,
> {
    match r {
        Ok(cities) => Ok(city_views(cities@)),
        Err(error) => Err(error@),
    }
}

/// The characters of a text or the view of the failure in its place.
pub open spec fn text_result_view(r: Result<String, ClientError>) -> Result<
    Seq<char>,
    ErrorView,
> {
    match r {
        Ok(text) => Ok(text@),
        Err(error) => Err(error@),
    }
}

/// Reads the reply to a request for a random city: the one city that the
/// body describes.
pub fn read_random_city(reply: &Reply) -> (r: Result<City, ClientError>)
    ensures
        city_result_view(r) == outcome(Operation::RandomCity, reply@, |j: Json| city_of(j)),
{
    let operation = Operation::RandomCity;
    let (status, body) = match screen(operation, reply) {
        Ok(answer) => answer,
        Err(error) => { return Err(error); },
    };
    let city = match parse_document(body) {
        Ok(document) => City::from_json(&document),
        Err(_) => None,
    };
    match city {
        Some(city) => Ok(city),
        None => Err(ClientError::DecodeError { operation, status }),
    }
}

/// Reads the reply to a request for cities: the cities that the body lists,
/// in the order in which it lists them.
pub fn read_cities(reply: &Reply) -> (r: Result<Vec<City>, ClientError>)
    ensures
        cities_result_view(r) == outcome(Operation::Cities, reply@, |j: Json| cities_of(j)),
{
    let operation = Operation::Cities;
    let (status, body) = match screen(operation, reply) {
        Ok(answer) => answer,
        Err(error) => { return Err(error); },
    };
    let cities = match parse_document(body) {
        Ok(document) => cities_from_json(&document),
        Err(_) => None,
    };
    match cities {
        Some(cities) => Ok(cities),
        None => Err(ClientError::DecodeError { operation, status }),
    }
}

/// Reads the reply to a request for a distance: the number that the body
/// is, in the form in which `serde_json` prints it.
pub fn read_distance(reply: &Reply) -> (r: Result<String, ClientError>)
    ensures
        text_result_view(r) == outcome(Operation::Distance, reply@, |j: Json| distance_of(j)),
{
    let operation = Operation::Distance;
    let (status, body) = match screen(operation, reply) {
        Ok(answer) => answer,
        Err(error) => { return Err(error); },
    };
    let distance = match parse_document(body) {
        Ok(document) => distance_from_json(&document),
        Err(_) => None,
    };
    match distance {
        Some(distance) => Ok(distance),
        None => Err(ClientError::DecodeError { operation, status }),
    }
}

/// Reads the reply to a request for a country's outline: the outline of
/// the country that the body describes, and nothing else of it.
pub fn read_country_outline(reply: &Reply) -> (r: Result<String, ClientError>)
    ensures
        text_result_view(r) == outcome(
            Operation::CountryOutline,
            reply@,
            |j: Json| outline_of(j),
        ),
{
    let operation = Operation::CountryOutline;
    let (status, body) = match screen(operation, reply) {
        Ok(answer) => answer,
        Err(error) => { return Err(error); },
    };
    let country = match parse_document(body) {
        Ok(document) => Country::from_json(&document),
        Err(_) => None,
    };
    match country {
        Some(country) => Ok(country.into_outline()),
        None => Err(ClientError::DecodeError { operation, status }),
    }
}

} // verus!
