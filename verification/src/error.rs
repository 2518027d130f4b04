//! The operations of the service and the ways a call can fail.

use vstd::prelude::*;

verus! {

/// One of the four questions the service answers.
#[derive(Debug, Clone, Copy, PartialEq, Eq, Structural)]
pub enum Operation {
    /// One city picked at random.
    RandomCity,
    /// The cities that match a set of filters.
    Cities,
    /// The distance between two cities.
    Distance,
    /// The outline of one country.
    CountryOutline,
}

impl Operation {
    /// The path of the operation below the base address.
    pub open spec fn path_text(self) -> Seq<char> {
        match self {
            Operation::RandomCity => "rand"@,
            Operation::Cities => "cities"@,
            Operation::Distance => "distance"@,
            Operation::CountryOutline => "countries"@,
        }
    }

    /// The name under which a failure reports the operation.
    pub open spec fn name_text(self) -> Seq<char> {
        match self {
            Operation::RandomCity => "get_random_city"@,
            Operation::Cities => "get_cities"@,
            Operation::Distance => "get_distance"@,
            Operation::CountryOutline => "get_country_outline"@,
        }
    }

    /// The path of the operation below the base address.
    pub fn path(&self) -> (r: &'static str)
        ensures
            r@ == self.path_text(),
    {
        match self {
            Operation::RandomCity => "rand",
            Operation::Cities => "cities",
            Operation::Distance => "distance",
            Operation::CountryOutline => "countries",
        }
    }

    /// The name under which a failure reports the operation.
    pub fn name(&self) -> (r: &'static str)
        ensures
            r@ == self.name_text(),
    {
        match self {
            Operation::RandomCity => "get_random_city",
            Operation::Cities => "get_cities",
            Operation::Distance => "get_distance",
            Operation::CountryOutline => "get_country_outline",
        }
    }
}

/// Why a call produced no result. Nothing is retried: each failure reaches
/// the caller as one of these.
#[derive(Debug, Clone, PartialEq, Eq)]
pub enum ClientError {
    /// The request could not be sent or the reply did not arrive.
    TransportError { operation: Operation, reason: String },
    /// The service answered with a status outside 200..=299. `message` is
    /// the body of the answer, where it had one.
    RemoteError { operation: Operation, status: u16, message: Option<String> },
    /// The service answered with success, but the body is not what the
    /// operation returns.
    DecodeError { operation: Operation, status: u16 },
    /// A required field of a query is missing; `missing` is its name.
    InvalidQuery { missing: String },
}

/// A `ClientError` as mathematics.
pub enum ErrorView {
    TransportError { operation: Operation, reason: Seq<char> },
    RemoteError { operation: Operation, status: u16, message: Option<Seq<char>> },
    DecodeError { operation: Operation, status: u16 },
    InvalidQuery { missing: Seq<char> },
}

impl View for ClientError {
    type V = ErrorView;

    open spec fn view(&self) -> ErrorView {
        match *self {
            ClientError::TransportError { operation, reason } => ErrorView::TransportError {
                operation,
                reason: reason@,
            },
            ClientError::RemoteError { operation, status, message } => ErrorView::RemoteError {
                operation,
                status,
                message: match message {
                    Some(m) => Some(m@),
                    None => None,
                },
            },
            ClientError::DecodeError { operation, status } => ErrorView::DecodeError {
                operation,
                status,
            },
            ClientError::InvalidQuery { missing } => ErrorView::InvalidQuery { missing: missing@ },
        }
    }
}

impl ErrorView {
    /// Whether the failure is the service saying that what was asked for
    /// does not exist: a remote error with status 404.
    pub open spec fn is_not_found(self) -> bool {
        self matches ErrorView::RemoteError { status, .. } && status == 404
    }
}

impl ClientError {
    /// Whether the failure is the service saying that what was asked for
    /// does not exist: a remote error with status 404.
    pub fn is_not_found(&self) -> (r: bool)
        ensures
            r == self@.is_not_found(),
    {
        match self {
            ClientError::RemoteError { status, .. } => *status == 404,
            _ => false,
        }
    }
}

} // verus!
