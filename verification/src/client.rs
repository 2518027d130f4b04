//! The client: a base address, and the request for each operation.

use crate::error::ClientError;
use crate::error::ErrorView;
use crate::error::Operation;
use crate::query::params_view;
use crate::query::push_param;
use crate::query::CitiesQuery;
use crate::query::DistQuery;
use crate::query::Params;
use crate::query::COUNTRY_CODE;
use crate::target::compose;
use crate::target::composed;
use crate::target::target_view;
use crate::target::TargetFault;
use crate::uri::join;
use crate::uri::joined;
use vstd::prelude::*;
use vstd::string::StringExecFns;

verus! {

/// The address that a client has when none is given.
pub const DEFAULT_BASE_URL: &'static str = "http://localhost:3000";

/// What a transport error says where the target would be too long.
pub const REASON_TOO_LONG: &'static str = "the request address is too long";

/// What a transport error says where the address is not an absolute URL.
pub const REASON_NOT_A_URL: &'static str = "the request address is not an absolute URL";

/// One request, ready to be sent with GET.
#[derive(Debug, Clone, PartialEq, Eq)]
pub struct Request {
    /// The operation that the request belongs to.
    pub operation: Operation,
    /// The target: address, path and encoded parameters.
    pub url: String,
}

/// A `Request` as mathematics.
pub struct RequestView {
    pub operation: Operation,
    pub url: Seq<char>,
}

impl View for Request {
    type V = RequestView;

    open spec fn view(&self) -> RequestView {
        RequestView { operation: self.operation, url: self.url@ }
    }
}

/// The view of a request or of the failure in its place.
pub open spec fn request_result_view(r: Result<Request, ClientError>) -> Result<
    RequestView,
    ErrorView,
> {
    match r {
        Ok(request) => Ok(request@),
        Err(error) => Err(error@),
    }
}

/// The request that a target makes, or the transport error that stands for
/// a target that could not be written.
pub open spec fn request_of(operation: Operation, target: Result<Seq<char>, TargetFault>) -> Result<
    RequestView,
    ErrorView,
> {
    match target {
        Ok(url) => Ok(RequestView { operation, url }),
        Err(TargetFault::TooLong) => Err(
            ErrorView::TransportError { operation, reason: REASON_TOO_LONG@ },
        ),
        Err(TargetFault::NotAUrl) => Err(
            ErrorView::TransportError { operation, reason: REASON_NOT_A_URL@ },
        ),
    }
}

/// The request for `operation` with `params` at the service under `base`:
/// its target is the path of the operation joined to the base, with the
/// parameters encoded behind it.
pub open spec fn request_for(operation: Operation, base: Seq<char>, params: Params) -> Result<
    RequestView,
    ErrorView,
> {
    request_of(operation, composed(joined(base, operation.path_text()), params))
}

impl Request {
    /// Makes the request for `operation` from a target: see `request_of`.
    pub fn from_target(operation: Operation, target: Result<String, TargetFault>) -> (r: Result<
        Request,
        ClientError,
    >)
        ensures
            request_result_view(r) == request_of(operation, target_view(target)),
    {
        match target {
            Ok(url) => Ok(Request { operation, url }),
            Err(TargetFault::TooLong) => Err(
                ClientError::TransportError {
                    operation,
                    reason: String::from_str(REASON_TOO_LONG),
                },
            ),
            Err(TargetFault::NotAUrl) => Err(
                ClientError::TransportError {
                    operation,
                    reason: String::from_str(REASON_NOT_A_URL),
                },
            ),
        }
    }
}

/// A client of the service at one base address. It keeps no other state:
/// what a call makes of its reply depends on that reply alone.
#[derive(Debug, Clone, PartialEq, Eq)]
pub struct Client {
    base_url: String,
}

impl Client {
    /// The base address of the client.
    pub closed spec fn base(&self) -> Seq<char> {
        self.base_url@
    }

    /// A client of the service at `base_url`.
    pub fn new(base_url: &str) -> (client: Client)
        ensures
            client.base() == base_url@,
    {
        Client { base_url: String::from_str(base_url) }
    }

    /// The base address of the client.
    pub fn base_url(&self) -> (r: &str)
        ensures
            r@ == self.base(),
    {
        self.base_url.as_str()
    }

    /// The address of `additional_path` under the base address, with
    /// exactly one slash between the two.
    pub fn get_full_uri(&self, additional_path: &str) -> (r: String)
        ensures
            r@ == joined(self.base(), additional_path@),
    {
        join(self.base_url.as_str(), additional_path)
    }

    /// The request for `operation` with `params`.
    pub fn request(&self, operation: Operation, params: &Vec<(String, String)>) -> (r: Result<
        Request,
        ClientError,
    >)
        ensures
            request_result_view(r) == request_for(operation, self.base(), params_view(params@)),
    {
        let address = self.get_full_uri(operation.path());
        Request::from_target(operation, compose(address.as_str(), params))
    }

    /// The request for a random city: no parameters.
    pub fn random_city_request(&self) -> (r: Result<Request, ClientError>)
        ensures
            request_result_view(r) == request_for(
                Operation::RandomCity,
                self.base(),
                Seq::empty(),
            ),
    {
        let params: Vec<(String, String)> = Vec::new();
        assert(params_view(params@) =~= Seq::empty());
        self.request(Operation::RandomCity, &params)
    }

    /// The request for the cities that match `query`: one parameter for
    /// each field of the query that is present.
    pub fn cities_request(&self, query: &CitiesQuery) -> (r: Result<Request, ClientError>)
        ensures
            request_result_view(r) == request_for(
                Operation::Cities,
                self.base(),
                query@.params(),
            ),
    {
        let params = query.to_params();
        self.request(Operation::Cities, &params)
    }

    /// The request for the distance between the two cities of `query`.
    pub fn distance_request(&self, query: &DistQuery) -> (r: Result<Request, ClientError>)
        ensures
            request_result_view(r) == request_for(
                Operation::Distance,
                self.base(),
                query.params(),
            ),
    {
        let params = query.to_params();
        self.request(Operation::Distance, &params)
    }

    /// The request for the outline of the country with `country_code`.
    pub fn country_outline_request(&self, country_code: &str) -> (r: Result<
        Request,
        ClientError,
    >)
        ensures
            request_result_view(r) == request_for(
                Operation::CountryOutline,
                self.base(),
                seq![(COUNTRY_CODE@, country_code@)],
            ),
    {
        let mut params: Vec<(String, String)> = Vec::new();
        assert(params_view(params@) =~= Seq::empty());
        push_param(&mut params, COUNTRY_CODE, String::from_str(country_code));
        assert(params_view(params@) =~= seq![(COUNTRY_CODE@, country_code@)]);
        self.request(Operation::CountryOutline, &params)
    }
}

impl Default for Client {
    /// A client of the service at `DEFAULT_BASE_URL`.
    fn default() -> (client: Client)
        ensures
            client.base() == DEFAULT_BASE_URL@,
    {
        Client::new(DEFAULT_BASE_URL)
    }
}

} // verus!
