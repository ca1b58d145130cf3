//! The client: one request builder and one response reader per operation.
//!
//! An operation is a single exchange. The client says what to send; the
//! caller sends it and brings back the response, or the transport's failure
//! as [`OpaError::Http`]; the matching reader says what the response means.
//! Nothing is retried, and nothing is kept between operations.

use crate::address::{
    address_url, base_url, is_directory, lemma_base_is_directory, resolve, resolved, Family,
};
use crate::envelope::{decoded, encode, encoded, validate, validated, Output};
use crate::error::{outcome, Failure, OpaError};
use crate::transport::{accepted, json_type, succeeded, Method, Request, RequestView, Response};
use vstd::prelude::*;
use vstd::string::*;
use vstd::utf8::*;

verus! {

/// A client of one service. It holds the base address, as given and as
/// parsed, and never changes.
#[derive(Debug)]
pub struct Client {
    addr: String,
    url: String,
}

/// A client as a mathematical value.
pub struct ClientView {
    /// The address that the client was built from.
    pub address: Seq<char>,
    /// The base URL that resources are resolved against.
    pub base: Seq<char>,
}

impl View for Client {
    type V = ClientView;

    closed spec fn view(&self) -> ClientView {
        ClientView { address: self.addr@, base: self.url@ }
    }
}

/// What building a client for `address` comes to.
pub open spec fn built(address: Seq<char>) -> Result<ClientView, Failure> {
    match address_url(address) {
        Ok(base) => Ok(ClientView { address, base }),
        Err(failure) => Err(failure),
    }
}

/// The request that puts `body`, announced as `content_type`, to `url`.
pub open spec fn put(url: Seq<char>, body: Seq<u8>, content_type: Option<Seq<char>>) -> RequestView {
    RequestView { method: Method::Put, url, body: Some(body), content_type }
}

/// The request that posts the text `envelope`, as JSON, to `url`.
pub open spec fn post(url: Seq<char>, envelope: Seq<char>) -> RequestView {
    RequestView {
        method: Method::Post,
        url,
        body: Some(encode_utf8(envelope)),
        content_type: Some(json_type()),
    }
}

/// The request with verb `method` and no body for `url`.
pub open spec fn bare(method: Method, url: Seq<char>) -> RequestView {
    RequestView { method, url, body: None, content_type: None }
}

/// The request of a query at `route` on `input`. The route is resolved first:
/// where it does not resolve, that is the failure, whatever the input.
pub open spec fn query_request(base: Seq<char>, route: Seq<char>, input: Seq<char>) -> Result<
    RequestView,
    Failure,
> {
    match resolved(base, Family::Data, route) {
        Ok(url) => match encoded(input) {
            Ok(envelope) => Ok(post(url, envelope)),
            Err(failure) => Err(failure),
        },
        Err(failure) => Err(failure),
    }
}

/// The request that stores `policy` under `path`.
pub open spec fn policy_request(base: Seq<char>, policy: Seq<u8>, path: Seq<char>) -> Result<
    RequestView,
    Failure,
> {
    match resolved(base, Family::Policies, path) {
        Ok(url) => Ok(put(url, policy, None)),
        Err(failure) => Err(failure),
    }
}

/// The request that stores the bytes `data` under `path`.
pub open spec fn raw_data_request(base: Seq<char>, data: Seq<u8>, path: Seq<char>) -> Result<
    RequestView,
    Failure,
> {
    match resolved(base, Family::Data, path) {
        Ok(url) => Ok(put(url, data, None)),
        Err(failure) => Err(failure),
    }
}

/// The request that stores the JSON text `data` under `path`. The text is
/// checked first: where it is no JSON, that is the failure, whatever the
/// path.
pub open spec fn data_request(base: Seq<char>, data: Seq<char>, path: Seq<char>) -> Result<
    RequestView,
    Failure,
> {
    match validated(data) {
        Ok(_) => match resolved(base, Family::Data, path) {
            Ok(url) => Ok(put(url, encode_utf8(data), Some(json_type()))),
            Err(failure) => Err(failure),
        },
        Err(failure) => Err(failure),
    }
}

/// The request of a health check at `route`.
pub open spec fn health_request(base: Seq<char>, route: Seq<char>) -> Result<RequestView, Failure> {
    match resolved(base, Family::Data, route) {
        Ok(url) => Ok(bare(Method::Get, url)),
        Err(failure) => Err(failure),
    }
}

/// The request that removes the policy `id`.
pub open spec fn removal_request(base: Seq<char>, id: Seq<char>) -> Result<RequestView, Failure> {
    match resolved(base, Family::Policies, id) {
        Ok(url) => Ok(bare(Method::Delete, url)),
        Err(failure) => Err(failure),
    }
}

/// The failed outcome with this failure.
pub open spec fn failed<T>(failure: Failure) -> Result<T, Failure> {
    Err(failure)
}

/// Whether an outcome is the rejection of a response outside the success
/// range.
pub open spec fn is_rejection<T>(outcome: Result<T, Failure>) -> bool {
    outcome matches Err(failure) && (failure is Opa || failure is Unexpected)
}

/// The start of the message of a query that found nothing.
pub open spec fn no_policy() -> Seq<char> {
    "No Policy found for "@
}

/// The start of the message of a health check that found nothing.
pub open spec fn no_policies() -> Seq<char> {
    "No Policies found for "@
}

/// What a write or a removal comes to, given the response: success in the
/// success range, whatever the body holds, and the rejection elsewhere.
pub open spec fn written(response: Response) -> Result<(), Failure> {
    match accepted(response) {
        Ok(_) => Ok(()),
        Err(failure) => Err(failure),
    }
}

/// What a raw query comes to, given the response: the decoded body in the
/// success range, and the rejection elsewhere.
pub open spec fn answered(response: Response) -> Result<Output<Seq<char>>, Failure> {
    match accepted(response) {
        Ok(body) => decoded(body),
        Err(failure) => Err(failure),
    }
}

/// What an answer comes to where the empty answer counts as not found:
/// the result, or the failure with the message `what` followed by `route`.
pub open spec fn present<T>(output: Output<T>, what: Seq<char>, route: Seq<char>) -> Result<
    T,
    Failure,
> {
    match output {
        Output::Result { result } => Ok(result),
        Output::Empty {  } => Err(Failure::NotFound(what + route)),
    }
}

/// What a query at `route` comes to, given the response: the result of the
/// raw query as JSON text, not found for the empty answer, and the failure of
/// the raw query where it fails.
pub open spec fn found(route: Seq<char>, response: Response) -> Result<Seq<char>, Failure> {
    match answered(response) {
        Ok(output) => present(output, no_policy(), route),
        Err(failure) => Err(failure),
    }
}

/// What a health check at `route` comes to, given the response: success where
/// the raw query has a result, whatever it is, not found for the empty
/// answer, and the failure of the raw query where it fails.
pub open spec fn healthy(route: Seq<char>, response: Response) -> Result<(), Failure> {
    match answered(response) {
        Ok(output) => match present(output, no_policies(), route) {
            Ok(_) => Ok(()),
            Err(failure) => Err(failure),
        },
        Err(failure) => Err(failure),
    }
}

impl<T> Output<T> {
    /// The result of the answer, or the failure [`OpaError::NotFound`] with
    /// the message `what` followed by `route` for the empty answer.
    pub fn or_not_found(self, what: &str, route: &str) -> (r: Result<T, OpaError>)
        ensures
            match present(self, what@, route@) {
                Ok(result) => r == Ok::<T, OpaError>(result),
                Err(failure) => r matches Err(e) && e@ == failure,
            },
    {
        match self {
            Output::Result { result } => Ok(result),
            Output::Empty {  } => {
                let mut message = String::from_str(what);
                message.append(route);
                Err(OpaError::NotFound(message))
            },
        }
    }
}

impl Clone for Client {
    fn clone(&self) -> (r: Client)
        ensures
            r@ == self@,
    {
        proof {
            use_type_invariant(self);
        }
        Client { addr: self.addr.clone(), url: self.url.clone() }
    }
}

impl Client {
    /// The URL is the address as parsed, made to name a directory.
    #[verifier::type_invariant]
    spec fn holds(self) -> bool {
        address_url(self.addr@) == Ok::<Seq<char>, Failure>(self.url@)
    }

    /// A client of the service at `address`.
    ///
    /// The address is kept as given. It is parsed once, and the parsed form
    /// is made to name a directory: a `/` is put at the end of its path
    /// unless one stands there. It has to be an absolute URL; one that does
    /// not parse is an [`OpaError::Address`], and no client is made.
    pub fn new(address: &str) -> (r: Result<Client, OpaError>)
        ensures
            outcome(r) == built(address@),
            r matches Ok(client) ==> is_directory(client@.base),
    {
        match base_url(address) {
            Ok(url) => Ok(Client { addr: String::from_str(address), url }),
            Err(e) => Err(e),
        }
    }

    /// The base URL: the address as parsed, naming a directory.
    pub fn url(&self) -> (r: &String)
        ensures
            r@ == self@.base,
            address_url(self@.address) == Ok::<Seq<char>, Failure>(self@.base),
            is_directory(self@.base),
    {
        proof {
            use_type_invariant(self);
            lemma_base_is_directory(self.addr@);
        }
        &self.url
    }

    /// The address, as given.
    pub fn addr(&self) -> (r: &String)
        ensures
            r@ == self@.address,
    {
        &self.addr
    }

    /// The URL of the resource `path` of `family` below the client's base
    /// URL, which names a directory.
    pub fn resolve(&self, family: Family, path: &str) -> (r: Result<String, OpaError>)
        ensures
            outcome(r) == resolved(self@.base, family, path@),
            is_directory(self@.base),
    {
        proof {
            use_type_invariant(self);
            lemma_base_is_directory(self.addr@);
        }
        resolve(self.url.as_str(), family, path)
    }

    /// The request that evaluates the policy at `route` on the JSON text
    /// `input`. Its response is read by [`Client::query_response`].
    pub fn query(&self, route: &str, input: &str) -> (r: Result<Request, OpaError>)
        ensures
            outcome(r) == query_request(self@.base, route@, input@),
    {
        self.query_raw(route, input)
    }

    /// The request that evaluates the policy at `route` on the JSON text
    /// `input`. Its response is read by [`Client::query_raw_response`].
    pub fn query_raw(&self, route: &str, input: &str) -> (r: Result<Request, OpaError>)
        ensures
            outcome(r) == query_request(self@.base, route@, input@),
    {
        let url = self.resolve(Family::Data, route)?;
        let envelope = encode(input)?;
        Ok(
            Request {
                method: Method::Post,
                url,
                body: Some(envelope.as_str().as_bytes_vec()),
                content_type: Some("application/json"),
            },
        )
    }

    /// The request that stores the policy text `policy` under `policy_path`.
    /// Its response is read by [`Client::handle_err`].
    pub fn set_policy(&self, policy: Vec<u8>, policy_path: &str) -> (r: Result<Request, OpaError>)
        ensures
            outcome(r) == policy_request(self@.base, policy@, policy_path@),
    {
        let url = self.resolve(Family::Policies, policy_path)?;
        Ok(Request { method: Method::Put, url, body: Some(policy), content_type: None })
    }

    /// The request that stores the JSON text `data` under `data_path`. Its
    /// response is read by [`Client::handle_err`].
    pub fn set_data(&self, data: &str, data_path: &str) -> (r: Result<Request, OpaError>)
        ensures
            outcome(r) == data_request(self@.base, data@, data_path@),
    {
        validate(data)?;
        let mut request = self.set_data_raw(data.as_bytes_vec(), data_path)?;
        request.content_type = Some("application/json");
        Ok(request)
    }

    /// The request that stores the bytes `data`, as they are, under
    /// `data_path`. Its response is read by [`Client::handle_err`].
    pub fn set_data_raw(&self, data: Vec<u8>, data_path: &str) -> (r: Result<Request, OpaError>)
        ensures
            outcome(r) == raw_data_request(self@.base, data@, data_path@),
    {
        let url = self.resolve(Family::Data, data_path)?;
        Ok(Request { method: Method::Put, url, body: Some(data), content_type: None })
    }

    /// The request that asks whether a value is bound at `route`, that is,
    /// whether the policies expected there are loaded. Its response is read
    /// by [`Client::check_health_response`].
    pub fn check_health(&self, route: &str) -> (r: Result<Request, OpaError>)
        ensures
            outcome(r) == health_request(self@.base, route@),
    {
        let url = self.resolve(Family::Data, route)?;
        Ok(Request { method: Method::Get, url, body: None, content_type: None })
    }

    /// The request that removes the policy `policy_id`. Its response is read
    /// by [`Client::handle_err`].
    pub fn delete_policy(&self, policy_id: &str) -> (r: Result<Request, OpaError>)
        ensures
            outcome(r) == removal_request(self@.base, policy_id@),
    {
        let url = self.resolve(Family::Policies, policy_id)?;
        Ok(Request { method: Method::Delete, url, body: None, content_type: None })
    }

    /// Reads the response to a write or a removal: success in the success
    /// range, with the body left unread, and the rejection elsewhere.
    pub fn handle_err(response: Response) -> (r: Result<(), OpaError>)
        ensures
            outcome(r) == written(response),
    {
        match response.accept() {
            Ok(_) => Ok(()),
            Err(e) => Err(e),
        }
    }

    /// Reads the response to a query, keeping the empty answer apart from the
    /// failures.
    pub fn query_raw_response(response: Response) -> (r: Result<Output<String>, OpaError>)
        ensures
            outcome(r) == answered(response),
    {
        let body = response.accept()?;
        Output::decode(body.as_slice())
    }

    /// Reads the response to a query at `route`: the result as JSON text. The
    /// empty answer is the failure [`OpaError::NotFound`].
    pub fn query_response(route: &str, response: Response) -> (r: Result<String, OpaError>)
        ensures
            outcome(r) == found(route@, response),
    {
        let output = Client::query_raw_response(response)?;
        output.or_not_found("No Policy found for ", route)
    }

    /// Reads the response to a health check at `route`: success where a value
    /// is bound there. The empty answer is the failure
    /// [`OpaError::NotFound`].
    pub fn check_health_response(route: &str, response: Response) -> (r: Result<(), OpaError>)
        ensures
            outcome(r) == healthy(route@, response),
    {
        let output = Client::query_raw_response(response)?;
        match output.or_not_found("No Policies found for ", route) {
            Ok(_) => Ok(()),
            Err(e) => Err(e),
        }
    }
}

/// A response outside the success range whose body is text fails every
/// operation alike: with the service's own message, whatever the status and
/// whatever the operation.
pub proof fn lemma_rejection_is_uniform(route: Seq<char>, response: Response)
    requires
        !succeeded(response.status),
        valid_utf8(response.body@),
    ensures
        written(response) == failed::<()>(Failure::Opa(decode_utf8(response.body@))),
        answered(response) == failed::<Output<Seq<char>>>(Failure::Opa(decode_utf8(response.body@))),
        found(route, response) == failed::<Seq<char>>(Failure::Opa(decode_utf8(response.body@))),
        healthy(route, response) == failed::<()>(Failure::Opa(decode_utf8(response.body@))),
{
}

/// The empty answer of a raw query is the not-found failure of a query and
/// of a health check, and a result of the one is the result of the other.
pub proof fn lemma_empty_is_not_found(route: Seq<char>, response: Response)
    ensures
        answered(response) == Ok::<_, Failure>(Output::<Seq<char>>::Empty {  }) <==> found(
            route,
            response,
        ) == failed::<Seq<char>>(Failure::NotFound(no_policy() + route)),
        answered(response) == Ok::<_, Failure>(Output::<Seq<char>>::Empty {  }) <==> healthy(
            route,
            response,
        ) == failed::<()>(Failure::NotFound(no_policies() + route)),
        forall|result: Seq<char>|
            answered(response) == Ok::<_, Failure>(Output::Result { result }) <==> found(
                route,
                response,
            ) == Ok::<_, Failure>(result),
        answered(response) matches Ok(Output::Result { .. }) <==> healthy(route, response) is Ok,
{
}

/// The kinds of failure are kept apart: a rejection comes from the status
/// alone, and from a status outside the success range nothing else comes; a
/// body that cannot be read, or that holds no result, is never taken for a
/// rejection.
pub proof fn lemma_failures_keep_their_kind(route: Seq<char>, response: Response)
    ensures
        !succeeded(response.status) <==> written(response) is Err,
        !succeeded(response.status) <==> is_rejection(answered(response)),
        !succeeded(response.status) <==> is_rejection(found(route, response)),
        !succeeded(response.status) <==> is_rejection(healthy(route, response)),
        succeeded(response.status) && answered(response) is Err ==> answered(response) == failed::<
            Output<Seq<char>>,
        >(Failure::Serde),
{
}

/// A write is read from the status alone: every response in the success range
/// is a success, whatever its body, so that the same write, sent again and
/// answered in the range again, succeeds again.
pub proof fn lemma_write_ignores_body(first: Response, second: Response)
    requires
        succeeded(first.status),
        succeeded(second.status),
    ensures
        written(first) == Ok::<(), Failure>(()),
        written(second) == written(first),
{
}

/// The request of a write is a function of the client and the arguments: the
/// same data for the same path asks the same of the service each time.
pub proof fn lemma_write_asks_the_same(
    client: ClientView,
    data: Seq<char>,
    path: Seq<char>,
    first: Result<Request, OpaError>,
    second: Result<Request, OpaError>,
)
    requires
        outcome(first) == data_request(client.base, data, path),
        outcome(second) == data_request(client.base, data, path),
    ensures
        outcome(first) == outcome(second),
        first matches Ok(request) ==> (second matches Ok(again) && again@ == request@),
{
}

} // verus!
