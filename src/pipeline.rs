use vstd::prelude::*;
use crate::errors::UserError;
use crate::models::Dog;
use crate::validation::{id_in_range, DogEndpointPath};

verus! {

pub const STATUS_OK: u16 = 200;

/// The most rows a listing returns, whatever the store holds.
pub const LIST_CAP: usize = 100;

/// A store failure inside a blocking task.
#[derive(Clone, Copy, Debug, PartialEq, Eq, Structural)]
pub enum StoreError {
    /// No connection could be checked out of the pool.
    Checkout,
    /// The query itself failed.
    Query,
}

/// The blocking executor did not run a task to completion
/// (refused, saturated, or the task panicked).
#[derive(Clone, Copy, Debug, PartialEq, Eq, Structural)]
pub struct ExecutorError {}

/// What a response carries, before it is encoded as JSON.
#[derive(Clone, Debug)]
pub enum Payload {
    /// One record, as a JSON object.
    Record(Dog),
    /// A list of records, as a JSON array.
    Records(Vec<Dog>),
    /// An error body, already encoded.
    Message(String),
}

/// An HTTP response: a status and what it carries.
#[derive(Clone, Debug)]
pub struct ApiResponse {
    pub status: u16,
    pub payload: Payload,
}

/// The mathematical content of a `Payload`.
pub enum PayloadView {
    Record(Dog),
    Records(Seq<Dog>),
    Message(Seq<char>),
}

/// The mathematical content of an `ApiResponse`.
pub struct ResponseView {
    pub status: u16,
    pub payload: PayloadView,
}

impl View for ApiResponse {
    type V = ResponseView;

    open spec fn view(&self) -> ResponseView {
        ResponseView {
            status: self.status,
            payload: match self.payload {
                Payload::Record(d) => PayloadView::Record(d),
                Payload::Records(v) => PayloadView::Records(v@),
                Payload::Message(m) => PayloadView::Message(m@),
            },
        }
    }
}

/// The response for an error kind: its status and its JSON message body.
pub open spec fn spec_error_response(e: UserError) -> ResponseView {
    ResponseView { status: e.spec_status_code(), payload: PayloadView::Message(e.spec_body()) }
}

/// The outer result reports the executor's health, the inner one the store's.
pub open spec fn spec_task_result<T>(outcome: Result<Result<T, StoreError>, ExecutorError>) -> Result<
    T,
    UserError,
> {
    match outcome {
        Err(_) => Err(UserError::UnexpectedError),
        Ok(Err(_)) => Err(UserError::DBPoolGetError),
        Ok(Ok(v)) => Ok(v),
    }
}

/// The single-record lookup: zero rows is `NotFoundError`; a row with another
/// id than the one asked for is a store failure.
pub open spec fn spec_lookup(
    id: i32,
    outcome: Result<Result<Option<Dog>, StoreError>, ExecutorError>,
) -> Result<Dog, UserError> {
    match spec_task_result(outcome) {
        Err(e) => Err(e),
        Ok(None) => Err(UserError::NotFoundError),
        Ok(Some(d)) => if d.id == id {
            Ok(d)
        } else {
            Err(UserError::DBPoolGetError)
        },
    }
}

/// The first `LIST_CAP` rows, in storage order.
pub open spec fn spec_capped(rows: Seq<Dog>) -> Seq<Dog> {
    if rows.len() <= LIST_CAP {
        rows
    } else {
        rows.take(LIST_CAP as int)
    }
}

pub open spec fn spec_listing(outcome: Result<Result<Vec<Dog>, StoreError>, ExecutorError>) -> Result<
    Seq<Dog>,
    UserError,
> {
    match spec_task_result(outcome) {
        Err(e) => Err(e),
        Ok(rows) => Ok(spec_capped(rows@)),
    }
}

/// Validation of `GET /api/dogs/{id}`: `Some` is the immediate reply, `None`
/// means the record is to be fetched.
pub open spec fn spec_begin_get_dog(id: i32) -> Option<ResponseView> {
    if id_in_range(id as int) {
        None
    } else {
        Some(spec_error_response(UserError::ValidationError))
    }
}

pub open spec fn spec_get_dog_response(
    id: i32,
    outcome: Result<Result<Option<Dog>, StoreError>, ExecutorError>,
) -> ResponseView {
    match spec_lookup(id, outcome) {
        Ok(d) => ResponseView { status: STATUS_OK, payload: PayloadView::Record(d) },
        Err(e) => spec_error_response(e),
    }
}

/// The whole of `GET /api/dogs/{id}`, where `outcome` is what the blocking
/// task would report; it is not asked for when validation fails.
pub open spec fn spec_get_dog_route(
    id: i32,
    outcome: Result<Result<Option<Dog>, StoreError>, ExecutorError>,
) -> ResponseView {
    match spec_begin_get_dog(id) {
        Some(reply) => reply,
        None => spec_get_dog_response(id, outcome),
    }
}

/// The whole of `GET /api/dogs`.
pub open spec fn spec_get_dogs_response(
    outcome: Result<Result<Vec<Dog>, StoreError>, ExecutorError>,
) -> ResponseView {
    match spec_listing(outcome) {
        Ok(rows) => ResponseView { status: STATUS_OK, payload: PayloadView::Records(rows) },
        Err(e) => spec_error_response(e),
    }
}

/// Folds the nested result of a blocking task into the error taxonomy.
pub fn task_result<T>(outcome: Result<Result<T, StoreError>, ExecutorError>) -> (r: Result<
    T,
    UserError,
>)
    ensures
        r == spec_task_result(outcome),
{
    match outcome {
        Err(_) => Err(UserError::UnexpectedError),
        Ok(Err(_)) => Err(UserError::DBPoolGetError),
        Ok(Ok(v)) => Ok(v),
    }
}

/// Decides the result of the single-record query for `id`.
pub fn resolve_dog(id: i32, outcome: Result<Result<Option<Dog>, StoreError>, ExecutorError>) -> (r:
    Result<Dog, UserError>)
    ensures
        r == spec_lookup(id, outcome),
{
    match task_result(outcome) {
        Err(e) => Err(e),
        Ok(None) => Err(UserError::NotFoundError),
        Ok(Some(d)) => {
            if d.id == id {
                Ok(d)
            } else {
                Err(UserError::DBPoolGetError)
            }
        },
    }
}

/// Decides the result of the listing query, holding it to `LIST_CAP` rows.
pub fn resolve_dogs(outcome: Result<Result<Vec<Dog>, StoreError>, ExecutorError>) -> (r: Result<
    Vec<Dog>,
    UserError,
>)
    ensures
        match r {
            Ok(rows) => spec_listing(outcome) == Ok::<Seq<Dog>, UserError>(rows@),
            Err(e) => spec_listing(outcome) == Err::<Seq<Dog>, UserError>(e),
        },
{
    match task_result(outcome) {
        Err(e) => Err(e),
        Ok(rows) => {
            let mut rows = rows;
            if rows.len() > LIST_CAP {
                rows.truncate(LIST_CAP);
            }
            Ok(rows)
        },
    }
}

/// The response for an error kind.
pub fn error_response(e: UserError) -> (r: ApiResponse)
    ensures
        r@ == spec_error_response(e),
{
    ApiResponse { status: e.status_code(), payload: Payload::Message(e.error_body()) }
}

/// What `GET /api/dogs/{id}` does after validation.
#[derive(Clone, Debug)]
pub enum DogStep {
    /// Answer at once, without touching the store.
    Reply(ApiResponse),
    /// Run the single-record query for this id on the blocking executor.
    Fetch(i32),
}

/// The first step of `GET /api/dogs/{id}`: validation, inline and before
/// any blocking task is submitted.
pub fn begin_get_dog(path: &DogEndpointPath) -> (r: DogStep)
    ensures
        match r {
            DogStep::Reply(resp) => spec_begin_get_dog(path.id) == Some(resp@),
            DogStep::Fetch(id) => id == path.id && spec_begin_get_dog(path.id) is None,
        },
{
    match path.validate() {
        Ok(()) => DogStep::Fetch(path.id),
        Err(e) => DogStep::Reply(error_response(e)),
    }
}

/// The last step of `GET /api/dogs/{id}`: the response for what the blocking
/// task reported.
pub fn finish_get_dog(id: i32, outcome: Result<Result<Option<Dog>, StoreError>, ExecutorError>) -> (r:
    ApiResponse)
    ensures
        r@ == spec_get_dog_response(id, outcome),
{
    match resolve_dog(id, outcome) {
        Ok(d) => ApiResponse { status: STATUS_OK, payload: Payload::Record(d) },
        Err(e) => error_response(e),
    }
}

/// The response of `GET /api/dogs` for what the blocking task reported.
pub fn finish_get_dogs(outcome: Result<Result<Vec<Dog>, StoreError>, ExecutorError>) -> (r:
    ApiResponse)
    ensures
        r@ == spec_get_dogs_response(outcome),
{
    match resolve_dogs(outcome) {
        Ok(rows) => ApiResponse { status: STATUS_OK, payload: Payload::Records(rows) },
        Err(e) => error_response(e),
    }
}

} // verus!
