//! Properties of the request pipeline, stated over the responses that its
//! steps are proved to return.
use vstd::prelude::*;
use crate::errors::{STATUS_BAD_REQUEST, STATUS_INTERNAL_SERVER_ERROR, STATUS_NOT_FOUND};
use crate::models::Dog;
use crate::pipeline::{
    spec_get_dog_route, spec_get_dogs_response, ExecutorError, PayloadView, ResponseView,
    StoreError, LIST_CAP, STATUS_OK,
};
use crate::validation::id_in_range;

verus! {

/// An id outside the accepted range is answered with 400, whatever the store
/// holds.
pub proof fn lemma_out_of_range_id_is_bad_request(
    id: i32,
    outcome: Result<Result<Option<Dog>, StoreError>, ExecutorError>,
)
    requires
        !id_in_range(id as int),
    ensures
        spec_get_dog_route(id, outcome).status == STATUS_BAD_REQUEST,
{
}

/// An id in range whose record the store returns is answered with 200 and
/// that record.
pub proof fn lemma_existing_record_is_returned(id: i32, d: Dog)
    requires
        id_in_range(id as int),
        d.id == id,
    ensures
        spec_get_dog_route(id, Ok(Ok(Some(d)))) == (ResponseView {
            status: STATUS_OK,
            payload: PayloadView::Record(d),
        }),
{
}

/// Every successful single-record response carries a record whose id is the
/// id that was asked for.
pub proof fn lemma_success_carries_requested_id(
    id: i32,
    outcome: Result<Result<Option<Dog>, StoreError>, ExecutorError>,
)
    ensures
        spec_get_dog_route(id, outcome).status == STATUS_OK ==> (spec_get_dog_route(
            id,
            outcome,
        ).payload matches PayloadView::Record(d) && d.id == id),
{
}

/// An id in range with no matching row is answered with 404, not 500.
pub proof fn lemma_missing_record_is_not_found(id: i32)
    requires
        id_in_range(id as int),
    ensures
        spec_get_dog_route(id, Ok(Ok(None))).status == STATUS_NOT_FOUND,
{
}

/// A listing never holds more than `LIST_CAP` records, whatever the store
/// returned.
pub proof fn lemma_listing_is_capped(outcome: Result<Result<Vec<Dog>, StoreError>, ExecutorError>)
    ensures
        spec_get_dogs_response(outcome).payload matches PayloadView::Records(rows) ==> rows.len()
            <= LIST_CAP,
{
}

/// A listing holds the store's rows in storage order: all of them when there
/// are at most `LIST_CAP`, else the first `LIST_CAP`.
pub proof fn lemma_listing_keeps_storage_order(rows: Vec<Dog>)
    ensures
        spec_get_dogs_response(Ok(Ok(rows))).status == STATUS_OK,
        spec_get_dogs_response(Ok(Ok(rows))).payload matches PayloadView::Records(out) && (
        rows@.len() <= LIST_CAP ==> out == rows@) && (rows@.len() > LIST_CAP ==> out
            == rows@.take(LIST_CAP as int)),
{
}

/// A failed checkout, a failed query or a failed executor (as under load
/// beyond the pool's size) ends in a 500 with an error body on both routes.
pub proof fn lemma_saturation_is_server_error(
    id: i32,
    one: Result<Result<Option<Dog>, StoreError>, ExecutorError>,
    many: Result<Result<Vec<Dog>, StoreError>, ExecutorError>,
)
    requires
        id_in_range(id as int),
        !(one matches Ok(Ok(_))),
        !(many matches Ok(Ok(_))),
    ensures
        spec_get_dog_route(id, one).status == STATUS_INTERNAL_SERVER_ERROR,
        spec_get_dog_route(id, one).payload is Message,
        spec_get_dogs_response(many).status == STATUS_INTERNAL_SERVER_ERROR,
        spec_get_dogs_response(many).payload is Message,
{
}

/// The response depends on what the store returned and nothing else: two
/// reads that see the same rows, or that fail in the same layer for different
/// causes, are answered identically.
pub proof fn lemma_reads_are_repeatable(
    id: i32,
    first: Result<Result<Option<Dog>, StoreError>, ExecutorError>,
    second: Result<Result<Option<Dog>, StoreError>, ExecutorError>,
)
    requires
        match (first, second) {
            (Ok(Ok(a)), Ok(Ok(b))) => a == b,
            (Ok(Err(_)), Ok(Err(_))) => true,
            (Err(_), Err(_)) => true,
            _ => false,
        },
    ensures
        spec_get_dog_route(id, first) == spec_get_dog_route(id, second),
{
}

} // verus!
