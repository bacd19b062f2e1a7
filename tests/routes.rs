use dogdex_api::pipeline::{
    begin_get_dog, finish_get_dog, finish_get_dogs, DogStep, ExecutorError, Payload, StoreError,
    LIST_CAP,
};
use dogdex_api::{Dog, DogEndpointPath};

fn dog(id: i32) -> Dog {
    Dog { id, name: format!("Dog {}", id), image_path: format!("images/{}.jpg", id) }
}

fn rows(n: i32) -> Vec<Dog> {
    (1..=n).map(dog).collect()
}

#[test]
fn test_dogs_endpoint_get() {
    let resp = finish_get_dogs(Ok(Ok(rows(3))));
    assert!((200..300).contains(&resp.status));
}

#[test]
fn it_test_get_dog_endpoint() {
    let step = begin_get_dog(&DogEndpointPath::new(1));
    let id = match step {
        DogStep::Fetch(id) => id,
        DogStep::Reply(_) => panic!("id 1 must reach the store"),
    };
    let resp = finish_get_dog(id, Ok(Ok(Some(dog(1)))));
    assert!((200..300).contains(&resp.status));
}

#[test]
fn it_test_validation_at_get_dog() {
    let step = begin_get_dog(&DogEndpointPath::new(800));
    match step {
        DogStep::Reply(resp) => assert_eq!(resp.status, 400),
        DogStep::Fetch(_) => panic!("id 800 must be rejected"),
    }
}

#[test]
fn ids_outside_range_are_rejected() {
    for id in [i32::MIN, -1, 0, 151, 800, i32::MAX] {
        match begin_get_dog(&DogEndpointPath::new(id)) {
            DogStep::Reply(resp) => {
                assert_eq!(resp.status, 400);
                match resp.payload {
                    Payload::Message(m) => assert_eq!(m, "{\"msg\":\"Invalid input parameter\"}"),
                    _ => panic!("error body expected"),
                }
            }
            DogStep::Fetch(_) => panic!("id {} must be rejected", id),
        }
    }
}

#[test]
fn range_bounds_are_accepted() {
    for id in [1, 75, 150] {
        match begin_get_dog(&DogEndpointPath::new(id)) {
            DogStep::Fetch(got) => assert_eq!(got, id),
            DogStep::Reply(_) => panic!("id {} must be accepted", id),
        }
    }
}

#[test]
fn found_record_has_requested_id() {
    let resp = finish_get_dog(42, Ok(Ok(Some(dog(42)))));
    assert_eq!(resp.status, 200);
    match resp.payload {
        Payload::Record(d) => assert_eq!(d, dog(42)),
        _ => panic!("record expected"),
    }
}

#[test]
fn missing_record_is_not_found() {
    let resp = finish_get_dog(7, Ok(Ok(None)));
    assert_eq!(resp.status, 404);
    match resp.payload {
        Payload::Message(m) => assert_eq!(m, "{\"msg\":\"Not found\"}"),
        _ => panic!("error body expected"),
    }
}

#[test]
fn row_with_other_id_is_server_error() {
    let resp = finish_get_dog(7, Ok(Ok(Some(dog(8)))));
    assert_eq!(resp.status, 500);
}

#[test]
fn listing_is_capped_at_one_hundred() {
    let resp = finish_get_dogs(Ok(Ok(rows(150))));
    assert_eq!(resp.status, 200);
    match resp.payload {
        Payload::Records(v) => {
            assert_eq!(v.len(), LIST_CAP);
            assert_eq!(v.len(), 100);
            assert_eq!(v, rows(100));
        }
        _ => panic!("records expected"),
    }
}

#[test]
fn short_listing_is_kept_whole() {
    for n in [0, 1, 100] {
        match finish_get_dogs(Ok(Ok(rows(n)))).payload {
            Payload::Records(v) => assert_eq!(v, rows(n)),
            _ => panic!("records expected"),
        }
    }
}

#[test]
fn store_failures_are_server_errors() {
    for cause in [StoreError::Checkout, StoreError::Query] {
        let one = finish_get_dog(1, Ok(Err(cause)));
        assert_eq!(one.status, 500);
        let many = finish_get_dogs(Ok(Err(cause)));
        assert_eq!(many.status, 500);
        match many.payload {
            Payload::Message(m) => assert_eq!(m, "{\"msg\":\"Internal server error\"}"),
            _ => panic!("error body expected"),
        }
    }
}

#[test]
fn executor_failures_are_server_errors() {
    assert_eq!(finish_get_dog(1, Err(ExecutorError {})).status, 500);
    assert_eq!(finish_get_dogs(Err(ExecutorError {})).status, 500);
}

#[test]
fn repeated_read_gives_identical_response() {
    let a = finish_get_dog(1, Ok(Ok(Some(dog(1)))));
    let b = finish_get_dog(1, Ok(Ok(Some(dog(1)))));
    assert_eq!(a.status, b.status);
    match (a.payload, b.payload) {
        (Payload::Record(x), Payload::Record(y)) => assert_eq!(x, y),
        _ => panic!("records expected"),
    }
}
