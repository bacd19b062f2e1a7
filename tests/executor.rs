use dogdex_api::executor::{TaskSlots, DEFAULT_TASK_LIMIT};
use dogdex_api::pipeline::finish_get_dog;

#[test]
fn slots_start_empty() {
    let s = TaskSlots::new(DEFAULT_TASK_LIMIT);
    assert_eq!(s.capacity(), DEFAULT_TASK_LIMIT);
    assert_eq!(s.in_flight(), 0);
}

#[test]
fn saturated_executor_refuses_with_server_error() {
    let mut s = TaskSlots::new(2);
    assert!(s.reserve().is_ok());
    assert!(s.reserve().is_ok());
    assert_eq!(s.in_flight(), 2);
    let refused = s.reserve();
    assert!(refused.is_err());
    assert_eq!(s.in_flight(), 2);
    let resp = finish_get_dog(1, refused.map(|()| Ok(None)));
    assert_eq!(resp.status, 500);
}

#[test]
fn released_slot_is_reused() {
    let mut s = TaskSlots::new(1);
    assert!(s.reserve().is_ok());
    assert!(s.reserve().is_err());
    s.release();
    assert_eq!(s.in_flight(), 0);
    assert!(s.reserve().is_ok());
}

#[test]
fn release_on_idle_slots_stays_at_zero() {
    let mut s = TaskSlots::new(3);
    s.release();
    assert_eq!(s.in_flight(), 0);
}

#[test]
fn zero_capacity_refuses_every_task() {
    let mut s = TaskSlots::new(0);
    assert!(s.reserve().is_err());
}
