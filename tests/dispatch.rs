use macos_binding::group::Group;
use macos_binding::handle::{DispatchError, NativeHandle};
use macos_binding::queue::attr::{QueueAttr, DISPATCH_QUEUE_CONCURRENT, DISPATCH_QUEUE_SERIAL};
use macos_binding::queue::priority::QueuePriority;
use macos_binding::queue::Queue;
use macos_binding::time::{
    get_delay_of_time, get_time_after_delay, Delay, DISPATCH_TIME_FOREVER, MAX_DELTA_NANOS,
};
use macos_binding::work::{run_indexed, run_owned, run_slot};
use std::cell::RefCell;

#[test]
fn test_get_time_after_delay() {
    let delay = Delay::from_secs(1);
    let time = get_time_after_delay(delay);
    assert_eq!(time, 1_000_000_000);
}

#[test]
fn test_drop_queue() {
    {
        let queue = Queue::main();
        assert_eq!(queue.ptr.is_null(), false);
    }
}

#[test]
fn time_adds_sub_second_part() {
    assert_eq!(get_time_after_delay(Delay::new(2, 500)), 2_000_000_500);
    assert_eq!(get_time_after_delay(Delay::from_millis(1_500)), 1_500_000_000);
    assert_eq!(get_time_after_delay(Delay::new(0, 0)), 0);
}

#[test]
fn time_saturates_to_forever() {
    assert_eq!(get_time_after_delay(Delay::from_secs(u64::MAX)), DISPATCH_TIME_FOREVER);
    // 9223372036 s and 854775807 ns is exactly the largest signed 64-bit value.
    assert_eq!(get_time_after_delay(Delay::new(9_223_372_036, 854_775_807)), MAX_DELTA_NANOS);
    assert_eq!(get_time_after_delay(Delay::new(9_223_372_036, 854_775_808)), DISPATCH_TIME_FOREVER);
}

#[test]
fn time_round_trip() {
    for (secs, nanos) in [(0u64, 0u32), (1, 1), (3, 999_999_999), (9_223_372_036, 854_775_807)] {
        let d = Delay::new(secs, nanos);
        assert_eq!(get_delay_of_time(get_time_after_delay(d)), Some(d));
    }
    assert_eq!(get_delay_of_time(DISPATCH_TIME_FOREVER), None);
}

#[test]
fn priority_raw_values() {
    assert_eq!(QueuePriority::High.to_raw(), 2);
    assert_eq!(QueuePriority::Default.to_raw(), 0);
    assert_eq!(QueuePriority::Low.to_raw(), -2);
    assert_eq!(QueuePriority::Background.to_raw(), -32768);
    for p in [QueuePriority::High, QueuePriority::Default, QueuePriority::Low, QueuePriority::Background] {
        assert_eq!(QueuePriority::from_raw(p.to_raw()), p);
    }
}

#[test]
fn attr_raw_values() {
    assert_eq!(QueueAttr::Serial.to_raw(), DISPATCH_QUEUE_SERIAL);
    assert_eq!(QueueAttr::Concurrent.to_raw(), DISPATCH_QUEUE_CONCURRENT);
    assert_eq!(QueueAttr::from_raw(DISPATCH_QUEUE_SERIAL), QueueAttr::Serial);
    assert_eq!(QueueAttr::from_raw(DISPATCH_QUEUE_CONCURRENT), QueueAttr::Concurrent);
}

#[test]
fn global_queue_names_priority() {
    let q = Queue::global(QueuePriority::High);
    assert_eq!(q.ptr, NativeHandle::GlobalQueue(2));
    assert!(!q.ptr.is_null());
}

#[test]
fn create_request_is_nul_terminated() {
    let c = Queue::prepare_create("com.example.myqueue", QueueAttr::Concurrent).unwrap();
    assert_eq!(c.label, b"com.example.myqueue\0".to_vec());
    assert_eq!(c.attr, DISPATCH_QUEUE_CONCURRENT);
    let empty = Queue::prepare_create("", QueueAttr::Serial).unwrap();
    assert_eq!(empty.label, vec![0u8]);
}

#[test]
fn create_rejects_interior_nul() {
    assert_eq!(
        Queue::prepare_create("ab\0cd\0", QueueAttr::Serial).err(),
        Some(DispatchError::InteriorNul(2))
    );
}

#[test]
fn null_handles_are_refused() {
    assert_eq!(Queue::from_created(0).err(), Some(DispatchError::NativeResourceUnavailable));
    assert_eq!(Queue::from_created(0x1000).unwrap().ptr, NativeHandle::Object(0x1000));
    assert_eq!(Group::from_created(0).err(), Some(DispatchError::NativeResourceUnavailable));
    assert!(NativeHandle::from_addr(0).is_null());
    assert!(!NativeHandle::from_addr(8).is_null());
}

#[test]
fn clone_keeps_the_native_handle() {
    let queue = Queue::main();
    let cloned = queue.clone();
    drop(queue);
    assert_eq!(cloned.ptr, NativeHandle::MainQueue);
    let group = Group::from_created(0x40).unwrap();
    let other = group.clone();
    drop(group);
    assert_eq!(other.ptr(), NativeHandle::Object(0x40));
}

#[test]
fn guards_refer_to_their_object() {
    let group = Group::from_created(0x40).unwrap();
    let entered = group.enter();
    let again = entered.clone();
    assert_eq!(again.group().ptr(), NativeHandle::Object(0x40));
    assert_eq!(group.suspend().group().ptr(), NativeHandle::Object(0x40));
    let queue = Queue::from_created(0x80).unwrap();
    let guard = queue.suspend();
    assert_eq!(guard.clone().queue().ptr, NativeHandle::Object(0x80));
}

#[test]
fn slot_runs_work_once() {
    let count = RefCell::new(0);
    let mut slot = Some(|| {
        *count.borrow_mut() += 1;
        42
    });
    assert_eq!(run_slot(&mut slot), Some(42));
    assert!(slot.is_none());
    assert_eq!(run_slot(&mut slot), None);
    assert_eq!(*count.borrow(), 1);
}

#[test]
fn owned_and_indexed_work_run() {
    assert_eq!(run_owned(|| 7), 7);
    let seen = RefCell::new(Vec::new());
    let work = |i: usize| seen.borrow_mut().push(i);
    for i in 0..10 {
        run_indexed(&work, i);
    }
    assert_eq!(*seen.borrow(), (0..10).collect::<Vec<usize>>());
}
