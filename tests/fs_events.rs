use macos_binding::fs_events::context::FileSystemEventStreamContext;
use macos_binding::fs_events::delivery::{prepare_delivery, Delivery, DeliveryError};
use macos_binding::fs_events::point_in_time::FSEventStreamPointInTime;
use macos_binding::fs_events::{
    prepare_stream, FileSystemEventStream, StreamError, StreamOperation, StreamState,
};
use macos_binding::handle::NativeHandle;
use macos_binding::queue::Queue;

type Context = FileSystemEventStreamContext<u8, u8, u8>;

fn created<'a>() -> FileSystemEventStream<'a> {
    FileSystemEventStream::from_created(0x1234).unwrap()
}

#[test]
fn cursor_encoding() {
    assert_eq!(FSEventStreamPointInTime::SinceNow.to_cursor(), 0);
    assert_eq!(FSEventStreamPointInTime::SinceStartOfTime.to_cursor(), 0);
    assert_eq!(FSEventStreamPointInTime::Since(77).to_cursor(), 77);
}

#[test]
fn context_init_forms() {
    let c = Context::init(None);
    assert_eq!(c.version, 0);
    assert!(c.info.is_none() && c.retain.is_none() && c.release.is_none() && c.copy_description.is_none());
    let d = Context::init_with_callbacks(3, Some(vec![5]), 1, 2, 3);
    assert_eq!(d.version, 3);
    assert_eq!(d.info, Some(vec![5]));
    assert_eq!((d.retain, d.release, d.copy_description), (Some(1), Some(2), Some(3)));
}

#[test]
fn merge_puts_callback_first() {
    let mut c = Context::init(Some(vec![10, 20]));
    c.merge_callback(99);
    assert_eq!(c.info, Some(vec![99, 10, 20]));
    let mut e = Context::init(None);
    e.merge_callback(7);
    assert_eq!(e.info, Some(vec![7]));
}

#[test]
fn stream_request_layout() {
    let mut c = Context::init(Some(vec![1]));
    let paths = vec!["/tmp/watched"];
    let r = prepare_stream(&paths, FSEventStreamPointInTime::Since(5), 0x10, 0xabc, &mut c);
    assert_eq!(r.paths, vec!["/tmp/watched".to_string()]);
    assert_eq!(r.since_when, 5);
    assert_eq!(r.flags, 0x10);
    assert_eq!(c.info, Some(vec![0xabc, 1]));
    let none: Vec<&str> = Vec::new();
    let r2 = prepare_stream(&none, FSEventStreamPointInTime::SinceNow, 0, 1, &mut c);
    assert!(r2.paths.is_empty());
    assert_eq!(r2.since_when, 0);
}

#[test]
fn null_stream_is_refused() {
    assert_eq!(FileSystemEventStream::from_created(0).err(), Some(StreamError::NativeResourceUnavailable));
    let s = created();
    assert_eq!(s.stream_ref(), NativeHandle::Object(0x1234));
    assert_eq!(s.state(), StreamState::Created);
}

#[test]
fn start_needs_a_queue() {
    let mut s = created();
    assert_eq!(
        s.start(),
        Err(StreamError::InvalidState { operation: StreamOperation::Start, state: StreamState::Created })
    );
    assert!(!s.is_started());
}

#[test]
fn reconfiguration_after_start_is_rejected() {
    let queue = Queue::main();
    let other = Queue::main();
    let mut s = created();
    assert_eq!(s.exclude_paths(&vec!["/tmp/x"]), Ok(vec!["/tmp/x".to_string()]));
    assert_eq!(s.set_dispatch_queue(&queue), Ok(()));
    assert_eq!(s.state(), StreamState::Configured);
    assert_eq!(s.start(), Ok(()));
    assert_eq!(s.state(), StreamState::Running);
    let running = StreamState::Running;
    assert_eq!(
        s.exclude_paths(&vec!["/tmp/y"]),
        Err(StreamError::InvalidState { operation: StreamOperation::ExcludePaths, state: running })
    );
    assert_eq!(
        s.set_dispatch_queue(&other),
        Err(StreamError::InvalidState { operation: StreamOperation::SetDispatchQueue, state: running })
    );
    assert_eq!(
        s.start(),
        Err(StreamError::InvalidState { operation: StreamOperation::Start, state: running })
    );
    assert!(s.is_started());
}

#[test]
fn flush_only_while_running() {
    let queue = Queue::main();
    let mut s = created();
    assert_eq!(
        s.flush(),
        Err(StreamError::InvalidState { operation: StreamOperation::Flush, state: StreamState::Created })
    );
    s.set_dispatch_queue(&queue).unwrap();
    s.start().unwrap();
    assert_eq!(s.flush(), Ok(()));
    assert_eq!(s.flush_async(), Ok(()));
    s.stop();
    assert_eq!(s.state(), StreamState::Configured);
    assert_eq!(
        s.flush_async(),
        Err(StreamError::InvalidState { operation: StreamOperation::FlushAsync, state: StreamState::Configured })
    );
    s.stop();
    assert_eq!(s.state(), StreamState::Configured);
    assert!(s.queue().is_some());
}

#[test]
fn clone_copies_stream_state() {
    let queue = Queue::main();
    let mut s = created();
    s.set_dispatch_queue(&queue).unwrap();
    s.start().unwrap();
    let c = s.clone();
    drop(s);
    assert!(c.is_started());
    assert_eq!(c.stream_ref(), NativeHandle::Object(0x1234));
}

#[test]
fn delivery_splits_callback_from_info() {
    let info = Some(vec![0xc0, 1, 2]);
    let r = prepare_delivery(
        &info,
        2,
        vec!["/tmp/watched/a.txt".to_string(), "/tmp/watched/b".to_string()],
        vec![0x0001_0100, 0x0002_0200],
        vec![11, 12],
    );
    match r {
        Ok(Delivery::Call { callback, info, batch }) => {
            assert_eq!(callback, 0xc0);
            assert_eq!(info, vec![1, 2]);
            assert_eq!(batch.num_events, 2);
            assert_eq!(batch.paths[0], "/tmp/watched/a.txt");
            assert_eq!(batch.flags, vec![0x0001_0100, 0x0002_0200]);
            assert_eq!(batch.ids, vec![11, 12]);
        }
        _ => panic!("expected a call"),
    }
}

#[test]
fn delivery_of_nothing() {
    let r = prepare_delivery(&None, 0, Vec::new(), Vec::new(), Vec::new());
    assert!(matches!(r, Ok(Delivery::Nothing)));
}

#[test]
fn delivery_errors() {
    let info = Some(vec![1]);
    let r = prepare_delivery(&info, 2, vec!["a".to_string()], vec![0, 0], vec![1, 2]);
    assert!(matches!(r, Err(DeliveryError::LengthMismatch)));
    let r = prepare_delivery(&Some(Vec::new()), 1, vec!["a".to_string()], vec![0], vec![1]);
    assert!(matches!(r, Err(DeliveryError::MissingCallback)));
    let r = prepare_delivery(&None, 1, vec!["a".to_string()], vec![0], vec![1]);
    assert!(matches!(r, Err(DeliveryError::MissingCallback)));
}
