use camfeed::AcquisitionCycle;
use camfeed::CameraIdentity;
use camfeed::Frame;
use camfeed::FrameStore;
use camfeed::ServiceError;
use camfeed::SnapshotService;
use camfeed::SnapshotSet;

fn ident(index: u32, name: &str) -> CameraIdentity {
    CameraIdentity { index, name: String::from(name) }
}

/// One cycle over cameras 0 and 1: camera 0 delivers a frame, camera 1 is
/// disconnected.
fn mixed_set() -> SnapshotSet {
    let mut cycle = AcquisitionCycle::begin(vec![ident(0, "front"), ident(1, "back")]);
    cycle.report_connection(true);
    cycle.report_capture(Some(Frame::new(1, 1, vec![5u8; 3]).unwrap()));
    cycle.report_connection(false);
    cycle.finish()
}

#[test]
fn get_returns_the_latest_frame_of_a_present_camera() {
    let (mut store, reader) = FrameStore::new();
    store.publish(mixed_set());
    let service = SnapshotService::new(reader);
    let frame = service.get(0).unwrap();
    assert_eq!(frame.width(), 1);
    assert_eq!(frame.height(), 1);
    assert_eq!(frame.bytes(), &vec![5u8; 3]);
}

#[test]
fn get_on_an_absent_camera_is_not_found_not_a_blank_frame() {
    let (mut store, reader) = FrameStore::new();
    store.publish(mixed_set());
    let service = SnapshotService::new(reader);
    assert!(matches!(service.get(1), Err(ServiceError::CameraNotFound)));
}

#[test]
fn get_on_an_unknown_index_is_not_found() {
    let (mut store, reader) = FrameStore::new();
    store.publish(mixed_set());
    let service = SnapshotService::new(reader);
    assert!(matches!(service.get(7), Err(ServiceError::CameraNotFound)));
}

#[test]
fn get_before_the_first_publish_is_not_found() {
    let (_store, reader) = FrameStore::new();
    let service = SnapshotService::new(reader);
    assert!(matches!(service.get(0), Err(ServiceError::CameraNotFound)));
}

#[test]
fn reconnecting_device_reappears_in_later_cycles() {
    // Two devices; device 0 always succeeds, device 1 is disconnected for the
    // first three cycles and reconnects afterwards.
    let (mut store, reader) = FrameStore::new();
    let service = SnapshotService::new(reader);

    for cycle_no in 1..=6u8 {
        let mut cycle = AcquisitionCycle::begin(vec![ident(0, "front"), ident(1, "back")]);
        assert!(cycle.report_connection(true));
        cycle.report_capture(Some(Frame::new(1, 1, vec![cycle_no; 3]).unwrap()));
        let reconnected = cycle_no > 3;
        let capture = cycle.report_connection(reconnected);
        assert_eq!(capture, reconnected);
        if reconnected {
            cycle.report_capture(Some(Frame::new(1, 1, vec![100 + cycle_no; 3]).unwrap()));
        }
        assert!(cycle.done());
        store.publish_cycle(cycle);

        let front = service.get(0).unwrap();
        assert_eq!(front.bytes(), &vec![cycle_no; 3]);
        let back = service.get(1);
        if reconnected {
            assert_eq!(back.unwrap().bytes(), &vec![100 + cycle_no; 3]);
        } else {
            assert!(matches!(back, Err(ServiceError::CameraNotFound)));
        }
    }
}

#[test]
fn zero_devices_publishes_empty_sets_every_cycle() {
    let (mut store, reader) = FrameStore::new();
    let service = SnapshotService::new(reader);
    for _ in 0..3 {
        let cycle = AcquisitionCycle::begin(Vec::new());
        assert!(cycle.done());
        let set = cycle.finish();
        assert_eq!(set.len(), 0);
        store.publish(set);
        assert!(matches!(service.get(0), Err(ServiceError::CameraNotFound)));
    }
}
