use camfeed::AcquisitionCycle;
use camfeed::CameraIdentity;
use camfeed::Frame;

fn ident(index: u32, name: &str) -> CameraIdentity {
    CameraIdentity { index, name: String::from(name) }
}

fn rgb_frame(fill: u8) -> Frame {
    Frame::new(2, 1, vec![fill; 6]).unwrap()
}

#[test]
fn every_cycle_yields_one_entry_per_device_in_order() {
    let devices = vec![ident(0, "front"), ident(1, "back"), ident(2, "desk")];
    let mut cycle = AcquisitionCycle::begin(devices);

    // Device 0: connected, capture succeeds.
    assert!(cycle.report_connection(true));
    cycle.report_capture(Some(rgb_frame(10)));
    // Device 1: disconnected.
    assert!(!cycle.report_connection(false));
    // Device 2: connected, but the capture fails.
    assert!(cycle.report_connection(true));
    cycle.report_capture(None);

    assert!(cycle.done());
    let set = cycle.finish();
    assert_eq!(set.len(), 3);
    assert_eq!(set.entry(0).identity.index, 0);
    assert_eq!(set.entry(0).identity.name, "front");
    assert_eq!(set.entry(1).identity.index, 1);
    assert_eq!(set.entry(2).identity.index, 2);
    assert!(set.entry(0).frame.is_some());
    assert!(set.entry(1).frame.is_none());
    assert!(set.entry(2).frame.is_none());
}

#[test]
fn disconnected_device_gets_no_capture_directive() {
    let mut cycle = AcquisitionCycle::begin(vec![ident(4, "side")]);
    let capture = cycle.report_connection(false);
    assert!(!capture);
    assert!(cycle.done());
    let set = cycle.finish();
    assert_eq!(set.len(), 1);
    assert_eq!(set.entry(0).identity.index, 4);
    assert!(set.entry(0).frame.is_none());
}

#[test]
fn connected_device_is_captured_from() {
    let mut cycle = AcquisitionCycle::begin(vec![ident(0, "front")]);
    let capture = cycle.report_connection(true);
    assert!(capture);
    assert!(!cycle.done());
    cycle.report_capture(Some(rgb_frame(42)));
    assert!(cycle.done());
    let set = cycle.finish();
    assert_eq!(set.entry(0).frame.as_ref().unwrap().bytes(), &vec![42u8; 6]);
}

#[test]
fn zero_devices_cycle_is_complete_at_once() {
    let cycle = AcquisitionCycle::begin(Vec::new());
    assert!(cycle.done());
    let set = cycle.finish();
    assert_eq!(set.len(), 0);
}

#[test]
fn frame_for_searches_by_identity_not_position() {
    let devices = vec![ident(9, "front"), ident(2, "back")];
    let mut cycle = AcquisitionCycle::begin(devices);
    cycle.report_connection(true);
    cycle.report_capture(Some(rgb_frame(1)));
    cycle.report_connection(true);
    cycle.report_capture(Some(rgb_frame(2)));
    let set = cycle.finish();
    assert_eq!(set.frame_for(9).unwrap().bytes(), &vec![1u8; 6]);
    assert_eq!(set.frame_for(2).unwrap().bytes(), &vec![2u8; 6]);
    assert!(set.frame_for(0).is_none());
}

#[test]
fn next_device_follows_stable_order() {
    let mut cycle = AcquisitionCycle::begin(vec![ident(3, "a"), ident(9, "b")]);
    assert_eq!(cycle.next_device().index, 3);
    cycle.report_connection(false);
    assert_eq!(cycle.next_device().index, 9);
    cycle.report_connection(false);
    assert!(cycle.done());
}
