use openvr::common::{DistortionCoordinates, Point2};
use openvr::event::{
    payload_view, PayloadView, RawEvent, TouchPadData, VREvent, EVENT_BUTTON_PRESS,
    EVENT_BUTTON_TOUCH, EVENT_BUTTON_UNPRESS, EVENT_BUTTON_UNTOUCH, EVENT_NONE,
    EVENT_STATUS_UPDATE, EVENT_TOUCH_PAD_MOVE,
};
use openvr::tracking::{vsync_from_native, ControllerState, RawControllerState, TrackedDevicePoses};
use openvr::Eye;

fn p(x: f32, y: f32) -> Point2<f32> {
    Point2 { x, y }
}

fn raw_event(event_type: u32) -> RawEvent<f32> {
    RawEvent {
        event_type,
        device_index: 3,
        age: 0.25,
        button: 33,
        status_state: 4,
        touch_pad: TouchPadData {
            finger_down: true,
            seconds_finger_down: 1.5,
            value_first: p(0.1, 0.2),
            value_raw: p(0.3, 0.4),
        },
    }
}

#[test]
fn eye_codes() {
    assert_eq!(Eye::Left.to_raw(), 0);
    assert_eq!(Eye::Right.to_raw(), 1);
}

#[test]
fn no_event_decodes_to_empty_event() {
    for t in [EVENT_NONE, EVENT_BUTTON_PRESS, 12345] {
        assert_eq!(VREvent::decode(false, raw_event(t)), VREvent::NoEvent);
    }
    assert_eq!(VREvent::decode(true, raw_event(EVENT_NONE)), VREvent::NoEvent);
}

#[test]
fn unknown_tag_is_passed_through() {
    for t in [1u32, 100, 204, 305, 901, u32::MAX] {
        assert_eq!(
            VREvent::decode(true, raw_event(t)),
            VREvent::NotImplemented { device_index: 3, event_id: t, event_age: 0.25 }
        );
    }
}

#[test]
fn button_events_read_the_controller_view() {
    assert_eq!(VREvent::decode(true, raw_event(EVENT_BUTTON_PRESS)), VREvent::ButtonPress(3, 0.25, 33));
    assert_eq!(VREvent::decode(true, raw_event(EVENT_BUTTON_UNPRESS)), VREvent::ButtonUnpress(3, 0.25, 33));
    assert_eq!(VREvent::decode(true, raw_event(EVENT_BUTTON_TOUCH)), VREvent::ButtonTouch(3, 0.25, 33));
    assert_eq!(VREvent::decode(true, raw_event(EVENT_BUTTON_UNTOUCH)), VREvent::ButtonUntouch(3, 0.25, 33));
}

#[test]
fn status_and_touch_pad_events() {
    assert_eq!(VREvent::decode(true, raw_event(EVENT_STATUS_UPDATE)), VREvent::Status(3, 0.25, 4));
    assert_eq!(
        VREvent::decode(true, raw_event(EVENT_TOUCH_PAD_MOVE)),
        VREvent::TouchPadMove {
            finger_down: true,
            seconds_finger_down: 1.5,
            value_first: p(0.1, 0.2),
            value_raw: p(0.3, 0.4),
        }
    );
}

#[test]
fn payload_views() {
    assert_eq!(payload_view(EVENT_BUTTON_PRESS), PayloadView::Controller);
    assert_eq!(payload_view(EVENT_BUTTON_UNTOUCH), PayloadView::Controller);
    assert_eq!(payload_view(EVENT_STATUS_UPDATE), PayloadView::Status);
    assert_eq!(payload_view(EVENT_TOUCH_PAD_MOVE), PayloadView::TouchPad);
    assert_eq!(payload_view(EVENT_NONE), PayloadView::Nothing);
    assert_eq!(payload_view(7), PayloadView::Nothing);
}

fn raw_state() -> RawControllerState<f32> {
    RawControllerState {
        packet_num: 17,
        button_pressed: 0x8000_0000_0000_0001,
        button_touched: 0x0000_0000_0000_0006,
        axes: [p(0.5, -0.5), p(1.0, 0.0), p(-1.0, 0.25), p(0.0, 0.0), p(f32::MIN_POSITIVE, f32::MAX)],
    }
}

#[test]
fn controller_state_absent_device() {
    assert_eq!(ControllerState::from_native(false, raw_state()), None);
}

#[test]
fn controller_state_round_trips() {
    let raw = raw_state();
    let s = ControllerState::from_native(true, raw).unwrap();
    assert_eq!(s.packet_num, 17);
    assert_eq!(s.button_pressed, 0x8000_0000_0000_0001);
    assert_eq!(s.button_touched, 6);
    for i in 0..5 {
        assert_eq!(s.r_axis[i].x.to_bits(), raw.axes[i].x.to_bits());
        assert_eq!(s.r_axis[i].y.to_bits(), raw.axes[i].y.to_bits());
    }
}

#[test]
fn vsync_timing() {
    assert_eq!(vsync_from_native(false, 0.011f32, 90), None);
    assert_eq!(vsync_from_native(true, 0.011f32, 90), Some((0.011f32, 90)));
}

#[test]
fn pose_batch_always_has_sixteen_slots() {
    for n in [0usize, 1, 5, 16] {
        let filled: Vec<u32> = (1..=n as u32).collect();
        let poses = TrackedDevicePoses::from_batch(&filled, 0u32);
        assert_eq!(poses.len(), 16);
        for i in 0..16 {
            let want = if i < n { i as u32 + 1 } else { 0 };
            assert_eq!(poses.get(i), want);
        }
    }
}

#[test]
fn distortion_channels_pass_through() {
    let d = DistortionCoordinates::from_channels(p(0.49, 0.51), p(0.5, 0.5), p(0.52, 0.48));
    assert_eq!(d.red, p(0.49, 0.51));
    assert_eq!(d.green, p(0.5, 0.5));
    assert_eq!(d.blue, p(0.52, 0.48));
}
