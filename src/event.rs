//! Decoding of the runtime's tagged event records.
use vstd::prelude::*;

use crate::common::Point2;

verus! {

/// Tag of the empty event.
pub const EVENT_NONE: u32 = 0;

/// Tag of a button press; its payload is the controller record.
pub const EVENT_BUTTON_PRESS: u32 = 200;

/// Tag of a button release; its payload is the controller record.
pub const EVENT_BUTTON_UNPRESS: u32 = 201;

/// Tag of a button touch; its payload is the controller record.
pub const EVENT_BUTTON_TOUCH: u32 = 202;

/// Tag of the end of a button touch; its payload is the controller record.
pub const EVENT_BUTTON_UNTOUCH: u32 = 203;

/// Tag of a finger moving on a touch pad; its payload is the touch pad record.
pub const EVENT_TOUCH_PAD_MOVE: u32 = 306;

/// Tag of a change of a device's status; its payload is the status record.
pub const EVENT_STATUS_UPDATE: u32 = 900;

/// The touch pad view of an event's payload.
#[derive(Clone, Copy, Debug, PartialEq)]
pub struct TouchPadData<F> {
    pub finger_down: bool,
    pub seconds_finger_down: F,
    pub value_first: Point2<F>,
    pub value_raw: Point2<F>,
}

/// One event record as the runtime fills it in.
///
/// The payload is shared storage in the native record; each of its views is
/// given here, and the tag decides which one is read.
#[derive(Clone, Copy, Debug, PartialEq)]
pub struct RawEvent<F> {
    pub event_type: u32,
    pub device_index: u32,
    pub age: F,
    /// The controller view: the button concerned.
    pub button: u32,
    /// The status view: the new state.
    pub status_state: u32,
    /// The touch pad view.
    pub touch_pad: TouchPadData<F>,
}

/// Which view of the payload an event kind reads.
#[derive(Clone, Copy, Debug, PartialEq, Eq, Structural)]
pub enum PayloadView {
    Nothing,
    Controller,
    Status,
    TouchPad,
}

/// The payload view read for a tag.
pub open spec fn payload_view_of(event_type: u32) -> PayloadView {
    if event_type == EVENT_BUTTON_PRESS || event_type == EVENT_BUTTON_UNPRESS
        || event_type == EVENT_BUTTON_TOUCH || event_type == EVENT_BUTTON_UNTOUCH {
        PayloadView::Controller
    } else if event_type == EVENT_STATUS_UPDATE {
        PayloadView::Status
    } else if event_type == EVENT_TOUCH_PAD_MOVE {
        PayloadView::TouchPad
    } else {
        PayloadView::Nothing
    }
}

/// Whether this library gives a tag a variant of its own.
pub open spec fn is_known_event(event_type: u32) -> bool {
    event_type == EVENT_NONE || payload_view_of(event_type) != PayloadView::Nothing
}

/// A typed event. Each variant but the empty one and the touch pad move carries
/// the device index and the event's age in seconds first.
#[derive(Clone, Copy, Debug, PartialEq)]
pub enum VREvent<F> {
    NoEvent,
    ButtonPress(u32, F, u32),
    ButtonUnpress(u32, F, u32),
    ButtonTouch(u32, F, u32),
    ButtonUntouch(u32, F, u32),
    Status(u32, F, u32),
    TouchPadMove {
        finger_down: bool,
        seconds_finger_down: F,
        value_first: Point2<F>,
        value_raw: Point2<F>,
    },
    /// A tag that this library does not decode, passed on as it came.
    NotImplemented { device_index: u32, event_id: u32, event_age: F },
}

/// The typed event for a poll that reported `is_event` and filled `raw`.
pub open spec fn decode_spec<F>(is_event: bool, raw: RawEvent<F>) -> VREvent<F> {
    let t = raw.event_type;
    if !is_event || t == EVENT_NONE {
        VREvent::NoEvent
    } else if t == EVENT_BUTTON_PRESS {
        VREvent::ButtonPress(raw.device_index, raw.age, raw.button)
    } else if t == EVENT_BUTTON_UNPRESS {
        VREvent::ButtonUnpress(raw.device_index, raw.age, raw.button)
    } else if t == EVENT_BUTTON_TOUCH {
        VREvent::ButtonTouch(raw.device_index, raw.age, raw.button)
    } else if t == EVENT_BUTTON_UNTOUCH {
        VREvent::ButtonUntouch(raw.device_index, raw.age, raw.button)
    } else if t == EVENT_STATUS_UPDATE {
        VREvent::Status(raw.device_index, raw.age, raw.status_state)
    } else if t == EVENT_TOUCH_PAD_MOVE {
        VREvent::TouchPadMove {
            finger_down: raw.touch_pad.finger_down,
            seconds_finger_down: raw.touch_pad.seconds_finger_down,
            value_first: raw.touch_pad.value_first,
            value_raw: raw.touch_pad.value_raw,
        }
    } else {
        VREvent::NotImplemented {
            device_index: raw.device_index,
            event_id: t,
            event_age: raw.age,
        }
    }
}

/// The payload view that the runtime's record must be read through for a tag.
pub fn payload_view(event_type: u32) -> (r: PayloadView)
    ensures
        r == payload_view_of(event_type),
{
    if event_type == EVENT_BUTTON_PRESS || event_type == EVENT_BUTTON_UNPRESS
        || event_type == EVENT_BUTTON_TOUCH || event_type == EVENT_BUTTON_UNTOUCH {
        PayloadView::Controller
    } else if event_type == EVENT_STATUS_UPDATE {
        PayloadView::Status
    } else if event_type == EVENT_TOUCH_PAD_MOVE {
        PayloadView::TouchPad
    } else {
        PayloadView::Nothing
    }
}

impl<F: Copy> VREvent<F> {
    /// Turns the result of one poll into a typed event: `is_event` is what the
    /// poll returned, `raw` the record it filled in.
    pub fn decode(is_event: bool, raw: RawEvent<F>) -> (r: VREvent<F>)
        ensures
            r == decode_spec(is_event, raw),
            !is_event ==> r is NoEvent,
            is_event && !is_known_event(raw.event_type) ==> (r matches VREvent::NotImplemented {
                device_index,
                event_id,
                event_age,
            } && device_index == raw.device_index && event_id == raw.event_type && event_age
                == raw.age),
    {
        if !is_event {
            return VREvent::NoEvent;
        }
        let t = raw.event_type;
        match payload_view(t) {
            PayloadView::Controller => {
                let (d, a, b) = (raw.device_index, raw.age, raw.button);
                if t == EVENT_BUTTON_PRESS {
                    VREvent::ButtonPress(d, a, b)
                } else if t == EVENT_BUTTON_UNPRESS {
                    VREvent::ButtonUnpress(d, a, b)
                } else if t == EVENT_BUTTON_TOUCH {
                    VREvent::ButtonTouch(d, a, b)
                } else {
                    VREvent::ButtonUntouch(d, a, b)
                }
            },
            PayloadView::Status => VREvent::Status(raw.device_index, raw.age, raw.status_state),
            PayloadView::TouchPad => VREvent::TouchPadMove {
                finger_down: raw.touch_pad.finger_down,
                seconds_finger_down: raw.touch_pad.seconds_finger_down,
                value_first: raw.touch_pad.value_first,
                value_raw: raw.touch_pad.value_raw,
            },
            PayloadView::Nothing => {
                if t == EVENT_NONE {
                    VREvent::NoEvent
                } else {
                    VREvent::NotImplemented {
                        device_index: raw.device_index,
                        event_id: t,
                        event_age: raw.age,
                    }
                }
            },
        }
    }
}

/// A poll that reports no pending event decodes to the empty event, whatever
/// the record holds; one that reports an event with a tag that this library
/// does not know decodes to the pass-through variant carrying that tag, the
/// device index and the age unchanged.
pub proof fn lemma_poll_none_and_passthrough<F>(raw: RawEvent<F>)
    ensures
        decode_spec(false, raw) is NoEvent,
        !is_known_event(raw.event_type) ==> decode_spec(true, raw) == (VREvent::NotImplemented {
            device_index: raw.device_index,
            event_id: raw.event_type,
            event_age: raw.age,
        }),
{
}

} // verus!
