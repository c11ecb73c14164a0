//! Tracking results: controller input, device poses and frame timing.
use vstd::prelude::*;

use crate::common::Point2;

verus! {

/// Number of axes in a controller's state record.
pub const CONTROLLER_AXIS_COUNT: usize = 5;

/// Number of slots in a batch of device poses.
pub const POSE_SLOT_COUNT: usize = 16;

/// A controller's state record as the runtime fills it in.
#[derive(Clone, Copy, Debug, PartialEq)]
pub struct RawControllerState<F> {
    pub packet_num: u32,
    pub button_pressed: u64,
    pub button_touched: u64,
    pub axes: [Point2<F>; 5],
}

/// A controller's input state.
#[derive(Clone, Copy, Debug, PartialEq)]
pub struct ControllerState<F> {
    /// Changes whenever the state changes; equal numbers mean a repeated read.
    pub packet_num: u32,
    /// One bit per button that is held down.
    pub button_pressed: u64,
    /// One bit per button that is touched.
    pub button_touched: u64,
    /// Each axis's value.
    pub r_axis: [Point2<F>; 5],
}

impl<F: Copy> ControllerState<F> {
    /// The state for a query that reported `exists` and filled in `raw`:
    /// nothing when the device does not exist, else the record's fields as they
    /// are.
    pub fn from_native(exists: bool, raw: RawControllerState<F>) -> (r: Option<ControllerState<F>>)
        ensures
            r is None <==> !exists,
            r matches Some(s) ==> s.packet_num == raw.packet_num && s.button_pressed
                == raw.button_pressed && s.button_touched == raw.button_touched && s.r_axis
                == raw.axes,
    {
        if exists {
            Some(
                ControllerState {
                    packet_num: raw.packet_num,
                    button_pressed: raw.button_pressed,
                    button_touched: raw.button_touched,
                    r_axis: raw.axes,
                },
            )
        } else {
            None
        }
    }
}

/// The timing of the last vertical sync: seconds since it and the frame counter.
pub fn vsync_from_native<F>(found: bool, seconds: F, frame: u64) -> (r: Option<(F, u64)>)
    ensures
        r is None <==> !found,
        r matches Some(p) ==> p.0 == seconds && p.1 == frame,
{
    if found {
        Some((seconds, frame))
    } else {
        None
    }
}

/// The poses of all tracked devices for one query, one per slot, a device's
/// index being its slot. A slot that the runtime left alone holds the blank
/// pose.
pub struct TrackedDevicePoses<P> {
    poses: Vec<P>,
}

impl<P> View for TrackedDevicePoses<P> {
    type V = Seq<P>;

    closed spec fn view(&self) -> Seq<P> {
        self.poses@
    }
}

/// The slots of a batch whose first entries the runtime filled in.
pub open spec fn batch_spec<P>(filled: Seq<P>, blank: P) -> Seq<P> {
    Seq::new(
        POSE_SLOT_COUNT as nat,
        |i: int|
            if i < filled.len() {
                filled[i]
            } else {
                blank
            },
    )
}

impl<P: Copy> TrackedDevicePoses<P> {
    /// Every batch has one pose per slot.
    pub open spec fn wf(&self) -> bool {
        self@.len() == POSE_SLOT_COUNT
    }

    /// The batch for a query in which the runtime filled in `filled`, in slot
    /// order, and left every later slot blank.
    pub fn from_batch(filled: &Vec<P>, blank: P) -> (r: Self)
        requires
            filled@.len() <= POSE_SLOT_COUNT,
        ensures
            r.wf(),
            r@ == batch_spec(filled@, blank),
    {
        let mut poses: Vec<P> = Vec::new();
        let mut i: usize = 0;
        while i < POSE_SLOT_COUNT
            invariant
                i <= POSE_SLOT_COUNT,
                filled@.len() <= POSE_SLOT_COUNT,
                poses@.len() == i,
                forall|j: int| 0 <= j < i ==> poses@[j] == batch_spec(filled@, blank)[j],
            decreases POSE_SLOT_COUNT - i,
        {
            if i < filled.len() {
                poses.push(filled[i]);
            } else {
                poses.push(blank);
            }
            i = i + 1;
        }
        let r = TrackedDevicePoses { poses };
        assert(r@ =~= batch_spec(filled@, blank));
        r
    }

    /// Number of slots.
    pub fn len(&self) -> (r: usize)
        requires
            self.wf(),
        ensures
            r == POSE_SLOT_COUNT,
    {
        self.poses.len()
    }

    /// The pose of the device at `index`.
    pub fn get(&self, index: usize) -> (r: P)
        requires
            self.wf(),
            index < POSE_SLOT_COUNT,
        ensures
            r == self@[index as int],
    {
        self.poses[index]
    }
}

/// Whatever number of slots the runtime fills in, a batch holds exactly one
/// pose per slot.
pub proof fn lemma_batch_has_every_slot<P>(filled: Seq<P>, blank: P)
    requires
        filled.len() <= POSE_SLOT_COUNT,
    ensures
        batch_spec(filled, blank).len() == POSE_SLOT_COUNT,
        forall|i: int| 0 <= i < filled.len() ==> batch_spec(filled, blank)[i] == filled[i],
        forall|i: int|
            filled.len() <= i < POSE_SLOT_COUNT ==> batch_spec(filled, blank)[i] == blank,
{
}

} // verus!
