//! What the vision services exchange: frames, masks and detections, each
//! stamped with the time of its capture in nanoseconds since boot.

use std::sync::Arc;
use vstd::prelude::*;

verus! {

/// A time in nanoseconds since boot.
#[derive(Clone, Copy, Debug)]
pub struct Timestamp {
    pub t: u64,
}

/// A colour frame.
#[derive(Clone, Debug)]
pub struct RgbFrame {
    pub t: u64,
    pub data: Vec<u8>,
}

/// A grey-scale frame.
#[derive(Clone, Debug)]
pub struct GrayFrame {
    pub t: u64,
    pub data: Vec<u8>,
}

/// A segmentation mask with one byte for each pixel.
#[derive(Clone, Debug)]
pub struct SegMask8 {
    pub t: u64,
    pub data: Vec<u8>,
}

/// The detections of one frame.
#[derive(Clone, Debug)]
pub struct Det3DArray {
    pub t: u64,
    pub detections: Vec<()>,
}

/// The fiducial tags of one frame.
#[derive(Clone, Debug)]
pub struct TagArray {
    pub t: u64,
    pub tags: Vec<()>,
}

/// The tracks of one frame.
#[derive(Clone, Debug)]
pub struct TrackBatch {
    pub t: u64,
    pub tracks: Vec<()>,
}

/// The handle of the graphics device that the services share.
#[derive(Clone, Debug)]
pub struct GpuContext;

impl Default for GpuContext {
    fn default() -> (ctx: GpuContext)
        ensures
            ctx == GpuContext,
    {
        GpuContext
    }
}

/// The cameras that are supported.
#[derive(Clone, Copy, Debug, PartialEq, Eq, Structural)]
pub enum CameraModel {
    OakDS2,
    OakDProW,
    Gemini2XL,
}

impl CameraModel {
    /// Every supported camera.
    pub const ALL: [CameraModel; 3] = [
        CameraModel::OakDS2,
        CameraModel::OakDProW,
        CameraModel::Gemini2XL,
    ];

    /// The camera's name as its maker writes it.
    pub open spec fn name(&self) -> Seq<char> {
        match self {
            CameraModel::OakDS2 => "OAK-D-S2"@,
            CameraModel::OakDProW => "OAK-D Pro-W"@,
            CameraModel::Gemini2XL => "Gemini 2 XL"@,
        }
    }

    /// The camera's name as its maker writes it.
    pub fn as_str(&self) -> (name: &'static str)
        ensures
            name@ == self.name(),
    {
        match self {
            CameraModel::OakDS2 => "OAK-D-S2",
            CameraModel::OakDProW => "OAK-D Pro-W",
            CameraModel::Gemini2XL => "Gemini 2 XL",
        }
    }
}

/// Puts a value behind a shared, counted handle.
pub fn shared<T>(value: T) -> (handle: Arc<T>)
    ensures
        *handle == value,
{
    Arc::new(value)
}

} // verus!
