//! Model JSON documents.

pub mod motion3;
pub mod pose3;

pub use motion3::{Motion3, MotionCurve, MotionMeta, MotionPoint, MotionSegment, RawMotionCurve};
pub use pose3::{Pose3, PosePart};
