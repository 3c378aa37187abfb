//! Motions of a motion3.json document.
//!
//! Times and values are `f32` in the document and are kept as their bit
//! patterns. A curve's segments come as one flat list of numbers: a first
//! point (time, value), then for each segment its type followed by its
//! points.
use vstd::prelude::*;

use crate::error::Error;

verus! {

/// The name of the format, as errors report it.
pub const MOTION3_FORMAT: &'static str = "motion3.json";

/// The only motion3.json version read.
pub const MOTION3_SUPPORTED_VERSION: u32 = 3;

/// A point of a motion curve: time and value as `f32` bit patterns.
#[derive(Debug, Copy, Clone, PartialEq, Eq)]
pub struct MotionPoint {
    pub time: u32,
    pub value: u32,
}

/// One segment of a motion curve, from the end of the previous segment (or
/// the first point) to its own end.
#[derive(Debug, Copy, Clone, PartialEq, Eq)]
pub enum MotionSegment {
    Linear { start: MotionPoint, end: MotionPoint },
    Bezier {
        start: MotionPoint,
        control1: MotionPoint,
        control2: MotionPoint,
        end: MotionPoint,
    },
    Stepped { start: MotionPoint, end: MotionPoint },
    InverseStepped { start: MotionPoint, end: MotionPoint },
}

/// The end point of a segment.
pub open spec fn spec_segment_end(segment: MotionSegment) -> MotionPoint {
    match segment {
        MotionSegment::Linear { end, .. } => end,
        MotionSegment::Bezier { end, .. } => end,
        MotionSegment::Stepped { end, .. } => end,
        MotionSegment::InverseStepped { end, .. } => end,
    }
}

impl MotionSegment {
    /// The point the segment ends at.
    pub fn end(&self) -> (r: MotionPoint)
        ensures
            r == spec_segment_end(*self),
    {
        match *self {
            MotionSegment::Linear { end, .. } => end,
            MotionSegment::Bezier { end, .. } => end,
            MotionSegment::Stepped { end, .. } => end,
            MotionSegment::InverseStepped { end, .. } => end,
        }
    }
}

/// Why a curve's segment list could not be read.
pub enum SegmentsFault {
    MissingFirstPoint,
    InvalidSegmentType,
    IncompletePoint,
}

/// The message an error reports for a fault.
pub open spec fn spec_fault_message(fault: SegmentsFault) -> Seq<char> {
    match fault {
        SegmentsFault::MissingFirstPoint => "segments must start with a time/value point"@,
        SegmentsFault::InvalidSegmentType => "segment type must be 0, 1, 2, or 3"@,
        SegmentsFault::IncompletePoint => "segment point is incomplete"@,
    }
}

/// The error reported for a fault in a motion3.json document.
pub open spec fn spec_is_segments_error(e: Error, fault: SegmentsFault) -> bool {
    e matches Error::InvalidJson { format, message } && format@ == MOTION3_FORMAT@ && message@
        == spec_fault_message(fault)
}

/// The segment type a number stands for: the `f32` values `0`, `1`, `2` and
/// `3` (negative zero counting as `0`) name the linear, bezier, stepped and
/// inverse stepped segments; any other number is no segment type.
pub open spec fn spec_segment_type(bits: u32) -> Option<u32> {
    if bits == 0 || bits == 0x8000_0000 {
        Some(0)
    } else if bits == 0x3f80_0000 {
        Some(1)
    } else if bits == 0x4000_0000 {
        Some(2)
    } else if bits == 0x4040_0000 {
        Some(3)
    } else {
        None
    }
}

/// How many numbers follow a segment type: three points for a bezier
/// segment, one for the others.
pub open spec fn spec_segment_numbers(segment_type: u32) -> int {
    if segment_type == 1 {
        6
    } else {
        2
    }
}

/// The point made of the two numbers at `at`.
pub open spec fn spec_point_at(values: Seq<u32>, at: int) -> MotionPoint {
    MotionPoint { time: values[at], value: values[at + 1] }
}

/// The segment of type `segment_type` starting at `start`, whose points
/// begin at `at`.
pub open spec fn spec_segment_at(
    values: Seq<u32>,
    segment_type: u32,
    start: MotionPoint,
    at: int,
) -> MotionSegment {
    if segment_type == 0 {
        MotionSegment::Linear { start, end: spec_point_at(values, at) }
    } else if segment_type == 1 {
        MotionSegment::Bezier {
            start,
            control1: spec_point_at(values, at),
            control2: spec_point_at(values, at + 2),
            end: spec_point_at(values, at + 4),
        }
    } else if segment_type == 2 {
        MotionSegment::Stepped { start, end: spec_point_at(values, at) }
    } else {
        MotionSegment::InverseStepped { start, end: spec_point_at(values, at) }
    }
}

/// The segments read from position `cursor` on, the first starting at
/// `start`, each next one starting where the previous ends.
pub open spec fn spec_segments_from(values: Seq<u32>, cursor: int, start: MotionPoint) -> Result<
    Seq<MotionSegment>,
    SegmentsFault,
>
    decreases values.len() - cursor,
{
    if cursor < 0 || cursor >= values.len() {
        Ok(Seq::empty())
    } else {
        match spec_segment_type(values[cursor]) {
            None => Err(SegmentsFault::InvalidSegmentType),
            Some(t) => {
                if cursor + 1 + spec_segment_numbers(t) > values.len() {
                    Err(SegmentsFault::IncompletePoint)
                } else {
                    let segment = spec_segment_at(values, t, start, cursor + 1);
                    match spec_segments_from(
                        values,
                        cursor + 1 + spec_segment_numbers(t),
                        spec_segment_end(segment),
                    ) {
                        Ok(rest) => Ok(seq![segment] + rest),
                        Err(f) => Err(f),
                    }
                }
            },
        }
    }
}

/// A curve's first point and segments, read from its flat list of numbers.
pub open spec fn spec_parse_segments(values: Seq<u32>) -> Result<
    (MotionPoint, Seq<MotionSegment>),
    SegmentsFault,
> {
    if values.len() < 2 {
        Err(SegmentsFault::MissingFirstPoint)
    } else {
        match spec_segments_from(values, 2, spec_point_at(values, 0)) {
            Ok(segments) => Ok((spec_point_at(values, 0), segments)),
            Err(f) => Err(f),
        }
    }
}

/// An `InvalidJson` error of a motion3.json document.
fn invalid_segments(message: &str) -> (r: Error)
    ensures
        r matches Error::InvalidJson { format, message: m } && format@ == MOTION3_FORMAT@ && m@
            == message@,
{
    Error::InvalidJson { format: MOTION3_FORMAT, message: message.to_string() }
}

/// The segment type named by a number (an `f32` bit pattern).
pub fn segment_type(bits: u32) -> (r: Result<u32, Error>)
    ensures
        match spec_segment_type(bits) {
            Some(t) => r == Ok::<u32, Error>(t),
            None => r matches Err(e) && spec_is_segments_error(e, SegmentsFault::InvalidSegmentType),
        },
{
    if bits == 0 || bits == 0x8000_0000 {
        Ok(0)
    } else if bits == 0x3f80_0000 {
        Ok(1)
    } else if bits == 0x4000_0000 {
        Ok(2)
    } else if bits == 0x4040_0000 {
        Ok(3)
    } else {
        Err(invalid_segments("segment type must be 0, 1, 2, or 3"))
    }
}

/// Reads the point at `*cursor` and moves the cursor past it.
pub fn read_point(values: &[u32], cursor: &mut usize) -> (r: Result<MotionPoint, Error>)
    ensures
        *old(cursor) + 2 <= values@.len() ==> {
            &&& r == Ok::<MotionPoint, Error>(spec_point_at(values@, *old(cursor) as int))
            &&& *final(cursor) == *old(cursor) + 2
        },
        *old(cursor) + 2 > values@.len() ==> {
            &&& r matches Err(e) && spec_is_segments_error(e, SegmentsFault::IncompletePoint)
            &&& *final(cursor) == *old(cursor)
        },
{
    if values.len() < *cursor || values.len() - *cursor < 2 {
        return Err(invalid_segments("segment point is incomplete"));
    }
    let point = MotionPoint { time: values[*cursor], value: values[*cursor + 1] };
    *cursor = *cursor + 2;
    Ok(point)
}

/// Reads a curve's first point and its segments from its flat list of
/// numbers.
pub fn parse_segments(values: &[u32]) -> (r: Result<(MotionPoint, Vec<MotionSegment>), Error>)
    ensures
        match spec_parse_segments(values@) {
            Ok((first, segments)) => r matches Ok((p, v)) && p == first && v@ == segments,
            Err(f) => r matches Err(e) && spec_is_segments_error(e, f),
        },
{
    if values.len() < 2 {
        return Err(invalid_segments("segments must start with a time/value point"));
    }
    let first_point = MotionPoint { time: values[0], value: values[1] };
    let mut cursor: usize = 2;
    let mut start = first_point;
    let mut segments: Vec<MotionSegment> = Vec::new();
    let ghost whole = spec_segments_from(values@, 2, first_point);
    while cursor < values.len()
        invariant
            2 <= cursor <= values@.len(),
            whole == spec_segments_from(values@, 2, first_point),
            whole == match spec_segments_from(values@, cursor as int, start) {
                Ok(rest) => Ok(segments@ + rest),
                Err(f) => Err::<Seq<MotionSegment>, SegmentsFault>(f),
            },
        decreases values@.len() - cursor,
    {
        let at = cursor;
        let kind = match segment_type(values[cursor]) {
            Ok(kind) => kind,
            Err(e) => {
                return Err(e);
            },
        };
        cursor += 1;
        let segment = if kind == 1 {
            let control1 = match read_point(values, &mut cursor) {
                Ok(p) => p,
                Err(e) => return Err(e),
            };
            let control2 = match read_point(values, &mut cursor) {
                Ok(p) => p,
                Err(e) => return Err(e),
            };
            let end = match read_point(values, &mut cursor) {
                Ok(p) => p,
                Err(e) => return Err(e),
            };
            MotionSegment::Bezier { start, control1, control2, end }
        } else {
            let end = match read_point(values, &mut cursor) {
                Ok(p) => p,
                Err(e) => return Err(e),
            };
            if kind == 0 {
                MotionSegment::Linear { start, end }
            } else if kind == 2 {
                MotionSegment::Stepped { start, end }
            } else {
                MotionSegment::InverseStepped { start, end }
            }
        };
        proof {
            assert(segment == spec_segment_at(values@, kind, start, at + 1));
            assert(cursor == at + 1 + spec_segment_numbers(kind));
            match spec_segments_from(values@, cursor as int, segment.end_spec()) {
                Ok(rest) => {
                    assert(segments@.push(segment) + rest =~= segments@ + (seq![segment] + rest));
                },
                Err(_) => {},
            }
        }
        start = segment.end();
        segments.push(segment);
    }
    proof {
        assert(segments@ + Seq::<MotionSegment>::empty() =~= segments@);
    }
    Ok((first_point, segments))
}

/// A curve as a motion3.json document writes it: target kind, id, the flat
/// list of segment numbers and optional fade times, numbers as `f32` bit
/// patterns.
#[derive(Debug, Clone, PartialEq, Eq)]
pub struct RawMotionCurve {
    pub target: String,
    pub id: String,
    pub segments: Vec<u32>,
    pub fade_in_time: Option<u32>,
    pub fade_out_time: Option<u32>,
}

/// The contents of a [`MotionCurve`].
pub struct MotionCurveView {
    pub target: Seq<char>,
    pub id: Seq<char>,
    pub first_point: MotionPoint,
    pub segments: Seq<MotionSegment>,
    pub fade_in_time: Option<u32>,
    pub fade_out_time: Option<u32>,
}

/// The curve read from its document form, or why its segments cannot be
/// read.
pub open spec fn spec_curve_of(raw: RawMotionCurve) -> Result<MotionCurveView, SegmentsFault> {
    match spec_parse_segments(raw.segments@) {
        Ok((first_point, segments)) => Ok(
            MotionCurveView {
                target: raw.target@,
                id: raw.id@,
                first_point,
                segments,
                fade_in_time: raw.fade_in_time,
                fade_out_time: raw.fade_out_time,
            },
        ),
        Err(f) => Err(f),
    }
}

/// One parameter or part curve of a motion.
#[derive(Debug, Clone, PartialEq, Eq)]
pub struct MotionCurve {
    target: String,
    id: String,
    first_point: MotionPoint,
    segments: Vec<MotionSegment>,
    fade_in_time: Option<u32>,
    fade_out_time: Option<u32>,
}

impl View for MotionCurve {
    type V = MotionCurveView;

    closed spec fn view(&self) -> MotionCurveView {
        MotionCurveView {
            target: self.target@,
            id: self.id@,
            first_point: self.first_point,
            segments: self.segments@,
            fade_in_time: self.fade_in_time,
            fade_out_time: self.fade_out_time,
        }
    }
}

impl MotionCurve {
    /// Reads a curve from its document form.
    pub fn try_from(raw: &RawMotionCurve) -> (r: Result<Self, Error>)
        ensures
            match spec_curve_of(*raw) {
                Ok(c) => r matches Ok(x) && x@ == c,
                Err(f) => r matches Err(e) && spec_is_segments_error(e, f),
            },
    {
        match parse_segments(raw.segments.as_slice()) {
            Ok((first_point, segments)) => Ok(
                MotionCurve {
                    target: raw.target.clone(),
                    id: raw.id.clone(),
                    first_point,
                    segments,
                    fade_in_time: raw.fade_in_time,
                    fade_out_time: raw.fade_out_time,
                },
            ),
            Err(e) => Err(e),
        }
    }

    pub fn target(&self) -> (r: &str)
        ensures
            r@ == self@.target,
    {
        self.target.as_str()
    }

    pub fn id(&self) -> (r: &str)
        ensures
            r@ == self@.id,
    {
        self.id.as_str()
    }

    pub fn first_point(&self) -> (r: MotionPoint)
        ensures
            r == self@.first_point,
    {
        self.first_point
    }

    pub fn segments(&self) -> (r: &[MotionSegment])
        ensures
            r@ == self@.segments,
    {
        self.segments.as_slice()
    }

    /// The fade-in time, an `f32` bit pattern, when the curve sets one.
    pub fn fade_in_time(&self) -> (r: Option<u32>)
        ensures
            r == self@.fade_in_time,
    {
        self.fade_in_time
    }

    /// The fade-out time, an `f32` bit pattern, when the curve sets one.
    pub fn fade_out_time(&self) -> (r: Option<u32>)
        ensures
            r == self@.fade_out_time,
    {
        self.fade_out_time
    }
}

/// The metadata of a motion; duration and frame rate are `f32` bit patterns.
#[derive(Debug, Copy, Clone, PartialEq, Eq)]
pub struct MotionMeta {
    pub duration: u32,
    pub fps: u32,
    pub loop_motion: bool,
    pub are_beziers_restricted: bool,
    pub curve_count: u32,
    pub total_segment_count: u32,
    pub total_point_count: u32,
    pub user_data_count: u32,
    pub total_user_data_size: u32,
}

impl MotionMeta {
    pub fn duration(&self) -> (r: u32)
        ensures
            r == self.duration,
    {
        self.duration
    }

    pub fn fps(&self) -> (r: u32)
        ensures
            r == self.fps,
    {
        self.fps
    }

    pub fn is_looping(&self) -> (r: bool)
        ensures
            r == self.loop_motion,
    {
        self.loop_motion
    }

    pub fn are_beziers_restricted(&self) -> (r: bool)
        ensures
            r == self.are_beziers_restricted,
    {
        self.are_beziers_restricted
    }

    pub fn curve_count(&self) -> (r: u32)
        ensures
            r == self.curve_count,
    {
        self.curve_count
    }

    pub fn total_segment_count(&self) -> (r: u32)
        ensures
            r == self.total_segment_count,
    {
        self.total_segment_count
    }

    pub fn total_point_count(&self) -> (r: u32)
        ensures
            r == self.total_point_count,
    {
        self.total_point_count
    }

    pub fn user_data_count(&self) -> (r: u32)
        ensures
            r == self.user_data_count,
    {
        self.user_data_count
    }

    pub fn total_user_data_size(&self) -> (r: u32)
        ensures
            r == self.total_user_data_size,
    {
        self.total_user_data_size
    }
}

/// The contents of a [`Motion3`].
pub struct Motion3View {
    pub version: u32,
    pub meta: MotionMeta,
    pub curves: Seq<MotionCurveView>,
}

/// A motion3.json document.
#[derive(Debug, Clone, PartialEq, Eq)]
pub struct Motion3 {
    version: u32,
    meta: MotionMeta,
    curves: Vec<MotionCurve>,
}

impl View for Motion3 {
    type V = Motion3View;

    closed spec fn view(&self) -> Motion3View {
        Motion3View {
            version: self.version,
            meta: self.meta,
            curves: self.curves@.map_values(|c: MotionCurve| c@),
        }
    }
}

/// The fault of the first curve, from `start` on, whose segments cannot be
/// read.
pub open spec fn spec_first_curve_fault(curves: Seq<RawMotionCurve>, start: int) -> Option<
    SegmentsFault,
>
    decreases curves.len() - start,
{
    if start < 0 || start >= curves.len() {
        None
    } else {
        match spec_curve_of(curves[start]) {
            Err(f) => Some(f),
            Ok(_) => spec_first_curve_fault(curves, start + 1),
        }
    }
}

impl Motion3 {
    /// Builds a motion from the parts of a motion3.json document: only
    /// version 3 is read, and a curve whose segments cannot be read makes the
    /// whole document invalid (the first such curve is reported).
    pub fn from_document(version: u32, meta: MotionMeta, curves: Vec<RawMotionCurve>) -> (r:
        Result<Self, Error>)
        ensures
            version != MOTION3_SUPPORTED_VERSION ==> (r matches Err(
                Error::UnsupportedVersion { format, version: v },
            ) && format@ == MOTION3_FORMAT@ && v == version),
            version == MOTION3_SUPPORTED_VERSION ==> match spec_first_curve_fault(curves@, 0) {
                None => (r matches Ok(m) && m@ == (Motion3View {
                    version,
                    meta,
                    curves: Seq::new(curves@.len(), |i: int| spec_curve_of(curves@[i])->Ok_0),
                })),
                Some(f) => (r matches Err(e) && spec_is_segments_error(e, f)),
            },
    {
        if version != MOTION3_SUPPORTED_VERSION {
            return Err(Error::UnsupportedVersion { format: MOTION3_FORMAT, version });
        }
        let mut out: Vec<MotionCurve> = Vec::new();
        let mut i: usize = 0;
        while i < curves.len()
            invariant
                version == MOTION3_SUPPORTED_VERSION,
                i <= curves@.len(),
                out@.len() == i,
                spec_first_curve_fault(curves@, 0) == spec_first_curve_fault(curves@, i as int),
                forall|j: int|
                    0 <= j < i ==> (#[trigger] spec_curve_of(curves@[j])) is Ok && out@[j]@
                        == spec_curve_of(curves@[j])->Ok_0,
            decreases curves@.len() - i,
        {
            match MotionCurve::try_from(&curves[i]) {
                Ok(curve) => {
                    out.push(curve);
                },
                Err(e) => {
                    return Err(e);
                },
            }
            i += 1;
        }
        let r = Motion3 { version, meta, curves: out };
        proof {
            assert(r@.curves =~= Seq::new(
                curves@.len(),
                |i: int| spec_curve_of(curves@[i])->Ok_0,
            ));
        }
        Ok(r)
    }

    pub fn version(&self) -> (r: u32)
        ensures
            r == self@.version,
    {
        self.version
    }

    pub fn meta(&self) -> (r: &MotionMeta)
        ensures
            *r == self@.meta,
    {
        &self.meta
    }

    pub fn curves(&self) -> (r: &[MotionCurve])
        ensures
            r@.map_values(|c: MotionCurve| c@) == self@.curves,
    {
        self.curves.as_slice()
    }
}

/// The start point of a segment.
pub open spec fn spec_segment_start(segment: MotionSegment) -> MotionPoint {
    match segment {
        MotionSegment::Linear { start, .. } => start,
        MotionSegment::Bezier { start, .. } => start,
        MotionSegment::Stepped { start, .. } => start,
        MotionSegment::InverseStepped { start, .. } => start,
    }
}

/// Segments read from any position chain up: the first starts at the given
/// point and each next one starts where the previous one ends.
pub proof fn lemma_segments_from_chain(values: Seq<u32>, cursor: int, start: MotionPoint)
    requires
        spec_segments_from(values, cursor, start) is Ok,
    ensures
        ({
            let segments = spec_segments_from(values, cursor, start)->Ok_0;
            &&& segments.len() > 0 ==> spec_segment_start(segments[0]) == start
            &&& forall|i: int|
                0 < i < segments.len() ==> spec_segment_start(#[trigger] segments[i])
                    == spec_segment_end(segments[i - 1])
        }),
    decreases values.len() - cursor,
{
    if 0 <= cursor < values.len() {
        let t = spec_segment_type(values[cursor])->0;
        let segment = spec_segment_at(values, t, start, cursor + 1);
        let next = cursor + 1 + spec_segment_numbers(t);
        lemma_segments_from_chain(values, next, spec_segment_end(segment));
        let rest = spec_segments_from(values, next, spec_segment_end(segment))->Ok_0;
        let segments = seq![segment] + rest;
        assert(spec_segments_from(values, cursor, start)->Ok_0 == segments);
        assert forall|i: int| 0 < i < segments.len() implies spec_segment_start(
            #[trigger] segments[i],
        ) == spec_segment_end(segments[i - 1]) by {
            assert(segments[i] == rest[i - 1]);
            if i > 1 {
                assert(segments[i - 1] == rest[i - 2]);
            }
        }
    }
}

/// A curve read from a document is continuous: its first segment starts at
/// its first point, and every other segment starts where the one before it
/// ends.
pub proof fn lemma_parsed_segments_chain(values: Seq<u32>)
    requires
        spec_parse_segments(values) is Ok,
    ensures
        ({
            let (first, segments) = spec_parse_segments(values)->Ok_0;
            &&& segments.len() > 0 ==> spec_segment_start(segments[0]) == first
            &&& forall|i: int|
                0 < i < segments.len() ==> spec_segment_start(#[trigger] segments[i])
                    == spec_segment_end(segments[i - 1])
        }),
{
    lemma_segments_from_chain(values, 2, spec_point_at(values, 0));
}

impl MotionSegment {
    /// The end point of the segment, as a specification value.
    pub open spec fn end_spec(self) -> MotionPoint {
        spec_segment_end(self)
    }
}

} // verus!
