use rusty_live2d::Error;
use rusty_live2d::json::motion3::{parse_segments, read_point, segment_type};
use rusty_live2d::json::{
    Motion3, MotionCurve, MotionMeta, MotionPoint, MotionSegment, Pose3, PosePart, RawMotionCurve,
};

fn bits(values: &[f32]) -> Vec<u32> {
    values.iter().map(|v| v.to_bits()).collect()
}

fn point(time: f32, value: f32) -> MotionPoint {
    MotionPoint { time: time.to_bits(), value: value.to_bits() }
}

fn message_of(error: Error) -> String {
    match error {
        Error::InvalidJson { format, message } => {
            assert_eq!(format, "motion3.json");
            message
        }
        other => panic!("unexpected error {other:?}"),
    }
}

fn meta(duration: f32, fps: f32, loop_motion: bool) -> MotionMeta {
    MotionMeta {
        duration: duration.to_bits(),
        fps: fps.to_bits(),
        loop_motion,
        are_beziers_restricted: false,
        curve_count: 1,
        total_segment_count: 1,
        total_point_count: 2,
        user_data_count: 0,
        total_user_data_size: 0,
    }
}

fn raw_curve(target: &str, id: &str, segments: &[f32]) -> RawMotionCurve {
    RawMotionCurve {
        target: target.to_string(),
        id: id.to_string(),
        segments: bits(segments),
        fade_in_time: None,
        fade_out_time: Some(0.5f32.to_bits()),
    }
}

#[test]
fn parses_motion3_meta_and_curve_identity() {
    let motion = Motion3::from_document(
        3,
        meta(1.0, 30.0, true),
        vec![raw_curve("Parameter", "ParamAngleX", &[0.0, 0.0, 0.0, 1.0, 10.0])],
    )
    .unwrap();

    assert_eq!(motion.version(), 3);
    assert_eq!(f32::from_bits(motion.meta().duration()), 1.0);
    assert_eq!(f32::from_bits(motion.meta().fps()), 30.0);
    assert!(motion.meta().is_looping());
    assert!(!motion.meta().are_beziers_restricted());
    assert_eq!(motion.meta().curve_count(), 1);
    assert_eq!(motion.meta().total_segment_count(), 1);
    assert_eq!(motion.meta().total_point_count(), 2);
    assert_eq!(motion.meta().user_data_count(), 0);
    assert_eq!(motion.meta().total_user_data_size(), 0);
    assert_eq!(motion.curves()[0].target(), "Parameter");
    assert_eq!(motion.curves()[0].id(), "ParamAngleX");
    assert_eq!(motion.curves()[0].first_point(), point(0.0, 0.0));
    assert_eq!(
        motion.curves()[0].segments(),
        &[MotionSegment::Linear { start: point(0.0, 0.0), end: point(1.0, 10.0) }]
    );
    assert_eq!(motion.curves()[0].fade_in_time(), None);
    assert_eq!(motion.curves()[0].fade_out_time(), Some(0.5f32.to_bits()));
}

#[test]
fn rejects_unsupported_motion3_version() {
    let error = Motion3::from_document(2, meta(1.0, 30.0, false), vec![]).unwrap_err();

    assert!(matches!(
        error,
        Error::UnsupportedVersion {
            format: "motion3.json",
            version: 2
        }
    ));
}

#[test]
fn reports_the_first_curve_with_unreadable_segments() {
    let error = Motion3::from_document(
        3,
        meta(1.0, 30.0, false),
        vec![
            raw_curve("Parameter", "A", &[0.0, 0.0]),
            raw_curve("Parameter", "B", &[0.0]),
            raw_curve("Parameter", "C", &[0.0, 0.0, 7.0]),
        ],
    )
    .unwrap_err();

    assert_eq!(message_of(error), "segments must start with a time/value point");
}

#[test]
fn chains_segments_from_end_to_start() {
    let (first, segments) = parse_segments(&bits(&[
        0.0, 0.0, 1.0, 0.25, 0.1, 0.75, 0.9, 1.0, 1.0, 2.0, 2.0, 5.0, 3.0, 3.0, 7.0,
    ]))
    .unwrap();

    assert_eq!(first, point(0.0, 0.0));
    assert_eq!(
        segments,
        vec![
            MotionSegment::Bezier {
                start: point(0.0, 0.0),
                control1: point(0.25, 0.1),
                control2: point(0.75, 0.9),
                end: point(1.0, 1.0),
            },
            MotionSegment::Stepped { start: point(1.0, 1.0), end: point(2.0, 5.0) },
            MotionSegment::InverseStepped { start: point(2.0, 5.0), end: point(3.0, 7.0) },
        ]
    );
    assert_eq!(segments[2].end(), point(3.0, 7.0));
}

#[test]
fn reads_a_lone_first_point_and_negative_zero_segment_types() {
    let (first, segments) = parse_segments(&bits(&[2.0, 3.0])).unwrap();
    assert_eq!(first, point(2.0, 3.0));
    assert!(segments.is_empty());

    let (_, segments) = parse_segments(&bits(&[0.0, 0.0, -0.0, 1.0, 1.0])).unwrap();
    assert_eq!(
        segments,
        vec![MotionSegment::Linear { start: point(0.0, 0.0), end: point(1.0, 1.0) }]
    );
}

#[test]
fn rejects_malformed_segment_lists() {
    assert_eq!(
        message_of(parse_segments(&bits(&[0.0])).unwrap_err()),
        "segments must start with a time/value point"
    );
    assert_eq!(
        message_of(parse_segments(&bits(&[0.0, 0.0, 4.0, 1.0, 1.0])).unwrap_err()),
        "segment type must be 0, 1, 2, or 3"
    );
    assert_eq!(
        message_of(parse_segments(&bits(&[0.0, 0.0, 0.5, 1.0, 1.0])).unwrap_err()),
        "segment type must be 0, 1, 2, or 3"
    );
    assert_eq!(
        message_of(parse_segments(&bits(&[0.0, 0.0, f32::NAN, 1.0, 1.0])).unwrap_err()),
        "segment type must be 0, 1, 2, or 3"
    );
    assert_eq!(
        message_of(parse_segments(&bits(&[0.0, 0.0, 1.0, 1.0, 1.0, 2.0])).unwrap_err()),
        "segment point is incomplete"
    );
    assert_eq!(
        message_of(parse_segments(&bits(&[0.0, 0.0, 0.0, 1.0])).unwrap_err()),
        "segment point is incomplete"
    );
}

#[test]
fn names_segment_types_by_their_float_values() {
    assert_eq!(segment_type(0.0f32.to_bits()).unwrap(), 0);
    assert_eq!(segment_type((-0.0f32).to_bits()).unwrap(), 0);
    assert_eq!(segment_type(1.0f32.to_bits()).unwrap(), 1);
    assert_eq!(segment_type(2.0f32.to_bits()).unwrap(), 2);
    assert_eq!(segment_type(3.0f32.to_bits()).unwrap(), 3);
    assert!(segment_type(3.5f32.to_bits()).is_err());
    assert!(segment_type((-1.0f32).to_bits()).is_err());
}

#[test]
fn reading_a_point_moves_the_cursor_past_it() {
    let values = bits(&[1.0, 2.0, 3.0]);
    let mut cursor = 0;
    assert_eq!(read_point(&values, &mut cursor).unwrap(), point(1.0, 2.0));
    assert_eq!(cursor, 2);
    assert_eq!(
        message_of(read_point(&values, &mut cursor).unwrap_err()),
        "segment point is incomplete"
    );
    assert_eq!(cursor, 2);
}

#[test]
fn reads_a_curve_from_its_document_form() {
    let curve = MotionCurve::try_from(&raw_curve("PartOpacity", "PartArm", &[0.0, 1.0, 2.0, 1.0, 0.0]))
        .unwrap();
    assert_eq!(curve.target(), "PartOpacity");
    assert_eq!(
        curve.segments(),
        &[MotionSegment::Stepped { start: point(0.0, 1.0), end: point(1.0, 0.0) }]
    );
    assert!(MotionCurve::try_from(&raw_curve("PartOpacity", "PartArm", &[0.0, 1.0, 2.0])).is_err());
}

#[test]
fn pose_keeps_its_groups() {
    let part = PosePart::new("PartArmA".to_string(), vec!["PartArmB".to_string()]);
    let pose = Pose3::new(
        "Live2D Pose".to_string(),
        Some(0.5f32.to_bits()),
        vec![vec![part.clone()]],
    );

    assert_eq!(pose.kind(), "Live2D Pose");
    assert_eq!(pose.fade_in_time(), Some(0.5f32.to_bits()));
    assert_eq!(pose.groups(), &[vec![part.clone()]]);
    assert_eq!(part.id(), "PartArmA");
    assert_eq!(part.links(), &["PartArmB".to_string()]);
}
