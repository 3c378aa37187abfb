use rusty_live2d::moc3::{
    Endianness, Moc3DeformerKind, Moc3Deformers, Moc3KeyformBindings, Moc3RotationKeyform,
    Moc3SectionOffsets,
};
use rusty_live2d::Error;

const SLOTS: usize = 100;

/// Lays numeric sections out in a byte buffer and records their offsets.
struct Moc3Builder {
    bytes: Vec<u8>,
    slots: Vec<u32>,
}

impl Moc3Builder {
    fn new() -> Self {
        Self {
            bytes: vec![0; 16],
            slots: vec![0; SLOTS],
        }
    }

    fn put_words(&mut self, slot: usize, words: &[u32]) {
        self.slots[slot] = self.bytes.len() as u32;
        for word in words {
            self.bytes.extend_from_slice(&word.to_le_bytes());
        }
    }

    fn i32s(mut self, slot: usize, values: &[i32]) -> Self {
        let words: Vec<u32> = values.iter().map(|v| *v as u32).collect();
        self.put_words(slot, &words);
        self
    }

    fn f32s(mut self, slot: usize, values: &[f32]) -> Self {
        let words: Vec<u32> = values.iter().map(|v| v.to_bits()).collect();
        self.put_words(slot, &words);
        self
    }

    fn bools(mut self, slot: usize, values: &[bool]) -> Self {
        let words: Vec<u32> = values.iter().map(|v| u32::from(*v)).collect();
        self.put_words(slot, &words);
        self
    }

    fn finish(self) -> (Vec<u8>, Moc3SectionOffsets) {
        (self.bytes, Moc3SectionOffsets::from_offsets(self.slots))
    }
}

fn bits(values: &[f32]) -> Vec<u32> {
    values.iter().map(|v| v.to_bits()).collect()
}

fn deformer_fixture(types: &[i32], parents: &[i32]) -> Moc3Builder {
    Moc3Builder::new()
        .i32s(16, parents)
        .i32s(17, types)
        .i32s(18, &[0, 0, 1])
        .i32s(19, &[-1, 0])
        .i32s(20, &[0, 1])
        .i32s(21, &[1, 2])
        .i32s(22, &[2, 1])
        .i32s(23, &[1, 1])
        .i32s(24, &[1, 1])
        .i32s(25, &[0])
        .i32s(26, &[0])
        .i32s(27, &[2])
        .f32s(28, &[10.0])
        .i32s(60, &[0, 4, 6])
        .f32s(62, &[5.0, 15.0])
        .f32s(63, &[1.0, 2.0])
        .f32s(64, &[3.0, 4.0])
        .f32s(65, &[1.0, 0.5])
        .bools(66, &[false, true])
        .bools(67, &[true, false])
        .f32s(71, &[0.0, 0.1, 1.0, 1.1, 2.0, 2.1, 3.0, 3.1])
}

fn parse_deformers(bytes: &[u8], offsets: &Moc3SectionOffsets, deformers: u32) -> Result<Moc3Deformers, Error> {
    Moc3Deformers::parse(bytes, Endianness::Little, offsets, deformers, 2, 1, 3, 2, 8)
}

#[test]
fn parses_moc3_deformer_tables() {
    let (bytes, offsets) = deformer_fixture(&[1, 0, 0], &[1, -1, 0]).finish();
    let deformers = parse_deformers(&bytes, &offsets, 3).unwrap();

    assert_eq!(deformers.deformer_count(), 3);
    assert_eq!(
        deformers.warp_grid(0, 0),
        Some(vec![
            [0.0f32.to_bits(), 0.1f32.to_bits()],
            [1.0f32.to_bits(), 1.1f32.to_bits()],
        ])
    );
    assert_eq!(
        deformers.warp_grid(1, 2),
        Some(vec![[3.0f32.to_bits(), 3.1f32.to_bits()]])
    );
    assert_eq!(deformers.warp_grid(0, 2), None);
    assert_eq!(deformers.warp_grid(2, 0), None);
    assert_eq!(deformers.warp_grid(0, 3), None);
    assert_eq!(deformers.warp_keyform_grid(1, 1), deformers.warp_grid(1, 2));
    assert_eq!(deformers.warp_keyform_grid(0, 0), deformers.warp_grid(0, 0));
    assert_eq!(deformers.warp_keyform_grid(0, usize::MAX), None);
    assert_eq!(
        deformers.rotation_keyform(0, 1),
        Some(Moc3RotationKeyform {
            angle: 15.0f32.to_bits(),
            origin_x: 2.0f32.to_bits(),
            origin_y: 4.0f32.to_bits(),
            scale: 0.5f32.to_bits(),
            reflect_x: true,
            reflect_y: false,
        })
    );
    assert_eq!(
        deformers.rotation_keyform(0, 0).map(|k| (k.reflect_x, k.reflect_y)),
        Some((false, true))
    );
    assert_eq!(deformers.rotation_keyform(0, 2), None);
    assert_eq!(deformers.rotation_keyform(1, 0), None);
}

#[test]
fn orders_deformers_parents_first() {
    let (bytes, offsets) = deformer_fixture(&[1, 0, 0], &[1, -1, 0]).finish();
    let deformers = parse_deformers(&bytes, &offsets, 3).unwrap();

    assert_eq!(deformers.deformer_depth(0), 1);
    assert_eq!(deformers.deformer_depth(1), 0);
    assert_eq!(deformers.deformer_depth(2), 2);
    assert_eq!(deformers.deformer_depth(7), 0);
    assert_eq!(deformers.composition_order(), vec![1, 0, 2]);
}

#[test]
fn caps_the_depth_of_cyclic_deformer_hierarchies() {
    let (bytes, offsets) = deformer_fixture(&[1, 0], &[1, 0]).finish();
    let deformers = parse_deformers(&bytes, &offsets, 2).unwrap();

    assert_eq!(deformers.deformer_depth(0), 3);
    assert_eq!(deformers.deformer_depth(1), 3);
    assert_eq!(deformers.composition_order(), vec![0, 1]);
}

#[test]
fn keeps_declaration_order_among_equally_deep_deformers() {
    let (bytes, offsets) = deformer_fixture(&[0, 0, 1], &[-1, -1, -1]).finish();
    let deformers = parse_deformers(&bytes, &offsets, 3).unwrap();

    assert_eq!(deformers.composition_order(), vec![0, 1, 2]);
}

#[test]
fn rejects_unsupported_deformer_types() {
    let (bytes, offsets) = deformer_fixture(&[1, 2, 0], &[1, -1, 0]).finish();

    assert!(matches!(
        parse_deformers(&bytes, &offsets, 3),
        Err(Error::InvalidMoc3 { .. })
    ));
}

#[test]
fn rejects_deformer_tables_past_the_end_of_the_file() {
    let (mut bytes, offsets) = deformer_fixture(&[1, 0, 0], &[1, -1, 0]).finish();
    bytes.truncate(bytes.len() - 4);

    assert!(matches!(
        parse_deformers(&bytes, &offsets, 3),
        Err(Error::InvalidMoc3 { .. })
    ));
}

#[test]
fn maps_raw_deformer_kinds() {
    assert_eq!(Moc3DeformerKind::from_raw(0), Some(Moc3DeformerKind::Warp));
    assert_eq!(Moc3DeformerKind::from_raw(1), Some(Moc3DeformerKind::Rotation));
    assert_eq!(Moc3DeformerKind::from_raw(2), None);
    assert_eq!(Moc3DeformerKind::from_raw(-1), None);
}

fn binding_fixture() -> Moc3Builder {
    Moc3Builder::new()
        .f32s(53, &[0.5, -1.0])
        .i32s(72, &[0, 1, 1])
        .i32s(73, &[0, 2, 1])
        .i32s(74, &[2, 1, 3])
        .i32s(75, &[0, 2])
        .i32s(76, &[2, 3])
        .f32s(77, &[-1.0, 1.0, 0.0, 0.5, 1.0])
}

fn parse_bindings(bytes: &[u8], offsets: &Moc3SectionOffsets) -> Result<Moc3KeyformBindings, Error> {
    Moc3KeyformBindings::parse(bytes, Endianness::Little, offsets, 2, 3, 3, 2, 5)
}

#[test]
fn parses_moc3_keyform_bindings() {
    let (bytes, offsets) = binding_fixture().finish();
    let bindings = parse_bindings(&bytes, &offsets).unwrap();

    assert_eq!(bindings.band_keyform_bindings(0), Some(&[0, 1][..]));
    assert_eq!(bindings.band_keyform_bindings(1), Some(&[1][..]));
    assert_eq!(bindings.band_keyform_bindings(2), None);
    assert_eq!(bindings.band_keyform_bindings(3), None);
    assert_eq!(bindings.band_keyform_bindings(-1), None);
    assert_eq!(bindings.binding_keys(0), Some(&bits(&[-1.0, 1.0])[..]));
    assert_eq!(bindings.binding_keys(1), Some(&bits(&[0.0, 0.5, 1.0])[..]));
    assert_eq!(bindings.binding_keys(2), None);
    assert_eq!(bindings.parameter_default_value(1), (-1.0f32).to_bits());
    assert_eq!(bindings.parameter_default_value(5), 0.0f32.to_bits());
}

#[test]
fn rejects_incomplete_keyform_binding_sections() {
    let (mut bytes, offsets) = binding_fixture().finish();
    bytes.truncate(bytes.len() - 1);

    assert!(matches!(
        parse_bindings(&bytes, &offsets),
        Err(Error::InvalidMoc3 { .. })
    ));
}

#[test]
fn reads_no_keyform_bindings_from_an_empty_model() {
    let (bytes, offsets) = Moc3Builder::new().finish();
    let bindings =
        Moc3KeyformBindings::parse(&bytes, Endianness::Little, &offsets, 0, 0, 0, 0, 0).unwrap();

    assert_eq!(bindings.band_keyform_bindings(0), None);
    assert_eq!(bindings.binding_keys(0), None);
    assert_eq!(bindings.parameter_default_value(0), 0);
}

#[test]
fn reports_the_first_unsupported_deformer_type_with_its_value() {
    let (bytes, offsets) = deformer_fixture(&[1, 2, -7], &[1, -1, 0]).finish();
    match parse_deformers(&bytes, &offsets, 3) {
        Err(Error::InvalidMoc3 { message }) => assert_eq!(message, "unsupported deformer type 2"),
        other => panic!("unexpected {other:?}"),
    }
    let (bytes, offsets) = deformer_fixture(&[0, -15, 9], &[1, -1, 0]).finish();
    match parse_deformers(&bytes, &offsets, 3) {
        Err(Error::InvalidMoc3 { message }) => assert_eq!(message, "unsupported deformer type -15"),
        other => panic!("unexpected {other:?}"),
    }
}

#[test]
fn table_parse_errors_name_the_first_missing_section() {
    let empty = Moc3SectionOffsets::from_offsets(vec![0; 160]);
    match Moc3Deformers::parse(&[], Endianness::Little, &empty, 1, 0, 0, 0, 0, 0) {
        Err(Error::InvalidMoc3 { message }) => assert_eq!(message, "section slot 17 has no offset"),
        other => panic!("unexpected result {other:?}"),
    }
    match Moc3KeyformBindings::parse(&[], Endianness::Little, &empty, 1, 0, 0, 0, 0) {
        Err(Error::InvalidMoc3 { message }) => assert_eq!(message, "section slot 53 has no offset"),
        other => panic!("unexpected result {other:?}"),
    }
}

#[test]
fn file_readers_report_the_layout_error_first() {
    match Moc3Deformers::parse_file(b"MOC3") {
        Err(Error::InvalidMoc3 { message }) => assert_eq!(message, "moc3 header is incomplete"),
        other => panic!("unexpected result {other:?}"),
    }
    match Moc3KeyformBindings::parse_file(&[0; 64]) {
        Err(Error::InvalidMoc3 { message }) => {
            assert_eq!(message, "moc3 header does not start with MOC3")
        }
        other => panic!("unexpected result {other:?}"),
    }
}
