use gdocean::{create_push_constant, GpuError, PushValue};

#[test]
fn push_constant_of_32_values_is_too_small() {
    let vals = vec![PushValue::Int32(1); 32];
    assert_eq!(create_push_constant(&vals), Err(GpuError::PushConstantTooSmall));
    assert_eq!(create_push_constant(&[]), Err(GpuError::PushConstantTooSmall));
}

#[test]
fn push_constant_rounds_up_to_multiple_of_16() {
    let vals = vec![PushValue::Int32(3); 33];
    let b = create_push_constant(&vals).unwrap();
    assert_eq!(b.len(), 144);
    assert!(b[132..].iter().all(|x| *x == 0));
    let vals = vec![PushValue::Int32(3); 36];
    assert_eq!(create_push_constant(&vals).unwrap().len(), 144);
    let vals = vec![PushValue::Int32(3); 37];
    assert_eq!(create_push_constant(&vals).unwrap().len(), 160);
}

#[test]
fn push_constant_encodes_tagged_values_little_endian() {
    let mut vals = vec![
        PushValue::Int32(-1),
        PushValue::Float32(1.0f32.to_bits()),
        PushValue::Int32(0x0102_0304),
        PushValue::Float32((-2.5f32).to_bits()),
    ];
    vals.extend(vec![PushValue::Int32(0); 29]);
    let b = create_push_constant(&vals).unwrap();
    assert_eq!(&b[0..4], &[0xff, 0xff, 0xff, 0xff]);
    assert_eq!(&b[4..8], &[0x00, 0x00, 0x80, 0x3f]);
    assert_eq!(&b[8..12], &[0x04, 0x03, 0x02, 0x01]);
    assert_eq!(f32::from_le_bytes([b[12], b[13], b[14], b[15]]), -2.5);
    assert_eq!(i32::from_le_bytes([b[0], b[1], b[2], b[3]]), -1);
    for (i, v) in vals.iter().enumerate() {
        let w = u32::from_le_bytes([b[4 * i], b[4 * i + 1], b[4 * i + 2], b[4 * i + 3]]);
        match v {
            PushValue::Int32(x) => assert_eq!(w as i32, *x),
            PushValue::Float32(bits) => assert_eq!(w, *bits),
        }
    }
}

#[test]
fn push_constant_of_33_ones() {
    let b = create_push_constant(&vec![PushValue::Int32(1); 33]).unwrap();
    assert_eq!(b.len(), 144);
    for i in 0..33 {
        assert_eq!(i32::from_le_bytes([b[4 * i], b[4 * i + 1], b[4 * i + 2], b[4 * i + 3]]), 1);
    }
    assert!(b[132..144].iter().all(|x| *x == 0));
}
