use attitude_link::data_format::{decode_triplet, i16_from_be, MyFrame, Triplet};

#[test]
fn test_from_fixed() {
    let test_frame = MyFrame::from_fixed(&[0x12, 0x34, 0x56, 0x78, 0x9a, 0xbc]);
    assert_eq!(test_frame.x_h, 0x12);
    assert_eq!(test_frame.x_l, 0x34);
    assert_eq!(test_frame.y_h, 0x56);
    assert_eq!(test_frame.y_l, 0x78);
    assert_eq!(test_frame.z_h, 0x9a);
    assert_eq!(test_frame.z_l, 0xbc);
}

#[test]
fn test_as_bytes() {
    let test_frame = MyFrame {
        x_h: 0x12,
        x_l: 0x34,
        y_h: 0x56,
        y_l: 0x78,
        z_h: 0x9a,
        z_l: 0xbc,
    };
    assert_eq!(test_frame.as_bytes(), [0x12, 0x34, 0x56, 0x78, 0x9a, 0xbc]);
}

#[test]
fn my_frame_new_is_zero() {
    assert_eq!(MyFrame::new().as_bytes(), [0; 6]);
}

#[test]
fn my_frame_get_xyz() {
    let f = MyFrame::from_fixed(&[0x12, 0x34, 0x56, 0x78, 0x9a, 0xbc]);
    assert_eq!(f.get_x(), 4660);
    assert_eq!(f.get_y(), 22136);
    assert_eq!(f.get_z(), -25924);
}

#[test]
fn i16_from_be_edges() {
    assert_eq!(i16_from_be(0x00, 0x00), 0);
    assert_eq!(i16_from_be(0x00, 0x01), 1);
    assert_eq!(i16_from_be(0x7f, 0xff), 32767);
    assert_eq!(i16_from_be(0x80, 0x00), -32768);
    assert_eq!(i16_from_be(0xff, 0xff), -1);
    assert_eq!(i16_from_be(0x01, 0x00), 256);
}

#[test]
fn decode_triplet_big_endian() {
    let t = decode_triplet(&[0x12, 0x34, 0x56, 0x78, 0x9a, 0xbc]);
    assert_eq!(t, Triplet { x: 4660, y: 22136, z: -25924 });
    let t = decode_triplet(&[0x80, 0x00, 0x7f, 0xff, 0xff, 0xff]);
    assert_eq!(t, Triplet { x: -32768, y: 32767, z: -1 });
}
