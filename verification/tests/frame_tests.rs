use vimba::camera::AccessMode;
use vimba::{Frame, FrameDescriptor};

fn sample_descriptor() -> FrameDescriptor {
    FrameDescriptor {
        width: 640,
        height: 480,
        offset_x: 2,
        offset_y: 4,
        frame_id: 77,
        timestamp: 123_456_789,
    }
}

#[test]
fn view_exposes_descriptor_unmodified() {
    let desc = sample_descriptor();
    let data = [9u8, 8, 7];
    let view = Frame::from_descriptor(&desc, &data);
    assert_eq!(view.data, &[9u8, 8, 7][..]);
    assert_eq!(view.width, 640);
    assert_eq!(view.height, 480);
    assert_eq!(view.offset_x, 2);
    assert_eq!(view.offset_y, 4);
    assert_eq!(view.id, 77);
    assert_eq!(view.timestamp, 123_456_789);
}

#[test]
fn with_vec_data_copies_out() {
    let desc = sample_descriptor();
    let data = [1u8, 2, 3];
    let view = Frame::from_descriptor(&desc, &data);
    let owned = view.with_vec_data();
    assert_eq!(owned.data, vec![1, 2, 3]);
    assert_eq!(owned.width, 640);
    assert_eq!(owned.timestamp, 123_456_789);
}

#[test]
fn with_ref_data_borrows() {
    let desc = sample_descriptor();
    let data = [5u8, 6];
    let owned = Frame::from_descriptor(&desc, &data).with_vec_data();
    let view = owned.with_ref_data();
    assert_eq!(view.data, &[5u8, 6][..]);
    assert_eq!(view.id, 77);
}

#[test]
fn map_data_keeps_metadata() {
    let desc = sample_descriptor();
    let data = [1u8, 2, 3, 4];
    let owned = Frame::from_descriptor(&desc, &data).with_vec_data();
    let mapped = owned.map_data(|d: &Vec<u8>| d.len());
    assert_eq!(mapped.data, 4);
    assert_eq!(mapped.width, 640);
    assert_eq!(mapped.height, 480);
    assert_eq!(mapped.id, 77);
}

#[test]
fn default_frame_is_empty() {
    let f: Frame<Vec<u8>> = Frame::default();
    assert!(f.data.is_empty());
    assert_eq!(f.width, 0);
    assert_eq!(f.height, 0);
    assert_eq!(f.id, 0);
    assert_eq!(f.timestamp, 0);
}

#[test]
fn access_mode_bits() {
    let full = AccessMode::from_bits_truncate(0xFFFF_FFFF);
    assert_eq!(full.bits, 15);
    assert!(full.contains(AccessMode::from_bits_truncate(1)));
    let read = AccessMode::from_bits_truncate(2);
    assert!(!read.contains(AccessMode::from_bits_truncate(1)));
}
