use video2cmd::coords::create_map;
use video2cmd::image::{DrawCall, FrameError, Image, Rgb, Size};
use video2cmd::shared::SharedImage;
use video2cmd::transport::{frame_message, receive_message, MessageOutcome, WireMessage};

fn call(x: i64, y: i64, r: u8, g: u8, b: u8) -> DrawCall {
    DrawCall { x, y, color: Rgb { r, g, b } }
}

#[test]
fn map_is_row_major() {
    let map = create_map(3, 2);
    assert_eq!(map, vec![(0, 0), (1, 0), (2, 0), (0, 1), (1, 1), (2, 1)]);
    for (i, p) in map.iter().enumerate() {
        assert_eq!(*p, (i % 3, i / 3));
    }
}

#[test]
fn map_of_full_frame_size() {
    let map = create_map(720, 180);
    assert_eq!(map.len(), 720 * 180);
    assert_eq!(map[721], (1, 1));
    assert_eq!(map[720 * 180 - 1], (719, 179));
}

#[test]
fn map_of_empty_grid() {
    assert!(create_map(0, 5).is_empty());
    assert!(create_map(4, 0).is_empty());
}

#[test]
fn black_two_by_two_draws_four_black_points() {
    let image = Image::new_from_vec(vec![0; 12], create_map(2, 2), 2, 2).unwrap();
    let calls = image.draw_calls();
    assert_eq!(
        calls,
        vec![
            call(-1, 1, 0, 0, 0),
            call(0, 1, 0, 0, 0),
            call(-1, 0, 0, 0, 0),
            call(0, 0, 0, 0, 0),
        ]
    );
}

#[test]
fn draw_reads_blue_green_red() {
    let bytes = vec![1, 2, 3, 4, 5, 6, 7, 8, 9, 10, 11, 12];
    let image = Image::new_from_vec(bytes, create_map(2, 2), 2, 2).unwrap();
    let calls = image.draw_calls();
    assert_eq!(calls[0], call(-1, 1, 3, 2, 1));
    assert_eq!(calls[1], call(0, 1, 6, 5, 4));
    assert_eq!(calls[2], call(-1, 0, 9, 8, 7));
    assert_eq!(calls[3], call(0, 0, 12, 11, 10));
}

#[test]
fn draw_follows_map_order() {
    let bytes: Vec<u8> = (0..18).collect();
    let map = vec![(2, 1), (0, 0)];
    let image = Image::new_from_vec(bytes, map, 2, 3).unwrap();
    let calls = image.draw_calls();
    // pixel (2, 1) starts at byte 3 * (2 + 3 * 1) = 15
    assert_eq!(calls, vec![call(1, 0, 17, 16, 15), call(-1, 1, 2, 1, 0)]);
}

#[test]
fn last_pixel_offset_is_in_bounds() {
    let w = 5usize;
    let h = 4usize;
    let bytes: Vec<u8> = (0..(w * h * 3) as u32).map(|i| i as u8).collect();
    let image = Image::new_from_vec(bytes, vec![(w - 1, h - 1)], h as i32, w as i32).unwrap();
    let calls = image.draw_calls();
    assert_eq!(calls.len(), 1);
    assert_eq!(calls[0].color, Rgb { r: 59, g: 58, b: 57 });
}

#[test]
fn default_counts_bytes_modulo_256() {
    let image = Image::default(10, 10, create_map(10, 10));
    let color = image.color();
    assert_eq!(color.len(), 300);
    assert_eq!(color[0], 0);
    assert_eq!(color[255], 255);
    assert_eq!(color[256], 0);
    assert_eq!(color[299], 43);
    assert_eq!(*image.size(), Size { width: 10, height: 10 });
    assert_eq!(image.image_map().len(), 100);
}

#[test]
fn new_from_vec_rejects_wrong_length() {
    let r = Image::new_from_vec(vec![0; 11], create_map(2, 2), 2, 2);
    assert_eq!(r.err(), Some(FrameError::LengthMismatch { expected: 12, actual: 11 }));
}

#[test]
fn new_from_vec_rejects_negative_size() {
    let r = Image::new_from_vec(vec![], vec![], -1, 2);
    assert_eq!(r.err(), Some(FrameError::NegativeSize));
}

#[test]
fn new_from_vec_rejects_point_outside() {
    let r = Image::new_from_vec(vec![0; 12], vec![(0, 0), (2, 0), (0, 2)], 2, 2);
    assert_eq!(r.err(), Some(FrameError::PointOutOfBounds { index: 1 }));
}

#[test]
fn image_update_rejects_wrong_length() {
    let mut image = Image::new_from_vec(vec![7; 12], create_map(2, 2), 2, 2).unwrap();
    assert_eq!(
        image.update(vec![1; 13]),
        Err(FrameError::LengthMismatch { expected: 12, actual: 13 })
    );
    assert_eq!(image.color(), &vec![7; 12]);
    assert_eq!(image.update(vec![1; 12]), Ok(()));
    assert_eq!(image.color(), &vec![1; 12]);
}

#[test]
fn read_after_write() {
    let mut shared = SharedImage::default(2, 2, create_map(2, 2));
    let frame: Vec<u8> = (20..32).collect();
    assert!(shared.update(frame.clone()).is_ok());
    assert_eq!(shared.image().color(), &frame);
}

#[test]
fn latest_wins() {
    let mut shared = SharedImage::default(2, 2, create_map(2, 2));
    let a = vec![1u8; 12];
    let b = vec![2u8; 12];
    assert!(shared.update(a).is_ok());
    assert!(shared.update(b.clone()).is_ok());
    assert_eq!(shared.image().color(), &b);
}

#[test]
fn round_trip_through_message() {
    let bytes: Vec<u8> = (100..112).collect();
    let image = Image::new_from_vec(bytes.clone(), create_map(2, 2), 2, 2).unwrap();
    let msg = frame_message(&image);
    let payload = match &msg {
        WireMessage::Binary(v) => v.clone(),
        WireMessage::Text(_) => panic!("a frame travels as a binary message"),
    };
    assert_eq!(payload, bytes);
    let rebuilt = Image::new_from_bytes(&payload, create_map(2, 2), 2, 2).unwrap();
    assert_eq!(rebuilt.color(), &bytes);
    assert_eq!(*rebuilt.size(), Size { width: 2, height: 2 });

    let mut receiver = SharedImage::default(2, 2, create_map(2, 2));
    assert_eq!(receive_message(&mut receiver, msg), MessageOutcome::Applied);
    assert_eq!(receiver.image().color(), &bytes);
}

#[test]
fn wrong_length_message_is_rejected() {
    let mut receiver = SharedImage::default(2, 2, create_map(2, 2));
    let before = receiver.image().color().clone();
    let outcome = receive_message(&mut receiver, WireMessage::Binary(vec![0; 9]));
    assert_eq!(outcome, MessageOutcome::Rejected);
    assert_eq!(receiver.image().color(), &before);
    // the frame still draws without reading past its bytes
    assert_eq!(receiver.image().draw_calls().len(), 4);
}

#[test]
fn text_message_is_ignored() {
    let mut receiver = SharedImage::default(2, 2, create_map(2, 2));
    let before = receiver.image().color().clone();
    let outcome = receive_message(&mut receiver, WireMessage::Text("hello".to_string()));
    assert_eq!(outcome, MessageOutcome::Ignored);
    assert_eq!(receiver.image().color(), &before);
}

#[test]
fn new_from_bytes_rejects_wrong_length() {
    let r = Image::new_from_bytes(&[1, 2, 3], create_map(2, 2), 2, 2);
    assert_eq!(r.err(), Some(FrameError::LengthMismatch { expected: 12, actual: 3 }));
}
