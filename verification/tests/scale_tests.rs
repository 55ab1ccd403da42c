use video_backend::scale::{conversion_outcome, do_scale, ScaleError, Yuv420Frame};

fn picture(width: u32, height: u32, pixel: [u8; 4]) -> Vec<u8> {
    let mut data = Vec::new();
    for _ in 0..(width * height) {
        data.extend_from_slice(&pixel);
    }
    data
}

#[test]
fn new_frame_has_planes_of_the_geometry() {
    let frame = Yuv420Frame::new(5, 4).unwrap();
    assert_eq!(frame.width, 5);
    assert_eq!(frame.height, 4);
    assert_eq!(frame.y_stride, 5);
    assert_eq!(frame.u_stride, 3);
    assert_eq!(frame.v_stride, 3);
    assert_eq!(frame.y_plane, vec![0u8; 20]);
    assert_eq!(frame.u_plane, vec![0u8; 6]);
    assert_eq!(frame.v_plane, vec![0u8; 6]);
}

#[test]
fn new_frame_of_odd_height_has_half_a_chroma_row_less() {
    let frame = Yuv420Frame::new(4, 3).unwrap();
    assert_eq!(frame.y_plane.len(), 12);
    assert_eq!(frame.u_plane.len(), 3);
    assert_eq!(frame.v_plane.len(), 3);
}

#[test]
fn new_frame_of_no_size_is_empty() {
    let frame = Yuv420Frame::new(0, 0).unwrap();
    assert!(frame.y_plane.is_empty());
    assert!(frame.u_plane.is_empty());
    assert_eq!(frame.u_stride, 0);
}

#[test]
fn white_picture_becomes_bright_and_colourless() {
    let mut frame = Yuv420Frame::new(4, 2).unwrap();
    let input = picture(4, 2, [255, 255, 255, 255]);
    assert_eq!(do_scale(&input, &mut frame), Ok(()));
    assert_eq!(frame.y_plane.len(), 8);
    assert_eq!(frame.u_plane.len(), 2);
    assert_eq!(frame.v_plane.len(), 2);
    for y in frame.y_plane.iter() {
        assert!((228..=240).contains(y), "luma {}", y);
    }
    for c in frame.u_plane.iter().chain(frame.v_plane.iter()) {
        assert!((124..=132).contains(c), "chroma {}", c);
    }
}

#[test]
fn black_picture_becomes_dark_and_colourless() {
    let mut frame = Yuv420Frame::new(2, 2).unwrap();
    let input = picture(2, 2, [0, 0, 0, 255]);
    assert_eq!(do_scale(&input, &mut frame), Ok(()));
    for y in frame.y_plane.iter() {
        assert!((14..=18).contains(y), "luma {}", y);
    }
    for c in frame.u_plane.iter().chain(frame.v_plane.iter()) {
        assert!((124..=132).contains(c), "chroma {}", c);
    }
}

#[test]
fn red_picture_has_red_chroma() {
    let mut frame = Yuv420Frame::new(2, 2).unwrap();
    let input = picture(2, 2, [255, 0, 0, 255]);
    assert_eq!(do_scale(&input, &mut frame), Ok(()));
    assert!(frame.v_plane[0] > 200, "v {}", frame.v_plane[0]);
    assert!(frame.u_plane[0] < 128, "u {}", frame.u_plane[0]);
    assert_eq!(frame.width, 2);
    assert_eq!(frame.y_stride, 2);
}

#[test]
fn longer_input_is_accepted() {
    let mut frame = Yuv420Frame::new(2, 2).unwrap();
    let mut input = picture(2, 2, [255, 255, 255, 255]);
    input.extend_from_slice(&[1, 2, 3]);
    assert_eq!(do_scale(&input, &mut frame), Ok(()));
    assert!(frame.y_plane.iter().all(|y| *y > 200));
}

#[test]
fn empty_picture_is_refused() {
    let mut frame = Yuv420Frame::new(0, 2).unwrap();
    assert_eq!(do_scale(&vec![], &mut frame), Err(ScaleError::EmptyPicture));
    let mut frame = Yuv420Frame::new(2, 0).unwrap();
    assert_eq!(do_scale(&vec![0; 64], &mut frame), Err(ScaleError::EmptyPicture));
}

#[test]
fn too_wide_picture_is_refused() {
    let mut frame = Yuv420Frame {
        width: u32::MAX / 4 + 1,
        height: 2,
        y_stride: 0,
        u_stride: 0,
        v_stride: 0,
        y_plane: vec![],
        u_plane: vec![],
        v_plane: vec![],
    };
    assert_eq!(do_scale(&vec![], &mut frame), Err(ScaleError::TooLarge));
}

#[test]
fn short_stride_is_refused() {
    let mut frame = Yuv420Frame::new(4, 2).unwrap();
    frame.y_stride = 3;
    let before = frame.clone();
    assert_eq!(
        do_scale(&picture(4, 2, [9, 9, 9, 9]), &mut frame),
        Err(ScaleError::Stride)
    );
    assert_eq!(frame, before);
    let mut frame = Yuv420Frame::new(4, 2).unwrap();
    frame.v_stride = 1;
    assert_eq!(
        do_scale(&picture(4, 2, [9, 9, 9, 9]), &mut frame),
        Err(ScaleError::Stride)
    );
}

#[test]
fn wrong_plane_size_is_refused() {
    let mut frame = Yuv420Frame::new(4, 2).unwrap();
    frame.y_plane.push(0);
    assert_eq!(
        do_scale(&picture(4, 2, [9, 9, 9, 9]), &mut frame),
        Err(ScaleError::PlaneSize)
    );
    let mut frame = Yuv420Frame::new(4, 2).unwrap();
    frame.u_plane.pop();
    assert_eq!(
        do_scale(&picture(4, 2, [9, 9, 9, 9]), &mut frame),
        Err(ScaleError::PlaneSize)
    );
}

#[test]
fn odd_height_is_refused() {
    let mut frame = Yuv420Frame::new(4, 3).unwrap();
    let before = frame.clone();
    assert_eq!(
        do_scale(&picture(4, 3, [255, 255, 255, 255]), &mut frame),
        Err(ScaleError::OddHeight)
    );
    assert_eq!(frame, before);
}

#[test]
fn short_input_is_refused() {
    let mut frame = Yuv420Frame::new(2, 2).unwrap();
    let mut input = picture(2, 2, [255, 255, 255, 255]);
    input.pop();
    assert_eq!(do_scale(&input, &mut frame), Err(ScaleError::InputTooShort));
    assert_eq!(frame.y_plane, vec![0u8; 4]);
}

#[test]
fn converter_refusal_is_one_error() {
    assert_eq!(conversion_outcome(Ok(())), Ok(()));
    assert_eq!(
        conversion_outcome(Err(yuv::YuvError::ZeroBaseSize)),
        Err(ScaleError::Refused)
    );
    assert_eq!(
        conversion_outcome(Err(yuv::YuvError::PointerOverflow)),
        Err(ScaleError::Refused)
    );
}
