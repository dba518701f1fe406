use xshot::capture::CaptureRect;
use xshot::capture::convert_bgrx_to_rgba;
use xshot::capture::effective_size;
use xshot::capture::finish_capture;
use xshot::errors::Error;

#[test]
fn pixel_groups_swap_blue_and_red_and_force_opacity() {
    let raw = vec![1u8, 2, 3, 0];
    assert_eq!(convert_bgrx_to_rgba(&raw), vec![3u8, 2, 1, 0xff]);
}

#[test]
fn alpha_is_forced_opaque_whatever_the_server_sent() {
    // The unused fourth byte must not leak through, whether 0x00 or 0xff.
    let transparent = vec![10u8, 20, 30, 0x00];
    assert_eq!(convert_bgrx_to_rgba(&transparent), vec![30u8, 20, 10, 0xff]);
    let opaque = vec![10u8, 20, 30, 0xff];
    assert_eq!(convert_bgrx_to_rgba(&opaque), vec![30u8, 20, 10, 0xff]);
}

#[test]
fn conversion_handles_several_groups_in_order() {
    let raw = vec![1u8, 2, 3, 4, 5, 6, 7, 8];
    assert_eq!(convert_bgrx_to_rgba(&raw), vec![3u8, 2, 1, 0xff, 7, 6, 5, 0xff]);
}

#[test]
fn exact_length_one_by_one_capture_succeeds() {
    let rect = CaptureRect::new(0, 0, 1, 1).unwrap();
    let raw = vec![1u8, 2, 3, 4];
    let buf = finish_capture(&rect, &raw).unwrap();
    assert_eq!(buf.width, 1);
    assert_eq!(buf.height, 1);
    assert_eq!(buf.data, vec![3u8, 2, 1, 0xff]);
}

#[test]
fn length_mismatch_is_a_capture_size_mismatch() {
    let rect = CaptureRect::new(0, 0, 1, 1).unwrap();
    assert_eq!(finish_capture(&rect, &vec![1u8, 2, 3]), Err(Error::CaptureSizeMismatch));
    assert_eq!(
        finish_capture(&rect, &vec![1u8, 2, 3, 4, 5, 6, 7, 8]),
        Err(Error::CaptureSizeMismatch)
    );
    assert_eq!(finish_capture(&rect, &vec![]), Err(Error::CaptureSizeMismatch));
}

#[test]
fn wider_capture_checks_full_byte_length() {
    let rect = CaptureRect::new(-3, 5, 2, 2).unwrap();
    let raw = vec![0u8; 16];
    assert!(finish_capture(&rect, &raw).is_ok());
    let short = vec![0u8; 12];
    assert_eq!(finish_capture(&rect, &short), Err(Error::CaptureSizeMismatch));
}

#[test]
fn zero_area_rectangles_are_rejected_before_any_request() {
    assert!(CaptureRect::new(0, 0, 0, 5).is_none());
    assert!(CaptureRect::new(0, 0, 5, 0).is_none());
    assert!(CaptureRect::new(0, 0, 0, 0).is_none());
    assert!(CaptureRect::new(-1, -1, 1, 1).is_some());
}

#[test]
fn size_override_beats_geometry() {
    assert_eq!(effective_size(Some((10, 20)), (300, 400)), (10, 20));
    assert_eq!(effective_size(None, (300, 400)), (300, 400));
}
