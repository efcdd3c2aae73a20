use media_pipeline::frame::{is_sampled_frame, pack_yv12, ppm_image, samples_from_bytes};

#[test]
fn yv12_puts_v_plane_before_u_plane() {
    let y = [1u8, 2, 3, 4];
    let u = [5u8];
    let v = [6u8];
    assert_eq!(pack_yv12(&y, &u, &v), vec![1, 2, 3, 4, 6, 5]);
}

#[test]
fn yv12_of_empty_planes_is_empty() {
    assert!(pack_yv12(&[], &[], &[]).is_empty());
}

#[test]
fn samples_are_little_endian_pairs() {
    let bytes = [0x01u8, 0x00, 0xff, 0xff, 0x00, 0x80, 0xff, 0x7f, 0x42];
    assert_eq!(samples_from_bytes(&bytes), vec![1i16, -1, i16::MIN, i16::MAX]);
    assert!(samples_from_bytes(&[]).is_empty());
    assert!(samples_from_bytes(&[9]).is_empty());
}

#[test]
fn every_thirtieth_frame_is_sampled() {
    assert!(!is_sampled_frame(1));
    assert!(!is_sampled_frame(29));
    assert!(is_sampled_frame(30));
    assert!(!is_sampled_frame(31));
    assert!(is_sampled_frame(60));
}

#[test]
fn ppm_image_has_header_then_pixels() {
    let r = ppm_image(640, 480, &[7, 8, 9]);
    let mut expected = b"P6\n640 480\n255\n".to_vec();
    expected.extend_from_slice(&[7, 8, 9]);
    assert_eq!(r, expected);
    assert_eq!(ppm_image(0, 9, &[]), b"P6\n0 9\n255\n".to_vec());
    assert_eq!(ppm_image(u32::MAX, 10, &[]), b"P6\n4294967295 10\n255\n".to_vec());
}
