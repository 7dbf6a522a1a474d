use fov_zoom::install::{image_size, locate_target, read_le_u32, render_level_signature, Signature};

#[test]
fn render_signature_is_parallel() {
    let sig = render_level_signature();
    assert_eq!(sig.pattern.len(), 76);
    assert_eq!(sig.mask.len(), 76);
    assert_eq!(&sig.pattern[..3], &[0x48, 0x8B, 0xC4]);
    assert_eq!(sig.mask[6], 0x00);
}

#[test]
fn locate_adds_base_to_offset() {
    let sig = render_level_signature();
    let mut image = vec![0xCCu8; 5];
    image.extend_from_slice(&sig.pattern);
    image.extend_from_slice(&[0x90, 0x90]);
    assert_eq!(locate_target(&image, 0x1000, &sig), Some(0x1005));
}

#[test]
fn locate_accepts_wildcard_differences() {
    let sig = render_level_signature();
    let mut image = sig.pattern.clone();
    image[6] = 0x77;
    image[21] = 0x12;
    assert_eq!(locate_target(&image, 0x40_0000, &sig), Some(0x40_0000));
}

#[test]
fn locate_reports_missing_signature() {
    let sig = render_level_signature();
    let mut image = sig.pattern.clone();
    image[0] = 0x00;
    assert_eq!(locate_target(&image, 0x1000, &sig), None);
}

#[test]
fn locate_with_small_signature() {
    let sig = Signature { pattern: vec![0xAB, 0x00], mask: vec![0xFF, 0x00] };
    assert_eq!(locate_target(&[0x01, 0xAB, 0x05], 10, &sig), Some(11));
}

#[test]
fn little_endian_read() {
    assert_eq!(read_le_u32(&[0x78, 0x56, 0x34, 0x12, 0xFF], 0), 0x1234_5678);
    assert_eq!(read_le_u32(&[0x00, 0xFF, 0xFF, 0xFF, 0xFF], 1), 0xFFFF_FFFF);
}

#[test]
fn image_size_from_headers() {
    let mut headers = vec![0u8; 0x200];
    headers[0x3C] = 0x80;
    headers[0xD0] = 0x00;
    headers[0xD1] = 0x30;
    headers[0xD2] = 0x5A;
    headers[0xD3] = 0x01;
    assert_eq!(image_size(&headers), Some(0x015A_3000));
}

#[test]
fn image_size_rejects_truncated_headers() {
    let mut headers = vec![0u8; 0xD2];
    headers[0x3C] = 0x80;
    assert_eq!(image_size(&headers), None);
    assert_eq!(image_size(&[0u8; 0x10]), None);
    let mut negative = vec![0u8; 0x200];
    negative[0x3F] = 0x80;
    assert_eq!(image_size(&negative), None);
}
