use typed_gpu::pixels::{DecodeErrorKind, Pixels};

fn bitmap() -> Vec<u8> {
    let mut b: Vec<u8> = Vec::new();
    b.extend_from_slice(b"BM");
    b.extend_from_slice(&70u32.to_le_bytes());
    b.extend_from_slice(&0u32.to_le_bytes());
    b.extend_from_slice(&54u32.to_le_bytes());
    b.extend_from_slice(&40u32.to_le_bytes());
    b.extend_from_slice(&2i32.to_le_bytes());
    b.extend_from_slice(&2i32.to_le_bytes());
    b.extend_from_slice(&1u16.to_le_bytes());
    b.extend_from_slice(&24u16.to_le_bytes());
    b.extend_from_slice(&0u32.to_le_bytes());
    b.extend_from_slice(&16u32.to_le_bytes());
    b.extend_from_slice(&2835i32.to_le_bytes());
    b.extend_from_slice(&2835i32.to_le_bytes());
    b.extend_from_slice(&0u32.to_le_bytes());
    b.extend_from_slice(&0u32.to_le_bytes());
    b.extend_from_slice(&[255, 0, 0, 255, 255, 255, 0, 0]);
    b.extend_from_slice(&[0, 0, 255, 0, 255, 0, 0, 0]);
    b
}

#[test]
fn pixels_hold_four_bytes_for_each_texel() {
    let img = Pixels::new(2, 3, vec![7u8; 24]).unwrap();
    assert_eq!(img.dimensions(), (2, 3));
    assert_eq!(img.data(), &[7u8; 24][..]);
    assert!(img.fits_rows());
    let empty = Pixels::new(0, 9, Vec::new()).unwrap();
    assert_eq!(empty.dimensions(), (0, 9));
    assert!(empty.data().is_empty());
}

#[test]
fn pixels_of_another_length_are_refused() {
    assert!(Pixels::new(2, 3, vec![0u8; 23]).is_none());
    assert!(Pixels::new(2, 3, vec![0u8; 25]).is_none());
    assert!(Pixels::new(2, 3, Vec::new()).is_none());
    assert!(Pixels::new(1, 1, vec![0u8; 3]).is_none());
    assert!(Pixels::new(u32::MAX, u32::MAX, vec![0u8; 4]).is_none());
    assert!(Pixels::new(u32::MAX, u32::MAX, Vec::new()).is_none());
}

#[test]
fn bitmap_is_decoded_row_by_row() {
    let img = Pixels::decode(&bitmap()).ok().unwrap();
    assert_eq!(img.dimensions(), (2, 2));
    assert_eq!(
        img.data(),
        &[255u8, 0, 0, 255, 0, 255, 0, 255, 0, 0, 255, 255, 255, 255, 255, 255][..]
    );
}

#[test]
fn bytes_in_no_known_format_are_refused() {
    let e = Pixels::decode(b"these bytes are no image").err().unwrap();
    assert_eq!(e.kind, DecodeErrorKind::Unsupported);
    assert!(!e.message.is_empty());
    assert!(Pixels::decode(&[]).is_err());
}

#[test]
fn bitmap_cut_short_is_refused() {
    let mut b = bitmap();
    b.truncate(60);
    assert!(Pixels::decode(&b).is_err());
}

#[test]
fn image_of_no_size_does_not_conform() {
    let mut png: Vec<u8> = vec![0x89, b'P', b'N', b'G', 0x0d, 0x0a, 0x1a, 0x0a];
    png.extend_from_slice(&[0, 0, 0, 13]);
    png.extend_from_slice(b"IHDR");
    png.extend_from_slice(&[0, 0, 0, 0, 0, 0, 0, 0, 8, 6, 0, 0, 0, 1, 2, 3, 4]);
    assert_eq!(Pixels::decode(&png).err().unwrap().kind, DecodeErrorKind::Decoding);
    let mut bmp: Vec<u8> = b"BM".to_vec();
    bmp.extend_from_slice(&[0u8; 20]);
    assert_eq!(Pixels::decode(&bmp).err().unwrap().kind, DecodeErrorKind::Decoding);
}

#[test]
fn image_that_ends_early_cannot_be_read() {
    let e = Pixels::decode(&[0xff, 0xd8, 0xff, 0xe0, 0, 16]).err().unwrap();
    assert_eq!(e.kind, DecodeErrorKind::Io);
}

#[test]
fn format_that_is_not_built_in_is_not_supported() {
    let e = Pixels::decode(b"GIF89a").err().unwrap();
    assert_eq!(e.kind, DecodeErrorKind::Unsupported);
}

#[test]
fn texels_handed_over_become_an_image() {
    let data: Vec<u8> = (0..24).collect();
    let img = Pixels::from_rgba8(3, 2, data.clone()).ok().unwrap();
    assert_eq!(img.dimensions(), (3, 2));
    assert_eq!(img.data(), &data[..]);
    let none = Pixels::from_rgba8(0, 0, Vec::new()).ok().unwrap();
    assert_eq!(none.dimensions(), (0, 0));
    assert!(none.data().is_empty());
}

#[test]
fn texels_of_another_length_are_no_image() {
    for data in [vec![0u8; 23], vec![0u8; 25], Vec::new()] {
        let e = Pixels::from_rgba8(3, 2, data).err().unwrap();
        assert_eq!(e.kind, DecodeErrorKind::Decoding);
        assert_eq!(e.message, "the decoded image does not hold four bytes for each texel");
    }
    assert!(Pixels::from_rgba8(u32::MAX, u32::MAX, vec![0u8; 4]).is_err());
}

#[test]
fn decoded_image_is_what_its_texels_make() {
    let decoded = Pixels::decode(&bitmap()).ok().unwrap();
    let (width, height) = decoded.dimensions();
    let again = Pixels::from_rgba8(width, height, decoded.data().to_vec()).ok().unwrap();
    assert_eq!(again.dimensions(), decoded.dimensions());
    assert_eq!(again.data(), decoded.data());
    assert_eq!(decoded.data().len(), 4 * (width as usize) * (height as usize));
}
