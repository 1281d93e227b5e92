use pbr_demo::texture::{load_image, texture_of, Asset, Picture, Texture};

fn crc(bytes: &[u8]) -> u32 {
    let mut crc: u32 = 0xffff_ffff;
    for byte in bytes {
        crc ^= *byte as u32;
        for _ in 0..8 {
            crc = if crc & 1 == 1 { (crc >> 1) ^ 0xedb8_8320 } else { crc >> 1 };
        }
    }
    !crc
}

fn adler(bytes: &[u8]) -> u32 {
    let (mut a, mut b): (u32, u32) = (1, 0);
    for byte in bytes {
        a = (a + *byte as u32) % 65521;
        b = (b + a) % 65521;
    }
    b << 16 | a
}

fn chunk(file: &mut Vec<u8>, name: &[u8], data: &[u8]) {
    file.extend_from_slice(&(data.len() as u32).to_be_bytes());
    let mut body = name.to_vec();
    body.extend_from_slice(data);
    file.extend_from_slice(&body);
    file.extend_from_slice(&crc(&body).to_be_bytes());
}

/// A PNG file of 8-bit samples; `rows` holds the rows with their filter bytes.
fn png(width: u32, height: u32, color_type: u8, rows: &[u8]) -> Vec<u8> {
    let mut file = vec![137, 80, 78, 71, 13, 10, 26, 10];
    let mut header = Vec::new();
    header.extend_from_slice(&width.to_be_bytes());
    header.extend_from_slice(&height.to_be_bytes());
    header.extend_from_slice(&[8, color_type, 0, 0, 0]);
    chunk(&mut file, b"IHDR", &header);
    let mut data = vec![0x78, 0x01, 0x01];
    data.extend_from_slice(&(rows.len() as u16).to_le_bytes());
    data.extend_from_slice(&(!(rows.len() as u16)).to_le_bytes());
    data.extend_from_slice(rows);
    data.extend_from_slice(&adler(rows).to_be_bytes());
    chunk(&mut file, b"IDAT", &data);
    chunk(&mut file, b"IEND", &[]);
    file
}

#[test]
fn a_picture_in_rgba_is_loaded_as_it_is() {
    let file = png(2, 1, 6, &[0, 1, 2, 3, 4, 5, 6, 7, 8]);
    assert_eq!(
        load_image(&file).unwrap(),
        Texture { width: 2, height: 1, texels: vec![1, 2, 3, 4, 5, 6, 7, 8] }
    );
}

#[test]
fn a_picture_in_rgb_becomes_opaque() {
    let file = png(1, 2, 2, &[0, 10, 20, 30, 0, 40, 50, 60]);
    assert_eq!(
        load_image(&file).unwrap(),
        Texture { width: 1, height: 2, texels: vec![10, 20, 30, 255, 40, 50, 60, 255] }
    );
}

#[test]
fn a_gray_picture_has_equal_channels() {
    let file = png(1, 1, 0, &[0, 77]);
    assert_eq!(
        load_image(&file).unwrap(),
        Texture { width: 1, height: 1, texels: vec![77, 77, 77, 255] }
    );
}

#[test]
fn what_is_no_picture_is_refused() {
    assert!(load_image(&[]).is_err());
    assert!(load_image(b"not a picture").is_err());
    let mut file = png(2, 1, 6, &[0, 1, 2, 3, 4, 5, 6, 7, 8]);
    file.truncate(45);
    assert!(load_image(&file).is_err());
}

#[test]
fn a_small_picture_keeps_its_size() {
    let pixels = vec![7; 4 * 3 * 5];
    let texture = texture_of(Picture { width: 3, height: 5, pixels: pixels.clone() });
    assert_eq!(texture, Texture { width: 3, height: 5, texels: pixels });
}

#[test]
fn sides_are_counted_in_sixteen_bits() {
    let texture = texture_of(Picture { width: 65536 + 3, height: 65535, pixels: vec![] });
    assert_eq!(texture, Texture { width: 3, height: 65535, texels: vec![] });
}

#[test]
fn every_asset_has_its_file() {
    assert_eq!(Asset::Model.file_name(), "model.obj");
    assert_eq!(Asset::Normal.file_name(), "normal.png");
    assert_eq!(Asset::Albedo.file_name(), "albedo.png");
    assert_eq!(Asset::Metalness.file_name(), "metalness.png");
    assert_eq!(Asset::Roughness.file_name(), "roughness.png");
}
