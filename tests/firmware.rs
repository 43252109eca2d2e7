use bhi160::firmware::Firmware;

fn blob(body: &[u8]) -> Vec<u8> {
    let len = body.len() as u16;
    let mut b = vec![
        0x2A, 0x65, // signature
        0xAD, 0x2D, // ROM version
        0x78, 0x56, 0x34, 0x12, // CRC
        0, 0, 0, 0,
        (len & 0xFF) as u8, (len >> 8) as u8,
        0, 0,
    ];
    b.extend_from_slice(body);
    b
}

#[test]
fn valid_blob_exposes_header() {
    let fw = Firmware::new(blob(&[1, 2, 3, 4, 5, 6, 7, 8])).expect("valid");
    assert_eq!(fw.signature(), 0x652A);
    assert_eq!(fw.rom_version(), 0x2DAD);
    assert_eq!(fw.crc(), 0x12345678);
    assert_eq!(fw.data_len(), 8);
}

#[test]
fn empty_body_is_valid() {
    let fw = Firmware::new(blob(&[])).expect("valid");
    assert_eq!(fw.data_len(), 0);
    assert!(fw.body().is_empty());
}

#[test]
fn too_short_is_rejected() {
    assert!(Firmware::new(vec![0x2A, 0x65, 0, 0]).is_none());
    assert!(Firmware::new(vec![]).is_none());
    let mut b = blob(&[]);
    b.pop();
    assert!(Firmware::new(b).is_none());
}

#[test]
fn wrong_signature_is_rejected() {
    let mut b = blob(&[1, 2, 3, 4]);
    b[0] = 0x2B;
    assert!(Firmware::new(b).is_none());
}

#[test]
fn length_mismatch_is_rejected() {
    let mut b = blob(&[1, 2, 3, 4]);
    b.push(5);
    assert!(Firmware::new(b).is_none());
    let mut b = blob(&[1, 2, 3, 4]);
    b[12] = 3;
    assert!(Firmware::new(b).is_none());
}

#[test]
fn body_reverses_each_group() {
    let fw = Firmware::new(blob(&[1, 2, 3, 4, 5, 6, 7, 8])).unwrap();
    assert_eq!(fw.body(), vec![4, 3, 2, 1, 8, 7, 6, 5]);
}

#[test]
fn body_drops_partial_group() {
    let fw = Firmware::new(blob(&[0xA, 0xB, 0xC, 0xD, 0xE, 0xF])).unwrap();
    assert_eq!(fw.body(), vec![0xD, 0xC, 0xB, 0xA]);
}
