use dmbc::assetid::ParseError::{InvalidCharacter, InvalidLength};
use dmbc::AssetID;

#[test]
fn test_nil() {
    let assetid = AssetID::nil();
    let expected = "00000000000000000000000000000000";

    assert_eq!(assetid.to_string(), expected);
    assert_eq!(assetid.as_bytes(), &[0u8; 16]);
}

#[test]
fn test_from_bytes() {
    let b = [
        0xa1, 0xa2, 0xa3, 0xa4, 0xb1, 0xb2, 0xc1, 0xc2, 0xd1, 0xd2, 0xd3, 0xd4, 0xd5, 0xd6, 0xd7,
        0xd8,
    ];

    let assetid = AssetID::from_bytes(&b).unwrap();

    assert_eq!(assetid.as_bytes(), &b);
}

#[test]
fn test_from_str() {
    // Invalid
    assert_eq!(AssetID::from_str(""), Err(InvalidLength(0)));
    assert_eq!(AssetID::from_str("!"), Err(InvalidLength(1)));
    assert_eq!(
        AssetID::from_str("67e5504410b1426%9247bb680e5fe0c8"),
        Err(InvalidCharacter('%', 15))
    );

    // Valid
    assert!(AssetID::from_str("00000000000000000000000000000000").is_ok());
    assert!(AssetID::from_str("67e5504410b1426f9247bb680e5fe0c8").is_ok());
}

#[test]
fn test_as_bytes() {
    let expected = [
        0xa1, 0xa2, 0xa3, 0xa4, 0xb1, 0xb2, 0xc1, 0xc2, 0xd1, 0xd2, 0xd3, 0xd4, 0xd5, 0xd6, 0xd7,
        0xd8,
    ];
    let assetid = AssetID::from_str("a1a2a3a4b1b2c1c2d1d2d3d4d5d6d7d8").unwrap();

    assert_eq!(assetid.as_bytes(), &expected);
}

#[test]
fn test_to_string() {
    let b = [
        0xa1, 0xa2, 0xa3, 0xa4, 0xb1, 0xb2, 0xc1, 0xc2, 0xd1, 0xd2, 0xd3, 0xd4, 0xd5, 0xd6, 0xd7,
        0xd8,
    ];

    let assetid = AssetID::from_bytes(&b).unwrap();
    let expected = "a1a2a3a4b1b2c1c2d1d2d3d4d5d6d7d8";

    assert_eq!(assetid.to_string(), expected);
}

#[test]
fn test_read() {
    let buffer = vec![0; 16];
    let assetid = AssetID::read(&buffer, 0, 16);
    assert_eq!(assetid, AssetID::nil());

    let buffer = vec![
        0xa1, 0xa2, 0xa3, 0xa4, 0xb1, 0xb2, 0xc1, 0xc2, 0xd1, 0xd2, 0xd3, 0xd4, 0xd5, 0xd6, 0xd7,
        0xd8,
    ];
    let assetid = AssetID::read(&buffer, 0, buffer.len());
    let expected = AssetID::from_bytes(&buffer).unwrap();
    assert_eq!(assetid, expected);

    let mut extended_buffer = vec![0xde, 0xad];
    extended_buffer.extend(&buffer);
    let assetid = AssetID::read(&extended_buffer, 2, extended_buffer.len());
    let expected = AssetID::from_bytes(&buffer).unwrap();
    assert_eq!(assetid, expected);
}

#[test]
fn test_write() {
    let expected = [
        0xa1, 0xa2, 0xa3, 0xa4, 0xb1, 0xb2, 0xc1, 0xc2, 0xd1, 0xd2, 0xd3, 0xd4, 0xd5, 0xd6, 0xd7,
        0xd8,
    ];
    let assetid = AssetID::from_bytes(&expected).unwrap();
    let mut buffer = vec![0; expected.len()];

    assetid.write(&mut buffer, 0, expected.len());
    assert_eq!(buffer, expected);

    let expected = [
        0x0, 0x0, 0xa1, 0xa2, 0xa3, 0xa4, 0xb1, 0xb2, 0xc1, 0xc2, 0xd1, 0xd2, 0xd3, 0xd4, 0xd5,
        0xd6, 0xd7, 0xd8, 0x0, 0x0,
    ];
    let assetid = AssetID::from_bytes(&expected[2..18]).unwrap();
    let mut buffer = vec![0; expected.len()];

    assetid.write(&mut buffer, 2, 18);
    assert_eq!(buffer, expected);
}

#[test]
fn round_trip_through_string() {
    let b = [
        0x00, 0x11, 0x22, 0x33, 0x44, 0x55, 0x66, 0x77, 0x88, 0x99, 0xaa, 0xbb, 0xcc, 0xdd, 0xee,
        0xff,
    ];
    let assetid = AssetID::from_bytes(&b).unwrap();
    let rendered = assetid.to_string();
    assert_eq!(AssetID::from_str(&rendered), Ok(assetid));
}
