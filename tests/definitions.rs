use grid::definitions::{
    string_to_domain, ConnectionType, GridBlock, GridCode, GridRequestCode, GridResponseCode,
    GRID_DEFAULT_PORT, HEADER_SIZE,
};
use grid::definitions::parse_port;
use grid::error::GridError;

#[test]
fn server_remote_string_parse() {
    let test1 = string_to_domain("grid!testdomain");
    assert!(test1.is_ok());
    match test1 {
        Ok(a) => {
            assert_eq!(a.0, ConnectionType::Domain);
            assert_eq!(a.1, "testdomain");
            assert_eq!(a.2, GRID_DEFAULT_PORT);
        }
        Err(_) => unreachable!(),
    }

    let test2 = string_to_domain("grid!testdomain:1234");
    assert!(test2.is_ok());
    match test2 {
        Ok(a) => {
            assert_eq!(a.0, ConnectionType::Domain);
            assert_eq!(a.1, "testdomain");
            assert_eq!(a.2, 1234);
        }
        Err(_) => unreachable!(),
    }

    let test3 = string_to_domain("grid.1.2.3.4");
    assert!(test3.is_ok());
    match test3 {
        Ok(a) => {
            assert_eq!(a.0, ConnectionType::Address);
            assert_eq!(a.1, "1.2.3.4");
            assert_eq!(a.2, GRID_DEFAULT_PORT);
        }
        Err(_) => unreachable!(),
    }

    let test4 = string_to_domain("grid.1.2.3.4:1234");
    assert!(test4.is_ok());
    match test4 {
        Ok(a) => {
            assert_eq!(a.0, ConnectionType::Address);
            assert_eq!(a.1, "1.2.3.4");
            assert_eq!(a.2, 1234);
        }
        Err(_) => unreachable!(),
    }

    // check port bounds
    assert!(string_to_domain("grid!testdomain:1234567").is_err());
    assert!(string_to_domain("grid!testdomain:12345").is_ok());

    // check parsing of grid protocol
    assert!(string_to_domain("grub!testdomain").is_err());
    assert!(string_to_domain("grub.1.2.3.4").is_err());
    assert!(string_to_domain("gri!testdomain:1234").is_err());
    assert!(string_to_domain("gri.1.2.3.4:1234").is_err());
    assert!(string_to_domain("grid 1.2.3.4:1234").is_err());
    assert!(string_to_domain("grid@1.2.3.4:1234").is_err());
}

#[test]
fn remote_port_boundaries() {
    assert!(matches!(string_to_domain("grid!host:1234567"), Err(GridError::InvalidPort)));
    assert!(matches!(string_to_domain("grid!host:123456"), Err(GridError::InvalidPort)));
    assert!(matches!(string_to_domain("grid!host:65536"), Err(GridError::InvalidPort)));
    let ok = string_to_domain("grid!host:12345").unwrap();
    assert_eq!(ok.0, ConnectionType::Domain);
    assert_eq!(ok.1, "host");
    assert_eq!(ok.2, 12345);
    assert_eq!(string_to_domain("grid!host:65535").unwrap().2, 65535);
    assert_eq!(string_to_domain("grid!host:0").unwrap().2, 0);
}

#[test]
fn remote_rejections() {
    for remote in ["grub!x", "grub.1.2.3.4", "gri!x:1", "gri.1.2.3.4:1", "grid x:1", "grid@x:1", "", "grid"] {
        assert!(matches!(string_to_domain(remote), Err(GridError::UnknownScheme)), "{}", remote);
    }
}

#[test]
fn remote_with_two_ports_is_refused() {
    assert!(matches!(string_to_domain("grid!host:1:2"), Err(GridError::MultiplePorts)));
    assert!(matches!(string_to_domain("grid.::"), Err(GridError::MultiplePorts)));
}

#[test]
fn remote_port_must_be_a_number() {
    assert!(matches!(string_to_domain("grid!host:"), Err(GridError::InvalidPort)));
    assert!(matches!(string_to_domain("grid!host:80a"), Err(GridError::InvalidPort)));
    assert!(matches!(string_to_domain("grid!host:-1"), Err(GridError::InvalidPort)));
    assert_eq!(string_to_domain("grid!host:+80").unwrap().2, 80);
    assert_eq!(string_to_domain("grid!host:0080").unwrap().2, 80);
}

#[test]
fn remote_with_empty_or_unicode_host() {
    let empty = string_to_domain("grid!").unwrap();
    assert_eq!(empty.1, "");
    assert_eq!(empty.2, GRID_DEFAULT_PORT);
    let unicode = string_to_domain("grid!bücher.example:99").unwrap();
    assert_eq!(unicode.1, "bücher.example");
    assert_eq!(unicode.2, 99);
}

#[test]
fn port_text_is_read_like_u16_from_str() {
    for text in ["0", "7", "65535", "+1", "007", "", "+", "-1", "65536", "1 ", "x", "99999999999999999999"] {
        assert_eq!(parse_port(text), text.parse::<u16>().ok(), "{}", text);
    }
}

#[test]
fn opcode_bytes() {
    assert_eq!(GridCode::Request(GridRequestCode::GET).to_byte(), 0);
    assert_eq!(GridCode::Request(GridRequestCode::PUT).to_byte(), 1);
    assert_eq!(GridCode::Request(GridRequestCode::SET).to_byte(), 2);
    assert_eq!(GridCode::Request(GridRequestCode::CER).to_byte(), 3);
    assert_eq!(GridCode::Response(GridResponseCode::ROK).to_byte(), 128);
    assert_eq!(GridCode::Response(GridResponseCode::GER).to_byte(), 129);
    assert_eq!(GridCode::Response(GridResponseCode::NOF).to_byte(), 130);
    assert_eq!(GridCode::Response(GridResponseCode::BSY).to_byte(), 131);
    assert_eq!(GridCode::from(GridRequestCode::PUT), GridCode::Request(GridRequestCode::PUT));
    let c: GridCode = GridResponseCode::NOF.into();
    assert_eq!(c, GridCode::Response(GridResponseCode::NOF));
}

#[test]
fn opcode_classification_of_every_byte() {
    for b in 0..=255u8 {
        let r = GridCode::from_byte(b);
        match r {
            Ok(GridCode::Request(_)) => assert!(b <= 3),
            Ok(GridCode::Response(_)) => assert!((128..=131).contains(&b)),
            Err(GridError::InvalidOpcode { byte }) => {
                assert_eq!(byte, b);
                assert!((4..=127).contains(&b) || b >= 132);
            }
            Err(e) => panic!("unexpected error {:?}", e),
        }
        if let Ok(c) = r {
            assert_eq!(c.to_byte(), b);
        }
    }
}

#[test]
fn new_block_concatenates_path_and_body() {
    let mut body = vec![1u8, 2, 3];
    let block = GridBlock::new(GridRequestCode::PUT.into(), Some("ab"), &mut body).unwrap();
    assert!(body.is_empty());
    assert_eq!(block.opcode(), GridCode::Request(GridRequestCode::PUT));
    assert_eq!(block.path_size(), 2);
    assert_eq!(block.metadata_size(), 3);
    assert_eq!(block.reserved(), 0);
    assert_eq!(block.payload(), &vec![b'a', b'b', 1, 2, 3]);

    let mut none = Vec::new();
    let bare = GridBlock::new(GridRequestCode::GET.into(), None, &mut none).unwrap();
    assert_eq!(bare.path_size(), 0);
    assert_eq!(bare.metadata_size(), 0);
    assert!(bare.payload().is_empty());

    let mut empty = Vec::new();
    let multibyte = GridBlock::new(GridRequestCode::GET.into(), Some("é"), &mut empty).unwrap();
    assert_eq!(multibyte.path_size(), 2);
}

#[test]
fn serialize_writes_header_then_payload() {
    let mut body = vec![9u8, 8, 7];
    let mut block = GridBlock::new(GridRequestCode::SET.into(), Some("ab"), &mut body).unwrap();
    let bytes = block.serialize();
    let mut expected = vec![2u8];
    expected.extend_from_slice(&2u128.to_be_bytes());
    expected.extend_from_slice(&3u128.to_be_bytes());
    expected.extend_from_slice(&0u128.to_be_bytes());
    expected.extend_from_slice(&[b'a', b'b', 9, 8, 7]);
    assert_eq!(bytes, expected);
    assert_eq!(bytes.len(), HEADER_SIZE + 5);
    // the payload was moved into the bytes; the header stays
    assert!(block.payload().is_empty());
    assert_eq!(block.path_size(), 2);
    assert_eq!(block.metadata_size(), 3);
}

#[test]
fn serialize_then_parse_round_trip() {
    let cases: Vec<(GridCode, Option<&str>, Vec<u8>)> = vec![
        (GridRequestCode::GET.into(), None, vec![]),
        (GridRequestCode::PUT.into(), Some("/a/b"), vec![0, 255, 17]),
        (GridResponseCode::BSY.into(), Some(""), vec![1; 300]),
        (GridResponseCode::ROK.into(), Some("päth"), vec![]),
    ];
    for (code, path, body) in cases {
        let mut moved = body.clone();
        let mut block = GridBlock::new(code, path, &mut moved).unwrap();
        let back = GridBlock::from_bytes(block.serialize()).unwrap();
        let path_len = path.map(|p| p.len()).unwrap_or(0);
        assert_eq!(back.opcode(), code);
        assert_eq!(back.path_size(), path_len as u128);
        assert_eq!(back.metadata_size(), body.len() as u128);
        assert_eq!(back.reserved(), 0);
        assert_eq!(back.payload().len(), path_len + body.len());
        assert_eq!(&back.payload()[path_len..], &body[..]);
    }
}

fn header(opcode: u8, path_size: u128, metadata_size: u128, reserved: u128) -> Vec<u8> {
    let mut h = vec![opcode];
    h.extend_from_slice(&path_size.to_be_bytes());
    h.extend_from_slice(&metadata_size.to_be_bytes());
    h.extend_from_slice(&reserved.to_be_bytes());
    h
}

#[test]
fn frame_size_mismatch_is_an_error() {
    let mut bytes = header(128, 0, 10, 0);
    bytes.extend_from_slice(&[1, 2, 3, 4, 5]);
    match GridBlock::from_bytes(bytes) {
        Err(GridError::SizeMismatch { path_size, metadata_size, got }) => {
            assert_eq!(path_size, 0);
            assert_eq!(metadata_size, 10);
            assert_eq!(got, 54);
        }
        other => panic!("expected a size mismatch, got {:?}", other),
    }
    let mut long = header(0, 1, 1, 0);
    long.extend_from_slice(&[1, 2, 3]);
    assert!(matches!(GridBlock::from_bytes(long), Err(GridError::SizeMismatch { .. })));
    let huge = header(0, u128::MAX, u128::MAX, 0);
    assert!(matches!(GridBlock::from_bytes(huge), Err(GridError::SizeMismatch { .. })));
}

#[test]
fn short_header_is_an_error() {
    for n in 0..HEADER_SIZE {
        let bytes = header(0, 0, 0, 0)[..n].to_vec();
        match GridBlock::from_bytes(bytes) {
            Err(GridError::HeaderTooShort { got }) => assert_eq!(got, n),
            other => panic!("expected a short header, got {:?}", other),
        }
    }
    let mut declared = header(0, 5, 5, 0);
    declared.truncate(48);
    assert!(matches!(GridBlock::from_bytes(declared), Err(GridError::HeaderTooShort { got: 48 })));
}

#[test]
fn invalid_opcode_is_an_error() {
    assert!(matches!(GridBlock::from_bytes(header(4, 0, 0, 0)), Err(GridError::InvalidOpcode { byte: 4 })));
    assert!(matches!(GridBlock::from_bytes(header(255, 0, 0, 0)), Err(GridError::InvalidOpcode { byte: 255 })));
}

#[test]
fn parse_keeps_reserved_and_payload() {
    let mut bytes = header(130, 2, 1, 0x0102_0304_0506_0708_090a_0b0c_0d0e_0f10);
    bytes.extend_from_slice(&[b'x', b'y', 42]);
    let block = GridBlock::from_bytes(bytes).unwrap();
    assert_eq!(block.opcode(), GridCode::Response(GridResponseCode::NOF));
    assert_eq!(block.path_size(), 2);
    assert_eq!(block.metadata_size(), 1);
    assert_eq!(block.reserved(), 0x0102_0304_0506_0708_090a_0b0c_0d0e_0f10);
    assert_eq!(block.payload(), &vec![b'x', b'y', 42]);
}

#[test]
fn parse_then_serialize_gives_bytes_back() {
    let mut bytes = header(1, 3, 2, 7);
    bytes.extend_from_slice(&[b'/', b'p', b'q', 5, 6]);
    let mut block = GridBlock::from_bytes(bytes.clone()).unwrap();
    assert_eq!(block.serialize(), bytes);
}
