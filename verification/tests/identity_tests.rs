use gluster_flexvol::error::ErrorKind;
use gluster_flexvol::identity::Identity;

#[test]
fn the_text_of_an_identity_is_hyphenated_lower_case() {
    let id = Identity { value: 0xa1a2a3a4b1b2c1c2d1d2d3d4d5d6d7d8 };
    assert_eq!(id.text(), "a1a2a3a4-b1b2-c1c2-d1d2-d3d4d5d6d7d8");
    assert_eq!(Identity { value: 0 }.text(), "00000000-0000-0000-0000-000000000000");
    assert_eq!(Identity { value: u128::MAX }.text(), "ffffffff-ffff-ffff-ffff-ffffffffffff");
    assert_eq!(Identity { value: 0x1f }.text(), "00000000-0000-0000-0000-00000000001f");
}

#[test]
fn a_text_is_read_back() {
    let id = Identity::parse("a1a2a3a4-b1b2-c1c2-d1d2-d3d4d5d6d7d8").unwrap();
    assert_eq!(id.value, 0xa1a2a3a4b1b2c1c2d1d2d3d4d5d6d7d8);
    let id = Identity::parse("A1A2A3A4B1B2C1C2D1D2D3D4D5D6D7D8").unwrap();
    assert_eq!(id.value, 0xa1a2a3a4b1b2c1c2d1d2d3d4d5d6d7d8);
    let id = Identity { value: 0x0123456789abcdef0123456789abcdef };
    assert_eq!(Identity::parse(&id.text()), Ok(id));
}

#[test]
fn a_text_that_is_no_identity_is_an_invalid_argument() {
    for text in ["", "test", "a1a2a3a4-b1b2-c1c2-d1d2-d3d4d5d6d7d", "g1a2a3a4-b1b2-c1c2-d1d2-d3d4d5d6d7d8"].iter() {
        let e = Identity::parse(text).unwrap_err();
        assert_eq!(e.kind, ErrorKind::InvalidArgument);
        assert!(!e.message.is_empty());
    }
}

#[test]
fn a_random_identity_is_marked() {
    for _ in 0..16 {
        let id = Identity::random();
        assert_eq!((id.value >> 76) & 0xf, 4);
        assert_eq!((id.value >> 62) & 0x3, 2);
        let text: Vec<char> = id.text().chars().collect();
        assert_eq!(text.len(), 36);
        assert_eq!(text[14], '4');
    }
    assert_ne!(Identity::random(), Identity::random());
}
