use tidier::output::engine_status_ok;
use tidier::{FormatError, Rendered};

fn rendered(status: i32, s: &[u8]) -> Rendered {
    Rendered { status, bytes: s.to_vec() }
}

#[test]
fn bytes_are_the_encoding_of_text() {
    for input in [&b"<p>foo</p>\n"[..], &b""[..], "caf\u{e9} \u{2014}".as_bytes()] {
        let r = rendered(0, input);
        let text = r.to_text().unwrap();
        let bytes = r.to_bytes().unwrap();
        assert_eq!(text.as_bytes(), &bytes[..]);
        assert_eq!(bytes, input.to_vec());
    }
}

#[test]
fn decoding_keeps_characters() {
    let r = rendered(1, &[0x3c, 0xc3, 0xa9, 0x3e]);
    assert_eq!(r.to_text(), Ok(String::from("<\u{e9}>")));
}

#[test]
fn append_follows_existing_content() {
    let r = rendered(0, b"<p>foo</p>");
    let mut s = String::from("asdf");
    assert_eq!(r.append_text(&mut s), Ok(()));
    assert_eq!(s, format!("asdf{}", r.to_text().unwrap()));
    assert_eq!(s, "asdf<p>foo</p>");
    let mut v = b"foo".to_vec();
    assert_eq!(r.append_bytes(&mut v), Ok(()));
    let mut expected = b"foo".to_vec();
    expected.extend(r.to_bytes().unwrap());
    assert_eq!(v, expected);
}

#[test]
fn failed_render_fails_every_surface_alike() {
    for status in [2, -1, 3] {
        let r = rendered(status, b"partial");
        assert_eq!(r.to_text(), Err(FormatError::Engine(status)));
        assert_eq!(r.to_bytes(), Err(FormatError::Engine(status)));
        let mut s = String::from("asdf");
        assert_eq!(r.append_text(&mut s), Err(FormatError::Engine(status)));
        assert_eq!(s, "asdf");
        let mut v = b"foo".to_vec();
        assert_eq!(r.append_bytes(&mut v), Err(FormatError::Engine(status)));
        assert_eq!(v, b"foo".to_vec());
    }
}

#[test]
fn invalid_utf8_is_reported() {
    let r = rendered(0, &[0x61, 0xff]);
    assert_eq!(r.to_text(), Err(FormatError::InvalidUtf8));
    assert_eq!(r.to_bytes(), Err(FormatError::InvalidUtf8));
    let mut s = String::from("asdf");
    assert_eq!(r.append_text(&mut s), Err(FormatError::InvalidUtf8));
    assert_eq!(s, "asdf");
    let mut v = b"foo".to_vec();
    assert_eq!(r.append_bytes(&mut v), Err(FormatError::InvalidUtf8));
    assert_eq!(v, b"foo".to_vec());
}

#[test]
fn engine_status_classes() {
    assert!(engine_status_ok(0));
    assert!(engine_status_ok(1));
    assert!(!engine_status_ok(2));
    assert!(!engine_status_ok(-5));
}
