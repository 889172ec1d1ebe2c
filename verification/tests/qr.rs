use qrcodegen::{QrCode, QrCodeEcc};
use url::Url;
use wastebin_server::errors::Error;
use wastebin_server::handlers::html::qr::{
    can_delete, code_from, dark_modules, get, CodeError, Metadata, QrError, QrOutcome,
};

fn base() -> Url {
    Url::parse("https://paste.example.net/").unwrap()
}

#[test]
fn code_from_encodes_joined_address() {
    let code = match code_from(&base(), "abcdef") {
        Ok(c) => c,
        Err(_) => panic!("encoding failed"),
    };
    let expected = QrCode::encode_text("https://paste.example.net/abcdef", QrCodeEcc::High).unwrap();
    assert!(code == expected);
}

#[test]
fn code_from_reports_errors() {
    let join_error = base().join("http://[::1").unwrap_err();
    match code_from(&base(), "http://[::1") {
        Err(CodeError::Url(e)) => assert_eq!(e, join_error),
        _ => panic!("expected the join error"),
    }
    let long = "a".repeat(5000);
    let address = format!("https://paste.example.net/{long}");
    let encode_error = match QrCode::encode_text(&address, QrCodeEcc::High) {
        Err(e) => format!("{e:?}"),
        Ok(_) => panic!("expected the address not to fit"),
    };
    match code_from(&base(), &long) {
        Err(CodeError::TooLong(e)) => assert_eq!(format!("{e:?}"), encode_error),
        _ => panic!("expected the encoding error"),
    }
}

#[test]
fn dark_modules_lists_dark_modules_in_order() {
    let code = QrCode::encode_text("https://paste.example.net/abcdef", QrCodeEcc::High).unwrap();
    let size = code.size();
    let mut expected = Vec::new();
    for x in 0..size {
        for y in 0..size {
            if code.get_module(x, y) {
                expected.push((x, y));
            }
        }
    }
    let got = dark_modules(&code);
    assert!(!got.is_empty());
    assert_eq!(got, expected);
}

#[test]
fn can_delete_needs_same_known_user() {
    assert!(can_delete(Some(5), Some(5)));
    assert!(!can_delete(Some(5), Some(6)));
    assert!(!can_delete(None, Some(5)));
    assert!(!can_delete(Some(5), None));
    assert!(!can_delete(None, None));
}

fn metadata(is_private: bool, uid: Option<i64>) -> Metadata<u32> {
    Metadata { is_private, uid, title: Some(String::from("notes")), expiration: Some(600) }
}

#[test]
fn qr_page_decisions() {
    match get(&base(), "/qr/abc", "abc", "abc", false, metadata(false, None), None) {
        Ok(QrOutcome::Redirect(to)) => assert_eq!(to, "/p/qr/abc"),
        _ => panic!("expected redirect"),
    }
    match get(&base(), "/p/qr/abc", "abc", "abc", false, metadata(true, None), None) {
        Err(QrError::Access(e)) => assert_eq!(e, Error::NotFound),
        _ => panic!("expected not found"),
    }
    match get(&base(), "/s/qr/abc.md", "abc.md", "abc", true, metadata(true, Some(1)), Some(1)) {
        Ok(QrOutcome::Page(page)) => {
            assert!(page.can_delete);
            assert!(page.is_available);
            assert!(page.is_markdown);
            assert!(page.is_private);
            assert_eq!(page.key, "abc");
            assert_eq!(page.title.as_deref(), Some("notes"));
            assert_eq!(page.expiration, Some(600));
            let expected = QrCode::encode_text("https://paste.example.net/abc.md", QrCodeEcc::High).unwrap();
            assert!(page.code == expected);
        }
        _ => panic!("expected page"),
    }
    match get(&base(), "/s/qr/abc", "abc", "abc", false, metadata(true, Some(1)), Some(2)) {
        Ok(QrOutcome::Page(page)) => assert!(!page.can_delete),
        _ => panic!("expected page"),
    }
}
