use wastebin_server::errors::Error;
use wastebin_server::handlers::delete::{api, form};
use wastebin_server::handlers::delete::form::FormAction;
use wastebin_server::handlers::{check_visibility, cookie, SameSite};

#[test]
fn delete() {
    // A private paste is deleted through the API at its canonical address.
    assert_eq!(api::delete(true, "/s/abcdef", "abcdef"), Ok(()));
    // The same request for a public paste at /s/ is answered "not found".
    assert_eq!(api::delete(false, "/s/abcdef", "abcdef"), Err(Error::NotFound));
}

#[test]
fn delete_via_link() {
    match form::delete(true, "/s/delete/abcdef", "abcdef") {
        Ok(FormAction::DeleteAndRedirect(to)) => assert_eq!(to, "/"),
        other => panic!("unexpected {:?}", other),
    }
}

#[test]
fn api_delete_refuses_public_paste() {
    assert_eq!(api::delete(false, "/p/abcdef", "abcdef"), Err(Error::Delete));
    assert_eq!(api::delete(true, "/p/abcdef", "abcdef"), Err(Error::NotFound));
    assert_eq!(api::delete(true, "/abcdef", "abcdef"), Err(Error::NotFound));
}

#[test]
fn form_delete_redirects_and_refuses() {
    match form::delete(true, "/delete/abc", "abc") {
        Ok(FormAction::Redirect(to)) => assert_eq!(to, "/s/delete/abc"),
        other => panic!("unexpected {:?}", other),
    }
    assert!(matches!(form::delete(false, "/p/delete/abc", "abc"), Err(Error::Delete)));
    assert!(matches!(form::delete(false, "/s/delete/abc", "abc"), Err(Error::NotFound)));
}

#[test]
fn visibility_served_under_own_prefix() {
    assert_eq!(check_visibility(true, "/s/abc", "abc"), Ok(None));
    assert_eq!(check_visibility(false, "/p/abc", "abc"), Ok(None));
    assert_eq!(check_visibility(false, "/s/abc", "abc"), Err(Error::NotFound));
    assert_eq!(check_visibility(true, "/p/abc", "abc"), Err(Error::NotFound));
}

#[test]
fn visibility_redirects_keep_route() {
    let cases = [
        ("/burn/abc", "burn/"),
        ("/md/abc", "md/"),
        ("/qr/abc", "qr/"),
        ("/dl/abc", "dl/"),
        ("/raw/abc", "raw/"),
        ("/delete/abc", "delete/"),
        ("/abc", ""),
        ("/other/abc", ""),
    ];
    for (path, route) in cases {
        assert_eq!(check_visibility(true, path, "abc"), Ok(Some(format!("/s/{route}abc"))));
        assert_eq!(check_visibility(false, path, "abc"), Ok(Some(format!("/p/{route}abc"))));
    }
}

#[test]
fn visibility_redirect_is_final() {
    for private in [true, false] {
        for path in ["/burn/x", "/qr/x", "/x", "/md/x"] {
            let target = check_visibility(private, path, "x").unwrap().unwrap();
            assert_eq!(check_visibility(private, &target, "x"), Ok(None));
            // The path of the target cut at a `?` in the id is served too.
            let cut = check_visibility(private, path, "?q").unwrap().unwrap();
            let cut = &cut[..cut.find('?').unwrap()];
            assert_eq!(check_visibility(private, cut, "?q"), Ok(None));
        }
    }
}

#[test]
fn cookie_has_secure_defaults() {
    let c = cookie("uid", String::from("42"));
    assert_eq!(c.name, "uid");
    assert_eq!(c.value, "42");
    assert!(c.http_only);
    assert_eq!(c.same_site, SameSite::Strict);
    assert_eq!(c.path, "/");
}
