use wastebin_server::auth::AdminAuth;
use wastebin_server::handlers::html::admin::{panel_path, update, UpdateForm};

fn form(visibility: Option<&str>, password: Option<&str>, expires: Option<&str>) -> UpdateForm {
    UpdateForm {
        visibility: visibility.map(String::from),
        password: password.map(String::from),
        expires: expires.map(String::from),
    }
}

#[test]
fn admin_auth_failed() {
    let res = AdminAuth::from_credentials(None, "admin", "admin");
    let rejection = res.err().expect("no credentials must be refused");
    assert_eq!(rejection.status, 401);
    assert_eq!(rejection.www_authenticate, "Basic realm=\"Admin Panel\"");
    assert_eq!(rejection.body, "Unauthorized");

    let res = AdminAuth::from_credentials(Some(("wrong", "wrong")), "admin", "admin");
    assert_eq!(res.err().map(|r| r.status), Some(401));
}

#[test]
fn admin_auth_success() {
    assert!(AdminAuth::from_credentials(Some(("admin", "admin")), "admin", "admin").is_ok());
    assert!(AdminAuth::from_credentials(Some(("admin", "wrong")), "admin", "admin").is_err());
    assert!(AdminAuth::from_credentials(Some(("wrong", "admin")), "admin", "admin").is_err());
    assert_eq!(panel_path(), "/admin");
}

#[test]
fn admin_update_paste() {
    let u = update(form(Some("private"), None, None));
    assert_eq!(u.is_private, Some(true));
    assert_eq!(u.password, None);
    assert_eq!(u.expires, None);

    let u = update(form(None, Some("new_admin_pass"), None));
    assert_eq!(u.is_private, None);
    assert_eq!(u.password.as_deref(), Some("new_admin_pass"));

    let u = update(form(None, None, Some("600")));
    assert_eq!(u.expires, Some(Some(600)));
}

#[test]
fn update_form_edge_cases() {
    assert_eq!(update(form(Some("public"), None, None)).is_private, Some(false));
    assert_eq!(update(form(Some("Private"), None, None)).is_private, None);
    assert_eq!(update(form(None, Some(""), None)).password, None);
    assert_eq!(update(form(None, None, Some("0"))).expires, Some(None));
    assert_eq!(update(form(None, None, Some("00"))).expires, None);
    assert_eq!(update(form(None, None, Some("+60"))).expires, Some(Some(60)));
    assert_eq!(update(form(None, None, Some("4294967295"))).expires, Some(Some(4294967295)));
    assert_eq!(update(form(None, None, Some("4294967296"))).expires, None);
    assert_eq!(update(form(None, None, Some("-1"))).expires, None);
    assert_eq!(update(form(None, None, Some("1h"))).expires, None);
    assert_eq!(update(form(None, None, Some(""))).expires, None);
}
