use selfhost_dashboard::path::SafeResourcePath;
use selfhost_dashboard::names::{AppName, Name};

#[test]
fn rejects_leading_traversal() {
    assert!(SafeResourcePath::try_from("../etc/passwd".to_string()).is_err());
}

#[test]
fn rejects_embedded_traversal() {
    assert!(SafeResourcePath::try_from("a/../b".to_string()).is_err());
}

#[test]
fn rejects_trailing_traversal() {
    assert!(SafeResourcePath::try_from("a/..".to_string()).is_err());
}

#[test]
fn rejects_bare_dotdot() {
    assert!(SafeResourcePath::try_from("..".to_string()).is_err());
}

#[test]
fn accepts_plain_path_unchanged() {
    let p = SafeResourcePath::try_from("css/style.css".to_string()).unwrap();
    assert_eq!(p.as_str(), "css/style.css");
}

#[test]
fn accepts_absolute_and_empty_paths() {
    assert!(SafeResourcePath::try_from("/etc/passwd".to_string()).is_ok());
    assert!(SafeResourcePath::try_from(String::new()).is_ok());
}

#[test]
fn accepts_dotdot_inside_a_file_name() {
    // The two dots do not form a whole path segment here.
    let p = SafeResourcePath::try_from("a..b/c".to_string()).unwrap();
    assert_eq!(p.as_str(), "a..b/c");
    assert!(SafeResourcePath::try_from("notes..txt".to_string()).is_ok());
}

#[test]
fn prefix_concatenates_and_stays_safe() {
    let p = SafeResourcePath::try_from("icons/app.png".to_string()).unwrap();
    let abs = p.prefix("/usr/share/portal/static");
    assert_eq!(abs.as_str(), "/usr/share/portal/static/icons/app.png");
    assert!(!abs.as_str().contains("/../"));
}

#[test]
fn traversal_error_message() {
    let e = SafeResourcePath::try_from("../x".to_string()).unwrap_err();
    assert_eq!(e.message(), "directory traversal is not allowed");
}

#[test]
fn app_name_accepts_restricted_alphabet() {
    let n = AppName::try_from("my-app".to_string()).unwrap();
    assert_eq!(n.as_str(), "my-app");
}

#[test]
fn app_name_reports_first_offending_char() {
    let e = AppName::try_from("aB-c".to_string()).unwrap_err();
    assert_eq!(e.pos, 1);
    assert_eq!(e.invalid_char, 'B');
    assert_eq!(e.name, "aB-c");

    let e = AppName::try_from("ab9z!".to_string()).unwrap_err();
    assert_eq!(e.pos, 2);
    assert_eq!(e.invalid_char, '9');
}

#[test]
fn app_name_rejects_slash_and_dot() {
    assert!(AppName::try_from("a/b".to_string()).is_err());
    assert!(AppName::try_from("a.b".to_string()).is_err());
    assert!(AppName::try_from("UPPER".to_string()).is_err());
}

#[test]
fn app_name_converts_to_safe_path() {
    let n = AppName::try_from("terminal".to_string()).unwrap();
    let p = n.into_safe_path();
    assert_eq!(p.as_str(), "terminal");
}

#[test]
fn user_name_same_alphabet() {
    assert!(Name::try_from("admin".to_string()).is_ok());
    assert!(Name::try_from("ad min".to_string()).is_err());
    assert!(Name::try_from("Admin".to_string()).is_err());
}

#[test]
fn traversal_checks_apply_to_multibyte_strings() {
    assert!(SafeResourcePath::try_from("é/../x".to_string()).is_err());
    assert!(SafeResourcePath::try_from("é.x/y".to_string()).is_ok());
}
