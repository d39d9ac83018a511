use selfhost_dashboard::static_files::{
    ServeStep, fast_content_type, serve_after_exists, serve_after_sniff, serve_after_read,
    static_asset_path, index_page, login_page,
};
use selfhost_dashboard::response::Error;

#[test]
fn extension_table() {
    assert_eq!(fast_content_type("/srv/a/index.html"), Some("text/html"));
    assert_eq!(fast_content_type("style.css"), Some("text/css"));
    assert_eq!(fast_content_type("a/b/app.js"), Some("text/javascript"));
    assert_eq!(fast_content_type("logo.png"), Some("image/png"));
    assert_eq!(fast_content_type("icon.svg"), Some("image/svg+xml"));
}

#[test]
fn unknown_extensions_need_sniffing() {
    assert_eq!(fast_content_type("archive.tar"), None);
    assert_eq!(fast_content_type("README"), None);
    assert_eq!(fast_content_type("dir.d/file"), None);
    assert_eq!(fast_content_type(".hidden"), None);
}

#[test]
fn missing_file_is_404_not_500() {
    match serve_after_exists(false, "/srv/static/gone.css", None) {
        ServeStep::Done(r) => {
            assert_eq!(r.status, 404);
            assert_eq!(r.body, "Error: Page not found");
        },
        _ => panic!("expected the not-found response"),
    }
}

#[test]
fn supplied_content_type_wins() {
    match serve_after_exists(true, "/srv/static/data.bin", Some("text/html".to_string())) {
        ServeStep::Read(ct) => assert_eq!(ct, "text/html"),
        _ => panic!("expected a read step"),
    }
}

#[test]
fn known_extension_skips_sniffing() {
    match serve_after_exists(true, "/srv/static/site.css", None) {
        ServeStep::Read(ct) => assert_eq!(ct, "text/css"),
        _ => panic!("expected a read step"),
    }
}

#[test]
fn unknown_extension_sniffs() {
    assert!(matches!(serve_after_exists(true, "/srv/static/blob.dat", None), ServeStep::Sniff));
}

#[test]
fn failed_sniff_is_internal() {
    let r = serve_after_sniff(None).unwrap_err();
    assert_eq!(r.status, 500);
}

#[test]
fn sniffed_type_loses_newlines() {
    let ct = serve_after_sniff(Some("text/plain; charset=utf-8\n".to_string())).unwrap();
    assert_eq!(ct, "text/plain; charset=utf-8");
}

#[test]
fn unreadable_file_is_500() {
    let r = serve_after_read(None, "text/css");
    assert_eq!(r.status, 500);
}

#[test]
fn readable_file_is_200_with_type() {
    let r = serve_after_read(Some("body { }".to_string()), "text/css");
    assert_eq!(r.status, 200);
    assert_eq!(r.body, "body { }");
    assert_eq!(r.content_type.as_deref(), Some("text/css"));
}

#[test]
fn asset_path_is_root_slash_rest() {
    let p = static_asset_path("css/site.css".to_string(), "/srv/static").unwrap();
    assert_eq!(p.as_str(), "/srv/static/css/site.css");
}

#[test]
fn asset_path_rejects_traversal() {
    let e = static_asset_path("../secret".to_string(), "/srv/static").unwrap_err();
    match e {
        Error::InvalidData(m) => assert_eq!(m, "directory traversal is not allowed"),
        _ => panic!("expected invalid data"),
    }
}

#[test]
fn fixed_pages() {
    assert_eq!(index_page().as_str(), "index.html");
    assert_eq!(login_page().as_str(), "login.html");
    assert_eq!(index_page().prefix("/srv/static").as_str(), "/srv/static/index.html");
}
