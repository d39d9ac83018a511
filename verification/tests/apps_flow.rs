use selfhost_dashboard::apps::{
    App, AppRegistry, EntryPoint, LaunchPlan, EntryPointOutcome, authorize_and_resolve,
    classify_entry_point, launch_result,
};
use selfhost_dashboard::names::AppName;
use selfhost_dashboard::response::Error;

fn app_name(s: &str) -> AppName {
    AppName::try_from(s.to_string()).unwrap()
}

fn registry() -> AppRegistry {
    let mut reg = AppRegistry::new();
    assert!(reg.add(App {
        name: app_name("wiki"),
        admin_only: false,
        entry_point: EntryPoint::Static { url: "https://wiki.example/".to_string() },
    }));
    assert!(reg.add(App {
        name: app_name("backup"),
        admin_only: true,
        entry_point: EntryPoint::Dynamic,
    }));
    assert!(reg.add(App {
        name: app_name("mail"),
        admin_only: false,
        entry_point: EntryPoint::Dynamic,
    }));
    reg
}

#[test]
fn duplicate_names_are_refused() {
    let mut reg = registry();
    assert!(!reg.add(App {
        name: app_name("wiki"),
        admin_only: true,
        entry_point: EntryPoint::Dynamic,
    }));
}

#[test]
fn lookup_finds_registered_apps() {
    let reg = registry();
    assert!(reg.get("wiki").is_some());
    assert!(reg.get("unknown").is_none());
}

#[test]
fn visibility_follows_the_admin_flag() {
    let reg = registry();
    let all = reg.visible(true);
    assert_eq!(all.len(), 3);
    let some = reg.visible(false);
    assert_eq!(some.len(), 2);
    assert!(some.iter().all(|a| !a.admin_only));
}

#[test]
fn unknown_app_is_not_found() {
    let reg = registry();
    let r = authorize_and_resolve(&reg, &app_name("nope"), true, "/apps");
    assert!(matches!(r, Err(Error::NotFound)));
}

#[test]
fn admin_only_app_forbidden_to_non_admin() {
    let reg = registry();
    let r = authorize_and_resolve(&reg, &app_name("backup"), false, "/apps");
    match r {
        Err(e @ Error::Forbidden(_)) => {
            let resp = e.response("/p");
            assert_eq!(resp.status, 403);
            assert_eq!(
                resp.body,
                "Forbidden: Non-admins are not authorized to open admin-only apps"
            );
        },
        _ => panic!("expected forbidden"),
    }
}

#[test]
fn admin_only_app_resolves_for_admin() {
    let reg = registry();
    let r = authorize_and_resolve(&reg, &app_name("backup"), true, "/srv/entry").unwrap();
    match r {
        LaunchPlan::RunEntryPoint(program) => assert_eq!(program, "/srv/entry/backup/open"),
        _ => panic!("expected a dynamic launch"),
    }
}

#[test]
fn static_app_resolves_to_its_url() {
    let reg = registry();
    let r = authorize_and_resolve(&reg, &app_name("wiki"), false, "/srv/entry").unwrap();
    match r {
        LaunchPlan::RedirectTo(url) => assert_eq!(url, "https://wiki.example/"),
        _ => panic!("expected a static redirect"),
    }
}

#[test]
fn exit_zero_allows_with_trimmed_stdout() {
    let r = classify_entry_point(Some(0), Some("https://x/\n".to_string()));
    match r {
        EntryPointOutcome::Allow(url) => assert_eq!(url, "https://x/"),
        _ => panic!("expected allow"),
    }
    let r = classify_entry_point(Some(0), Some("https://x/".to_string()));
    assert!(matches!(r, EntryPointOutcome::Allow(u) if u == "https://x/"));
}

#[test]
fn exit_one_denies_with_403() {
    let r = classify_entry_point(Some(1), None);
    assert!(matches!(r, EntryPointOutcome::Deny));
    let e = launch_result(EntryPointOutcome::Deny).unwrap_err();
    let resp = e.response("/p");
    assert_eq!(resp.status, 403);
}

#[test]
fn other_exit_codes_fault_with_500() {
    let r = classify_entry_point(Some(2), Some("ignored".to_string()));
    assert!(matches!(r, EntryPointOutcome::Fault));
    let e = launch_result(EntryPointOutcome::Fault).unwrap_err();
    assert_eq!(e.response("/p").status, 500);
}

#[test]
fn signal_death_faults_with_500() {
    let r = classify_entry_point(None, Some("ignored".to_string()));
    assert!(matches!(r, EntryPointOutcome::Fault));
    let e = launch_result(EntryPointOutcome::Fault).unwrap_err();
    assert_eq!(e.response("/p").status, 500);
}

#[test]
fn undecodable_stdout_on_success_faults() {
    let r = classify_entry_point(Some(0), None);
    assert!(matches!(r, EntryPointOutcome::Fault));
}

#[test]
fn allowed_url_passes_through() {
    let url = launch_result(EntryPointOutcome::Allow("https://y/".to_string())).unwrap();
    assert_eq!(url, "https://y/");
}

#[test]
fn stdout_is_trimmed_on_both_sides() {
    let r = classify_entry_point(Some(0), Some("  \t https://x/ \r\n".to_string()));
    assert!(matches!(r, EntryPointOutcome::Allow(u) if u == "https://x/"));
    let r = classify_entry_point(Some(0), Some(String::new()));
    assert!(matches!(r, EntryPointOutcome::Allow(u) if u.is_empty()));
}
