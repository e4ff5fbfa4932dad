use pty_exec::shell::{from_parts, resolve_user, UserLookup};

#[test]
fn shell_from_env() {
    // resolution needs a usable user-database entry; where the environment
    // running the test has none, the failure must be a documented one
    match resolve_user(None, None, None) {
        Ok(u) => {
            assert!(!u.shell.is_empty());
        }
        Err(e) => {
            assert!(
                e.0 == "session password UID status error"
                    || e.0 == "session password response error"
                    || e.0 == "session password entry invalid utf-8"
            );
        }
    }
}

#[test]
fn environment_values_preferred() {
    let u = from_parts(
        UserLookup::Found("db".to_string(), "/db".to_string(), "/bin/db".to_string()),
        Some("someone".to_string()),
        Some("/home/someone".to_string()),
        Some("/bin/sh".to_string()),
    )
    .unwrap();
    assert_eq!(u.user, "someone");
    assert_eq!(u.home, "/home/someone");
    assert_eq!(u.shell, "/bin/sh");
}

#[test]
fn lookup_failures_have_their_messages() {
    let e = from_parts(UserLookup::LookupFailed, None, None, None).unwrap_err();
    assert_eq!(e.0, "session password UID status error");
    let e = from_parts(UserLookup::NoEntry, None, None, None).unwrap_err();
    assert_eq!(e.0, "session password response error");
    let e = from_parts(UserLookup::NotUnicode, None, None, None).unwrap_err();
    assert_eq!(e.0, "session password entry invalid utf-8");
}

#[test]
fn database_fallback_used_when_environment_missing() {
    let u = from_parts(
        UserLookup::Found("dbuser".to_string(), "/home/dbuser".to_string(), "/bin/bash".to_string()),
        None,
        Some("/other/home".to_string()),
        None,
    )
    .unwrap();
    assert_eq!(u.user, "dbuser");
    assert_eq!(u.home, "/other/home");
    assert_eq!(u.shell, "/bin/bash");
}
