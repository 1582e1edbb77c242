use vivarium::session::{guest_environment, GuestSession};

fn defaults() -> GuestSession {
    GuestSession {
        user: "vivarium".to_owned(),
        home: "/home/vivarium".to_owned(),
        shell: "/run/current-system/sw/bin/bash".to_owned(),
        path: "/run/wrappers/bin:/run/current-system/sw/bin".to_owned(),
    }
}

fn host(pairs: &[(&str, &str)]) -> Vec<(Vec<u8>, Vec<u8>)> {
    pairs.iter().map(|(name, value)| (name.as_bytes().to_vec(), value.as_bytes().to_vec())).collect()
}

fn rendered(host: &[(Vec<u8>, Vec<u8>)], requested: &[(Vec<u8>, Option<Vec<u8>>)]) -> Vec<(String, String)> {
    guest_environment(&defaults(), &host.to_vec(), &requested.to_vec())
        .into_iter()
        .map(|(name, value)| (String::from_utf8_lossy(&name).into_owned(), String::from_utf8_lossy(&value).into_owned()))
        .collect()
}

#[test]
fn no_host_variable_crosses_unless_it_is_named() {
    let environment = rendered(
        &host(&[
            ("TERM", "xterm-256color"),
            ("LC_ALL", "C"),
            ("AWS_SECRET_ACCESS_KEY", "must-not-cross"),
            ("SSH_AUTH_SOCK", "/host/path/must-not-cross"),
            ("HOME", "/home/host-user"),
            ("PATH", "/host/bin"),
        ]),
        &[],
    );
    let names: Vec<&str> = environment.iter().map(|(name, _)| name.as_str()).collect();
    assert!(!names.contains(&"AWS_SECRET_ACCESS_KEY"));
    assert!(!names.contains(&"SSH_AUTH_SOCK"));
    assert!(names.contains(&"TERM"));
    assert!(names.contains(&"LC_ALL"));
    assert_eq!(
        environment
            .iter()
            .filter(|(name, _)| name == "HOME" || name == "PATH")
            .map(|(_, value)| value.as_str())
            .collect::<Vec<_>>(),
        vec!["/run/wrappers/bin:/run/current-system/sw/bin", "/home/vivarium"]
    );
}

#[test]
fn the_guest_supplies_what_no_host_variable_could() {
    let environment = rendered(&[], &[]);
    for (name, value) in [
        ("PATH", "/run/wrappers/bin:/run/current-system/sw/bin"),
        ("HOME", "/home/vivarium"),
        ("USER", "vivarium"),
        ("LOGNAME", "vivarium"),
        ("SHELL", "/run/current-system/sw/bin/bash"),
    ] {
        assert!(environment.contains(&(name.to_owned(), value.to_owned())), "the guest session is missing {name}");
    }
}

#[test]
fn named_variables_win_and_the_bare_form_copies_only_what_exists() {
    let requested = [
        (b"TERM".to_vec(), Some(b"dumb".to_vec())),
        (b"PRESENT".to_vec(), None),
        (b"ABSENT".to_vec(), None),
        (b"EMPTY".to_vec(), Some(Vec::new())),
    ];
    let environment = rendered(&host(&[("TERM", "xterm-256color"), ("PRESENT", "from-host")]), &requested);
    assert_eq!(environment.last(), Some(&("EMPTY".to_owned(), String::new())));
    let terms: Vec<&str> = environment.iter().filter(|(name, _)| name == "TERM").map(|(_, value)| value.as_str()).collect();
    assert_eq!(terms, vec!["xterm-256color", "dumb"]);
    assert!(environment.contains(&("PRESENT".to_owned(), "from-host".to_owned())));
    assert!(!environment.iter().any(|(name, _)| name == "ABSENT"));
}

#[test]
fn the_allowlist_is_a_fixed_list_and_one_prefix() {
    let listed = ["TERM", "COLORTERM", "NO_COLOR", "FORCE_COLOR", "LANG"];
    let pairs: Vec<(&str, &str)> = listed.iter().map(|name| (*name, "x")).chain([("EDITOR", "vi")]).collect();
    let environment = rendered(&host(&pairs), &[]);
    let names: Vec<&str> = environment.iter().map(|(name, _)| name.as_str()).collect();
    assert_eq!(&names[5..], &listed);
    let environment = rendered(&host(&[("LC_TIME", "C"), ("LCD", "not-a-locale"), ("LC_", "edge")]), &[]);
    let names: Vec<&str> = environment.iter().map(|(name, _)| name.as_str()).collect();
    assert!(names.contains(&"LC_TIME"));
    assert!(names.contains(&"LC_"));
    assert!(!names.contains(&"LCD"));
}
