use strikeface::session::{session_env, shell_argv, user_not_found, Account};

fn account() -> Account {
    Account {
        name: "tau".to_string(),
        home: "/home/tau".to_string(),
        shell: "/bin/zsh".to_string(),
        uid: 1000,
    }
}

#[test]
fn session_environment_entries() {
    let env = session_env(&account(), Some("/usr/bin"));
    assert_eq!(
        env,
        vec![
            "XDG_SEAT=seat0",
            "USER=tau",
            "LOGNAME=tau",
            "HOME=/home/tau",
            "SHELL=/bin/zsh",
            "XDG_RUNTIME_DIR=/run/user/1000",
            "PATH=/usr/bin",
        ]
    );
}

#[test]
fn default_search_path() {
    let mut a = account();
    a.uid = 0;
    let env = session_env(&a, None);
    assert_eq!(env[5], "XDG_RUNTIME_DIR=/run/user/0");
    assert_eq!(env[6], "PATH=/run/current-system/sw/bin:/bin:/usr/bin");
    a.uid = u32::MAX;
    assert_eq!(session_env(&a, None)[5], "XDG_RUNTIME_DIR=/run/user/4294967295");
}

#[test]
fn missing_user_message() {
    assert_eq!(user_not_found("ghost"), "user 'ghost' not found");
}

#[test]
fn shell_command_line() {
    assert_eq!(shell_argv("niri --session"), vec!["/bin/sh", "-c", "niri --session"]);
}
