//! What a login session is started with: its environment and its command line.
use vstd::prelude::*;

use crate::text::{decimal, push_decimal};

verus! {

/// The account a session runs as.
pub struct Account {
    pub name: String,
    pub home: String,
    pub shell: String,
    pub uid: u32,
}

/// The search path used when the caller has none.
pub open spec fn default_path() -> Seq<char> {
    "/run/current-system/sw/bin:/bin:/usr/bin"@
}

/// The session environment, one `NAME=value` entry each: seat, user, login
/// name, home, shell, runtime directory and search path.
pub open spec fn session_env_entries(
    name: Seq<char>,
    home: Seq<char>,
    shell: Seq<char>,
    uid: u32,
    path: Option<Seq<char>>,
) -> Seq<Seq<char>> {
    seq![
        "XDG_SEAT=seat0"@,
        "USER="@ + name,
        "LOGNAME="@ + name,
        "HOME="@ + home,
        "SHELL="@ + shell,
        "XDG_RUNTIME_DIR=/run/user/"@ + decimal(uid as nat),
        "PATH="@ + match path {
            Some(p) => p,
            None => default_path(),
        },
    ]
}

/// `prefix` followed by `value`.
fn entry(prefix: &str, value: &str) -> (e: String)
    ensures
        e@ == prefix@ + value@,
{
    let mut e = prefix.to_owned();
    e.append(value);
    e
}

/// The environment entries for a session of `account`; `path` is the caller's
/// search path, if it has one.
pub fn session_env(account: &Account, path: Option<&str>) -> (env: Vec<String>)
    ensures
        env.deep_view() == session_env_entries(
            account.name@,
            account.home@,
            account.shell@,
            account.uid,
            match path {
                Some(p) => Some(p@),
                None => None,
            },
        ),
{
    let mut env: Vec<String> = Vec::new();
    env.push("XDG_SEAT=seat0".to_owned());
    env.push(entry("USER=", account.name.as_str()));
    env.push(entry("LOGNAME=", account.name.as_str()));
    env.push(entry("HOME=", account.home.as_str()));
    env.push(entry("SHELL=", account.shell.as_str()));
    let mut runtime = "XDG_RUNTIME_DIR=/run/user/".to_owned();
    push_decimal(&mut runtime, account.uid);
    env.push(runtime);
    let search = match path {
        Some(p) => entry("PATH=", p),
        None => entry("PATH=", "/run/current-system/sw/bin:/bin:/usr/bin"),
    };
    env.push(search);
    assert(env.deep_view() =~= session_env_entries(
        account.name@,
        account.home@,
        account.shell@,
        account.uid,
        match path {
            Some(p) => Some(p@),
            None => None,
        },
    ));
    env
}

/// The message for a user name that names no account.
pub fn user_not_found(username: &str) -> (msg: String)
    ensures
        msg@ == "user '"@ + username@ + "' not found"@,
{
    let mut msg = entry("user '", username);
    msg.append("' not found");
    msg
}

/// The argument vector that runs `command` through the shell: `/bin/sh -c command`.
pub fn shell_argv(command: &str) -> (argv: Vec<String>)
    ensures
        argv.deep_view() == seq!["/bin/sh"@, "-c"@, command@],
{
    let mut argv: Vec<String> = Vec::new();
    argv.push("/bin/sh".to_owned());
    argv.push("-c".to_owned());
    argv.push(command.to_owned());
    assert(argv.deep_view() =~= seq!["/bin/sh"@, "-c"@, command@]);
    argv
}

} // verus!
