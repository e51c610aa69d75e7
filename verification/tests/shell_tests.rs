use ssh_core::commands::session::{
    session_connected,
    session_disconnect,
    SSHSession,
    SSHSessionId,
};
use ssh_core::commands::shell::{
    shell_close,
    shell_open,
    shell_opened,
    shell_resize,
    shell_send,
    SHHShellIpcChannelData,
    SSHShell,
    SSHShellId,
    ShellSize,
};
use ssh_core::envs::{env_set, is_locale_env, prepare_envs};
use ssh_core::error::SSHError;
use ssh_core::ipc::IpcBody;
use ssh_core::ssh_manager::SSHManager;

type Manager = SSHManager<u32, &'static str, u32, u32>;

fn size() -> ShellSize {
    ShellSize { col: 80, row: 24, width: 640, height: 480 }
}

fn pair(name: &str, value: &str) -> (String, String) {
    (String::from(name), String::from(value))
}

fn sorted(mut envs: Vec<(String, String)>) -> Vec<(String, String)> {
    envs.sort();
    envs
}

fn manager_with_session(id: u128) -> Manager {
    let mut manager = Manager::init();
    session_connected(
        &mut manager,
        SSHSession::new(SSHSessionId(id), String::from("example.org"), 22, None, 0),
    );
    manager
}

#[test]
fn locale_names() {
    assert!(is_locale_env("LC_ALL"));
    assert!(is_locale_env("LC_"));
    assert!(is_locale_env("LANG_EXTRA"));
    assert!(!is_locale_env("LANG"));
    assert!(!is_locale_env("LANGUAGE"));
    assert!(!is_locale_env("PATH"));
    assert!(!is_locale_env("lc_all"));
}

#[test]
fn env_set_replaces_or_appends() {
    let mut envs = vec![pair("A", "1"), pair("B", "2")];
    env_set(&mut envs, String::from("A"), String::from("one"));
    assert_eq!(envs, vec![pair("A", "one"), pair("B", "2")]);
    env_set(&mut envs, String::from("C"), String::from("3"));
    assert_eq!(envs, vec![pair("A", "one"), pair("B", "2"), pair("C", "3")]);
}

#[test]
fn prepare_envs_defaults_lang() {
    let envs = prepare_envs(&vec![pair("PATH", "/bin"), pair("HOME", "/root")], &Vec::new());
    assert_eq!(envs, vec![pair("LANG", "C.UTF-8")]);
    let envs = prepare_envs(&Vec::new(), &Vec::new());
    assert_eq!(envs, vec![pair("LANG", "C.UTF-8")]);
}

#[test]
fn prepare_envs_takes_locale_from_the_process() {
    let process = vec![
        pair("PATH", "/bin"),
        pair("LC_ALL", "de_DE.UTF-8"),
        pair("LANG", "en_US.UTF-8"),
        pair("LANG_X", "x"),
        pair("LC_TIME", "fr_FR.UTF-8"),
    ];
    let envs = prepare_envs(&process, &Vec::new());
    assert_eq!(
        sorted(envs),
        vec![
            pair("LANG", "en_US.UTF-8"),
            pair("LANG_X", "x"),
            pair("LC_ALL", "de_DE.UTF-8"),
            pair("LC_TIME", "fr_FR.UTF-8"),
        ]
    );
}

#[test]
fn prepare_envs_lets_the_caller_win() {
    let process = vec![pair("LC_ALL", "de_DE.UTF-8"), pair("LANG", "en_US.UTF-8")];
    let custom = vec![pair("LANG", "ja_JP.UTF-8"), pair("EDITOR", "vi"), pair("LC_ALL", "C")];
    let envs = prepare_envs(&process, &custom);
    assert_eq!(
        sorted(envs),
        vec![pair("EDITOR", "vi"), pair("LANG", "ja_JP.UTF-8"), pair("LC_ALL", "C")]
    );
}

#[test]
fn prepare_envs_names_each_variable_once() {
    let process = vec![pair("LC_ALL", "a"), pair("LC_ALL", "b"), pair("LANG", "x"), pair("LANG", "y")];
    let custom = vec![pair("FOO", "1"), pair("FOO", "2")];
    let envs = prepare_envs(&process, &custom);
    assert_eq!(sorted(envs), vec![pair("FOO", "2"), pair("LANG", "y"), pair("LC_ALL", "b")]);
}

#[test]
fn shell_open_needs_the_session() {
    let manager = Manager::init();
    let r = shell_open(&manager, SSHSessionId(1), None, None, &Vec::new(), size());
    assert_eq!(r, Err(SSHError::NotFoundSession));
}

#[test]
fn shell_open_plans_term_envs_and_geometry() {
    let manager = manager_with_session(1);
    let process = vec![pair("LC_ALL", "C")];
    let plan = shell_open(&manager, SSHSessionId(1), None, None, &process, size()).unwrap();
    assert_eq!(plan.term, "xterm-256color");
    assert_eq!(plan.size, size());
    assert_eq!(sorted(plan.envs), vec![pair("LANG", "C.UTF-8"), pair("LC_ALL", "C")]);
    let plan = shell_open(
        &manager,
        SSHSessionId(1),
        Some(String::from("vt100")),
        Some(vec![pair("LANG", "C")]),
        &process,
        size(),
    )
    .unwrap();
    assert_eq!(plan.term, "vt100");
    assert_eq!(sorted(plan.envs), vec![pair("LANG", "C"), pair("LC_ALL", "C")]);
}

#[test]
fn opened_shell_is_registered_under_its_id() {
    let mut manager = manager_with_session(1);
    let shell = SSHShell::new(SSHSessionId(1), SSHShellId(7), 3, size(), "channel");
    assert_eq!(shell_opened(&mut manager, shell), SSHShellId(7));
    let held = manager.shells.get(7).unwrap();
    assert_eq!(held.ssh_session_id, SSHSessionId(1));
    assert_eq!(held.channel_id, 3);
    assert_eq!(held.shell_channel, "channel");
    assert_eq!(manager.sessions.len(), 1);
}

#[test]
fn resize_records_geometry_and_ignores_unknown_ids() {
    let mut manager = manager_with_session(1);
    shell_opened(&mut manager, SSHShell::new(SSHSessionId(1), SSHShellId(7), 3, size(), "c"));
    let wide = ShellSize { col: 200, row: 50, width: 1600, height: 900 };
    assert_eq!(shell_resize(&mut manager, SSHShellId(7), wide), Ok(true));
    assert_eq!(manager.shells.get(7).unwrap().size, wide);
    assert_eq!(manager.shells.get(7).unwrap().channel_id, 3);
    assert_eq!(shell_resize(&mut manager, SSHShellId(8), wide), Ok(false));
    assert_eq!(manager.shells.len(), 1);
}

#[test]
fn resize_of_a_shell_whose_session_is_gone_is_not_found() {
    let mut manager = manager_with_session(1);
    shell_opened(&mut manager, SSHShell::new(SSHSessionId(1), SSHShellId(7), 3, size(), "c"));
    session_disconnect(&mut manager, SSHSessionId(1));
    let wide = ShellSize { col: 200, row: 50, width: 1600, height: 900 };
    assert_eq!(shell_resize(&mut manager, SSHShellId(7), wide), Err(SSHError::NotFoundSession));
    assert_eq!(manager.shells.get(7).unwrap().size, size());
    assert_eq!(shell_resize(&mut manager, SSHShellId(8), wide), Ok(false));
}

#[test]
fn send_gives_the_shell_and_the_bytes() {
    let mut manager = manager_with_session(1);
    shell_opened(&mut manager, SSHShell::new(SSHSessionId(1), SSHShellId(7), 3, size(), "c"));
    let (shell, bytes) = shell_send(&manager, SSHShellId(7), "ls -l\n").ok().unwrap().unwrap();
    assert_eq!(shell.ssh_shell_id, SSHShellId(7));
    assert_eq!(bytes, b"ls -l\n".to_vec());
    let (_, bytes) = shell_send(&manager, SSHShellId(7), "\u{e9}").ok().unwrap().unwrap();
    assert_eq!(bytes, vec![0xc3, 0xa9]);
    assert!(matches!(shell_send(&manager, SSHShellId(8), "x"), Ok(None)));
}

#[test]
fn send_to_a_shell_whose_session_is_gone_is_not_found() {
    let mut manager = manager_with_session(1);
    shell_opened(&mut manager, SSHShell::new(SSHSessionId(1), SSHShellId(7), 3, size(), "c"));
    session_disconnect(&mut manager, SSHSessionId(1));
    assert!(matches!(
        shell_send(&manager, SSHShellId(7), "ls\n"),
        Err(SSHError::NotFoundSession)
    ));
    assert!(manager.shells.contains_key(7));
    assert!(matches!(shell_send(&manager, SSHShellId(8), "x"), Ok(None)));
    let closed = shell_close(&mut manager, SSHShellId(7));
    assert_eq!(closed.map(|s| s.shell_channel), Some("c"));
    assert!(matches!(shell_send(&manager, SSHShellId(7), "ls\n"), Ok(None)));
}

#[test]
fn close_removes_the_shell() {
    let mut manager = manager_with_session(1);
    shell_opened(&mut manager, SSHShell::new(SSHSessionId(1), SSHShellId(7), 3, size(), "c"));
    let closed = shell_close(&mut manager, SSHShellId(7));
    assert_eq!(closed.map(|s| s.shell_channel), Some("c"));
    assert_eq!(manager.shells.len(), 0);
    assert!(shell_close(&mut manager, SSHShellId(7)).is_none());
    assert_eq!(manager.sessions.len(), 1);
}

#[test]
fn shell_event_bodies() {
    assert_eq!(SHHShellIpcChannelData::Data(vec![1, 2, 3]).body(), IpcBody::Raw(vec![1, 2, 3]));
    assert_eq!(
        SHHShellIpcChannelData::Eof.body(),
        IpcBody::Json(String::from("{\"type\":\"Eof\"}"))
    );
    assert_eq!(
        SHHShellIpcChannelData::Close.body(),
        IpcBody::Json(String::from("{\"type\":\"Close\"}"))
    );
    assert_eq!(SHHShellIpcChannelData::Data(Vec::new()).kind(), "Data");
    assert_eq!(SHHShellIpcChannelData::Eof.kind(), "Eof");
    assert_eq!(SHHShellIpcChannelData::Close.kind(), "Close");
}
