use opencode_desktop::sidecar::{
    initialization_script, kill_report, kill_sidecar, server_ready_script, sidecar_launches,
    user_shell, KillOutcome, Program, ServerState,
};
use opencode_desktop::platform::TargetOs;
use opencode_desktop::supervisor::{
    startup_result, Action, Event, Phase, Supervisor, EXTENDED_WAIT_MS, FIRST_WAIT_MS,
    POLL_INTERVAL_MS, STARTUP_ATTEMPTS,
};

fn s(x: &str) -> String {
    x.to_string()
}

fn pairs(v: &[(String, String)]) -> Vec<(&str, &str)> {
    v.iter().map(|(a, b)| (a.as_str(), b.as_str())).collect()
}

#[test]
fn launches_on_unix_run_the_login_shell() {
    let ls = sidecar_launches(TargetOs::Other, "/bin/zsh", "/opt/oc/opencode-cli", "/state", "/h", 10420);
    assert_eq!(ls.len(), 2);
    for l in &ls {
        assert!(matches!(&l.program, Program::Shell(p) if p == "/bin/zsh"));
        assert_eq!(l.args, vec![s("-il"), s("-c"), s("\"/opt/oc/opencode-cli\" serve --port=10420")]);
    }
    assert_eq!(
        pairs(&ls[0].env),
        vec![
            ("OPENCODE_EXPERIMENTAL_ICON_DISCOVERY", "true"),
            ("OPENCODE_CLIENT", "desktop"),
            ("XDG_STATE_HOME", "/state"),
            ("OPENCODE_CONFIG", "/h/cci-config/opencode/opencode.jsonc"),
            ("OPENCODE_CONFIG_DIR", "/h/cci-tech/open-persona-v3"),
        ]
    );
    assert_eq!(
        pairs(&ls[1].env),
        vec![
            ("OPENCODE_EXPERIMENTAL_ICON_DISCOVERY", "true"),
            ("OPENCODE_CLIENT", "desktop"),
            ("XDG_STATE_HOME", "/state"),
        ]
    );
}

#[test]
fn launches_on_windows_run_the_bundled_sidecar() {
    let ls = sidecar_launches(TargetOs::Windows, "", "", "C:\\state", "C:\\h", 4096);
    assert_eq!(ls[0].env[3].1, "C:\\h\\cci-config\\opencode\\opencode.jsonc");
    assert_eq!(ls[0].env[4].1, "C:\\h\\cci-tech\\open-persona-v3");
    for l in &ls {
        assert!(matches!(l.program, Program::BundledSidecar));
        assert_eq!(l.args, vec![s("serve"), s("--port=4096")]);
    }
}

#[test]
fn user_shell_defaults_to_sh() {
    assert_eq!(user_shell(None), "/bin/sh");
    assert_eq!(user_shell(Some(s("/bin/fish"))), "/bin/fish");
}

#[test]
fn initialization_script_text() {
    let expected = format!(
        r#"
                      window.__OPENCODE__ ??= {{}};
                      window.__OPENCODE__.updaterEnabled = {};
                      window.__OPENCODE__.port = {};
                    "#,
        true, 10420
    );
    assert_eq!(initialization_script(true, 10420), expected);
    assert!(initialization_script(false, 7).contains("updaterEnabled = false;"));
    assert!(initialization_script(false, 7).contains("port = 7;"));
    assert_eq!(server_ready_script(), "window.__OPENCODE__.serverReady = true;");
}

#[test]
fn kill_takes_the_child_out() {
    let mut st = ServerState::new(Some(5u32));
    assert_eq!(kill_sidecar(&mut st), (KillOutcome::Killed, Some(5)));
    assert_eq!(kill_sidecar(&mut st), (KillOutcome::Missing, None));
    st.set_child(Some(6));
    assert_eq!(kill_sidecar(&mut st), (KillOutcome::Killed, Some(6)));
    assert_eq!(kill_report(KillOutcome::NotRunning), "Server not running");
    assert_eq!(kill_report(KillOutcome::Missing), "Server state missing");
    assert_eq!(kill_report(KillOutcome::Killed), "Killed server");
}

fn feed(sup: &mut Supervisor, e: Event) -> Action {
    assert!(sup.accepts_event(&e));
    assert!(sup.is_reachable());
    sup.advance(&e)
}

#[test]
fn running_server_is_reused() {
    let (mut sup, a) = Supervisor::new(10420);
    assert_eq!(a, Action::Probe(10420));
    assert_eq!(feed(&mut sup, Event::Probed(true)), Action::Finish { keep_child: false, ok: true });
    assert!(!sup.accepts_event(&Event::Ack));
}

#[test]
fn sidecar_kept_when_it_answers_in_first_window() {
    let (mut sup, _) = Supervisor::new(10420);
    assert_eq!(feed(&mut sup, Event::Probed(false)), Action::SpawnSidecar);
    assert_eq!(feed(&mut sup, Event::Spawned(10421)), Action::ArmDeadline(FIRST_WAIT_MS));
    assert_eq!(FIRST_WAIT_MS, 3000);
    assert_eq!(feed(&mut sup, Event::Ack), Action::CheckDeadline);
    assert_eq!(feed(&mut sup, Event::Deadline { expired: false }), Action::Probe(10421));
    assert_eq!(feed(&mut sup, Event::Probed(false)), Action::Sleep(POLL_INTERVAL_MS));
    assert_eq!(feed(&mut sup, Event::Ack), Action::CheckDeadline);
    assert_eq!(feed(&mut sup, Event::Deadline { expired: false }), Action::Probe(10421));
    assert_eq!(feed(&mut sup, Event::Probed(true)), Action::Finish { keep_child: true, ok: true });
    assert_eq!(sup.phase, Phase::Finished { keep_child: true, ok: true });
}

#[test]
fn extended_window_after_quiet_logs() {
    let (mut sup, _) = Supervisor::new(1);
    feed(&mut sup, Event::Probed(false));
    feed(&mut sup, Event::Spawned(2));
    feed(&mut sup, Event::Ack);
    assert_eq!(feed(&mut sup, Event::Deadline { expired: true }), Action::ReadLogs);
    assert_eq!(feed(&mut sup, Event::Logs(s("[STDOUT] booting"))), Action::ArmDeadline(EXTENDED_WAIT_MS));
    assert_eq!(EXTENDED_WAIT_MS, 4000);
    assert_eq!(feed(&mut sup, Event::Ack), Action::CheckDeadline);
    assert_eq!(feed(&mut sup, Event::Deadline { expired: false }), Action::Probe(2));
    assert_eq!(feed(&mut sup, Event::Probed(true)), Action::Finish { keep_child: true, ok: true });
}

#[test]
fn port_failure_in_logs_kills_and_retries() {
    let (mut sup, _) = Supervisor::new(1);
    feed(&mut sup, Event::Probed(false));
    feed(&mut sup, Event::Spawned(2));
    feed(&mut sup, Event::Ack);
    feed(&mut sup, Event::Deadline { expired: true });
    assert_eq!(
        feed(&mut sup, Event::Logs(s("[STDERR] Failed to start server on port 2"))),
        Action::KillChild
    );
    assert_eq!(feed(&mut sup, Event::Ack), Action::Sleep(POLL_INTERVAL_MS));
    assert_eq!(sup.attempt, 1);
    assert_eq!(feed(&mut sup, Event::Ack), Action::SpawnSidecar);
}

#[test]
fn startup_gives_up_after_six_failed_attempts() {
    let (mut sup, _) = Supervisor::new(1);
    feed(&mut sup, Event::Probed(false));
    let mut spawns = 1;
    loop {
        feed(&mut sup, Event::Spawned(3));
        feed(&mut sup, Event::Ack);
        feed(&mut sup, Event::Deadline { expired: true });
        feed(&mut sup, Event::Logs(s("")));
        feed(&mut sup, Event::Ack);
        assert_eq!(feed(&mut sup, Event::Deadline { expired: true }), Action::KillChild);
        feed(&mut sup, Event::Ack);
        match feed(&mut sup, Event::Ack) {
            Action::SpawnSidecar => spawns += 1,
            Action::Finish { keep_child, ok } => {
                assert!(!keep_child);
                assert!(!ok);
                break;
            }
            other => panic!("unexpected {other:?}"),
        }
    }
    assert_eq!(spawns, STARTUP_ATTEMPTS);
    assert_eq!(startup_result(false), Err(s("no attempt made")));
    assert_eq!(startup_result(true), Ok(()));
}
