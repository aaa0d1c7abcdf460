//! The sidecar server: how it is launched, what the window is told about it,
//! and the slot that holds the running child process.

use crate::flows::owned;
use crate::paths::{config_file, config_file_path, preferences_dir, preferences_dir_path};
use crate::platform::TargetOs;
use crate::text::{decimal, push_decimal};
use vstd::prelude::*;

verus! {

/// The program a launch runs.
#[derive(Debug)]
pub enum Program {
    /// The user's login shell, at this path.
    Shell(String),
    /// The sidecar binary bundled with the application, `opencode-cli`.
    BundledSidecar,
}

/// How to start the sidecar: the program, the environment variables it gets
/// (name, value), and its arguments.
#[derive(Debug)]
pub struct Launch {
    pub program: Program,
    pub env: Vec<(String, String)>,
    pub args: Vec<String>,
}

/// The program of a launch, as text (`None` for the bundled sidecar).
pub open spec fn program_view(p: Program) -> Option<Seq<char>> {
    match p {
        Program::Shell(s) => Some(s@),
        Program::BundledSidecar => None,
    }
}

/// The environment of a launch, as texts.
pub open spec fn env_view(env: Seq<(String, String)>) -> Seq<(Seq<char>, Seq<char>)> {
    env.map_values(|v: (String, String)| (v.0@, v.1@))
}

/// The arguments of a launch, as texts.
pub open spec fn args_view(args: Seq<String>) -> Seq<Seq<char>> {
    args.map_values(|a: String| a@)
}

/// The shell that runs the sidecar: `SHELL` when set, else `/bin/sh`.
pub open spec fn shell_or_default(shell: Option<Seq<char>>) -> Seq<char> {
    match shell {
        Some(s) => s,
        None => "/bin/sh"@,
    }
}

/// The user's shell, given the value of `SHELL` (absent when unset or unreadable).
pub fn user_shell(shell: Option<String>) -> (s: String)
    ensures
        s@ == shell_or_default(
            match shell {
                Some(v) => Some(v@),
                None => None,
            },
        ),
{
    match shell {
        Some(v) => v,
        None => owned("/bin/sh"),
    }
}

/// The environment every launch gets: icon discovery on, the client named
/// `desktop`, and the state directory.
pub open spec fn base_env(state_dir: Seq<char>) -> Seq<(Seq<char>, Seq<char>)> {
    seq![
        ("OPENCODE_EXPERIMENTAL_ICON_DISCOVERY"@, "true"@),
        ("OPENCODE_CLIENT"@, "desktop"@),
        ("XDG_STATE_HOME"@, state_dir),
    ]
}

/// The environment that points the sidecar at the configuration below `home`.
pub open spec fn config_env(os: TargetOs, home: Seq<char>) -> Seq<(Seq<char>, Seq<char>)> {
    seq![("OPENCODE_CONFIG"@, config_file(os, home)), ("OPENCODE_CONFIG_DIR"@, preferences_dir(os, home))]
}

/// The shell command that starts the sidecar at `sidecar` on `port`.
pub open spec fn serve_command(sidecar: Seq<char>, port: u32) -> Seq<char> {
    "\""@ + sidecar + "\" serve --port="@ + decimal(port as nat)
}

/// The arguments of a launch on `os`.
pub open spec fn launch_args(os: TargetOs, sidecar: Seq<char>, port: u32) -> Seq<Seq<char>> {
    if os == TargetOs::Windows {
        seq!["serve"@, "--port="@ + decimal(port as nat)]
    } else {
        seq!["-il"@, "-c"@, serve_command(sidecar, port)]
    }
}

/// The program of a launch on `os`.
pub open spec fn launch_program(os: TargetOs, shell: Seq<char>) -> Option<Seq<char>> {
    if os == TargetOs::Windows {
        None
    } else {
        Some(shell)
    }
}

fn env_pair(name: &str, value: &str) -> (p: (String, String))
    ensures
        p.0@ == name@,
        p.1@ == value@,
{
    (owned(name), owned(value))
}

fn launch_for(os: TargetOs, shell: &str, sidecar: &str, state_dir: &str, home: &str, port: u32, with_config: bool) -> (l: Launch)
    ensures
        program_view(l.program) == launch_program(os, shell@),
        env_view(l.env@) == if with_config {
            base_env(state_dir@) + config_env(os, home@)
        } else {
            base_env(state_dir@)
        },
        args_view(l.args@) == launch_args(os, sidecar@, port),
{
    let mut env: Vec<(String, String)> = Vec::new();
    env.push(env_pair("OPENCODE_EXPERIMENTAL_ICON_DISCOVERY", "true"));
    env.push(env_pair("OPENCODE_CLIENT", "desktop"));
    env.push(env_pair("XDG_STATE_HOME", state_dir));
    if with_config {
        let cfg = config_file_path(os, home);
        let pref = preferences_dir_path(os, home);
        env.push(env_pair("OPENCODE_CONFIG", cfg.as_str()));
        env.push(env_pair("OPENCODE_CONFIG_DIR", pref.as_str()));
        assert(env_view(env@) =~= base_env(state_dir@) + config_env(os, home@));
    } else {
        assert(env_view(env@) =~= base_env(state_dir@));
    }
    let mut args: Vec<String> = Vec::new();
    let program;
    if os == TargetOs::Windows {
        program = Program::BundledSidecar;
        args.push(owned("serve"));
        let mut flag = owned("--port=");
        push_decimal(&mut flag, port);
        args.push(flag);
    } else {
        program = Program::Shell(owned(shell));
        args.push(owned("-il"));
        args.push(owned("-c"));
        let mut command = owned("\"");
        command.append(sidecar);
        command.append("\" serve --port=");
        push_decimal(&mut command, port);
        args.push(command);
    }
    assert(args_view(args@) =~= launch_args(os, sidecar@, port));
    Launch { program, env, args }
}

/// The launches that start the sidecar on `port`, in the order they are made:
/// first one whose environment also points the sidecar at the configuration
/// below `home`, then one without it. Both are started; the child of the second
/// is the one that is kept and whose output is logged, while the child of the
/// first is left running, unwatched and never killed.
pub fn sidecar_launches(os: TargetOs, shell: &str, sidecar: &str, state_dir: &str, home: &str, port: u32) -> (ls: Vec<Launch>)
    ensures
        ls@.len() == 2,
        forall|i: int|
            0 <= i < 2 ==> program_view(#[trigger] ls@[i].program) == launch_program(os, shell@)
                && args_view(ls@[i].args@) == launch_args(os, sidecar@, port),
        env_view(ls@[0].env@) == base_env(state_dir@) + config_env(os, home@),
        env_view(ls@[1].env@) == base_env(state_dir@),
{
    let mut ls: Vec<Launch> = Vec::new();
    ls.push(launch_for(os, shell, sidecar, state_dir, home, port, true));
    ls.push(launch_for(os, shell, sidecar, state_dir, home, port, false));
    ls
}

/// The script that tells the window whether updates are on and which port the
/// server uses.
pub open spec fn init_script(updater_enabled: bool, port: u32) -> Seq<char> {
    "\n                      window.__OPENCODE__ ??= {};\n                      window.__OPENCODE__.updaterEnabled = "@
        + (if updater_enabled { "true"@ } else { "false"@ })
        + ";\n                      window.__OPENCODE__.port = "@ + decimal(port as nat)
        + ";\n                    "@
}

/// The window's initialization script.
pub fn initialization_script(updater_enabled: bool, port: u32) -> (s: String)
    ensures
        s@ == init_script(updater_enabled, port),
{
    let mut s = owned(
        "\n                      window.__OPENCODE__ ??= {};\n                      window.__OPENCODE__.updaterEnabled = ",
    );
    if updater_enabled {
        s.append("true");
    } else {
        s.append("false");
    }
    s.append(";\n                      window.__OPENCODE__.port = ");
    push_decimal(&mut s, port);
    s.append(";\n                    ");
    s
}

/// The script that tells the window the server is ready.
pub fn server_ready_script() -> (s: &'static str)
    ensures
        s@ == "window.__OPENCODE__.serverReady = true;"@,
{
    "window.__OPENCODE__.serverReady = true;"
}

/// The slot that holds the sidecar child process the application runs, if any.
pub struct ServerState<C> {
    child: Option<C>,
}

impl<C> ServerState<C> {
    /// The child held.
    pub closed spec fn child(&self) -> Option<C> {
        self.child
    }

    /// A slot holding `child`.
    pub fn new(child: Option<C>) -> (s: Self)
        ensures
            s.child() == child,
    {
        ServerState { child }
    }

    /// Replaces the child held.
    pub fn set_child(&mut self, child: Option<C>)
        ensures
            final(self).child() == child,
    {
        self.child = child;
    }

    /// Takes the child out, leaving the slot empty.
    pub fn take_child(&mut self) -> (c: Option<C>)
        ensures
            c == old(self).child(),
            final(self).child() is None,
    {
        self.child.take()
    }
}

/// What the command that kills the sidecar found.
#[derive(Clone, Copy, PartialEq, Eq, Structural, Debug)]
pub enum KillOutcome {
    /// The server's state was never set up.
    NotRunning,
    /// There is no child to kill.
    Missing,
    /// The child was taken out and killed.
    Killed,
}

/// Takes the child out of `state` to be killed: `Killed` with the child when
/// there was one, `Missing` otherwise; the slot is empty afterwards. (With no
/// server state at all, the outcome is `NotRunning` and nothing is taken.)
pub fn kill_sidecar<C>(state: &mut ServerState<C>) -> (r: (KillOutcome, Option<C>))
    ensures
        r.1 == old(state).child(),
        final(state).child() is None,
        r.0 == (if old(state).child() is Some {
            KillOutcome::Killed
        } else {
            KillOutcome::Missing
        }),
{
    match state.take_child() {
        None => (KillOutcome::Missing, None),
        Some(c) => (KillOutcome::Killed, Some(c)),
    }
}

/// The line printed for a kill outcome.
pub open spec fn kill_message(o: KillOutcome) -> Seq<char> {
    match o {
        KillOutcome::NotRunning => "Server not running"@,
        KillOutcome::Missing => "Server state missing"@,
        KillOutcome::Killed => "Killed server"@,
    }
}

/// The line printed for `o`.
pub fn kill_report(o: KillOutcome) -> (m: &'static str)
    ensures
        m@ == kill_message(o),
{
    match o {
        KillOutcome::NotRunning => "Server not running",
        KillOutcome::Missing => "Server state missing",
        KillOutcome::Killed => "Killed server",
    }
}


/// Whether `whole` is `mid` with `before` in front of it and `after` behind it.
pub open spec fn encloses(whole: Seq<char>, before: Seq<char>, mid: Seq<char>, after: Seq<char>) -> bool {
    whole == before + mid + after
}

/// The script first makes sure `window.__OPENCODE__` exists, then sets the
/// updater flag and then the port: with the updater on it sets
/// `updaterEnabled = true;`, with it off `updaterEnabled = false;`, the two
/// scripts differ only in that word, and the script ends by setting the port
/// to its decimal rendering.
pub proof fn lemma_script_initialises_before_setting(updater_enabled: bool, port: u32)
    ensures
        "\n                      window.__OPENCODE__ ??= {};\n"@.is_prefix_of(
            init_script(updater_enabled, port),
        ),
        exists|a: Seq<char>, b: Seq<char>|
            init_script(true, port) == a + "true"@ + b && init_script(false, port) == a + "false"@
                + b,
        exists|a: Seq<char>, b: Seq<char>|
            #[trigger] encloses(
                init_script(true, port),
                a,
                "window.__OPENCODE__.updaterEnabled = true;"@,
                b,
            ),
        exists|a: Seq<char>, b: Seq<char>|
            #[trigger] encloses(
                init_script(false, port),
                a,
                "window.__OPENCODE__.updaterEnabled = false;"@,
                b,
            ),
        exists|a: Seq<char>|
            init_script(updater_enabled, port) == a + "window.__OPENCODE__.port = "@ + decimal(
                port as nat,
            ) + ";\n                    "@,
{
    reveal_strlit("\n                      window.__OPENCODE__ ??= {};\n");
    reveal_strlit(
        "\n                      window.__OPENCODE__ ??= {};\n                      window.__OPENCODE__.updaterEnabled = ",
    );
    let head = "\n                      window.__OPENCODE__ ??= {};\n                      window.__OPENCODE__.updaterEnabled = "@;
    let tail = ";\n                      window.__OPENCODE__.port = "@ + decimal(port as nat)
        + ";\n                    "@;
    let flag = if updater_enabled { "true"@ } else { "false"@ };
    assert(init_script(updater_enabled, port) =~= head + flag + tail);
    assert(init_script(updater_enabled, port).subrange(0, 51) =~= head.subrange(0, 51));
    assert(head.subrange(0, 51) =~= "\n                      window.__OPENCODE__ ??= {};\n"@);
    assert(init_script(true, port) =~= head + "true"@ + tail);
    assert(init_script(false, port) =~= head + "false"@ + tail);
    reveal_strlit(";\n                      window.__OPENCODE__.port = ");
    reveal_strlit("window.__OPENCODE__.updaterEnabled = ");
    reveal_strlit(";");
    let lead = head.subrange(0, head.len() - "window.__OPENCODE__.updaterEnabled = "@.len());
    assert(head =~= lead + "window.__OPENCODE__.updaterEnabled = "@);
    let rest = tail.subrange(1, tail.len() as int);
    assert(tail =~= ";"@ + rest);
    reveal_strlit("window.__OPENCODE__.updaterEnabled = true;");
    reveal_strlit("window.__OPENCODE__.updaterEnabled = false;");
    reveal_strlit("true");
    reveal_strlit("false");
    assert(init_script(true, port) =~= lead + "window.__OPENCODE__.updaterEnabled = true;"@ + rest);
    assert(init_script(false, port) =~= lead + "window.__OPENCODE__.updaterEnabled = false;"@
        + rest);
    assert(encloses(init_script(true, port), lead, "window.__OPENCODE__.updaterEnabled = true;"@, rest));
    assert(encloses(
        init_script(false, port),
        lead,
        "window.__OPENCODE__.updaterEnabled = false;"@,
        rest,
    ));
    reveal_strlit("window.__OPENCODE__.port = ");
    let pre = head + flag + ";\n                      "@;
    reveal_strlit(";\n                      ");
    assert(";\n                      window.__OPENCODE__.port = "@ =~= ";\n                      "@
        + "window.__OPENCODE__.port = "@);
    assert(init_script(updater_enabled, port) =~= pre + "window.__OPENCODE__.port = "@ + decimal(
        port as nat,
    ) + ";\n                    "@);
}

} // verus!
