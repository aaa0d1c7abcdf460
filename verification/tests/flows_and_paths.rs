use opencode_desktop::flows::{
    BackupFlow, BackupStage, Next, ReadConfigFlow, ReadStage, Reply, Request, UpdateFlow,
    UpdateStage, WriteConfigFlow, WriteStage,
};
use opencode_desktop::paths::{
    backup_file_path, config_file_path, default_config_text, join, missing_config_write, resolve_home,
    sidecar_setup_dirs, user_sidecar_dir,
};
use opencode_desktop::platform::{asset_download_url, platform_asset_name, TargetOs};

fn s(x: &str) -> String {
    x.to_string()
}

fn create_dir(n: &Next) -> String {
    match n {
        Next::Perform(Request::CreateDirAll(p)) => p.clone(),
        other => panic!("expected a directory request, got {other:?}"),
    }
}

fn finish(n: Next) -> Result<String, String> {
    match n {
        Next::Finish(r) => r,
        other => panic!("expected the end, got {other:?}"),
    }
}

#[test]
fn paths_below_home() {
    assert_eq!(config_file_path(TargetOs::Other, "/home/u"), "/home/u/cci-config/opencode/opencode.jsonc");
    assert_eq!(config_file_path(TargetOs::Other, "/home/u/"), "/home/u/cci-config/opencode/opencode.jsonc");
    assert_eq!(config_file_path(TargetOs::Other, "/"), "/cci-config/opencode/opencode.jsonc");
    assert_eq!(config_file_path(TargetOs::Other, ""), "cci-config/opencode/opencode.jsonc");
    assert_eq!(user_sidecar_dir(TargetOs::Other, "/home/u"), "/home/u/cci-tech/open-persona-v3/sidecars");
    assert_eq!(
        backup_file_path(TargetOs::Other, "/home/u", "20240101T000000Z"),
        "/home/u/cci-tech/open-persona-v3/backups/20240101T000000Z/opencode.jsonc"
    );
    assert_eq!(
        sidecar_setup_dirs(TargetOs::Other, "/h"),
        vec![
            s("/h/cci-config/opencode"),
            s("/h/cci-tech/open-persona-v3/agents"),
            s("/h/cci-tech/open-persona-v3/backups"),
        ]
    );
    assert_eq!(join(TargetOs::Other, "a", "b"), "a/b");
    assert_eq!(resolve_home(None), ".");
    assert_eq!(resolve_home(Some(s("/root"))), "/root");
    assert_eq!(config_file_path(TargetOs::Other, &resolve_home(None)), "./cci-config/opencode/opencode.jsonc");
}

#[test]
fn paths_agree_with_pathbuf_join() {
    for home in ["/home/u", "/home/u/", "rel", "/"] {
        let expected = std::path::PathBuf::from(home).join("cci-config").join("opencode").join("opencode.jsonc");
        assert_eq!(config_file_path(TargetOs::Other, home), expected.to_str().unwrap());
    }
}

#[test]
fn default_config_text_is_the_minimal_config() {
    assert_eq!(
        default_config_text(),
        "{\n  \"$schema\": \"https://opencode.ai/config.json\",\n  \"model\": \"\",\n  \"small_model\": \"\",\n  \"provider\": {}\n}"
    );
}

#[test]
fn read_config_flow_cases() {
    let (mut flow, next) = ReadConfigFlow::start(TargetOs::Other, s("/h"));
    match &next {
        Next::Perform(Request::Exists(p)) => assert_eq!(p, "/h/cci-config/opencode/opencode.jsonc"),
        other => panic!("unexpected {other:?}"),
    }
    assert!(!flow.expects(&Reply::Done));
    assert_eq!(finish(flow.advance(Reply::Found(false))), Ok(s("{}")));
    assert_eq!(flow.stage, ReadStage::Finished);

    let (mut flow, _) = ReadConfigFlow::start(TargetOs::Other, s("/h"));
    match flow.advance(Reply::Found(true)) {
        Next::Perform(Request::ReadToString(p)) => assert_eq!(p, "/h/cci-config/opencode/opencode.jsonc"),
        other => panic!("unexpected {other:?}"),
    }
    assert_eq!(finish(flow.advance(Reply::Text(s("{\"a\":1}")))), Ok(s("{\"a\":1}")));

    let (mut flow, _) = ReadConfigFlow::start(TargetOs::Other, s("/h"));
    flow.advance(Reply::Found(true));
    assert_eq!(
        finish(flow.advance(Reply::Failed(s("permission denied")))),
        Err(s("Failed to read config: permission denied"))
    );
}

#[test]
fn write_config_flow_writes_content() {
    let (mut flow, next) = WriteConfigFlow::start(TargetOs::Other, s("/h"), s("{}"));
    assert_eq!(create_dir(&next), "/h/cci-config/opencode");
    assert!(flow.expects(&Reply::Done));
    assert!(!flow.expects(&Reply::Found(true)));
    match flow.advance(Reply::Done) {
        Next::Perform(Request::WriteFile { path, contents }) => {
            assert_eq!(path, "/h/cci-config/opencode/opencode.jsonc");
            assert_eq!(contents, "{}");
        }
        other => panic!("unexpected {other:?}"),
    }
    assert_eq!(flow.stage, WriteStage::Writing);
    assert_eq!(finish(flow.advance(Reply::Done)), Ok(s("ok")));
    assert_eq!(flow.stage, WriteStage::Finished);
}

#[test]
fn write_config_flow_reports_errors() {
    let (mut flow, _) = WriteConfigFlow::start(TargetOs::Other, s("/h"), s("x"));
    assert_eq!(
        finish(flow.advance(Reply::Failed(s("denied")))),
        Err(s("Failed to create config dir: denied"))
    );
    let (mut flow, _) = WriteConfigFlow::start(TargetOs::Other, s("/h"), s("x"));
    flow.advance(Reply::Done);
    assert_eq!(
        finish(flow.advance(Reply::Failed(s("disk full")))),
        Err(s("Failed to write config: disk full"))
    );
}

#[test]
fn backup_flow_copies_then_resets() {
    let (mut flow, next) = BackupFlow::start(TargetOs::Other, s("/h"));
    assert_eq!(create_dir(&next), "/h/cci-tech/open-persona-v3/backups");
    match flow.advance(Reply::Done) {
        Next::Perform(Request::Exists(p)) => assert_eq!(p, "/h/cci-config/opencode/opencode.jsonc"),
        other => panic!("unexpected {other:?}"),
    }
    assert!(matches!(flow.advance(Reply::Found(true)), Next::Perform(Request::CurrentTime)));
    assert!(flow.expects(&Reply::Time(1431648000)));
    let next = flow.advance(Reply::Time(1431648000));
    assert_eq!(create_dir(&next), "/h/cci-tech/open-persona-v3/backups/20150515T000000Z");
    assert_eq!(flow.stamp, "20150515T000000Z");
    match flow.advance(Reply::Done) {
        Next::Perform(Request::CopyFile { from, to }) => {
            assert_eq!(from, "/h/cci-config/opencode/opencode.jsonc");
            assert_eq!(to, "/h/cci-tech/open-persona-v3/backups/20150515T000000Z/opencode.jsonc");
        }
        other => panic!("unexpected {other:?}"),
    }
    match flow.advance(Reply::Done) {
        Next::Perform(Request::WriteFile { path, contents }) => {
            assert_eq!(path, "/h/cci-config/opencode/opencode.jsonc");
            assert_eq!(contents, default_config_text());
        }
        other => panic!("unexpected {other:?}"),
    }
    assert_eq!(
        finish(flow.advance(Reply::Done)),
        Ok(s("Backed up to \"/h/cci-tech/open-persona-v3/backups/20150515T000000Z/opencode.jsonc\""))
    );
    assert_eq!(flow.stage, BackupStage::Finished);
}

#[test]
fn backup_stamp_of_epoch() {
    let (mut flow, _) = BackupFlow::start(TargetOs::Other, s("/h"));
    flow.advance(Reply::Done);
    flow.advance(Reply::Found(true));
    let next = flow.advance(Reply::Time(0));
    assert_eq!(create_dir(&next), "/h/cci-tech/open-persona-v3/backups/19700101T000000Z");
}

#[test]
fn backup_flow_without_config() {
    let (mut flow, _) = BackupFlow::start(TargetOs::Other, s("/h"));
    flow.advance(Reply::Done);
    assert!(!flow.expects(&Reply::Done));
    assert_eq!(finish(flow.advance(Reply::Found(false))), Err(s("No config to backup")));
}

#[test]
fn backup_flow_reports_each_failure() {
    let prefixes = [
        "Failed to create backups dir: ",
        "Failed to create dst backup dir: ",
        "Failed to copy config to backup: ",
        "Failed to write default config: ",
    ];
    for (k, prefix) in prefixes.iter().enumerate() {
        let (mut flow, _) = BackupFlow::start(TargetOs::Other, s("/h"));
        if k >= 1 {
            flow.advance(Reply::Done);
            flow.advance(Reply::Found(true));
            flow.advance(Reply::Time(1700000000));
        }
        if k >= 2 {
            flow.advance(Reply::Done);
        }
        if k >= 3 {
            flow.advance(Reply::Done);
        }
        assert_eq!(finish(flow.advance(Reply::Failed(s("boom")))), Err(format!("{prefix}boom")));
    }
}

#[test]
fn platform_assets() {
    assert_eq!(platform_asset_name(TargetOs::Windows), "opencode-windows-x64.zip");
    assert_eq!(platform_asset_name(TargetOs::MacOs), "opencode-macos-universal.zip");
    assert_eq!(platform_asset_name(TargetOs::Other), "opencode-linux-x64.tar.gz");
    assert_eq!(
        asset_download_url("opencode-linux-x64.tar.gz"),
        "https://github.com/mwyant/opencode/releases/latest/download/opencode-linux-x64.tar.gz"
    );
}

fn run(n: Next) -> (String, Vec<String>) {
    match n {
        Next::Perform(Request::Run { program, args }) => (program, args),
        other => panic!("expected a program run, got {other:?}"),
    }
}

#[test]
fn update_flow_on_linux() {
    let (mut flow, next) = UpdateFlow::start(TargetOs::Other, s("/h"));
    assert_eq!(create_dir(&next), "/h/cci-tech/open-persona-v3/sidecars");
    let (program, args) = run(flow.advance(Reply::Done));
    assert_eq!(program, "curl");
    assert_eq!(
        args,
        vec![
            s("-L"),
            s("-o"),
            s("/h/cci-tech/open-persona-v3/sidecars/opencode-linux-x64.tar.gz"),
            s("https://github.com/mwyant/opencode/releases/latest/download/opencode-linux-x64.tar.gz"),
        ]
    );
    let (program, args) = run(flow.advance(Reply::Exited { success: true, status: s("exit status: 0") }));
    assert_eq!(program, "tar");
    assert_eq!(
        args,
        vec![
            s("-xzf"),
            s("/h/cci-tech/open-persona-v3/sidecars/opencode-linux-x64.tar.gz"),
            s("-C"),
            s("/h/cci-tech/open-persona-v3/sidecars"),
        ]
    );
    assert_eq!(flow.stage, UpdateStage::Extracting);
    assert_eq!(
        finish(flow.advance(Reply::Exited { success: true, status: s("exit status: 0") })),
        Ok(s("Downloaded and installed opencode-linux-x64.tar.gz"))
    );
}

#[test]
fn update_flow_on_windows() {
    let (mut flow, _) = UpdateFlow::start(TargetOs::Windows, s("C:\\Users\\u"));
    run(flow.advance(Reply::Done));
    let next = flow.advance(Reply::Exited { success: true, status: s("exit code: 0") });
    assert_eq!(create_dir(&next), "C:\\Users\\u\\cci-tech\\open-persona-v3\\sidecars\\extract");
    // A failure to create the extraction directory does not stop the update.
    let (program, args) = run(flow.advance(Reply::Failed(s("exists"))));
    assert_eq!(program, "powershell");
    assert_eq!(
        args,
        vec![
            s("-Command"),
            s("Expand-Archive -Path 'C:\\Users\\u\\cci-tech\\open-persona-v3\\sidecars\\opencode-windows-x64.zip' -DestinationPath 'C:\\Users\\u\\cci-tech\\open-persona-v3\\sidecars\\extract' -Force"),
        ]
    );
    match flow.advance(Reply::Exited { success: true, status: s("exit code: 0") }) {
        Next::Perform(Request::CopyFile { from, to }) => {
            assert_eq!(from, "C:\\Users\\u\\cci-tech\\open-persona-v3\\sidecars\\extract\\opencode.exe");
            assert_eq!(to, "C:\\Users\\u\\cci-tech\\open-persona-v3\\sidecars\\opencode.exe");
        }
        other => panic!("unexpected {other:?}"),
    }
    assert_eq!(
        finish(flow.advance(Reply::Done)),
        Ok(s("Downloaded and installed opencode-windows-x64.zip"))
    );
}

#[test]
fn update_flow_failures() {
    let (mut flow, _) = UpdateFlow::start(TargetOs::MacOs, s("/h"));
    assert_eq!(finish(flow.advance(Reply::Failed(s("ro")))), Err(s("Failed to create sidecar dir: ro")));

    let (mut flow, _) = UpdateFlow::start(TargetOs::MacOs, s("/h"));
    flow.advance(Reply::Done);
    assert_eq!(finish(flow.advance(Reply::Failed(s("not found")))), Err(s("Failed to run curl: not found")));

    let (mut flow, _) = UpdateFlow::start(TargetOs::MacOs, s("/h"));
    flow.advance(Reply::Done);
    assert_eq!(
        finish(flow.advance(Reply::Exited { success: false, status: s("exit status: 22") })),
        Err(s("Download failed with status: exit status: 22"))
    );

    let (mut flow, _) = UpdateFlow::start(TargetOs::MacOs, s("/h"));
    flow.advance(Reply::Done);
    flow.advance(Reply::Exited { success: true, status: s("0") });
    assert_eq!(finish(flow.advance(Reply::Failed(s("no tar")))), Err(s("Failed to run tar: no tar")));

    let (mut flow, _) = UpdateFlow::start(TargetOs::MacOs, s("/h"));
    flow.advance(Reply::Done);
    flow.advance(Reply::Exited { success: true, status: s("0") });
    assert_eq!(
        finish(flow.advance(Reply::Exited { success: false, status: s("2") })),
        Err(s("Failed to extract tar.gz"))
    );

    let (mut flow, _) = UpdateFlow::start(TargetOs::Windows, s("/h"));
    flow.advance(Reply::Done);
    flow.advance(Reply::Exited { success: true, status: s("0") });
    flow.advance(Reply::Done);
    assert_eq!(
        finish(flow.advance(Reply::Failed(s("no ps")))),
        Err(s("Failed to run powershell expand: no ps"))
    );

    let (mut flow, _) = UpdateFlow::start(TargetOs::Windows, s("/h"));
    flow.advance(Reply::Done);
    flow.advance(Reply::Exited { success: true, status: s("0") });
    flow.advance(Reply::Done);
    assert_eq!(
        finish(flow.advance(Reply::Exited { success: false, status: s("1") })),
        Err(s("Failed to extract archive"))
    );

    let (mut flow, _) = UpdateFlow::start(TargetOs::Windows, s("/h"));
    flow.advance(Reply::Done);
    flow.advance(Reply::Exited { success: true, status: s("0") });
    flow.advance(Reply::Done);
    flow.advance(Reply::Exited { success: true, status: s("0") });
    assert_eq!(finish(flow.advance(Reply::Failed(s("locked")))), Err(s("Failed to copy exe: locked")));
}

#[test]
fn missing_config_gets_default_text() {
    assert_eq!(missing_config_write(TargetOs::Other, "/h", true), None);
    assert_eq!(
        missing_config_write(TargetOs::Other, "/h", false),
        Some((s("/h/cci-config/opencode/opencode.jsonc"), default_config_text()))
    );
}

#[test]
fn windows_paths_use_backslashes() {
    assert_eq!(join(TargetOs::Windows, "C:\\Users\\u", "x"), "C:\\Users\\u\\x");
    assert_eq!(join(TargetOs::Windows, "C:\\", "x"), "C:\\x");
    assert_eq!(join(TargetOs::Windows, "C:/Users/u/", "x"), "C:/Users/u/x");
    assert_eq!(join(TargetOs::Windows, "C:", "x"), "C:x");
    assert_eq!(join(TargetOs::Windows, "", "x"), "x");
    assert_eq!(join(TargetOs::Other, "a\\", "x"), "a\\/x");
    assert_eq!(join(TargetOs::Other, "C:", "x"), "C:/x");
    assert_eq!(
        config_file_path(TargetOs::Windows, "C:\\Users\\u"),
        "C:\\Users\\u\\cci-config\\opencode\\opencode.jsonc"
    );
    assert_eq!(
        backup_file_path(TargetOs::MacOs, "/Users/u", "20240101T000000Z"),
        "/Users/u/cci-tech/open-persona-v3/backups/20240101T000000Z/opencode.jsonc"
    );
}

#[test]
fn backup_answer_quotes_path_like_pathbuf_debug() {
    let (mut flow, _) = BackupFlow::start(TargetOs::Other, s("/home/with \"quote\""));
    flow.advance(Reply::Done);
    flow.advance(Reply::Found(true));
    flow.advance(Reply::Time(1700000000));
    flow.advance(Reply::Done);
    flow.advance(Reply::Done);
    let dst = std::path::PathBuf::from(
        "/home/with \"quote\"/cci-tech/open-persona-v3/backups/20231114T221320Z/opencode.jsonc",
    );
    assert_eq!(finish(flow.advance(Reply::Done)), Ok(format!("Backed up to {:?}", dst)));
}

fn run_on(files: &mut std::collections::BTreeMap<String, String>, first: Next, mut step: impl FnMut(Reply) -> Next) -> Result<String, String> {
    let mut next = first;
    loop {
        let reply = match next {
            Next::Finish(r) => return r,
            Next::Perform(Request::CreateDirAll(_)) => Reply::Done,
            Next::Perform(Request::Exists(p)) => Reply::Found(files.contains_key(&p)),
            Next::Perform(Request::ReadToString(p)) => match files.get(&p) {
                Some(t) => Reply::Text(t.clone()),
                None => Reply::Failed(s("not found")),
            },
            Next::Perform(Request::WriteFile { path, contents }) => {
                files.insert(path, contents);
                Reply::Done
            }
            Next::Perform(Request::CopyFile { from, to }) => match files.get(&from).cloned() {
                Some(t) => {
                    files.insert(to, t);
                    Reply::Done
                }
                None => Reply::Failed(s("not found")),
            },
            Next::Perform(Request::CurrentTime) => Reply::Time(1431648000),
            Next::Perform(other) => panic!("unexpected {other:?}"),
        };
        next = step(reply);
    }
}

#[test]
fn read_answers_last_write_and_default_after_backup() {
    let mut files = std::collections::BTreeMap::new();
    let (mut r, first) = ReadConfigFlow::start(TargetOs::Other, s("/h"));
    assert_eq!(run_on(&mut files, first, |x| r.advance(x)), Ok(s("{}")));

    let (mut w, first) = WriteConfigFlow::start(TargetOs::Other, s("/h"), s("{\"model\":\"m\"}"));
    assert_eq!(run_on(&mut files, first, |x| w.advance(x)), Ok(s("ok")));
    let snapshot = files.clone();
    let (mut w, first) = WriteConfigFlow::start(TargetOs::Other, s("/h"), s("{\"model\":\"m\"}"));
    assert_eq!(run_on(&mut files, first, |x| w.advance(x)), Ok(s("ok")));
    assert_eq!(files, snapshot);

    let (mut r, first) = ReadConfigFlow::start(TargetOs::Other, s("/h"));
    assert_eq!(run_on(&mut files, first, |x| r.advance(x)), Ok(s("{\"model\":\"m\"}")));

    let (mut b, first) = BackupFlow::start(TargetOs::Other, s("/h"));
    assert!(run_on(&mut files, first, |x| b.advance(x)).is_ok());
    assert_eq!(
        files.get("/h/cci-tech/open-persona-v3/backups/20150515T000000Z/opencode.jsonc"),
        Some(&s("{\"model\":\"m\"}"))
    );
    let (mut r, first) = ReadConfigFlow::start(TargetOs::Other, s("/h"));
    assert_eq!(run_on(&mut files, first, |x| r.advance(x)), Ok(s(default_config_text())));
}
